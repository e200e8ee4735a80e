use asmblr::data::{Data, DataSet, Keyword, Preposition, Register, Verb};
use asmblr::memory::Memory;
use asmblr::text::parse_i64;
use asmblr::tokenizer::{Loc, Tonkenizer};

fn lex_all(line: &str) -> Vec<String> {
    let mut t = Tonkenizer::new(line, Loc::new("f", 0, 0));
    let mut out = Vec::new();
    while let Some(d) = t.next().unwrap() {
        out.push(d.data.to_text());
    }
    out
}

#[test]
fn register_sizes() {
    assert_eq!(Register::size("al"), Some(8));
    assert_eq!(Register::size("r15w"), Some(16));
    assert_eq!(Register::size("esp"), Some(32));
    assert_eq!(Register::size("r8"), Some(64));
    assert_eq!(Register::size("xmm7"), Some(128));
    assert_eq!(Register::size("xmm8"), None);
    assert_eq!(Register::size("eax"), Register::size("eax"));
    assert!(Register::is_reg("dil"));
    assert!(!Register::is_reg("Eax"));
}

fn imm_size(n: i64) -> u32 {
    DataSet {
        data: Data::Immediate(n),
        loc: Loc::new("f", 0, 0),
    }
    .size()
}

#[test]
fn immediate_sizes() {
    assert_eq!(imm_size(0), 8);
    assert_eq!(imm_size(127), 8);
    assert_eq!(imm_size(-128), 8);
    assert_eq!(imm_size(128), 16);
    assert_eq!(imm_size(200), 16);
    assert_eq!(imm_size(-129), 16);
    assert_eq!(imm_size(32767), 16);
    assert_eq!(imm_size(32768), 32);
    assert_eq!(imm_size(100000), 32);
    assert_eq!(imm_size(2147483647), 32);
    assert_eq!(imm_size(2147483648), 64);
    assert_eq!(imm_size(i64::MIN), 64);
}

#[test]
fn token_round_trip() {
    assert_eq!(lex_all("  eax  "), vec!["eax"]);
    assert_eq!(lex_all("-42"), vec!["-42"]);
    assert_eq!(lex_all("0"), vec!["0"]);
    assert_eq!(lex_all("loop_start"), vec!["loop_start"]);
    assert_eq!(lex_all("+7 007"), vec!["7", "7"]);
}

#[test]
fn classification_order() {
    let d = |s| Data::parse(s);
    assert!(matches!(d("add"), Data::Verb(Verb::Add)));
    assert!(matches!(d("load-effective-address"), Data::Verb(Verb::LoadEffectiveAddress)));
    assert!(matches!(d("rax"), Data::Register(Register::Rax)));
    assert!(matches!(d("-17"), Data::Immediate(-17)));
    assert!(matches!(d(">="), Data::Keyword(Keyword::GreaterEqual)));
    assert!(matches!(d("zero-extended"), Data::Keyword(Keyword::ZeroExtended)));
    assert!(matches!(d("if"), Data::Preposition(Preposition::If)));
    assert!(matches!(d(":"), Data::LabelDef));
    assert!(matches!(d("#"), Data::LabelSpecial));
    assert!(matches!(d("@[rax]"), Data::RawMemory("@[rax]")));
    assert!(matches!(d("main"), Data::Label("main")));
}

#[test]
fn tokens_split_at_colon_and_hash() {
    assert_eq!(lex_all("start:"), vec!["start", ":"]);
    assert_eq!(lex_all("#text"), vec!["#", "text"]);
    assert_eq!(lex_all("move @[rax + 8] to rbx"), vec!["move", "@[rax + 8]", "to", "rbx"]);
}

#[test]
fn peek_does_not_advance() {
    let t = Tonkenizer::new("  add 1", Loc::new("f", 3, 0));
    let a = t.peek().unwrap().unwrap();
    let b = t.peek().unwrap().unwrap();
    assert_eq!(a.loc.column, 2);
    assert_eq!(b.loc.column, 2);
    assert_eq!(t.location().column, 0);
    let mut t = t;
    let c = t.next().unwrap().unwrap();
    assert!(matches!(c.data, Data::Verb(Verb::Add)));
    assert_eq!(t.location().column, 5);
    let e = t.next().unwrap().unwrap();
    assert!(matches!(e.data, Data::Immediate(1)));
    assert!(t.peek().unwrap().is_none());
    assert!(t.next().unwrap().is_none());
}

#[test]
fn decimal_parsing() {
    assert_eq!(parse_i64("+5"), Some(5));
    assert_eq!(parse_i64("-9223372036854775808"), Some(i64::MIN));
    assert_eq!(parse_i64("9223372036854775807"), Some(i64::MAX));
    assert_eq!(parse_i64("9223372036854775808"), None);
    assert_eq!(parse_i64("-"), None);
    assert_eq!(parse_i64(""), None);
    assert_eq!(parse_i64("12a"), None);
    assert_eq!(parse_i64("99999999999999999999999"), None);
}

#[test]
fn memory_parse_and_text() {
    let m = Memory::new().parse("@[rax+rbx*4+16]").unwrap();
    assert_eq!(m.base, Some(Register::Rax));
    assert_eq!(m.index, Some(Register::Rbx));
    assert_eq!(m.scale, Some(4));
    assert_eq!(m.displacement, Some(16));
    assert_eq!(m.to_text(), "[rax+rbx*4+16]");
    let m = Memory::new().parse("@[ rsp - 8 ]").unwrap();
    assert_eq!(m.to_text(), "[rsp-8]");
    let m = Memory::new().parse("@[-8]").unwrap();
    assert_eq!(m.displacement, Some(-8));
    assert_eq!(m.to_text(), "[-8]");
    assert!(Memory::new().parse("@[rax*2]").is_none());
    assert!(Memory::new().parse("@[rax+rbx*3]").is_none());
    assert!(Memory::new().parse("@[]").is_none());
    assert!(Memory::new().parse("[rax]").is_none());
}

#[test]
fn expect_object_kinds() {
    let loc = Loc::new("f", 0, 0);
    let obj = |s| DataSet::new(s, loc).expect_object();
    assert!(obj("5").is_some());
    assert!(obj("eax").is_some());
    assert!(obj("name").is_some());
    assert!(obj("signed").is_some());
    assert!(obj("to").is_none());
    assert!(obj("add").is_none());
    assert!(obj(":").is_none());
    let m = obj("@[rbp-8]").unwrap();
    assert!(m.is_memory());
    assert!(matches!(m.data, Data::Memory(_)));
    assert!(DataSet::new("eax", loc).expect_register().is_some());
    assert!(DataSet::new("5", loc).expect_register().is_none());
    assert!(DataSet::new("main", loc).expect_label().is_some());
    assert!(DataSet::new("eax", loc).is_register());
}

#[test]
fn data_accessors() {
    assert_eq!(Data::parse("ecx").reg().ok(), Some(Register::Ecx));
    assert!(Data::parse("5").reg().is_err());
    assert_eq!(Data::parse("-3").imm().ok(), Some(-3));
    assert!(Data::parse("eax").imm().is_err());
    assert_eq!(Data::parse("@[rax]").mem(), Some("@[rax]"));
    assert_eq!(Data::parse("rax").mem(), None);
}

#[test]
fn read_memory_is_an_object() {
    let loc = Loc::new("f", 0, 4);
    let m = Memory::new().parse("@[rbp-8]").unwrap();
    let d = DataSet {
        data: Data::Memory(m),
        loc,
    };
    let o = d.expect_object().unwrap();
    assert!(matches!(o.data, Data::Memory(_)));
    assert_eq!(o.loc.column, 4);
    assert_eq!(o.data.to_text(), "[rbp-8]");
}

#[test]
fn every_register_name_lexes_back() {
    let names = [
        "al", "r15b", "ax", "r8w", "eax", "r12d", "rax", "r15", "xmm0", "xmm7", "spl", "bp",
    ];
    for n in names {
        assert_eq!(lex_all(n), vec![n]);
        assert!(matches!(Data::parse(n), Data::Register(_)));
    }
}
