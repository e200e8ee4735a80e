//! The code generator: one parsed sentence to one line of assembly.

use vstd::prelude::*;

use crate::data::{operand_size, token_text, Data, DataSet, DataView, Keyword, Preposition, Verb};
use crate::error::{result_view, AsmError, ErrorView};
use crate::parser::{leftover, parse_code, Code, CodeView, PrepositionPhrases};
use crate::tokenizer::Tonkenizer;

verus! {

/// Whether the object and the other operand have compatible widths: an
/// immediate must be strictly narrower than the other operand; any other
/// object must be as wide, unless either width is unknown (0).
pub open spec fn size_ok(obj: DataView, other: DataView) -> bool {
    if obj is Immediate {
        operand_size(obj) < operand_size(other)
    } else {
        operand_size(obj) == operand_size(other) || operand_size(obj) == 0 || operand_size(other)
            == 0
    }
}

/// The error for operands whose widths do not agree.
pub open spec fn mismatch(obj: DataView, other: DataView) -> ErrorView {
    ErrorView::SizeMismatchError { object: token_text(obj), other: token_text(other) }
}

/// The mnemonic suffix that an `as` phrase selects.
pub open spec fn suffix_of(verb: Verb, a: Option<DataView>) -> Result<Seq<char>, ErrorView> {
    match a {
        None => Ok(""@),
        Some(DataView::Keyword(Keyword::DoublePrecisionFloat)) => Ok("sd"@),
        Some(DataView::Keyword(Keyword::SinglePrecisionFloat)) => Ok("ss"@),
        Some(_) => Err(ErrorView::OperandError { verb }),
    }
}

/// The jump mnemonic that an `if` phrase selects.
pub open spec fn condition_of(verb: Verb, c: Option<DataView>) -> Result<Seq<char>, ErrorView> {
    match c {
        None => Ok("jmp"@),
        Some(DataView::Keyword(Keyword::Equal)) => Ok("je"@),
        Some(DataView::Keyword(Keyword::NotEqual)) => Ok("jne"@),
        Some(DataView::Keyword(Keyword::Less)) => Ok("jl"@),
        Some(DataView::Keyword(Keyword::LessEqual)) => Ok("jle"@),
        Some(DataView::Keyword(Keyword::Greater)) => Ok("jg"@),
        Some(DataView::Keyword(Keyword::GreaterEqual)) => Ok("jge"@),
        Some(_) => Err(ErrorView::OperandError { verb }),
    }
}

/// `a, b`
pub open spec fn operand_pair(a: DataView, b: DataView) -> Seq<char> {
    token_text(a) + ", "@ + token_text(b)
}

/// The rule of the verbs with an object and one required phrase `prep`:
/// the phrase must be there; with `allow_as`, an `as` phrase may choose a
/// suffix; no other phrase may be left; the object must be there and its
/// width must agree with the phrase's. The phrase operand is printed first
/// when `phrase_first` holds.
pub open spec fn gen_binary(
    verb: Verb,
    object: Option<DataView>,
    m: Map<Preposition, DataView>,
    prep: Preposition,
    allow_as: bool,
    phrase_first: bool,
) -> Result<Seq<char>, ErrorView> {
    if !m.contains_key(prep) {
        Err(ErrorView::MissingModifierError { verb, preposition: prep })
    } else {
        let other = m[prep];
        let m1 = m.remove(prep);
        let a = if allow_as && m1.contains_key(Preposition::As) {
            Some(m1[Preposition::As])
        } else {
            None
        };
        let m2 = if allow_as {
            m1.remove(Preposition::As)
        } else {
            m1
        };
        if m2 != Map::<Preposition, DataView>::empty() {
            Err(ErrorView::UnexpectedModifierError { verb, prepositions: leftover(m2) })
        } else {
            match suffix_of(verb, a) {
                Err(e) => Err(e),
                Ok(sfx) => match object {
                    None => Err(ErrorView::OperandError { verb }),
                    Some(obj) => if !size_ok(obj, other) {
                        Err(mismatch(obj, other))
                    } else {
                        Ok(
                            verb.spec_mnemonic() + sfx + " "@ + if phrase_first {
                                operand_pair(other, obj)
                            } else {
                                operand_pair(obj, other)
                            },
                        )
                    },
                },
            }
        }
    }
}

/// `multiply`: a `by` phrase is required. With an object it prints
/// `imul object, by`; without one, `imul by`, where `by` is no register.
pub open spec fn gen_multiply(object: Option<DataView>, m: Map<Preposition, DataView>) -> Result<
    Seq<char>,
    ErrorView,
> {
    let verb = Verb::Multiply;
    if !m.contains_key(Preposition::By) {
        Err(ErrorView::MissingModifierError { verb, preposition: Preposition::By })
    } else {
        let by = m[Preposition::By];
        let m1 = m.remove(Preposition::By);
        if m1 != Map::<Preposition, DataView>::empty() {
            Err(ErrorView::UnexpectedModifierError { verb, prepositions: leftover(m1) })
        } else {
            match object {
                Some(obj) => Ok("imul "@ + operand_pair(obj, by)),
                None => if by is Register {
                    Err(ErrorView::OperandError { verb })
                } else {
                    Ok("imul "@ + token_text(by))
                },
            }
        }
    }
}

/// `divide`, `not` and `negate`: a register object and no phrases.
pub open spec fn gen_unary(verb: Verb, object: Option<DataView>, m: Map<Preposition, DataView>) -> Result<
    Seq<char>,
    ErrorView,
> {
    if m != Map::<Preposition, DataView>::empty() {
        Err(ErrorView::UnexpectedModifierError { verb, prepositions: leftover(m) })
    } else {
        match object {
            Some(DataView::Register(r)) => Ok(verb.spec_mnemonic() + " "@ + r.spec_name()),
            _ => Err(ErrorView::OperandError { verb }),
        }
    }
}

/// `call` and `jump`: no object and a `to` phrase naming a label; a jump
/// may have an `if` phrase with a comparison, which picks the mnemonic.
pub open spec fn gen_transfer(verb: Verb, object: Option<DataView>, m: Map<Preposition, DataView>) -> Result<
    Seq<char>,
    ErrorView,
> {
    if !m.contains_key(Preposition::To) {
        Err(ErrorView::MissingModifierError { verb, preposition: Preposition::To })
    } else {
        let to = m[Preposition::To];
        let m1 = m.remove(Preposition::To);
        let is_jump = verb == Verb::Jump;
        let c = if is_jump && m1.contains_key(Preposition::If) {
            Some(m1[Preposition::If])
        } else {
            None
        };
        let m2 = if is_jump {
            m1.remove(Preposition::If)
        } else {
            m1
        };
        if m2 != Map::<Preposition, DataView>::empty() {
            Err(ErrorView::UnexpectedModifierError { verb, prepositions: leftover(m2) })
        } else if object is Some || !(to is Label) {
            Err(ErrorView::OperandError { verb })
        } else if is_jump {
            match condition_of(verb, c) {
                Ok(j) => Ok(j + " "@ + token_text(to)),
                Err(e) => Err(e),
            }
        } else {
            Ok("call "@ + token_text(to))
        }
    }
}

/// The verbs without operands: no object, no phrases, the bare mnemonic.
pub open spec fn gen_intransitive(verb: Verb, object: Option<DataView>, m: Map<Preposition, DataView>) -> Result<
    Seq<char>,
    ErrorView,
> {
    if object is Some {
        Err(ErrorView::OperandError { verb })
    } else if m != Map::<Preposition, DataView>::empty() {
        Err(ErrorView::UnexpectedModifierError { verb, prepositions: leftover(m) })
    } else {
        Ok(verb.spec_mnemonic())
    }
}

/// The assembly text of a sentence, by the rule of its verb.
pub open spec fn gen_sentence(verb: Verb, object: Option<DataView>, m: Map<Preposition, DataView>) -> Result<
    Seq<char>,
    ErrorView,
> {
    match verb {
        Verb::Add => gen_binary(verb, object, m, Preposition::To, true, true),
        Verb::Substract => gen_binary(verb, object, m, Preposition::From, true, true),
        Verb::Move => gen_binary(verb, object, m, Preposition::To, true, true),
        Verb::And | Verb::Or | Verb::Xor => gen_binary(verb, object, m, Preposition::With, false, true),
        Verb::ShiftLeft | Verb::ShiftRight => gen_binary(verb, object, m, Preposition::By, false, false),
        Verb::Compare => gen_binary(verb, object, m, Preposition::To, false, false),
        Verb::Multiply => gen_multiply(object, m),
        Verb::Divide | Verb::Not | Verb::Negate => gen_unary(verb, object, m),
        Verb::Call | Verb::Jump => gen_transfer(verb, object, m),
        _ => gen_intransitive(verb, object, m),
    }
}

/// The output line for one parsed line: nothing for a blank line, `name:`
/// for a label definition.
pub open spec fn gen_code(c: CodeView) -> Result<Seq<char>, ErrorView> {
    match c {
        CodeView::NullStmt => Ok(seq![]),
        CodeView::LabelDef(l) => Ok(l + ":"@),
        CodeView::Sentence { verb, object, phrases } => gen_sentence(verb, object, phrases),
    }
}

/// The output line for the source line `s`, read from position `i`.
pub open spec fn translate(s: Seq<char>, line: usize, i: int) -> Result<Seq<char>, ErrorView> {
    match parse_code(s, line, i) {
        Ok(c) => gen_code(c),
        Err(e) => Err(e),
    }
}

pub open spec fn opt_view<'a>(o: Option<DataSet<'a>>) -> Option<DataView> {
    match o {
        Some(d) => Some(d.data@),
        None => None,
    }
}

/// Whether the widths of `obj` and `other` agree (see `size_ok`).
pub fn check_operand(obj: &DataSet, other: &DataSet) -> (r: bool)
    ensures
        r == size_ok(obj.data@, other.data@),
{
    let a = obj.size();
    let b = other.size();
    match obj.data {
        Data::Immediate(_) => a < b,
        _ => a == b || a == 0 || b == 0,
    }
}

fn as_processor(verb: Verb, a: Option<DataSet>) -> (r: Result<&'static str, AsmError>)
    ensures
        match suffix_of(verb, opt_view(a)) {
            Ok(t) => r matches Ok(x) && x@ == t,
            Err(e) => r matches Err(x) && x@ == e,
        },
{
    match a {
        None => Ok(""),
        Some(d) => match d.data {
            Data::Keyword(Keyword::DoublePrecisionFloat) => Ok("sd"),
            Data::Keyword(Keyword::SinglePrecisionFloat) => Ok("ss"),
            _ => Err(AsmError::OperandError { verb }),
        },
    }
}

fn jump_condition(verb: Verb, c: Option<DataSet>) -> (r: Result<&'static str, AsmError>)
    ensures
        match condition_of(verb, opt_view(c)) {
            Ok(t) => r matches Ok(x) && x@ == t,
            Err(e) => r matches Err(x) && x@ == e,
        },
{
    match c {
        None => Ok("jmp"),
        Some(d) => match d.data {
            Data::Keyword(Keyword::Equal) => Ok("je"),
            Data::Keyword(Keyword::NotEqual) => Ok("jne"),
            Data::Keyword(Keyword::Less) => Ok("jl"),
            Data::Keyword(Keyword::LessEqual) => Ok("jle"),
            Data::Keyword(Keyword::Greater) => Ok("jg"),
            Data::Keyword(Keyword::GreaterEqual) => Ok("jge"),
            _ => Err(AsmError::OperandError { verb }),
        },
    }
}

/// Appends `a, b` to `out`.
fn push_pair(out: &mut String, a: &DataSet, b: &DataSet)
    ensures
        final(out)@ == old(out)@ + operand_pair(a.data@, b.data@),
{
    let ta = a.data.to_text();
    let tb = b.data.to_text();
    out.append(ta.as_str());
    out.append(", ");
    out.append(tb.as_str());
    assert(out@ =~= old(out)@ + operand_pair(a.data@, b.data@));
}

fn gen_binary_instruction<'a>(
    verb: Verb,
    object: Option<DataSet<'a>>,
    pp: &mut PrepositionPhrases<'a>,
    prep: Preposition,
    allow_as: bool,
    phrase_first: bool,
) -> (r: Result<String, AsmError>)
    ensures
        result_view(r) == gen_binary(verb, opt_view(object), old(pp)@, prep, allow_as, phrase_first),
{
    let other = match pp.take(prep) {
        Some(d) => d,
        None => {
            return Err(AsmError::MissingModifierError { verb, preposition: prep });
        },
    };
    let a = if allow_as {
        pp.take(Preposition::As)
    } else {
        None
    };
    if !pp.is_empty() {
        return Err(AsmError::UnexpectedModifierError { verb, prepositions: pp.remaining() });
    }
    let sfx = as_processor(verb, a)?;
    let obj = match object {
        Some(o) => o,
        None => {
            return Err(AsmError::OperandError { verb });
        },
    };
    if !check_operand(&obj, &other) {
        return Err(
            AsmError::SizeMismatchError { object: obj.data.to_text(), other: other.data.to_text() },
        );
    }
    let mut out = String::from_str(verb.mnemonic());
    out.append(sfx);
    out.append(" ");
    if phrase_first {
        push_pair(&mut out, &other, &obj);
    } else {
        push_pair(&mut out, &obj, &other);
    }
    Ok(out)
}

fn gen_multiply_instruction<'a>(object: Option<DataSet<'a>>, pp: &mut PrepositionPhrases<'a>) -> (r:
    Result<String, AsmError>)
    ensures
        result_view(r) == gen_multiply(opt_view(object), old(pp)@),
{
    let verb = Verb::Multiply;
    let by = match pp.take(Preposition::By) {
        Some(d) => d,
        None => {
            return Err(AsmError::MissingModifierError { verb, preposition: Preposition::By });
        },
    };
    if !pp.is_empty() {
        return Err(AsmError::UnexpectedModifierError { verb, prepositions: pp.remaining() });
    }
    let mut out = String::from_str("imul ");
    match object {
        Some(obj) => {
            push_pair(&mut out, &obj, &by);
            Ok(out)
        },
        None => {
            if by.is_register() {
                return Err(AsmError::OperandError { verb });
            }
            let t = by.data.to_text();
            out.append(t.as_str());
            Ok(out)
        },
    }
}

fn gen_unary_instruction<'a>(verb: Verb, object: Option<DataSet<'a>>, pp: &PrepositionPhrases<'a>) -> (r:
    Result<String, AsmError>)
    ensures
        result_view(r) == gen_unary(verb, opt_view(object), pp@),
{
    if !pp.is_empty() {
        return Err(AsmError::UnexpectedModifierError { verb, prepositions: pp.remaining() });
    }
    match object {
        Some(d) => match d.data {
            Data::Register(reg) => {
                let mut out = String::from_str(verb.mnemonic());
                out.append(" ");
                out.append(reg.name());
                Ok(out)
            },
            _ => Err(AsmError::OperandError { verb }),
        },
        None => Err(AsmError::OperandError { verb }),
    }
}

fn gen_transfer_instruction<'a>(verb: Verb, object: Option<DataSet<'a>>, pp: &mut PrepositionPhrases<'a>) -> (r:
    Result<String, AsmError>)
    requires
        verb == Verb::Call || verb == Verb::Jump,
    ensures
        result_view(r) == gen_transfer(verb, opt_view(object), old(pp)@),
{
    let is_jump = match verb {
        Verb::Jump => true,
        _ => false,
    };
    let to = match pp.take(Preposition::To) {
        Some(d) => d,
        None => {
            return Err(AsmError::MissingModifierError { verb, preposition: Preposition::To });
        },
    };
    let c = if is_jump {
        pp.take(Preposition::If)
    } else {
        None
    };
    if !pp.is_empty() {
        return Err(AsmError::UnexpectedModifierError { verb, prepositions: pp.remaining() });
    }
    let label = match to.data {
        Data::Label(l) => l,
        _ => {
            return Err(AsmError::OperandError { verb });
        },
    };
    if object.is_some() {
        return Err(AsmError::OperandError { verb });
    }
    let mut out = if is_jump {
        String::from_str(jump_condition(verb, c)?)
    } else {
        String::from_str("call")
    };
    out.append(" ");
    out.append(label);
    proof {
        reveal_strlit("call");
        reveal_strlit(" ");
        reveal_strlit("call ");
    }
    assert(out@ =~= gen_transfer(verb, opt_view(object), old(pp)@)->Ok_0);
    Ok(out)
}

fn gen_intransitive_instruction<'a>(verb: Verb, object: Option<DataSet<'a>>, pp: &PrepositionPhrases<'a>) -> (r:
    Result<String, AsmError>)
    ensures
        result_view(r) == gen_intransitive(verb, opt_view(object), pp@),
{
    if object.is_some() {
        return Err(AsmError::OperandError { verb });
    }
    if !pp.is_empty() {
        return Err(AsmError::UnexpectedModifierError { verb, prepositions: pp.remaining() });
    }
    Ok(String::from_str(verb.mnemonic()))
}

/// The assembly text of a sentence (see `gen_sentence`).
pub fn codegen_sentence<'a>(
    verb: Verb,
    object: Option<DataSet<'a>>,
    pp: &mut PrepositionPhrases<'a>,
) -> (r: Result<String, AsmError>)
    ensures
        result_view(r) == gen_sentence(verb, opt_view(object), old(pp)@),
{
    match verb {
        Verb::Add => gen_binary_instruction(verb, object, pp, Preposition::To, true, true),
        Verb::Substract => gen_binary_instruction(verb, object, pp, Preposition::From, true, true),
        Verb::Move => gen_binary_instruction(verb, object, pp, Preposition::To, true, true),
        Verb::And | Verb::Or | Verb::Xor => gen_binary_instruction(
            verb,
            object,
            pp,
            Preposition::With,
            false,
            true,
        ),
        Verb::ShiftLeft | Verb::ShiftRight => gen_binary_instruction(
            verb,
            object,
            pp,
            Preposition::By,
            false,
            false,
        ),
        Verb::Compare => gen_binary_instruction(verb, object, pp, Preposition::To, false, false),
        Verb::Multiply => gen_multiply_instruction(object, pp),
        Verb::Divide | Verb::Not | Verb::Negate => gen_unary_instruction(verb, object, pp),
        Verb::Call | Verb::Jump => gen_transfer_instruction(verb, object, pp),
        _ => gen_intransitive_instruction(verb, object, pp),
    }
}

/// The output line for one parsed line (see `gen_code`).
pub fn codegen(code: Code) -> (r: Result<String, AsmError>)
    ensures
        result_view(r) == gen_code(code@),
{
    match code {
        Code::NullStmt => Ok(String::new()),
        Code::LabelDef(l) => {
            let mut out = String::from_str(l);
            out.append(":");
            Ok(out)
        },
        Code::Sentence { verb, object, preposition_phrases, .. } => {
            let mut pp = preposition_phrases;
            codegen_sentence(verb, object, &mut pp)
        },
    }
}

/// Translates the line that `t` reads and appends the result to `code`;
/// on an error `code` is left as it was.
pub fn compile<'a>(t: &mut Tonkenizer<'a>, code: &mut String) -> (r: Result<(), AsmError>)
    ensures
        match translate(old(t).source@, old(t).loc.line, old(t).loc.column as int) {
            Ok(text) => r is Ok && final(code)@ == old(code)@ + text,
            Err(e) => r matches Err(x) && x@ == e && final(code)@ == old(code)@,
        },
{
    let sentence = Code::parse(t)?;
    let text = codegen(sentence)?;
    code.append(text.as_str());
    Ok(())
}

} // verus!
