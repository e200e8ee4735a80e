use asmblr::codegen::{codegen, compile};
use asmblr::data::{Preposition, Verb};
use asmblr::error::{AsmError, SyntaxReason};
use asmblr::parser::Code;
use asmblr::tokenizer::{Loc, Tonkenizer};

fn translate(line: &str) -> Result<String, AsmError> {
    let mut t = Tonkenizer::new(line, Loc::new("test.s", 1, 0));
    let code = Code::parse(&mut t)?;
    codegen(code)
}

fn ok(line: &str) -> String {
    match translate(line) {
        Ok(s) => s,
        Err(e) => panic!("{:?}", e),
    }
}

#[test]
fn add_immediate_to_register() {
    assert_eq!(ok("add 1 to eax"), "add eax, 1");
}

#[test]
fn substract_from_register() {
    assert_eq!(ok("substract 1 from ax"), "sub ax, 1");
    assert_eq!(ok("subtract 1 from ax"), "sub ax, 1");
}

#[test]
fn multiply_registers() {
    assert_eq!(ok("multiply eax by ebx"), "imul eax, ebx");
}

#[test]
fn multiply_without_object() {
    assert_eq!(ok("multiply by 5"), "imul 5");
    assert!(matches!(
        translate("multiply by ebx"),
        Err(AsmError::OperandError { verb: Verb::Multiply })
    ));
}

#[test]
fn divide_register() {
    assert_eq!(ok("divide eax"), "idiv eax");
}

#[test]
fn divide_immediate_is_error() {
    assert!(matches!(
        translate("divide 5"),
        Err(AsmError::OperandError { verb: Verb::Divide })
    ));
}

#[test]
fn jump_conditional() {
    assert_eq!(ok("jump to loop_start if ="), "je loop_start");
    assert_eq!(ok("jump to loop_start if !="), "jne loop_start");
    assert_eq!(ok("jump to l if <"), "jl l");
    assert_eq!(ok("jump to l if <="), "jle l");
    assert_eq!(ok("jump to l if >"), "jg l");
    assert_eq!(ok("jump to l if >="), "jge l");
}

#[test]
fn jump_unconditional() {
    assert_eq!(ok("jump to loop_start"), "jmp loop_start");
}

#[test]
fn jump_bad_condition() {
    assert!(matches!(
        translate("jump to l if signed"),
        Err(AsmError::OperandError { verb: Verb::Jump })
    ));
    assert!(matches!(
        translate("jump to eax"),
        Err(AsmError::OperandError { verb: Verb::Jump })
    ));
}

#[test]
fn add_with_extra_modifier() {
    match translate("add 1 to eax with ebx") {
        Err(AsmError::UnexpectedModifierError { verb, prepositions }) => {
            assert_eq!(verb, Verb::Add);
            assert_eq!(prepositions, vec![Preposition::With]);
        }
        other => panic!("{:?}", other),
    }
}

#[test]
fn move_wide_immediate_to_al() {
    match translate("move 100000 to al") {
        Err(AsmError::SizeMismatchError { object, other }) => {
            assert_eq!(object, "100000");
            assert_eq!(other, "al");
        }
        other => panic!("{:?}", other),
    }
}

#[test]
fn immediate_as_wide_as_destination_is_rejected() {
    assert!(matches!(
        translate("move 1 to al"),
        Err(AsmError::SizeMismatchError { .. })
    ));
    assert_eq!(ok("move 127 to ax"), "mov ax, 127");
}

#[test]
fn register_widths_must_agree() {
    assert_eq!(ok("move ebx to eax"), "mov eax, ebx");
    assert!(matches!(
        translate("move bx to eax"),
        Err(AsmError::SizeMismatchError { .. })
    ));
}

#[test]
fn label_definition_line() {
    assert_eq!(ok("label1:"), "label1:");
    assert_eq!(ok("  label1 :"), "label1:");
}

#[test]
fn blank_line() {
    assert_eq!(ok(""), "");
    assert_eq!(ok("   \t "), "");
}

#[test]
fn float_suffix() {
    assert_eq!(
        ok("add xmm1 to xmm0 as double-precision-float"),
        "addsd xmm0, xmm1"
    );
    assert_eq!(
        ok("move xmm1 to xmm0 as single-precision-float"),
        "movss xmm0, xmm1"
    );
    assert!(matches!(
        translate("add xmm1 to xmm0 as signed"),
        Err(AsmError::OperandError { verb: Verb::Add })
    ));
}

#[test]
fn missing_modifier() {
    match translate("add 1") {
        Err(AsmError::MissingModifierError { verb, preposition }) => {
            assert_eq!(verb, Verb::Add);
            assert_eq!(preposition, Preposition::To);
        }
        other => panic!("{:?}", other),
    }
    assert!(matches!(
        translate("compare eax"),
        Err(AsmError::MissingModifierError { verb: Verb::Compare, preposition: Preposition::To })
    ));
}

#[test]
fn missing_object() {
    assert!(matches!(
        translate("add to eax"),
        Err(AsmError::OperandError { verb: Verb::Add })
    ));
}

#[test]
fn logical_and_shift_and_compare() {
    assert_eq!(ok("and 1 with eax"), "and eax, 1");
    assert_eq!(ok("or ebx with eax"), "or eax, ebx");
    assert_eq!(ok("xor rax with rax"), "xor rax, rax");
    assert_eq!(ok("shift-left al by cl"), "shl al, cl");
    assert_eq!(ok("shift-right al by cl"), "shr al, cl");
    assert!(matches!(
        translate("shift-left eax by 1"),
        Err(AsmError::SizeMismatchError { .. })
    ));
    assert_eq!(ok("compare eax to ebx"), "cmp eax, ebx");
}

#[test]
fn unary_verbs() {
    assert_eq!(ok("not eax"), "not eax");
    assert_eq!(ok("negate rbx"), "neg rbx");
    assert!(matches!(
        translate("not eax to ebx"),
        Err(AsmError::UnexpectedModifierError { verb: Verb::Not, .. })
    ));
}

#[test]
fn call_label() {
    assert_eq!(ok("call to printf"), "call printf");
    assert!(matches!(
        translate("call"),
        Err(AsmError::MissingModifierError { verb: Verb::Call, preposition: Preposition::To })
    ));
}

#[test]
fn intransitive_verbs() {
    assert_eq!(ok("return"), "ret");
    assert_eq!(ok("leave"), "leave");
    assert_eq!(ok("no-operation"), "nop");
    assert_eq!(ok("system-call"), "syscall");
    assert_eq!(ok("systemcall"), "syscall");
    assert_eq!(ok("halt"), "hlt");
    assert!(matches!(
        translate("return eax"),
        Err(AsmError::OperandError { verb: Verb::Return })
    ));
    match translate("halt with eax") {
        Err(AsmError::UnexpectedModifierError { verb, prepositions }) => {
            assert_eq!(verb, Verb::Halt);
            assert_eq!(prepositions, vec![Preposition::With]);
        }
        other => panic!("{:?}", other),
    }
}

#[test]
fn repeated_preposition_keeps_last() {
    assert_eq!(ok("move 1 to al to eax"), "mov eax, 1");
}

#[test]
fn memory_operands() {
    assert_eq!(ok("move @[rbp-8] to rax"), "mov rax, [rbp-8]");
    assert_eq!(ok("move rax to @[rbp + rcx*4 + 16]"), "mov [rbp+rcx*4+16], rax");
    assert_eq!(ok("move @[rbx+rsi] to ecx"), "mov ecx, [rbx+rsi]");
    assert_eq!(ok("move @[64] to rax"), "mov rax, [64]");
}

#[test]
fn unreadable_memory_is_no_object() {
    assert!(matches!(
        translate("move @[foo] to rax"),
        Err(AsmError::MissingModifierError { verb: Verb::Move, preposition: Preposition::To })
    ));
    assert!(matches!(
        translate("move rax to @[rbx*3]"),
        Err(AsmError::SyntaxError { reason: SyntaxReason::PrepositionWithoutObject, .. })
    ));
}

#[test]
fn unclosed_memory_is_lex_error() {
    match translate("move @[rbp-8 to rax") {
        Err(AsmError::LexError { line, column }) => {
            assert_eq!(line, 1);
            assert_eq!(column, 5);
        }
        other => panic!("{:?}", other),
    }
}

#[test]
fn syntax_errors() {
    match translate("  foo") {
        Err(AsmError::SyntaxError { line, column, reason }) => {
            assert_eq!(line, 1);
            assert_eq!(column, 2);
            assert_eq!(reason, SyntaxReason::ExpectedLabelDefinition);
        }
        other => panic!("{:?}", other),
    }
    assert!(matches!(
        translate("5 to eax"),
        Err(AsmError::SyntaxError { reason: SyntaxReason::ExpectedVerbOrLabel, .. })
    ));
    assert!(matches!(
        translate("# main"),
        Err(AsmError::SyntaxError { reason: SyntaxReason::ExpectedVerbOrLabel, .. })
    ));
    match translate("add 1 to") {
        Err(AsmError::SyntaxError { column, reason, .. }) => {
            assert_eq!(column, 6);
            assert_eq!(reason, SyntaxReason::PrepositionWithoutObject);
        }
        other => panic!("{:?}", other),
    }
}

#[test]
fn compile_appends_only_on_success() {
    let mut code = String::from("x\n");
    let mut t = Tonkenizer::new("add 1 to eax", Loc::new("f", 0, 0));
    assert!(compile(&mut t, &mut code).is_ok());
    assert_eq!(code, "x\nadd eax, 1");
    let mut t = Tonkenizer::new("add 1 to eax with ebx", Loc::new("f", 1, 0));
    assert!(compile(&mut t, &mut code).is_err());
    assert_eq!(code, "x\nadd eax, 1");
}
