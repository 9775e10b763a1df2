//! The deciding halves of each step: checks before a call into mruby, and
//! what a call's outcome means after it.

use johnny_dsl::engine::{Chunk, Compiled, Failure, Interpreter, Landing};
use johnny_dsl::text::{carries_nul, naming};

fn message<T>(result: Result<T, Failure>) -> String {
    match result {
        Ok(_) => panic!("expected a failure"),
        Err(failure) => failure.0,
    }
}

#[test]
fn a_nul_byte_is_found_anywhere() {
    assert!(carries_nul("a\0b"));
    assert!(carries_nul("\0"));
    assert!(carries_nul("tail\0"));
    assert!(!carries_nul(""));
    assert!(!carries_nul("plain 策略"));
}

#[test]
fn naming_puts_the_name_first() {
    assert_eq!(naming("strategy.rb", "nope (RuntimeError)"), "strategy.rb: nope (RuntimeError)");
    assert_eq!(naming("", ""), ": ");
}

#[test]
fn a_null_interpreter_is_refused() {
    assert_eq!(message(Interpreter::open(0)), "mruby would not open (out of memory?)");
}

#[test]
fn an_interpreter_holds_its_address() {
    let interpreter = Interpreter::open(0x1000).expect("not null");
    assert_eq!(interpreter.handle(), 0x1000);
}

#[test]
fn a_null_context_is_refused() {
    let interpreter = Interpreter::open(0x1000).expect("not null");
    assert_eq!(message(interpreter.context(0)), "mruby would not make a compile context");
}

#[test]
fn a_context_knows_its_interpreter() {
    let interpreter = Interpreter::open(0x1000).expect("not null");
    let context = interpreter.context(0x2000).expect("not null");
    assert_eq!(context.handle(), 0x2000);
    assert_eq!(context.interpreter(), 0x1000);
}

#[test]
fn a_global_name_or_value_with_a_nul_is_refused() {
    let interpreter = Interpreter::open(8).expect("not null");
    assert_eq!(message(interpreter.set_global("$a\0b", "v\0")), "the name carries a NUL byte");
    assert_eq!(message(interpreter.set_global("$g", "a\0b")), "the value carries a NUL byte");
    assert!(interpreter.set_global("$johnny_context", r#"{"n":1}"#).is_ok());
}

#[test]
fn a_failure_gives_its_message() {
    let failure = Failure("strategy.rb: nope".to_string());
    assert_eq!(failure.message(), "strategy.rb: nope");
}

#[test]
fn compiling_checks_the_source_before_the_name() {
    let interpreter = Interpreter::open(8).expect("not null");
    assert_eq!(message(interpreter.compile("x\0", "n\0")), "the source carries a NUL byte");
    assert_eq!(message(interpreter.compile("x", "n\0")), "the name carries a NUL byte");
    assert_eq!(message(interpreter.compile("x\0", "words.rb")), "the source carries a NUL byte");
    assert!(interpreter.compile("x = 1", "words.rb").is_ok());
}

#[test]
fn compiled_bytecode_comes_back_as_is() {
    let bytes = Interpreter::compiled(Compiled::Bytecode(vec![0x52, 0x49, 0x54, 0x45]), "words.rb")
        .expect("bytecode");
    assert_eq!(bytes, vec![0x52, 0x49, 0x54, 0x45]);
}

#[test]
fn a_compile_error_names_its_source() {
    let raised = Compiled::Raised(Some("syntax error, unexpected end-of-input".to_string()));
    assert_eq!(
        message(Interpreter::compiled(raised, "broken.rb")),
        "broken.rb: syntax error, unexpected end-of-input"
    );
    assert_eq!(
        message(Interpreter::compiled(Compiled::Raised(None), "broken.rb")),
        "broken.rb: (an error that will not render)"
    );
    assert_eq!(message(Interpreter::compiled(Compiled::Refused, "broken.rb")), "broken.rb: it does not compile");
}

#[test]
fn landing_turns_an_exception_into_a_named_failure() {
    let landed = Interpreter::landed(Landing::Raised(Some("nope (RuntimeError)".to_string())), "strategy.rb");
    assert_eq!(message(landed), "strategy.rb: nope (RuntimeError)");
    let unrendered = Interpreter::landed(Landing::Raised(None), "strategy.rb");
    assert_eq!(message(unrendered), "strategy.rb: (an error that will not render)");
}

#[test]
fn landing_hands_back_the_value_text() {
    let text = Interpreter::landed(Landing::Returned(Some("42".to_string())), "x").expect("no exception");
    assert_eq!(text, Some("42".to_string()));
    let none = Interpreter::landed(Landing::Returned(None), "x").expect("no exception");
    assert_eq!(none, None);
}

#[test]
fn rendering_has_a_stand_in() {
    assert_eq!(Interpreter::render(Some("boom".to_string())), "boom");
    assert_eq!(Interpreter::render(None), "(an error that will not render)");
}

#[test]
fn evaluating_and_loading_check_what_reaches_c() {
    let interpreter = Interpreter::open(8).expect("not null");
    let context = interpreter.context(16).expect("not null");
    assert_eq!(message(context.eval("a\0", "n")), "the source carries a NUL byte");
    assert_eq!(message(context.eval("a", "n\0")), "the name carries a NUL byte");
    assert!(context.eval("a = 1", "n").is_ok());
    assert_eq!(message(context.load("n\0")), "the name carries a NUL byte");
    assert!(context.load("words").is_ok());
}

#[test]
fn a_chunk_is_source_or_bytecode() {
    let bytes = [1u8, 2, 3];
    let chunks = [Chunk::Source("x = 1", "a.rb"), Chunk::Bytecode(&bytes, "b.mrb")];
    assert!(matches!(chunks[0], Chunk::Source("x = 1", "a.rb")));
    assert!(matches!(chunks[1], Chunk::Bytecode(b, "b.mrb") if b == &[1u8, 2, 3][..]));
}
