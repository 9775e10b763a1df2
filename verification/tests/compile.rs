//! Compilations driven by a scripted interpreter.

use johnny_dsl::compilation::{compile, Report, Request};
use johnny_dsl::engine::{Compiled, Failure};

/// Drive a compilation to its end, logging each step asked for.
fn drive(
    source: &str,
    name: &str,
    mut interpreter: impl FnMut(&Request<'_>) -> Report,
) -> (Vec<String>, Result<Vec<u8>, Failure>) {
    let (mut compilation, mut request) = compile(source, name);
    let mut log = Vec::new();
    loop {
        match request {
            Request::Finish(result) => {
                log.push("finish".to_string());
                assert!(compilation.is_over());
                return (log, result);
            }
            Request::Open => log.push("open".to_string()),
            Request::Compile(interpreter, source, name) => {
                log.push(format!("compile {} in {:#x}: {}", name, interpreter.handle(), source))
            }
            Request::Clear(interpreter) => log.push(format!("clear in {:#x}", interpreter.handle())),
        }
        let report = match request {
            Request::Clear(_) => Report::Cleared,
            _ => interpreter(&request),
        };
        assert!(compilation.accepts(&report));
        request = compilation.next(report);
    }
}

fn failure_of(result: Result<Vec<u8>, Failure>) -> String {
    match result {
        Ok(_) => panic!("expected a failure"),
        Err(failure) => failure.0,
    }
}

#[test]
fn source_that_does_not_compile_is_refused_at_compile_time() {
    let (log, result) = drive("def unfinished(", "broken.rb", |request| match request {
        Request::Open => Report::Opened(0x1000),
        _ => Report::Compiled(Compiled::Raised(Some("syntax error, unexpected end-of-input".to_string()))),
    });
    let failure = failure_of(result);

    assert!(failure.contains("broken.rb"), "{failure}");
    assert_eq!(failure, "broken.rb: syntax error, unexpected end-of-input");
    assert_eq!(log, vec!["open", "compile broken.rb in 0x1000: def unfinished(", "clear in 0x1000", "finish"]);
}

#[test]
fn compiling_hands_back_the_bytecode() {
    let (log, result) = drive("def twice(n) = n * 2", "<words>", |request| match request {
        Request::Open => Report::Opened(0x1000),
        _ => Report::Compiled(Compiled::Bytecode(vec![0x52, 0x49, 0x54, 0x45, 0x30])),
    });

    assert_eq!(result.expect("it compiles"), vec![0x52, 0x49, 0x54, 0x45, 0x30]);
    assert_eq!(log, vec!["open", "compile <words> in 0x1000: def twice(n) = n * 2", "finish"]);
}

#[test]
fn compiling_without_an_interpreter_fails() {
    let (log, result) = drive("x = 1", "a.rb", |_| Report::Opened(0));

    assert_eq!(failure_of(result), "mruby would not open (out of memory?)");
    assert_eq!(log, vec!["open", "finish"]);
}

#[test]
fn a_refusal_without_an_exception_still_names_its_source() {
    let (_, result) = drive("x = 1", "a.rb", |request| match request {
        Request::Open => Report::Opened(0x1000),
        _ => Report::Compiled(Compiled::Refused),
    });

    assert_eq!(failure_of(result), "a.rb: it does not compile");
}

#[test]
fn an_unrendered_compile_error_has_a_stand_in() {
    let (_, result) = drive("x = 1", "a.rb", |request| match request {
        Request::Open => Report::Opened(0x1000),
        _ => Report::Compiled(Compiled::Raised(None)),
    });

    assert_eq!(failure_of(result), "a.rb: (an error that will not render)");
}

#[test]
fn source_with_a_nul_byte_is_refused_before_compiling() {
    let (log, result) = drive("x\0", "a\0", |_| Report::Opened(0x1000));

    assert_eq!(failure_of(result), "the source carries a NUL byte");
    assert_eq!(log, vec!["open", "finish"]);
}

#[test]
fn a_name_with_a_nul_byte_is_refused_before_compiling() {
    let (log, result) = drive("x = 1", "a\0", |_| Report::Opened(0x1000));

    assert_eq!(failure_of(result), "the name carries a NUL byte");
    assert_eq!(log, vec!["open", "finish"]);
}

#[test]
fn a_compilation_takes_only_the_outcome_it_waits_for() {
    let (mut compilation, _) = compile("x = 1", "a.rb");
    assert!(compilation.accepts(&Report::Opened(1)));
    assert!(!compilation.accepts(&Report::Compiled(Compiled::Refused)));
    let request = compilation.next(Report::Opened(1));
    assert!(matches!(request, Request::Compile(..)));
    assert!(compilation.accepts(&Report::Compiled(Compiled::Refused)));
    assert!(!compilation.accepts(&Report::Opened(1)));
    let request = compilation.next(Report::Compiled(Compiled::Refused));
    assert!(matches!(request, Request::Finish(Err(_))));
    assert!(!compilation.accepts(&Report::Opened(1)));
}

#[test]
fn a_compile_exception_is_cleared_before_finishing() {
    let (mut compilation, _) = compile("def unfinished(", "broken.rb");
    compilation.next(Report::Opened(1));
    let request = compilation.next(Report::Compiled(Compiled::Raised(None)));
    assert!(matches!(request, Request::Clear(_)));
    assert!(compilation.accepts(&Report::Cleared));
    assert!(!compilation.accepts(&Report::Compiled(Compiled::Refused)));
    let request = compilation.next(Report::Cleared);
    match request {
        Request::Finish(Err(failure)) => assert_eq!(failure.0, "broken.rb: (an error that will not render)"),
        _ => panic!("expected a failure"),
    }
    assert!(compilation.is_over());
}
