//! Compiling source to bytecode, once, for a chunk that will be run often:
//! open an interpreter, compile, hand back the bytes or say why not.
//!
//! Like a run, a compilation is a machine: it asks for outside steps with
//! `Request`s, and `Compilation::next` takes what each step gave back.

use vstd::prelude::*;

use crate::engine::{
    not_compiled, open_refused, refusal, rendering, seen, Compiled, Failure, Interpreter,
};
use crate::text::named;

verus! {

/// Where a compilation stands.
#[derive(Clone, Copy)]
pub enum Phase {
    /// Waiting for an interpreter.
    Opening,
    /// Waiting for mruby to compile.
    Compiling,
    /// Waiting for the exception compiling raised to be cleared, holding
    /// the failure the compilation will finish with.
    Clearing,
    /// Finished, with nothing more to wait for.
    Over,
}

/// What an outside step of a compilation gave back.
pub enum Report {
    /// `mrb_open` returned this address.
    Opened(usize),
    /// Compiling gave back this.
    Compiled(Compiled),
    /// The pending exception was cleared.
    Cleared,
}

/// The next outside step a compilation asks for.
pub enum Request<'a> {
    /// Open an interpreter.
    Open,
    /// Compile this source, under this name, in this interpreter.
    Compile(Interpreter, &'a str, &'a str),
    /// Clear the exception pending in this interpreter.
    Clear(Interpreter),
    /// Close the interpreter, if open, and return this.
    Finish(Result<Vec<u8>, Failure>),
}

/// A request, as the contracts speak of it.
pub enum Ask {
    Open,
    Compile(Interpreter, Seq<char>, Seq<char>),
    Clear(Interpreter),
    Finish(Result<Seq<u8>, Seq<char>>),
}

impl<'a> View for Request<'a> {
    type V = Ask;

    open spec fn view(&self) -> Ask {
        match self {
            Request::Open => Ask::Open,
            Request::Compile(interpreter, source, name) => Ask::Compile(
                *interpreter,
                source@,
                name@,
            ),
            Request::Clear(interpreter) => Ask::Clear(*interpreter),
            Request::Finish(Ok(bytes)) => Ask::Finish(Ok(bytes@)),
            Request::Finish(Err(failure)) => Ask::Finish(Err(failure.0@)),
        }
    }
}

/// What a compilation under `name` comes to, given what compiling gave back.
pub open spec fn outcome(compiled: Compiled, name: Seq<char>) -> Result<Seq<u8>, Seq<char>> {
    match compiled {
        Compiled::Bytecode(bytes) => Ok(bytes@),
        Compiled::Raised(text) => Err(named(name, rendering(seen(text)))),
        Compiled::Refused => Err(named(name, not_compiled())),
    }
}

/// Whether a compilation in `phase` is waiting for `report`.
pub open spec fn expects(phase: Phase, report: Report) -> bool {
    match phase {
        Phase::Opening => report is Opened,
        Phase::Compiling => report is Compiled,
        Phase::Clearing => report is Cleared,
        Phase::Over => false,
    }
}

/// One compilation of some source.
pub struct Compilation<'a> {
    source: &'a str,
    name: &'a str,
    phase: Phase,
    interpreter: Option<Interpreter>,
    failure: Option<Failure>,
}

impl<'a> Compilation<'a> {
    #[verifier::type_invariant]
    spec fn held(self) -> bool {
        &&& (self.phase is Compiling || self.phase is Clearing) ==> self.interpreter is Some
        &&& self.phase is Clearing ==> self.failure is Some
    }

    /// The source to compile.
    pub closed spec fn source(self) -> &'a str {
        self.source
    }

    /// The name it carries in a backtrace.
    pub closed spec fn name(self) -> &'a str {
        self.name
    }

    /// Where the compilation stands.
    pub closed spec fn phase(self) -> Phase {
        self.phase
    }

    /// The compilation's interpreter, once open.
    pub closed spec fn interpreter(self) -> Option<Interpreter> {
        self.interpreter
    }

    /// The message of the failure the compilation will finish with, once
    /// its exception is cleared.
    pub closed spec fn pending(self) -> Option<Seq<char>> {
        match self.failure {
            Some(f) => Some(f.0@),
            None => None,
        }
    }

    /// Whether the compilation is waiting for `report`.
    pub open spec fn awaits(self, report: Report) -> bool {
        expects(self.phase(), report)
    }

    /// Whether the compilation is waiting for `report`.
    pub fn accepts(&self, report: &Report) -> (waiting: bool)
        ensures
            waiting == self.awaits(*report),
    {
        match self.phase {
            Phase::Opening => matches!(report, Report::Opened(_)),
            Phase::Compiling => matches!(report, Report::Compiled(_)),
            Phase::Clearing => matches!(report, Report::Cleared),
            Phase::Over => false,
        }
    }

    /// Whether the compilation has finished.
    pub fn is_over(&self) -> (over: bool)
        ensures
            over == (self.phase() == Phase::Over),
    {
        matches!(self.phase, Phase::Over)
    }

    /// Move to `phase`, holding `interpreter` and `failure`.
    fn settle(&mut self, phase: Phase, interpreter: Option<Interpreter>, failure: Option<Failure>)
        requires
            (phase is Compiling || phase is Clearing) ==> interpreter is Some,
            phase is Clearing ==> failure is Some,
        ensures
            final(self).phase() == phase,
            final(self).source() == old(self).source(),
            final(self).name() == old(self).name(),
            final(self).interpreter() == interpreter,
            final(self).pending() == match failure {
                Some(f) => Some(f.0@),
                None => None::<Seq<char>>,
            },
    {
        *self = Compilation { source: self.source, name: self.name, phase, interpreter, failure };
    }

    /// Take what the last step gave back, and ask for the next step.
    ///
    /// An interpreter mruby could not allocate finishes with a failure.
    /// Source or a name that no C string can carry finishes with a failure
    /// that names the source, before compiling. Otherwise the compilation
    /// asks mruby to compile and waits for that. Bytecode finishes it with
    /// the bytecode. An exception is cleared first, then finishes it with a
    /// failure that names the source and carries Ruby's own message.
    pub fn next(&mut self, report: Report) -> (request: Request<'a>)
        requires
            old(self).awaits(report),
        ensures
            final(self).source() == old(self).source(),
            final(self).name() == old(self).name(),
            (request@ is Finish) == (final(self).phase() == Phase::Over),
            match report {
                Report::Opened(state) => if state == 0 {
                    request@ == Ask::Finish(Err(open_refused()))
                } else {
                    &&& final(self).interpreter() matches Some(interpreter)
                    &&& interpreter.address() == state
                    &&& match refusal(old(self).source(), old(self).name()) {
                        Some(message) => request@ == Ask::Finish(Err(message)),
                        None => {
                            &&& request@ == Ask::Compile(
                                interpreter,
                                old(self).source()@,
                                old(self).name()@,
                            )
                            &&& final(self).phase() == Phase::Compiling
                        },
                    }
                },
                Report::Compiled(Compiled::Raised(text)) => {
                    &&& final(self).phase() == Phase::Clearing
                    &&& request@ == Ask::Clear(old(self).interpreter().unwrap())
                    &&& final(self).interpreter() == old(self).interpreter()
                    &&& final(self).pending() == Some(
                        named(old(self).name()@, rendering(seen(text))),
                    )
                },
                Report::Compiled(compiled) => request@ == Ask::Finish(
                    outcome(compiled, old(self).name()@),
                ),
                Report::Cleared => request@ == Ask::Finish(Err(old(self).pending().unwrap())),
            },
    {
        proof {
            use_type_invariant(&*self);
        }
        match report {
            Report::Opened(state) => match Interpreter::open(state) {
                Err(failure) => {
                    self.settle(Phase::Over, None, None);
                    Request::Finish(Err(failure))
                },
                Ok(interpreter) => match interpreter.compile(self.source, self.name) {
                    Err(failure) => {
                        self.settle(Phase::Over, Some(interpreter), None);
                        Request::Finish(Err(failure))
                    },
                    Ok(()) => {
                        self.settle(Phase::Compiling, Some(interpreter), None);
                        Request::Compile(interpreter, self.source, self.name)
                    },
                },
            },
            Report::Compiled(compiled) => {
                let interpreter = self.interpreter;
                let raised = matches!(compiled, Compiled::Raised(_));
                match Interpreter::compiled(compiled, self.name) {
                    Ok(bytes) => {
                        self.settle(Phase::Over, interpreter, None);
                        Request::Finish(Ok(bytes))
                    },
                    Err(failure) => if raised {
                        self.settle(Phase::Clearing, interpreter, Some(failure));
                        Request::Clear(interpreter.unwrap())
                    } else {
                        self.settle(Phase::Over, interpreter, None);
                        Request::Finish(Err(failure))
                    },
                }
            },
            Report::Cleared => {
                let mut finished = Compilation {
                    source: self.source,
                    name: self.name,
                    phase: Phase::Over,
                    interpreter: self.interpreter,
                    failure: None,
                };
                std::mem::swap(self, &mut finished);
                match finished.failure {
                    Some(failure) => Request::Finish(Err(failure)),
                    None => unreached(),
                }
            },
        }
    }
}

/// Begin compiling `source`, named `name` in a backtrace, to bytecode. The
/// compilation asks first for an interpreter.
pub fn compile<'a>(source: &'a str, name: &'a str) -> (begun: (Compilation<'a>, Request<'a>))
    ensures
        begun.0.source() == source,
        begun.0.name() == name,
        begun.0.phase() == Phase::Opening,
        begun.0.interpreter() is None,
        begun.1@ == Ask::Open,
{
    (
        Compilation { source, name, phase: Phase::Opening, interpreter: None, failure: None },
        Request::Open,
    )
}


/// Bytecode that compiling produced comes back unchanged, whatever its
/// length or content, and under any name.
pub proof fn lemma_bytecode_handed_back(bytes: Vec<u8>, name: Seq<char>)
    ensures
        outcome(Compiled::Bytecode(bytes), name) == Ok::<Seq<u8>, Seq<char>>(bytes@),
{
}
/// Source that does not compile fails with a message that starts with the
/// source's name, a colon and a space, followed by the exception's text as
/// it rendered, or by "it does not compile" when nothing was raised.
pub proof fn lemma_compile_failure_names_the_source(name: Seq<char>, text: String)
    ensures
        outcome(Compiled::Raised(Some(text)), name) matches Err(message) && message.subrange(
            0,
            name.len() as int,
        ) == name && message.subrange(name.len() + 2int, message.len() as int) == text@,
        outcome(Compiled::Refused, name) matches Err(message) && message.subrange(
            0,
            name.len() as int,
        ) == name && message.subrange(name.len() + 2int, message.len() as int)
            == "it does not compile"@,
{
    crate::engine::lemma_rendering_keeps_the_text(text);
    crate::text::lemma_named_message(name, text@);
    crate::text::lemma_named_message(name, "it does not compile"@);
}

/// A compilation goes: open an interpreter, compile, and, when compiling
/// raised, clear the exception; then it is over and waits for nothing more.
pub proof fn lemma_phases_in_order(report: Report)
    ensures
        expects(Phase::Opening, report) <==> report is Opened,
        expects(Phase::Compiling, report) <==> report is Compiled,
        expects(Phase::Clearing, report) <==> report is Cleared,
        !expects(Phase::Over, report),
{
}

} // verus!
