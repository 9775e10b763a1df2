//! The engine's own types: the chunks a run is made of, what went wrong,
//! and the two handles mruby gives out (an interpreter and a compile
//! context), held as the addresses mruby returned.
//!
//! Every function here is the deciding half of one step of talking to
//! mruby: what to check before a call, and what a call's outcome means
//! after it. The calls themselves are made by whoever holds the C library.

use vstd::prelude::*;
use vstd::string::StringSliceAdditionalSpecFns;

use crate::text::{carries_nul, has_nul, named, naming};

verus! {

/// What went wrong, in words the author of the source can act on.
#[derive(Debug)]
pub struct Failure(pub String);

impl Failure {
    /// The message, as text.
    pub fn message(&self) -> (text: String)
        ensures
            text@ == self.0@,
    {
        self.0.clone()
    }
}

/// One chunk to run: Ruby source, or bytecode `compile` produced.
pub enum Chunk<'a> {
    /// Source and the name it carries in a backtrace, parsed now.
    Source(&'a str, &'a str),
    /// Bytecode compiled somewhere else, and the name it carries.
    Bytecode(&'a [u8], &'a str),
}

impl<'a> Chunk<'a> {
    /// The name the chunk carries in a backtrace.
    pub open spec fn name_of(self) -> &'a str {
        match self {
            Chunk::Source(_, name) => name,
            Chunk::Bytecode(_, name) => name,
        }
    }
}

/// What evaluating or loading a chunk left behind.
pub enum Landing {
    /// It raised; the exception as `to_s` renders it, when that renders to a string.
    Raised(Option<String>),
    /// It ran to the end; its value as text, when the value is a string.
    Returned(Option<String>),
}

/// What asking mruby to compile source to bytecode gave back.
pub enum Compiled {
    /// The bytecode.
    Bytecode(Vec<u8>),
    /// Nothing, with an exception pending; the exception as `to_s` renders
    /// it, when that renders to a string.
    Raised(Option<String>),
    /// Nothing, and no exception either.
    Refused,
}

/// The text inside an optional string.
pub open spec fn seen(text: Option<String>) -> Option<Seq<char>> {
    match text {
        Some(s) => Some(s@),
        None => None,
    }
}

/// The message when mruby cannot allocate an interpreter.
pub open spec fn open_refused() -> Seq<char> {
    "mruby would not open (out of memory?)"@
}

/// The message when mruby cannot allocate a compile context.
pub open spec fn context_refused() -> Seq<char> {
    "mruby would not make a compile context"@
}

/// The message for source that no C string can carry.
pub open spec fn source_nul() -> Seq<char> {
    "the source carries a NUL byte"@
}

/// The message for a name that no C string can carry.
pub open spec fn name_nul() -> Seq<char> {
    "the name carries a NUL byte"@
}

/// The message for a global's value that no C string can carry.
pub open spec fn value_nul() -> Seq<char> {
    "the value carries a NUL byte"@
}

/// What stands in for an exception that does not render to a string.
pub open spec fn unrendered() -> Seq<char> {
    "(an error that will not render)"@
}

/// What compiling says when it fails without an exception.
pub open spec fn not_compiled() -> Seq<char> {
    "it does not compile"@
}

/// An exception as an error message shows it: its rendering, or a
/// stand-in when it has none.
pub open spec fn rendering(text: Option<Seq<char>>) -> Seq<char> {
    match text {
        Some(t) => t,
        None => unrendered(),
    }
}

/// What is refused, if anything, of evaluating `source` under `name`:
/// source first, then name.
pub open spec fn refusal(source: &str, name: &str) -> Option<Seq<char>> {
    if has_nul(source) {
        Some(source_nul())
    } else if has_nul(name) {
        Some(name_nul())
    } else {
        None
    }
}

/// What is refused, if anything, of loading bytecode under `name`.
pub open spec fn name_refusal(name: &str) -> Option<Seq<char>> {
    if has_nul(name) {
        Some(name_nul())
    } else {
        None
    }
}

/// A failure whose message is `message`.
fn failure(message: &str) -> (f: Failure)
    ensures
        f.0@ == message@,
{
    Failure(String::from_str(message))
}

/// The check before handing `source` under `name` to C: the source must
/// carry no NUL byte, and then the name neither.
fn refuse(source: &str, name: &str) -> (r: Result<(), Failure>)
    ensures
        match refusal(source, name) {
            None => r is Ok,
            Some(message) => r matches Err(f) && f.0@ == message,
        },
{
    if carries_nul(source) {
        Err(failure("the source carries a NUL byte"))
    } else if carries_nul(name) {
        Err(failure("the name carries a NUL byte"))
    } else {
        Ok(())
    }
}

/// An open interpreter, held as the non-null address `mrb_open` returned.
#[derive(Clone, Copy)]
pub struct Interpreter {
    state: usize,
}

impl Interpreter {
    #[verifier::type_invariant]
    spec fn held(self) -> bool {
        self.state != 0
    }

    /// The address of the interpreter's state.
    pub closed spec fn address(self) -> usize {
        self.state
    }

    /// The interpreter held at `address`.
    pub closed spec fn at(address: usize) -> Interpreter {
        Interpreter { state: address }
    }

    /// The address of the interpreter's state, to hand back to mruby.
    pub fn handle(&self) -> (address: usize)
        ensures
            address == self.address(),
            address != 0,
    {
        proof {
            use_type_invariant(self);
        }
        self.state
    }

    /// Open one, given the address `mrb_open` returned: null means mruby
    /// could not allocate a state.
    pub fn open(state: usize) -> (opened: Result<Interpreter, Failure>)
        ensures
            match opened {
                Ok(interpreter) => state != 0 && interpreter.address() == state && interpreter
                    == Interpreter::at(state),
                Err(f) => state == 0 && f.0@ == open_refused(),
            },
    {
        if state == 0 {
            Err(failure("mruby would not open (out of memory?)"))
        } else {
            Ok(Interpreter { state })
        }
    }

    /// Open one compile context for this interpreter, given the address
    /// `mrb_ccontext_new` returned: null means mruby could not allocate one.
    pub fn context(&self, raw: usize) -> (made: Result<Context, Failure>)
        ensures
            match made {
                Ok(context) => raw != 0 && context.address() == raw && context.owner()
                    == self.address() && context == Context::at(self.address(), raw),
                Err(f) => raw == 0 && f.0@ == context_refused(),
            },
    {
        proof {
            use_type_invariant(self);
        }
        if raw == 0 {
            Err(failure("mruby would not make a compile context"))
        } else {
            Ok(Context { interpreter: self.state, raw })
        }
    }

    /// The check before setting the global `name` to `value`: neither may
    /// carry a NUL byte, the name being checked first.
    pub fn set_global(&self, name: &str, value: &str) -> (r: Result<(), Failure>)
        ensures
            r is Ok <==> !has_nul(name) && !has_nul(value),
            r matches Err(f) ==> f.0@ == if has_nul(name) {
                name_nul()
            } else {
                value_nul()
            },
    {
        if carries_nul(name) {
            Err(failure("the name carries a NUL byte"))
        } else if carries_nul(value) {
            Err(failure("the value carries a NUL byte"))
        } else {
            Ok(())
        }
    }

    /// The check before compiling `source` under `name`: neither may carry
    /// a NUL byte, the source being checked first.
    pub fn compile(&self, source: &str, name: &str) -> (r: Result<(), Failure>)
        ensures
            match refusal(source, name) {
                None => r is Ok,
                Some(message) => r matches Err(f) && f.0@ == message,
            },
    {
        refuse(source, name)
    }

    /// What a compilation under `name` comes to: its bytecode, or a failure
    /// that names it and says why.
    pub fn compiled(outcome: Compiled, name: &str) -> (r: Result<Vec<u8>, Failure>)
        ensures
            match outcome {
                Compiled::Bytecode(bytes) => r == Ok::<Vec<u8>, Failure>(bytes),
                Compiled::Raised(text) => r matches Err(f) && f.0@ == named(
                    name@,
                    rendering(seen(text)),
                ),
                Compiled::Refused => r matches Err(f) && f.0@ == named(name@, not_compiled()),
            },
    {
        match outcome {
            Compiled::Bytecode(bytes) => Ok(bytes),
            Compiled::Raised(text) => {
                let rendered = Interpreter::render(text);
                Err(Failure(naming(name, rendered.as_str())))
            },
            Compiled::Refused => Err(Failure(naming(name, "it does not compile"))),
        }
    }

    /// What an evaluation under `name` left: the exception it raised, as a
    /// failure that names the chunk, or its value's text when it is a string.
    pub fn landed(landing: Landing, name: &str) -> (r: Result<Option<String>, Failure>)
        ensures
            match landing {
                Landing::Raised(text) => r matches Err(f) && f.0@ == named(
                    name@,
                    rendering(seen(text)),
                ),
                Landing::Returned(text) => r == Ok::<Option<String>, Failure>(text),
            },
    {
        match landing {
            Landing::Raised(text) => {
                let rendered = Interpreter::render(text);
                Err(Failure(naming(name, rendered.as_str())))
            },
            Landing::Returned(text) => Ok(text),
        }
    }

    /// An exception's rendering as an error message shows it.
    pub fn render(text: Option<String>) -> (shown: String)
        ensures
            shown@ == rendering(seen(text)),
    {
        match text {
            Some(t) => t,
            None => String::from_str("(an error that will not render)"),
        }
    }
}

/// One compile context, held as the non-null address `mrb_ccontext_new`
/// returned, with the address of the interpreter that made it.
#[derive(Clone, Copy)]
pub struct Context {
    interpreter: usize,
    raw: usize,
}

impl Context {
    #[verifier::type_invariant]
    spec fn held(self) -> bool {
        self.interpreter != 0 && self.raw != 0
    }

    /// The address of the context.
    pub closed spec fn address(self) -> usize {
        self.raw
    }

    /// The address of the interpreter that made the context.
    pub closed spec fn owner(self) -> usize {
        self.interpreter
    }

    /// The context held at `raw`, made by the interpreter at `owner`.
    pub closed spec fn at(owner: usize, raw: usize) -> Context {
        Context { interpreter: owner, raw }
    }

    /// The address of the context, to hand back to mruby.
    pub fn handle(&self) -> (address: usize)
        ensures
            address == self.address(),
            address != 0,
    {
        proof {
            use_type_invariant(self);
        }
        self.raw
    }

    /// The address of the interpreter that made the context.
    pub fn interpreter(&self) -> (address: usize)
        ensures
            address == self.owner(),
            address != 0,
    {
        proof {
            use_type_invariant(self);
        }
        self.interpreter
    }

    /// The check before evaluating `source` under `name`: neither may carry
    /// a NUL byte, the source being checked first.
    pub fn eval(&self, source: &str, name: &str) -> (r: Result<(), Failure>)
        ensures
            match refusal(source, name) {
                None => r is Ok,
                Some(message) => r matches Err(f) && f.0@ == message,
            },
    {
        refuse(source, name)
    }

    /// The check before loading bytecode under `name`: the name may carry no
    /// NUL byte. Bytecode goes over with its length, so any bytes can.
    pub fn load(&self, name: &str) -> (r: Result<(), Failure>)
        ensures
            match name_refusal(name) {
                None => r is Ok,
                Some(message) => r matches Err(f) && f.0@ == message,
            },
    {
        if carries_nul(name) {
            Err(failure("the name carries a NUL byte"))
        } else {
            Ok(())
        }
    }
}


/// Source and names are refused only for a 0 byte: source whose UTF-8
/// bytes hold no 0, under a name whose bytes hold no 0, is never refused,
/// whatever else the text holds; a 0 byte in the source is refused as
/// such first, then one in the name.
pub proof fn lemma_refused_only_for_zero_bytes(source: &str, name: &str)
    ensures
        refusal(source, name) is None <==> (forall|i: int|
            0 <= i < source.spec_bytes().len() ==> source.spec_bytes()[i] != 0u8) && (forall|i: int|
            0 <= i < name.spec_bytes().len() ==> name.spec_bytes()[i] != 0u8),
        (exists|i: int| 0 <= i < source.spec_bytes().len() && source.spec_bytes()[i] == 0u8)
            ==> refusal(source, name) == Some("the source carries a NUL byte"@),
        name_refusal(name) is None <==> forall|i: int|
            0 <= i < name.spec_bytes().len() ==> name.spec_bytes()[i] != 0u8,
        (exists|i: int| 0 <= i < name.spec_bytes().len() && name.spec_bytes()[i] == 0u8)
            ==> name_refusal(name) == Some("the name carries a NUL byte"@),
{
    crate::text::lemma_nul_is_a_zero_byte(source);
    crate::text::lemma_nul_is_a_zero_byte(name);
}


/// An exception that renders reaches the message as it rendered; one that
/// does not is shown by the stand-in.
pub proof fn lemma_rendering_keeps_the_text(text: String)
    ensures
        rendering(seen(Some(text))) == text@,
        rendering(seen(None)) == "(an error that will not render)"@,
{
}

} // verus!
