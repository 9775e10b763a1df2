//! One run: open an interpreter, hand it the caller's context, open one
//! compile context, run every chunk through it in order, then the answer
//! expression, and hand back the string that expression produced.
//!
//! The run is a machine. Each outside step (a call into mruby) is an
//! `Action` the machine asks for; what the step gave back is the `Event`
//! handed to `Run::next`, which decides the next action. The last action
//! is always `Finish`, with the run's result.

use vstd::prelude::*;
use vstd::string::StringSliceAdditionalSpecFns;

use crate::engine::{
    context_refused, name_refusal, open_refused, refusal, rendering, seen, value_nul, Chunk, Context,
    Failure, Interpreter, Landing,
};
use crate::text::{has_nul, named};

verus! {

/// The global the caller's context is handed over in.
pub open spec fn global_name() -> Seq<char> {
    "$johnny_context"@
}

/// The name the answer expression carries in a backtrace.
pub open spec fn answer_name() -> Seq<char> {
    "<answer>"@
}

/// What a run says when its answer expression produced no string.
pub open spec fn unanswered(answer: Seq<char>) -> Seq<char> {
    answer + " produced no string"@
}

/// Where a run stands.
#[derive(Clone, Copy)]
pub enum Stage {
    /// Waiting for an interpreter.
    Opening,
    /// Waiting for the caller's context to land in its global.
    Handing,
    /// Waiting for a compile context.
    Contexting,
    /// Waiting for the chunk at this index to run.
    Running(usize),
    /// Waiting for the answer expression to run.
    Answering,
    /// Waiting for the exception a chunk or the answer raised to be
    /// cleared, holding the failure the run will finish with.
    Clearing,
    /// Finished, with nothing more to wait for.
    Over,
}

/// What an outside step gave back.
pub enum Event {
    /// `mrb_open` returned this address.
    Opened(usize),
    /// The global was set.
    GlobalSet,
    /// `mrb_ccontext_new` returned this address.
    ContextOpened(usize),
    /// A chunk, or the answer, was evaluated or loaded, and left this.
    Landed(Landing),
    /// The pending exception was cleared.
    Cleared,
}

/// The next outside step a run asks for.
pub enum Action<'a> {
    /// Open an interpreter.
    Open,
    /// Set the global of this name, in this interpreter, to this string.
    SetGlobal(Interpreter, &'a str, &'a str),
    /// Open a compile context in this interpreter.
    OpenContext(Interpreter),
    /// Evaluate this source, under this name, through this context.
    Eval(Context, &'a str, &'a str),
    /// Load and run this bytecode, under this name, through this context.
    Load(Context, &'a [u8], &'a str),
    /// Clear the exception pending in this interpreter.
    Clear(Interpreter),
    /// Close the context and the interpreter, if open, and return this.
    Finish(Result<String, Failure>),
}

/// An action, as the contracts speak of it.
pub enum Step {
    Open,
    SetGlobal(Interpreter, Seq<char>, Seq<char>),
    OpenContext(Interpreter),
    Eval(Context, Seq<char>, Seq<char>),
    Load(Context, Seq<u8>, Seq<char>),
    Clear(Interpreter),
    Finish(Result<Seq<char>, Seq<char>>),
}

impl<'a> View for Action<'a> {
    type V = Step;

    open spec fn view(&self) -> Step {
        match self {
            Action::Open => Step::Open,
            Action::SetGlobal(interpreter, name, value) => Step::SetGlobal(
                *interpreter,
                name@,
                value@,
            ),
            Action::OpenContext(interpreter) => Step::OpenContext(*interpreter),
            Action::Eval(context, source, name) => Step::Eval(*context, source@, name@),
            Action::Load(context, bytes, name) => Step::Load(*context, bytes@, name@),
            Action::Clear(interpreter) => Step::Clear(*interpreter),
            Action::Finish(Ok(text)) => Step::Finish(Ok(text@)),
            Action::Finish(Err(failure)) => Step::Finish(Err(failure.0@)),
        }
    }
}

/// The stage after `stage`, for a run of `count` chunks, with or without a
/// context to hand over, when the step of `stage` went well.
pub open spec fn successor(stage: Stage, count: nat, given: bool) -> Stage {
    match stage {
        Stage::Opening => if given {
            Stage::Handing
        } else {
            Stage::Contexting
        },
        Stage::Handing => Stage::Contexting,
        Stage::Contexting => if count > 0 {
            Stage::Running(0)
        } else {
            Stage::Answering
        },
        Stage::Running(i) => if i + 1 < count {
            Stage::Running((i + 1) as usize)
        } else {
            Stage::Answering
        },
        Stage::Answering => Stage::Over,
        Stage::Clearing => Stage::Over,
        Stage::Over => Stage::Over,
    }
}

/// The step that runs `chunk` through `context`, or the failure that stops
/// it from reaching C.
pub open spec fn chunk_step(chunk: Chunk, context: Context) -> Step {
    match chunk {
        Chunk::Source(source, name) => match refusal(source, name) {
            Some(message) => Step::Finish(Err(message)),
            None => Step::Eval(context, source@, name@),
        },
        Chunk::Bytecode(bytes, name) => match name_refusal(name) {
            Some(message) => Step::Finish(Err(message)),
            None => Step::Load(context, bytes@, name@),
        },
    }
}

/// The step that runs the answer expression through `context`, or the
/// failure that stops it from reaching C.
pub open spec fn answer_step(answer: &str, context: Context) -> Step {
    match refusal(answer, "<answer>") {
        Some(message) => Step::Finish(Err(message)),
        None => Step::Eval(context, answer@, answer_name()),
    }
}

/// The step a run asks for on reaching `stage`.
pub open spec fn entry<'a>(
    stage: Stage,
    chunks: Seq<Chunk<'a>>,
    answer: &'a str,
    given: Option<&'a str>,
    interpreter: Option<Interpreter>,
    context: Option<Context>,
) -> Step {
    match stage {
        Stage::Opening => Step::Open,
        Stage::Handing => if has_nul(given.unwrap()) {
            Step::Finish(Err(value_nul()))
        } else {
            Step::SetGlobal(interpreter.unwrap(), global_name(), given.unwrap()@)
        },
        Stage::Contexting => Step::OpenContext(interpreter.unwrap()),
        Stage::Running(i) => chunk_step(chunks[i as int], context.unwrap()),
        Stage::Answering => answer_step(answer, context.unwrap()),
        Stage::Clearing => Step::Clear(interpreter.unwrap()),
        Stage::Over => Step::Finish(Err(Seq::empty())),
    }
}

/// Whether a run at `stage` is waiting for `event`.
pub open spec fn expects(stage: Stage, event: Event) -> bool {
    match stage {
        Stage::Opening => event is Opened,
        Stage::Handing => event is GlobalSet,
        Stage::Contexting => event is ContextOpened,
        Stage::Running(_) => event is Landed,
        Stage::Answering => event is Landed,
        Stage::Clearing => event is Cleared,
        Stage::Over => false,
    }
}

/// Whether a run may stand at `stage` with these handles.
pub open spec fn fits(
    stage: Stage,
    count: nat,
    given: bool,
    interpreter: Option<Interpreter>,
    context: Option<Context>,
) -> bool {
    &&& (stage matches Stage::Running(i) ==> i < count)
    &&& (stage is Handing ==> given)
    &&& (stage is Handing || stage is Contexting || stage is Running || stage is Answering
        || stage is Clearing) ==> interpreter is Some
    &&& (stage is Running || stage is Answering) ==> context is Some
}

/// The stages of a run of `count` chunks in which every step goes well,
/// in order.
pub open spec fn schedule(count: nat, given: bool) -> Seq<Stage> {
    seq![Stage::Opening] + (if given {
        seq![Stage::Handing]
    } else {
        Seq::empty()
    }) + seq![Stage::Contexting] + Seq::new(count, |i: int| Stage::Running(i as usize)) + seq![
        Stage::Answering,
        Stage::Over,
    ]
}

/// One run of some chunks and an answer expression.
pub struct Run<'a> {
    chunks: &'a [Chunk<'a>],
    answer: &'a str,
    given: Option<&'a str>,
    stage: Stage,
    interpreter: Option<Interpreter>,
    context: Option<Context>,
    failure: Option<Failure>,
}

/// `run` and `next` leave the run at `next`, with these handles, asking for
/// the step of `next`; or, when that step is a failure found before any
/// call, finished with it.
pub open spec fn advanced<'a>(
    before: Run<'a>,
    after: Run<'a>,
    step: Step,
    next: Stage,
    interpreter: Option<Interpreter>,
    context: Option<Context>,
) -> bool {
    let issued = entry(next, before.chunks(), before.answer(), before.given(), interpreter, context);
    &&& step == issued
    &&& after.interpreter() == interpreter
    &&& after.context() == context
    &&& after.stage() == if issued is Finish {
        Stage::Over
    } else {
        next
    }
}

/// The run is over, finished with `result`.
pub open spec fn stopped<'a>(after: Run<'a>, step: Step, result: Result<Seq<char>, Seq<char>>) -> bool {
    &&& after.stage() == Stage::Over
    &&& step == Step::Finish(result)
}

/// A run, as the laws speak of it: what it was given, where it stands,
/// the handles it holds and the failure it holds while an exception is
/// being cleared.
pub struct Model<'a> {
    pub chunks: Seq<Chunk<'a>>,
    pub answer: &'a str,
    pub given: Option<&'a str>,
    pub stage: Stage,
    pub interpreter: Option<Interpreter>,
    pub context: Option<Context>,
    pub pending: Option<Seq<char>>,
}

/// The name of what a run at `stage` is evaluating: the chunk's, or the
/// answer's.
pub open spec fn name_at<'a>(chunks: Seq<Chunk<'a>>, stage: Stage) -> Seq<char> {
    match stage {
        Stage::Running(i) => chunks[i as int].name_of()@,
        _ => answer_name(),
    }
}

/// A run that moves on to `next` with these handles, and the step it asks
/// for there; a step refused before any call finishes the run instead.
pub open spec fn moved<'a>(
    m: Model<'a>,
    next: Stage,
    interpreter: Option<Interpreter>,
    context: Option<Context>,
) -> (Model<'a>, Step) {
    let step = entry(next, m.chunks, m.answer, m.given, interpreter, context);
    (
        Model {
            stage: if step is Finish {
                Stage::Over
            } else {
                next
            },
            interpreter,
            context,
            pending: None,
            ..m
        },
        step,
    )
}

/// A run that finishes with `result`.
pub open spec fn ended<'a>(m: Model<'a>, result: Result<Seq<char>, Seq<char>>) -> (Model<'a>, Step) {
    (Model { stage: Stage::Over, pending: None, ..m }, Step::Finish(result))
}

/// What a run does with `event`: where it then stands, and the step it asks
/// for next.
pub open spec fn transition<'a>(m: Model<'a>, event: Event) -> (Model<'a>, Step) {
    let onward = successor(m.stage, m.chunks.len(), m.given is Some);
    match event {
        Event::Opened(state) => if state == 0 {
            ended(m, Err(open_refused()))
        } else {
            moved(m, onward, Some(Interpreter::at(state)), None)
        },
        Event::GlobalSet => moved(m, onward, m.interpreter, m.context),
        Event::ContextOpened(raw) => if raw == 0 {
            ended(m, Err(context_refused()))
        } else {
            moved(m, onward, m.interpreter, Some(Context::at(m.interpreter.unwrap().address(), raw)))
        },
        Event::Landed(Landing::Raised(text)) => (
            Model {
                stage: Stage::Clearing,
                pending: Some(named(name_at(m.chunks, m.stage), rendering(seen(text)))),
                ..m
            },
            Step::Clear(m.interpreter.unwrap()),
        ),
        Event::Landed(Landing::Returned(text)) => if m.stage is Answering {
            ended(
                m,
                match seen(text) {
                    Some(t) => Ok(t),
                    None => Err(unanswered(m.answer@)),
                },
            )
        } else {
            moved(m, onward, m.interpreter, m.context)
        },
        Event::Cleared => ended(m, Err(m.pending.unwrap())),
    }
}

/// The steps a run at `m` asks for as it takes `events` in order, and where
/// it then stands.
pub open spec fn replay<'a>(m: Model<'a>, events: Seq<Event>) -> (Model<'a>, Seq<Step>)
    decreases events.len(),
{
    if events.len() == 0 {
        (m, Seq::empty())
    } else {
        let (next, step) = transition(m, events[0]);
        let (last, rest) = replay(next, events.drop_first());
        (last, seq![step] + rest)
    }
}

/// Whether a run at `m` waits for each of `events` in turn.
pub open spec fn takes<'a>(m: Model<'a>, events: Seq<Event>) -> bool
    decreases events.len(),
{
    events.len() == 0 || (expects(m.stage, events[0]) && takes(
        transition(m, events[0]).0,
        events.drop_first(),
    ))
}

impl<'a> View for Run<'a> {
    type V = Model<'a>;

    closed spec fn view(&self) -> Model<'a> {
        Model {
            chunks: self.chunks@,
            answer: self.answer,
            given: self.given,
            stage: self.stage,
            interpreter: self.interpreter,
            context: self.context,
            pending: match self.failure {
                Some(f) => Some(f.0@),
                None => None,
            },
        }
    }
}

impl<'a> Run<'a> {
    #[verifier::type_invariant]
    spec fn held(self) -> bool {
        &&& fits(self.stage, self.chunks@.len(), self.given is Some, self.interpreter, self.context)
        &&& (self.stage is Clearing ==> self.failure is Some)
    }

    /// The chunks to run, in order.
    pub closed spec fn chunks(self) -> Seq<Chunk<'a>> {
        self.chunks@
    }

    /// The expression whose string the run hands back.
    pub closed spec fn answer(self) -> &'a str {
        self.answer
    }

    /// The context handed to the program before anything runs.
    pub closed spec fn given(self) -> Option<&'a str> {
        self.given
    }

    /// Where the run stands.
    pub closed spec fn stage(self) -> Stage {
        self.stage
    }

    /// The run's interpreter, once open.
    pub closed spec fn interpreter(self) -> Option<Interpreter> {
        self.interpreter
    }

    /// The run's compile context, once open.
    pub closed spec fn context(self) -> Option<Context> {
        self.context
    }

    /// The message of the failure the run will finish with, once its
    /// exception is cleared.
    pub closed spec fn pending(self) -> Option<Seq<char>> {
        match self.failure {
            Some(f) => Some(f.0@),
            None => None,
        }
    }

    /// Whether the run is waiting for `event`.
    pub open spec fn awaits(self, event: Event) -> bool {
        expects(self.stage(), event)
    }

    /// The stage the run moves to when its current step goes well.
    pub open spec fn onward(self) -> Stage {
        successor(self.stage(), self.chunks().len(), self.given() is Some)
    }

    /// The name of what the run is evaluating: the current chunk's, or the
    /// answer's.
    pub open spec fn current_name(self) -> Seq<char> {
        match self.stage() {
            Stage::Running(i) => self.chunks()[i as int].name_of()@,
            _ => answer_name(),
        }
    }

    /// Whether the run is waiting for `event`.
    pub fn accepts(&self, event: &Event) -> (waiting: bool)
        ensures
            waiting == self.awaits(*event),
    {
        match self.stage {
            Stage::Opening => matches!(event, Event::Opened(_)),
            Stage::Handing => matches!(event, Event::GlobalSet),
            Stage::Contexting => matches!(event, Event::ContextOpened(_)),
            Stage::Running(_) => matches!(event, Event::Landed(_)),
            Stage::Answering => matches!(event, Event::Landed(_)),
            Stage::Clearing => matches!(event, Event::Cleared),
            Stage::Over => false,
        }
    }

    /// Whether the run has finished.
    pub fn is_over(&self) -> (over: bool)
        ensures
            over == (self.stage() == Stage::Over),
    {
        matches!(self.stage, Stage::Over)
    }

    /// The stage after the current one, when its step goes well.
    fn following(&self) -> (stage: Stage)
        ensures
            stage == self.onward(),
    {
        proof {
            use_type_invariant(self);
        }
        match self.stage {
            Stage::Opening => if self.given.is_some() {
                Stage::Handing
            } else {
                Stage::Contexting
            },
            Stage::Handing => Stage::Contexting,
            Stage::Contexting => if self.chunks.len() > 0 {
                Stage::Running(0)
            } else {
                Stage::Answering
            },
            Stage::Running(i) => if i < self.chunks.len() - 1 {
                Stage::Running(i + 1)
            } else {
                Stage::Answering
            },
            Stage::Answering => Stage::Over,
            Stage::Clearing => Stage::Over,
            Stage::Over => Stage::Over,
        }
    }

    /// The action that asks for the step of `stage`.
    fn issue(&self, stage: Stage, interpreter: Option<Interpreter>, context: Option<Context>) -> (action: Action<'a>)
        requires
            fits(stage, self.chunks@.len(), self.given is Some, interpreter, context),
            !(stage is Over),
            !(stage is Clearing),
        ensures
            action@ == entry(stage, self.chunks(), self.answer(), self.given(), interpreter, context),
    {
        match stage {
            Stage::Opening => Action::Open,
            Stage::Handing => {
                let interpreter = interpreter.unwrap();
                let value = self.given.unwrap();
                proof {
                    lemma_global_name_clean();
                }
                match interpreter.set_global("$johnny_context", value) {
                    Ok(()) => Action::SetGlobal(interpreter, "$johnny_context", value),
                    Err(failure) => Action::Finish(Err(failure)),
                }
            },
            Stage::Contexting => Action::OpenContext(interpreter.unwrap()),
            Stage::Running(i) => {
                let context = context.unwrap();
                match &self.chunks[i] {
                    Chunk::Source(source, name) => match context.eval(source, name) {
                        Ok(()) => Action::Eval(context, source, name),
                        Err(failure) => Action::Finish(Err(failure)),
                    },
                    Chunk::Bytecode(bytes, name) => match context.load(name) {
                        Ok(()) => Action::Load(context, bytes, name),
                        Err(failure) => Action::Finish(Err(failure)),
                    },
                }
            },
            Stage::Answering => {
                let context = context.unwrap();
                match context.eval(self.answer, "<answer>") {
                    Ok(()) => Action::Eval(context, self.answer, "<answer>"),
                    Err(failure) => Action::Finish(Err(failure)),
                }
            },
            Stage::Clearing => Action::Clear(interpreter.unwrap()),
            Stage::Over => unreached(),
        }
    }

    /// Move to `stage` with these handles and ask for its step; or finish,
    /// when that step is refused before any call.
    fn enter(&mut self, stage: Stage, interpreter: Option<Interpreter>, context: Option<Context>) -> (action: Action<'a>)
        requires
            fits(stage, old(self).chunks@.len(), old(self).given is Some, interpreter, context),
            !(stage is Over),
            !(stage is Clearing),
        ensures
            advanced(*old(self), *final(self), action@, stage, interpreter, context),
            (final(self)@, action@) == moved(old(self)@, stage, interpreter, context),
            final(self).chunks() == old(self).chunks(),
            final(self).answer() == old(self).answer(),
            final(self).given() == old(self).given(),
    {
        let action = self.issue(stage, interpreter, context);
        let reached = match &action {
            Action::Finish(_) => Stage::Over,
            _ => stage,
        };
        *self = Run {
            chunks: self.chunks,
            answer: self.answer,
            given: self.given,
            stage: reached,
            interpreter,
            context,
            failure: None,
        };
        action
    }

    /// Finish the run with `result`.
    fn stop(&mut self, result: Result<String, Failure>) -> (action: Action<'a>)
        ensures
            final(self).stage() == Stage::Over,
            final(self).chunks() == old(self).chunks(),
            final(self).answer() == old(self).answer(),
            final(self).given() == old(self).given(),
            action == Action::<'a>::Finish(result),
            final(self)@ == ended(old(self)@, Err(Seq::empty())).0,
    {
        *self = Run {
            chunks: self.chunks,
            answer: self.answer,
            given: self.given,
            stage: Stage::Over,
            interpreter: self.interpreter,
            context: self.context,
            failure: None,
        };
        Action::Finish(result)
    }

    /// Hold `failure` and ask for the pending exception to be cleared
    /// before the run finishes with it.
    fn hold(&mut self, failure: Failure) -> (action: Action<'a>)
        requires
            old(self).interpreter() is Some,
        ensures
            final(self).stage() == Stage::Clearing,
            final(self).chunks() == old(self).chunks(),
            final(self).answer() == old(self).answer(),
            final(self).given() == old(self).given(),
            final(self).interpreter() == old(self).interpreter(),
            final(self).context() == old(self).context(),
            final(self).pending() == Some(failure.0@),
            action@ == Step::Clear(old(self).interpreter().unwrap()),
            final(self)@ == (Model {
                stage: Stage::Clearing,
                pending: Some(failure.0@),
                ..old(self)@
            }),
    {
        let interpreter = self.interpreter.unwrap();
        *self = Run {
            chunks: self.chunks,
            answer: self.answer,
            given: self.given,
            stage: Stage::Clearing,
            interpreter: self.interpreter,
            context: self.context,
            failure: Some(failure),
        };
        Action::Clear(interpreter)
    }

    /// Take what the last step gave back, and ask for the next step.
    ///
    /// An interpreter or context that mruby could not allocate finishes
    /// the run with a failure. A chunk that raised has its exception
    /// cleared, then finishes the run with a failure whose message starts
    /// with the chunk's name. A chunk that ran moves the run
    /// to the next chunk, and the last one to the answer. The answer's
    /// string finishes the run; an answer that is no string finishes it
    /// with a failure.
    pub fn next(&mut self, event: Event) -> (action: Action<'a>)
        requires
            old(self).awaits(event),
        ensures
            final(self).chunks() == old(self).chunks(),
            final(self).answer() == old(self).answer(),
            final(self).given() == old(self).given(),
            (action@ is Finish) == (final(self).stage() == Stage::Over),
            (final(self)@, action@) == transition(old(self)@, event),
            match event {
                Event::Opened(state) => if state == 0 {
                    stopped(*final(self), action@, Err(open_refused()))
                } else {
                    &&& final(self).interpreter() matches Some(interpreter)
                    &&& interpreter.address() == state
                    &&& advanced(
                        *old(self),
                        *final(self),
                        action@,
                        old(self).onward(),
                        final(self).interpreter(),
                        None,
                    )
                },
                Event::GlobalSet => advanced(
                    *old(self),
                    *final(self),
                    action@,
                    old(self).onward(),
                    old(self).interpreter(),
                    old(self).context(),
                ),
                Event::ContextOpened(raw) => if raw == 0 {
                    stopped(*final(self), action@, Err(context_refused()))
                } else {
                    &&& final(self).context() matches Some(context)
                    &&& context.address() == raw
                    &&& old(self).interpreter() matches Some(interpreter)
                    &&& context.owner() == interpreter.address()
                    &&& advanced(
                        *old(self),
                        *final(self),
                        action@,
                        old(self).onward(),
                        old(self).interpreter(),
                        final(self).context(),
                    )
                },
                Event::Landed(Landing::Raised(text)) => {
                    &&& final(self).stage() == Stage::Clearing
                    &&& action@ == Step::Clear(old(self).interpreter().unwrap())
                    &&& final(self).pending() == Some(
                        named(old(self).current_name(), rendering(seen(text))),
                    )
                    &&& final(self).interpreter() == old(self).interpreter()
                    &&& final(self).context() == old(self).context()
                },
                Event::Cleared => stopped(*final(self), action@, Err(old(self).pending().unwrap())),
                Event::Landed(Landing::Returned(text)) => if old(self).stage() is Answering {
                    stopped(
                        *final(self),
                        action@,
                        match seen(text) {
                            Some(t) => Ok(t),
                            None => Err(unanswered(old(self).answer()@)),
                        },
                    )
                } else {
                    advanced(
                        *old(self),
                        *final(self),
                        action@,
                        old(self).onward(),
                        old(self).interpreter(),
                        old(self).context(),
                    )
                },
            },
    {
        proof {
            use_type_invariant(&*self);
            lemma_answer_name_clean();
        }
        let onward = self.following();
        match event {
            Event::Opened(state) => match Interpreter::open(state) {
                Err(failure) => self.stop(Err(failure)),
                Ok(interpreter) => self.enter(onward, Some(interpreter), None),
            },
            Event::GlobalSet => self.enter(onward, self.interpreter, self.context),
            Event::ContextOpened(raw) => {
                let interpreter = self.interpreter.unwrap();
                match interpreter.context(raw) {
                    Err(failure) => self.stop(Err(failure)),
                    Ok(context) => self.enter(onward, self.interpreter, Some(context)),
                }
            },
            Event::Landed(landing) => {
                let name: &str = match self.stage {
                    Stage::Running(i) => match &self.chunks[i] {
                        Chunk::Source(_, name) => name,
                        Chunk::Bytecode(_, name) => name,
                    },
                    _ => "<answer>",
                };
                match Interpreter::landed(landing, name) {
                    Err(failure) => self.hold(failure),
                    Ok(text) => if matches!(self.stage, Stage::Answering) {
                        match text {
                            Some(text) => self.stop(Ok(text)),
                            None => {
                                let mut message = String::from_str(self.answer);
                                message.append(" produced no string");
                                self.stop(Err(Failure(message)))
                            },
                        }
                    } else {
                        self.enter(onward, self.interpreter, self.context)
                    },
                }
            },
            Event::Cleared => {
                let mut finished = Run {
                    chunks: self.chunks,
                    answer: self.answer,
                    given: self.given,
                    stage: Stage::Over,
                    interpreter: self.interpreter,
                    context: self.context,
                    failure: None,
                };
                std::mem::swap(self, &mut finished);
                match finished.failure {
                    Some(failure) => Action::Finish(Err(failure)),
                    None => unreached(),
                }
            },
        }
    }
}

/// Begin a run: `chunks` in order, then `answer`, whose string the run
/// hands back, with `given` handed to the program first as the global
/// `$johnny_context`. The run asks first for an interpreter.
pub fn run<'a>(chunks: &'a [Chunk<'a>], answer: &'a str, given: Option<&'a str>) -> (begun: (
    Run<'a>,
    Action<'a>,
))
    ensures
        begun.0.chunks() == chunks@,
        begun.0.answer() == answer,
        begun.0.given() == given,
        begun.0.stage() == Stage::Opening,
        begun.0.interpreter() is None,
        begun.0.context() is None,
        begun.1@ == Step::Open,
{
    let session = Run {
        chunks,
        answer,
        given,
        stage: Stage::Opening,
        interpreter: None,
        context: None,
        failure: None,
    };
    (session, Action::Open)
}

/// A run in which every step goes well moves through its stages in this
/// order: it opens an interpreter, hands over the caller's context when
/// there is one, opens a compile context, runs every chunk once, in order,
/// then the answer, and is over.
pub proof fn lemma_stages_in_order(count: nat, given: bool, k: int)
    requires
        count <= usize::MAX,
        0 <= k < schedule(count, given).len() - 1,
    ensures
        schedule(count, given)[0] == Stage::Opening,
        schedule(count, given).last() == Stage::Over,
        successor(schedule(count, given)[k], count, given) == schedule(count, given)[k + 1],
{
    let s = schedule(count, given);
    let head: int = if given { 2 } else { 1 };
    assert(s.len() == head + 1 + count + 2);
    if k < head {
        if given && k == 1 {
            assert(s[1] == Stage::Handing);
        }
        assert(s[0] == Stage::Opening);
    } else if k == head {
        assert(s[k] == Stage::Contexting);
        if count > 0 {
            assert(s[k + 1] == Stage::Running(0));
        } else {
            assert(s[k + 1] == Stage::Answering);
        }
    } else if k < head + 1 + count {
        let i = k - head - 1;
        assert(s[k] == Stage::Running(i as usize));
        if i + 1 < count {
            assert(s[k + 1] == Stage::Running((i + 1) as usize));
        } else {
            assert(s[k + 1] == Stage::Answering);
        }
    } else {
        assert(s[k] == Stage::Answering);
        assert(s[k + 1] == Stage::Over);
    }
}

/// Every run starts clean: the interpreter is asked for first, and no
/// stage leads back to asking for another.
pub proof fn lemma_opened_once(stage: Stage, count: nat, given: bool)
    ensures
        successor(stage, count, given) != Stage::Opening,
{
}

/// A run that is over waits for nothing more and stays over.
pub proof fn lemma_over_is_final(event: Event, count: nat, given: bool)
    ensures
        !expects(Stage::Over, event),
        successor(Stage::Over, count, given) == Stage::Over,
{
}

/// An exception a chunk or the answer raised is cleared before the run
/// finishes: a run holding its failure waits for the clearing alone, and
/// then is over.
pub proof fn lemma_cleared_before_finishing(event: Event, count: nat, given: bool)
    ensures
        expects(Stage::Clearing, event) <==> event is Cleared,
        successor(Stage::Clearing, count, given) == Stage::Over,
{
}

/// The answer, when it can reach C, is evaluated under the name `<answer>`
/// through the run's context.
pub proof fn lemma_answer_evaluated(answer: &str, context: Context)
    requires
        !has_nul(answer),
    ensures
        answer_step(answer, context) == Step::Eval(context, answer@, answer_name()),
{
    lemma_answer_name_clean();
}

/// The caller's context, when there is one, is handed over as the global
/// `$johnny_context` of the run's interpreter; the name always reaches C,
/// and a value that carries a NUL byte finishes the run instead.
pub proof fn lemma_context_handed_over(value: &str, interpreter: Interpreter)
    ensures
        entry(Stage::Handing, Seq::empty(), "", Some(value), Some(interpreter), None) == if has_nul(
            value,
        ) {
            Step::Finish(Err(value_nul()))
        } else {
            Step::SetGlobal(interpreter, global_name(), value@)
        },
        !has_nul("$johnny_context"),
{
    lemma_global_name_clean();
}

/// The landings a run receives for its remaining chunks, each returning
/// `returned[j]`, followed by the answer returning `value`.
pub open spec fn clean_landings(returned: Seq<Option<String>>, value: String) -> Seq<Event> {
    Seq::new(returned.len(), |j: int| Event::Landed(Landing::Returned(returned[j]))).push(
        Event::Landed(Landing::Returned(Some(value))),
    )
}

/// The step that follows chunk `k` of a run: the next chunk through the
/// run's context, or the answer.
pub open spec fn after_chunk<'a>(m: Model<'a>, k: int) -> Step {
    if k + 1 < m.chunks.len() {
        chunk_step(m.chunks[k + 1], m.context.unwrap())
    } else {
        answer_step(m.answer, m.context.unwrap())
    }
}

/// Replaying one event is one transition.
proof fn lemma_replay_one<'a>(m: Model<'a>, event: Event)
    ensures
        replay(m, seq![event]) == (transition(m, event).0, seq![transition(m, event).1]),
        takes(m, seq![event]) == expects(m.stage, event),
{
    let one = seq![event];
    assert(one.drop_first() =~= Seq::<Event>::empty());
    assert(one[0] == event);
    let (next, step) = transition(m, event);
    assert(replay(next, Seq::<Event>::empty()) == (next, Seq::<Step>::empty()));
    assert(seq![step] + Seq::<Step>::empty() =~= seq![step]);
    assert(takes(next, Seq::<Event>::empty()));
}

/// A chunk that ran moves a run on to the next chunk, or to the answer,
/// asking for its step, when that step is not refused before C.
proof fn lemma_chunk_ran<'a>(m: Model<'a>, i: nat, text: Option<String>)
    requires
        i < m.chunks.len() <= usize::MAX,
        m.stage == Stage::Running(i as usize),
        m.context is Some,
        !(after_chunk(m, i as int) is Finish),
    ensures
        expects(m.stage, Event::Landed(Landing::Returned(text))),
        transition(m, Event::Landed(Landing::Returned(text))) == (
            Model {
                stage: if i + 1 < m.chunks.len() {
                    Stage::Running((i + 1) as usize)
                } else {
                    Stage::Answering
                },
                pending: None,
                ..m
            },
            after_chunk(m, i as int),
        ),
{
}

/// A run waiting on chunk `i` (or on the answer, when `i` is the number of
/// chunks), none of whose later chunks nor answer is refused before C,
/// evaluates the remaining chunks one after another, in order, then the
/// answer; when every one of them runs and the answer is a string, the run
/// finishes with that string.
pub proof fn lemma_clean_run_answers<'a>(
    m: Model<'a>,
    i: nat,
    returned: Seq<Option<String>>,
    value: String,
)
    requires
        i <= m.chunks.len() <= usize::MAX,
        m.stage == if i < m.chunks.len() {
            Stage::Running(i as usize)
        } else {
            Stage::Answering
        },
        m.context is Some,
        forall|k: int| i <= k < m.chunks.len() ==> !(#[trigger] after_chunk(m, k) is Finish),
        returned.len() == m.chunks.len() - i,
    ensures
        takes(m, clean_landings(returned, value)),
        replay(m, clean_landings(returned, value)).0.stage == Stage::Over,
        replay(m, clean_landings(returned, value)).1.len() == returned.len() + 1,
        replay(m, clean_landings(returned, value)).1.last() == Step::Finish(Ok(value@)),
        forall|j: int|
            0 <= j < returned.len() ==> #[trigger] replay(m, clean_landings(returned, value)).1[j]
                == after_chunk(m, i + j),
    decreases m.chunks.len() - i,
{
    let events = clean_landings(returned, value);
    if i == m.chunks.len() {
        let last = Event::Landed(Landing::Returned(Some(value)));
        assert(events =~= seq![last]);
        lemma_replay_one(m, last);
    } else {
        let (next, step) = transition(m, events[0]);
        assert(events[0] == Event::Landed(Landing::Returned(returned[0])));
        assert(after_chunk(m, i as int) == after_chunk(m, i as int));
        lemma_chunk_ran(m, i, returned[0]);
        let rest = returned.drop_first();
        assert(events.drop_first() =~= clean_landings(rest, value));
        assert forall|k: int| i + 1 <= k < next.chunks.len() implies !(#[trigger] after_chunk(
            next,
            k,
        ) is Finish) by {
            assert(after_chunk(next, k) == after_chunk(m, k));
        }
        lemma_clean_run_answers(next, i + 1, rest, value);
        let steps = replay(next, events.drop_first()).1;
        assert(replay(m, events).1 == seq![step] + steps);
        assert forall|j: int| 0 <= j < returned.len() implies #[trigger] replay(m, events).1[j]
            == after_chunk(m, i + j) by {
            if j > 0 {
                assert(replay(m, events).1[j] == steps[j - 1]);
                assert(after_chunk(next, (i + 1) + (j - 1)) == after_chunk(m, i + j));
            }
        }
    }
}

/// A chunk (or the answer) that raises ends the run: the run asks for the
/// exception to be cleared, waits for that alone, then finishes with a
/// failure that starts with the chunk's name and carries Ruby's message;
/// nothing after it runs, so no later evaluation can see the failure.
pub proof fn lemma_raise_ends_run<'a>(m: Model<'a>, text: Option<String>, then: Event, rest: Seq<Event>)
    requires
        m.stage is Running || m.stage is Answering,
        m.interpreter is Some,
    ensures
        takes(m, seq![Event::Landed(Landing::Raised(text)), then] + rest) ==> then is Cleared
            && rest.len() == 0,
        replay(m, seq![Event::Landed(Landing::Raised(text)), Event::Cleared]).1 == seq![
            Step::Clear(m.interpreter.unwrap()),
            Step::Finish(Err(named(name_at(m.chunks, m.stage), rendering(seen(text))))),
        ],
        replay(m, seq![Event::Landed(Landing::Raised(text)), Event::Cleared]).0.stage == Stage::Over,
{
    let raised = Event::Landed(Landing::Raised(text));
    let events = seq![raised, then] + rest;
    let (clearing, _) = transition(m, raised);
    assert(clearing.stage == Stage::Clearing);
    assert(events[0] == raised);
    assert(events.drop_first()[0] == then);
    if takes(m, events) {
        assert(takes(clearing, events.drop_first()));
        assert(expects(Stage::Clearing, then));
        let (over, _) = transition(clearing, then);
        assert(over.stage == Stage::Over);
        assert(events.drop_first().drop_first() =~= rest);
        if rest.len() > 0 {
            assert(takes(over, rest));
            assert(!expects(Stage::Over, rest[0]));
        }
    }
    let two = seq![raised, Event::Cleared];
    assert(two.drop_first() =~= seq![Event::Cleared]);
    assert(two.drop_first().drop_first() =~= Seq::<Event>::empty());
    lemma_replay_one(clearing, Event::Cleared);
    let (over, last) = transition(clearing, Event::Cleared);
    assert(replay(m, two).1 =~= seq![Step::Clear(m.interpreter.unwrap()), last]);
}


/// Every chunk whose text and name hold no 0 byte reaches mruby unchanged,
/// under its own name, through the run's context: source is evaluated,
/// bytecode loaded, whatever else the text holds (non-ASCII, backslashes).
pub proof fn lemma_clean_chunks_reach_c(source: &str, bytes: &[u8], name: &str, context: Context)
    requires
        forall|i: int| 0 <= i < name.spec_bytes().len() ==> name.spec_bytes()[i] != 0u8,
    ensures
        (forall|i: int| 0 <= i < source.spec_bytes().len() ==> source.spec_bytes()[i] != 0u8)
            ==> chunk_step(Chunk::Source(source, name), context) == Step::Eval(
            context,
            source@,
            name@,
        ),
        chunk_step(Chunk::Bytecode(bytes, name), context) == Step::Load(context, bytes@, name@),
{
    crate::engine::lemma_refused_only_for_zero_bytes(source, name);
}

/// The answer, when its bytes hold no 0, is evaluated unchanged under the
/// name `<answer>`.
pub proof fn lemma_clean_answer_reaches_c(answer: &str, context: Context)
    requires
        forall|i: int| 0 <= i < answer.spec_bytes().len() ==> answer.spec_bytes()[i] != 0u8,
    ensures
        answer_step(answer, context) == Step::Eval(context, answer@, "<answer>"@),
{
    crate::text::lemma_nul_is_a_zero_byte(answer);
    lemma_answer_evaluated(answer, context);
}

/// A context to hand over whose bytes hold no 0 is set, unchanged, as the
/// global `$johnny_context` of the run's interpreter, whatever else it
/// holds (JSON escapes, non-ASCII text); one with a 0 byte finishes the run.
pub proof fn lemma_given_context_reaches_c(value: &str, interpreter: Interpreter)
    ensures
        (forall|i: int| 0 <= i < value.spec_bytes().len() ==> value.spec_bytes()[i] != 0u8)
            ==> entry(Stage::Handing, Seq::empty(), "", Some(value), Some(interpreter), None)
            == Step::SetGlobal(interpreter, "$johnny_context"@, value@),
        (exists|i: int| 0 <= i < value.spec_bytes().len() && value.spec_bytes()[i] == 0u8)
            ==> entry(Stage::Handing, Seq::empty(), "", Some(value), Some(interpreter), None)
            == Step::Finish(Err("the value carries a NUL byte"@)),
{
    crate::text::lemma_nul_is_a_zero_byte(value);
}

/// A chunk that raises finishes the run with a message that starts with
/// the chunk's own name, a colon and a space, followed by the exception's
/// text exactly as it rendered.
pub proof fn lemma_raise_names_the_chunk<'a>(m: Model<'a>, i: usize, text: String)
    requires
        m.stage == Stage::Running(i),
        i < m.chunks.len(),
        m.interpreter is Some,
    ensures
        ({
            let name = m.chunks[i as int].name_of()@;
            let finished = replay(m, seq![Event::Landed(Landing::Raised(Some(text))), Event::Cleared]).1[1];
            finished matches Step::Finish(Err(message)) && message.subrange(0, name.len() as int) == name
                && message.subrange(name.len() + 2int, message.len() as int) == text@
        }),
{
    lemma_raise_ends_run(m, Some(text), Event::Cleared, Seq::empty());
    crate::engine::lemma_rendering_keeps_the_text(text);
    crate::text::lemma_named_message(m.chunks[i as int].name_of()@, text@);
}
/// The name of the global the context is handed over in carries no NUL byte.
proof fn lemma_global_name_clean()
    ensures
        !has_nul("$johnny_context"),
{
    reveal_strlit("$johnny_context");
    let s = "$johnny_context";
    vstd::string::is_ascii_spec_bytes(s);
    assert(vstd::string::is_ascii(s));
    assert(!s.spec_bytes().contains(0u8));
}

/// The name the answer carries has no NUL byte.
proof fn lemma_answer_name_clean()
    ensures
        !has_nul("<answer>"),
{
    reveal_strlit("<answer>");
    let s = "<answer>";
    vstd::string::is_ascii_spec_bytes(s);
    assert(vstd::string::is_ascii(s));
    assert(!s.spec_bytes().contains(0u8));
}

} // verus!
