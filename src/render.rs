use vstd::prelude::*;
use vstd::string::*;

use crate::error::BridgeError;
use crate::marshal::{encode_output, null_terminated};

verus! {

/// The name of the function that a bundle declares for the bridge to call.
pub const ENTRY_POINT: &'static str = "renderEmail";

/// The diagnostic of an entry point that threw without a message.
pub const THREW_WITHOUT_MESSAGE: &'static str = "renderEmail threw an exception";

/// The fallible steps of one render, in the order they are taken.
#[derive(Debug, Clone, Copy, PartialEq, Eq, Structural)]
pub enum Stage {
    /// Compile the bundle text in a fresh context.
    Compile,
    /// Run the compiled bundle's top level.
    Evaluate,
    /// Parse the props document as JSON inside the context.
    ParseProps,
    /// Find the entry point on the context's global object.
    LookUp,
    /// Call the entry point with the parsed props.
    Call,
    /// Turn the entry point's result into text.
    Stringify,
    /// The render has its answer.
    Finished,
}

/// What the engine found under the entry point's name.
#[derive(Debug, Clone, Copy, PartialEq, Eq, Structural)]
pub enum EntryLookup {
    Missing,
    NotCallable,
    Callable,
}

/// How the engine step that a session asked for went.
#[derive(Debug, PartialEq, Eq)]
pub enum Outcome {
    /// Whether the bundle compiled.
    Compiled(bool),
    /// Whether the bundle's top level ran without throwing.
    Evaluated(bool),
    /// Whether the props document parsed as JSON.
    PropsParsed(bool),
    /// What stood under the entry point's name.
    EntryLooked(EntryLookup),
    /// The call returned, or threw with the engine's message.
    Called(Result<(), String>),
    /// The result's text, or `None` when it has none.
    Stringified(Option<String>),
}

/// What the caller of a session does next.
#[derive(Debug, PartialEq, Eq)]
pub enum Step {
    EvaluateBundle,
    ParseProps,
    LookUpEntryPoint,
    CallEntryPoint,
    Stringify,
    /// The render is over: the null-terminated output, or the error.
    Done(Result<Vec<u8>, BridgeError>),
}

/// The outcome that answers the engine step of `stage`.
pub open spec fn answers(stage: Stage, outcome: Outcome) -> bool {
    match outcome {
        Outcome::Compiled(_) => stage == Stage::Compile,
        Outcome::Evaluated(_) => stage == Stage::Evaluate,
        Outcome::PropsParsed(_) => stage == Stage::ParseProps,
        Outcome::EntryLooked(_) => stage == Stage::LookUp,
        Outcome::Called(_) => stage == Stage::Call,
        Outcome::Stringified(_) => stage == Stage::Stringify,
    }
}

/// The position of a stage in the order of a render.
pub open spec fn stage_rank(stage: Stage) -> nat {
    match stage {
        Stage::Compile => 0,
        Stage::Evaluate => 1,
        Stage::ParseProps => 2,
        Stage::LookUp => 3,
        Stage::Call => 4,
        Stage::Stringify => 5,
        Stage::Finished => 6,
    }
}

/// The diagnostic carried by a runtime error whose engine message is `msg`:
/// the message itself, or a fixed one when the engine gave none.
pub open spec fn runtime_diagnostic(msg: Seq<char>) -> Seq<char> {
    if msg.len() > 0 {
        msg
    } else {
        THREW_WITHOUT_MESSAGE@
    }
}

/// The step a session takes on `outcome`, over plain values: the stage it
/// moves to and, once finished, the bytes or the error it answers with.
pub open spec fn step_matches(outcome: Outcome, step: Step) -> bool {
    match outcome {
        Outcome::Compiled(ok) => if ok {
            step == Step::EvaluateBundle
        } else {
            step == Step::Done(Err(BridgeError::ScriptCompileError))
        },
        Outcome::Evaluated(ok) => if ok {
            step == Step::ParseProps
        } else {
            step == Step::Done(Err(BridgeError::ScriptEvaluationError))
        },
        Outcome::PropsParsed(ok) => if ok {
            step == Step::LookUpEntryPoint
        } else {
            step == Step::Done(Err(BridgeError::InvalidPropsJson))
        },
        Outcome::EntryLooked(found) => match found {
            EntryLookup::Missing => step == Step::Done(Err(BridgeError::EntryPointMissing)),
            EntryLookup::NotCallable => step == Step::Done(
                Err(BridgeError::EntryPointNotCallable),
            ),
            EntryLookup::Callable => step == Step::CallEntryPoint,
        },
        Outcome::Called(r) => match r {
            Ok(_) => step == Step::Stringify,
            Err(msg) => step matches Step::Done(Err(BridgeError::ScriptRuntimeError(d)))
                && d@ == runtime_diagnostic(msg@),
        },
        Outcome::Stringified(text) => match text {
            None => step == Step::Done(Err(BridgeError::ResultConversionError)),
            Some(t) => match null_terminated(t@) {
                Some(b) => step matches Step::Done(Ok(v)) && v@ == b,
                None => step == Step::Done(Err(BridgeError::EncodingError)),
            },
        },
    }
}

/// One render's progress through its steps. Each render owns its session;
/// nothing in it is shared with another render.
#[derive(Debug)]
pub struct RenderSession {
    pub stage: Stage,
}

impl RenderSession {
    /// A render that is about to compile its bundle.
    pub fn new() -> (r: RenderSession)
        ensures
            r.stage == Stage::Compile,
    {
        RenderSession { stage: Stage::Compile }
    }

    /// Takes the outcome of the engine step that the session asked for and
    /// says what comes next. The first failure ends the render with its own
    /// error; a successful stringification ends it with the output bytes.
    pub fn advance(&mut self, outcome: Outcome) -> (step: Step)
        requires
            answers(old(self).stage, outcome),
        ensures
            step_matches(outcome, step),
            step is Done <==> final(self).stage == Stage::Finished,
            stage_rank(final(self).stage) > stage_rank(old(self).stage),
            !(step is Done) ==> stage_rank(final(self).stage) == stage_rank(old(self).stage) + 1,
    {
        let step = match outcome {
            Outcome::Compiled(ok) => if ok {
                Step::EvaluateBundle
            } else {
                Step::Done(Err(BridgeError::ScriptCompileError))
            },
            Outcome::Evaluated(ok) => if ok {
                Step::ParseProps
            } else {
                Step::Done(Err(BridgeError::ScriptEvaluationError))
            },
            Outcome::PropsParsed(ok) => if ok {
                Step::LookUpEntryPoint
            } else {
                Step::Done(Err(BridgeError::InvalidPropsJson))
            },
            Outcome::EntryLooked(found) => match found {
                EntryLookup::Missing => Step::Done(Err(BridgeError::EntryPointMissing)),
                EntryLookup::NotCallable => Step::Done(Err(BridgeError::EntryPointNotCallable)),
                EntryLookup::Callable => Step::CallEntryPoint,
            },
            Outcome::Called(r) => match r {
                Ok(_) => Step::Stringify,
                Err(msg) => Step::Done(Err(BridgeError::ScriptRuntimeError(diagnostic(msg)))),
            },
            Outcome::Stringified(text) => match text {
                None => Step::Done(Err(BridgeError::ResultConversionError)),
                Some(t) => Step::Done(encode_output(t.as_str())),
            },
        };
        self.stage = match step {
            Step::EvaluateBundle => Stage::Evaluate,
            Step::ParseProps => Stage::ParseProps,
            Step::LookUpEntryPoint => Stage::LookUp,
            Step::CallEntryPoint => Stage::Call,
            Step::Stringify => Stage::Stringify,
            Step::Done(_) => Stage::Finished,
        };
        step
    }
}

/// The diagnostic for an entry point that threw with message `msg`.
fn diagnostic(msg: String) -> (d: String)
    ensures
        d@ == runtime_diagnostic(msg@),
{
    if msg.as_str().is_empty() {
        THREW_WITHOUT_MESSAGE.to_owned()
    } else {
        msg
    }
}

/// Two steps that say the same thing: equal, with byte and text payloads
/// compared by their contents.
pub open spec fn same_answer(a: Step, b: Step) -> bool {
    match (a, b) {
        (Step::Done(Ok(x)), Step::Done(Ok(y))) => x@ == y@,
        (
            Step::Done(Err(BridgeError::ScriptRuntimeError(x))),
            Step::Done(Err(BridgeError::ScriptRuntimeError(y))),
        ) => x@ == y@,
        _ => a == b,
    }
}

/// A render's answer depends on nothing but what the engine reports: two
/// sessions that receive the same outcome take the same step, so renders
/// whose engine steps go alike give identical output.
pub proof fn lemma_same_outcome_same_answer(outcome: Outcome, a: Step, b: Step)
    requires
        step_matches(outcome, a),
        step_matches(outcome, b),
    ensures
        same_answer(a, b),
{
}

/// A runtime error never comes without a diagnostic: whatever message the
/// engine gave, the error the session reports carries non-empty text.
pub proof fn lemma_runtime_error_has_diagnostic(msg: Seq<char>)
    ensures
        runtime_diagnostic(msg).len() > 0,
{
    reveal_strlit("renderEmail threw an exception");
}

} // verus!
