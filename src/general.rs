use vstd::prelude::*;

use crate::ai_functions::{instruction_of, AiFunction};
use crate::llm::Message;

verus! {

/// The errors that end a phase of the pipeline.
#[derive(Debug, Clone, Copy, PartialEq, Eq, Structural)]
pub enum PipelineError {
    /// A generation call failed, and so did its one retry.
    CallFailed,
    /// A response did not decode into the structure asked for.
    DecodeFailed,
    /// The bug-fix loop used up its attempts.
    RepairExhausted,
}

/// A generation call that failed: transport, authentication or a malformed body.
#[derive(Debug, Clone, Copy, PartialEq, Eq, Structural)]
pub struct GenerationFailed;

/// What to do after one attempt of a generation call.
#[derive(Debug)]
pub enum CallDecision {
    /// The call answered: use the text.
    Accept(String),
    /// The call failed and may be sent once more, unchanged.
    Retry,
    /// The call failed on its last attempt.
    Fail,
}

/// How many times one generation request is sent at most.
pub const MAX_CALL_ATTEMPTS: u8 = 2;

pub open spec fn extended_prompt(f: AiFunction, input: Seq<char>) -> Seq<char> {
    "FUNCTION "@ + instruction_of(f)
        + "\n    INSTRUCTION: You are a function printer. You ONLY print results of functions. Nothing else, no commentary. Here is the input of the function "@
        + input + "."@
}

/// The single system message that asks for `ai_func` applied to `func_input`.
pub fn extend_ai_function(ai_func: AiFunction, func_input: &str) -> (r: Message)
    ensures
        r.role@ == "system"@,
        r.content@ == extended_prompt(ai_func, func_input@),
{
    let mut msg = String::from_str("FUNCTION ");
    msg.append(ai_func.instruction());
    msg.append(
        "\n    INSTRUCTION: You are a function printer. You ONLY print results of functions. Nothing else, no commentary. Here is the input of the function ",
    );
    msg.append(func_input);
    msg.append(".");
    Message { role: String::from_str("system"), content: msg }
}

pub open spec fn call_decision(attempt: u8, outcome: Result<String, GenerationFailed>) -> CallDecision {
    match outcome {
        Ok(text) => CallDecision::Accept(text),
        Err(_) => if attempt < MAX_CALL_ATTEMPTS {
            CallDecision::Retry
        } else {
            CallDecision::Fail
        },
    }
}

/// Decides what follows attempt number `attempt` (counted from one) of a
/// generation call, given what it came back with.
pub fn decide_after_attempt(attempt: u8, outcome: Result<String, GenerationFailed>) -> (d:
    CallDecision)
    requires
        1 <= attempt <= MAX_CALL_ATTEMPTS,
    ensures
        d == call_decision(attempt, outcome),
{
    match outcome {
        Ok(text) => CallDecision::Accept(text),
        Err(_) => if attempt < MAX_CALL_ATTEMPTS {
            CallDecision::Retry
        } else {
            CallDecision::Fail
        },
    }
}

/// A request is sent at most twice. If the first attempt fails and the second
/// answers, the answer is delivered; if both fail, the call is fatal and no
/// third attempt is made; an answer on the first attempt is delivered at once.
pub proof fn lemma_single_retry(first: Result<String, GenerationFailed>, second: Result<String, GenerationFailed>)
    ensures
        first is Ok ==> call_decision(1, first) == CallDecision::Accept(first->Ok_0),
        first is Err ==> call_decision(1, first) is Retry,
        second is Ok ==> call_decision(2, second) == CallDecision::Accept(second->Ok_0),
        second is Err ==> call_decision(2, second) is Fail,
        !(call_decision(MAX_CALL_ATTEMPTS, second) is Retry),
{
}

} // verus!
