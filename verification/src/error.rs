//! The three-way failure taxonomy and the uniform failure-reporting policy.
//!
//! Every unit of work ends in `Ok` or in a [`BotError`]. The taxonomy decides,
//! for each failure, whether the user sees a message and whether the cause is
//! escalated to the surrounding process: a `FeedBack` failure is shown and not
//! escalated, a `FeedBackPropagate` failure is shown and escalated, and a
//! `Propagate` failure is escalated without any user-facing message.

use vstd::prelude::*;

verus! {

/// A failure cause: a human-readable message plus, optionally, the text of the
/// lower-level technical error it wraps.
#[derive(Debug, Clone, PartialEq, Eq)]
pub struct Cause {
    pub message: String,
    pub source: Option<String>,
}

#[derive(Debug, Clone, PartialEq, Eq)]
pub enum BotError {
    FeedBack(Cause),
    FeedBackPropagate(Cause),
    Propagate(Cause),
}

impl BotError {
    /// The message a user would be shown for this failure, whether or not the
    /// reporting policy actually shows it.
    pub open spec fn spec_message(&self) -> Seq<char> {
        match self {
            BotError::FeedBack(c) => c.message@,
            BotError::FeedBackPropagate(c) => c.message@,
            BotError::Propagate(c) => c.message@,
        }
    }
}

/// An expected, user-correctable failure: shown to the user, never escalated.
pub fn feedback_error(message: String) -> (r: BotError)
    ensures
        r == BotError::FeedBack(Cause { message, source: None }),
{
    BotError::FeedBack(Cause { message, source: None })
}

/// A failure that only the surrounding process should see.
pub fn propagate_error(message: String) -> (r: BotError)
    ensures
        r == BotError::Propagate(Cause { message, source: None }),
{
    BotError::Propagate(Cause { message, source: None })
}

/// An unexpected failure with a safe generic message for the user: the message
/// is shown, and the underlying technical cause is escalated.
pub fn feedback_propagate_error(message: String, source: String) -> (r: BotError)
    ensures
        r == BotError::FeedBackPropagate(Cause { message, source: Some(source) }),
{
    BotError::FeedBackPropagate(Cause { message, source: Some(source) })
}

/// What one unit of work asks the transport shell to do once its body has run:
/// at most one outbound failure message, and at most one escalated cause.
#[derive(Debug, Clone, PartialEq, Eq)]
pub struct WorkEffect {
    pub user_message: Option<String>,
    pub escalation: Option<Cause>,
}

/// The uniform failure-reporting policy, as a function of the work result.
pub open spec fn work_effect_of(result: Result<(), BotError>) -> WorkEffect {
    match result {
        Ok(()) => WorkEffect { user_message: None, escalation: None },
        Err(BotError::FeedBack(c)) => WorkEffect {
            user_message: Some(c.message),
            escalation: None,
        },
        Err(BotError::FeedBackPropagate(c)) => WorkEffect {
            user_message: Some(c.message),
            escalation: Some(c),
        },
        Err(BotError::Propagate(c)) => WorkEffect { user_message: None, escalation: Some(c) },
    }
}

/// Applies the uniform failure-reporting policy to the result of one unit of
/// work. The transport shell sends `user_message` (if any) to the originating
/// chat and hands `escalation` (if any) to the process's error path; the body
/// itself has already sent any success messages.
pub fn handle_work_result(result: Result<(), BotError>) -> (effect: WorkEffect)
    ensures
        effect == work_effect_of(result),
{
    match result {
        Ok(()) => WorkEffect { user_message: None, escalation: None },
        Err(BotError::FeedBack(c)) => WorkEffect { user_message: Some(c.message), escalation: None },
        Err(BotError::FeedBackPropagate(c)) => WorkEffect {
            user_message: Some(c.message.clone()),
            escalation: Some(c),
        },
        Err(BotError::Propagate(c)) => WorkEffect { user_message: None, escalation: Some(c) },
    }
}

/// Law: the reporting policy sends exactly one user message for the two
/// user-facing failure kinds and none otherwise, and escalates exactly one
/// cause for the two propagating kinds and none otherwise. In particular a
/// `FeedBackPropagate` failure yields one user message and one escalated
/// cause, a `Propagate` failure no user message and one escalated cause, and
/// a `FeedBack` failure one user message and no escalated cause.
pub proof fn lemma_failure_reporting_policy(result: Result<(), BotError>)
    ensures
        result matches Err(BotError::FeedBackPropagate(c)) ==> work_effect_of(result).user_message
            == Some(c.message) && work_effect_of(result).escalation == Some(c),
        result matches Err(BotError::Propagate(c)) ==> work_effect_of(result).user_message is None
            && work_effect_of(result).escalation == Some(c),
        result matches Err(BotError::FeedBack(c)) ==> work_effect_of(result).user_message == Some(
            c.message,
        ) && work_effect_of(result).escalation is None,
        result is Ok ==> work_effect_of(result).user_message is None && work_effect_of(
            result,
        ).escalation is None,
{
}

} // verus!
