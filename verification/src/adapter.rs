//! The device adapter's decisions: how a call proceeds once the transport
//! has answered.
//!
//! The caller performs the transport's work and reports each answer here.
//! A transaction is one submission of its whole plan followed by one
//! flush; the first failure ends it.

use crate::error::SPIError;
use vstd::prelude::*;

verus! {

/// Where a transaction stands while the transport works.
#[derive(Clone, Copy, Debug, PartialEq, Eq, Structural)]
pub enum Stage {
    /// The plan has been handed to the transport.
    Submitting,
    /// The plan went through; the handle is being flushed.
    Flushing,
}

/// What the adapter does once the transport has answered.
#[derive(Debug)]
pub enum Action {
    /// Flush the handle, then report the answer at [`Stage::Flushing`].
    Flush,
    /// Return this result to the caller; nothing more is asked of the
    /// transport.
    Finish(Result<(), SPIError>),
}

/// Carries the transport's answer to the caller: a success unchanged, a
/// failure wrapped.
pub fn wrap<T>(answer: Result<T, std::io::Error>) -> (out: Result<T, SPIError>)
    ensures
        answer matches Ok(value) ==> out == Ok::<T, SPIError>(value),
        answer matches Err(err) ==> out matches Err(wrapped) && wrapped.cause() == err,
{
    match answer {
        Ok(value) => Ok(value),
        Err(err) => Err(SPIError::from(err)),
    }
}

/// Decides the next step of a transaction from the stage it is at and the
/// transport's answer for that stage.
pub fn advance(stage: Stage, answer: Result<(), std::io::Error>) -> (action: Action)
    ensures
        answer matches Err(err) ==> action matches Action::Finish(Err(wrapped))
            && wrapped.cause() == err,
        answer is Ok && stage == Stage::Submitting ==> action is Flush,
        answer is Ok && stage == Stage::Flushing ==> action == Action::Finish(Ok(())),
{
    match answer {
        Err(err) => Action::Finish(Err(SPIError::from(err))),
        Ok(()) => match stage {
            Stage::Submitting => Action::Flush,
            Stage::Flushing => Action::Finish(Ok(())),
        },
    }
}

} // verus!
