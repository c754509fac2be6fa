//! The decisions of the host call surface.
//!
//! A host call is made by the embedding code; what the guest decides before
//! and after it is here. A call that may have to wait is modelled as a
//! `Resumable`: the workflow returns `Pause` and is run again later.
use crate::resumable::Resumable;
use core::time::Duration;
use vstd::prelude::*;

verus! {

/// The number of whole milliseconds in a duration, as `Duration::as_millis`
/// gives it.
pub uninterp spec fn whole_millis(duration: Duration) -> u128;

/// Calls `Duration::as_millis`. The result is a function of the duration
/// alone; it is named [`whole_millis`].
#[verifier::external_body]
fn duration_millis(duration: &Duration) -> (millis: u128)
    ensures
        millis == whole_millis(*duration),
{
    duration.as_millis()
}

/// The number of milliseconds to ask the host to wait for, or `None` where the
/// duration has more milliseconds than fit in 64 bits.
pub fn pause_millis(duration: &Duration) -> (millis: Option<u64>)
    ensures
        millis is Some <==> whole_millis(*duration) <= u64::MAX,
        millis matches Some(n) ==> n == whole_millis(*duration),
{
    let millis = duration_millis(duration);
    if millis <= 0xffff_ffff_ffff_ffff {
        Some(millis as u64)
    } else {
        None
    }
}

/// Reads the host's answer to a request to pause: zero while the wait is not
/// over, anything else once it is.
pub fn pause(signal: u32) -> (r: Resumable<()>)
    ensures
        r == if signal == 0 {
            Resumable::Pause
        } else {
            Resumable::Ready(())
        },
{
    if signal == 0 {
        Resumable::Pause
    } else {
        Resumable::Ready(())
    }
}

/// Why a prompt gave no value.
#[derive(Debug, Clone, PartialEq, Eq)]
pub enum PromptError {
    /// The host reported an error, with its message.
    Host(String),
    /// The actor's value does not have the shape that was asked for.
    Deserialize(String),
}

/// Reads the host's reply to a prompt: the workflow pauses while the host is
/// still waiting for the actor; a host-side error becomes `PromptError::Host`;
/// a value is handed on.
pub fn prompt_with_schema(reply: Resumable<Result<serde_json::Value, String>>) -> (r: Resumable<
    Result<serde_json::Value, PromptError>,
>)
    ensures
        r == match reply {
            Resumable::Pause => Resumable::<Result<serde_json::Value, PromptError>>::Pause,
            Resumable::Ready(Ok(value)) => Resumable::Ready(Ok(value)),
            Resumable::Ready(Err(message)) => Resumable::Ready(Err(PromptError::Host(message))),
        },
{
    match reply {
        Resumable::Pause => Resumable::Pause,
        Resumable::Ready(Ok(value)) => Resumable::Ready(Ok(value)),
        Resumable::Ready(Err(message)) => Resumable::Ready(Err(PromptError::Host(message))),
    }
}

/// Reads the host's reply to a prompt for a value of type `T`. `convert` turns
/// the actor's value into a `T` or says why it cannot.
///
/// The workflow pauses while the host waits, and `convert` is not run; a
/// host-side error is handed on; a value that does not convert becomes
/// `PromptError::Deserialize`.
pub fn prompt<T, F: FnOnce(serde_json::Value) -> Result<T, String>>(
    reply: Resumable<Result<serde_json::Value, String>>,
    convert: F,
) -> (r: Resumable<Result<T, PromptError>>)
    requires
        reply matches Resumable::Ready(Ok(value)) ==> convert.requires((value,)),
    ensures
        match reply {
            Resumable::Pause => r == Resumable::<Result<T, PromptError>>::Pause,
            Resumable::Ready(Err(message)) => r == Resumable::<
                Result<T, PromptError>,
            >::Ready(Err(PromptError::Host(message))),
            Resumable::Ready(Ok(value)) => exists|converted: Result<T, String>| #[trigger]
                convert.ensures((value,), converted) && r == Resumable::Ready(
                    match converted {
                        Ok(out) => Ok::<T, PromptError>(out),
                        Err(message) => Err(PromptError::Deserialize(message)),
                    },
                ),
        },
{
    match prompt_with_schema(reply) {
        Resumable::Pause => Resumable::Pause,
        Resumable::Ready(Err(error)) => Resumable::Ready(Err(error)),
        Resumable::Ready(Ok(value)) => match convert(value) {
            Ok(out) => Resumable::Ready(Ok(out)),
            Err(message) => Resumable::Ready(Err(PromptError::Deserialize(message))),
        },
    }
}

} // verus!
