//! What setting an option or pushing a button comes to: the value that is
//! stored, the command that goes to a subsystem of the engine, or the reason
//! why the input is turned down.
//!
//! The registry holds no subsystem. It names the command, and its owner
//! carries the command out before it takes the next input.

use crate::catalog::{CLEAR_HASH, EVAL_DIR, EVAL_HASH, THREADS, USI_HASH};
use crate::decimal::{decimal_value, DecimalError};
use crate::value::OptionValue;
use vstd::prelude::*;

verus! {

/// A command for a subsystem of the engine.
#[derive(Clone, Copy, Debug, PartialEq, Eq, Structural)]
pub enum CollaboratorCall {
    /// Resize the cache of evaluation data to this size.
    ResizeEvalHash(usize),
    /// Set the number of worker threads.
    ResizeThreadPool(usize),
    /// Resize the cache of search results to this size.
    ResizeResultCache(usize),
    /// Empty the cache of search results.
    ClearResultCache,
}

/// Why an input was turned down. The registry is then as it was.
#[derive(Clone, Copy, Debug, PartialEq, Eq, Structural)]
pub enum OptionError {
    /// No option has this name.
    IllegalName,
    /// The option is no button, so it cannot be pushed.
    NotButton,
    /// The option is a button, so it takes no value.
    IsButton,
    /// The value of a check is neither `true` nor `false`.
    IllegalValue,
    /// The value of a spin is not the decimal text of an `i64`.
    NotInteger(DecimalError),
}

/// The number nearest to `n` that lies within `min` and `max`.
pub open spec fn clamp(n: int, min: int, max: int) -> int {
    if n < min {
        min
    } else if n > max {
        max
    } else {
        n
    }
}

/// What an option becomes when it is set to a text.
///
/// A text option takes any text. A spin takes the decimal text of an `i64`
/// and stores it clamped to its bounds. A check takes `true` or `false`.
/// A button takes nothing.
pub open spec fn value_after_set(v: OptionValue, text: Seq<char>) -> Result<
    OptionValue,
    OptionError,
> {
    match v {
        OptionValue::StringOption { default, .. } => Ok(
            OptionValue::StringOption { default, current: text },
        ),
        OptionValue::Spin { default, min, max, .. } => match decimal_value(text) {
            Ok(n) => Ok(OptionValue::Spin { default, current: clamp(n, min, max), min, max }),
            Err(e) => Err(OptionError::NotInteger(e)),
        },
        OptionValue::Check { default, .. } => if text == "true"@ {
            Ok(OptionValue::Check { default, current: true })
        } else if text == "false"@ {
            Ok(OptionValue::Check { default, current: false })
        } else {
            Err(OptionError::IllegalValue)
        },
        OptionValue::Button => Err(OptionError::IsButton),
    }
}

/// What setting the option `key` of `m` to a text comes to: the value that
/// is stored under `key`, or the reason why nothing is stored.
pub open spec fn set_outcome(m: Map<Seq<char>, OptionValue>, key: Seq<char>, text: Seq<char>)
    -> Result<OptionValue, OptionError> {
    if m.contains_key(key) {
        value_after_set(m[key], text)
    } else {
        Err(OptionError::IllegalName)
    }
}

/// The command that follows when `v` has been stored under `key`: three
/// spins resize a subsystem to their new value, no other option does anything.
pub open spec fn call_after_set(key: Seq<char>, v: OptionValue) -> Option<CollaboratorCall> {
    match v {
        OptionValue::Spin { current, .. } => if key == EVAL_HASH@ {
            Some(CollaboratorCall::ResizeEvalHash(current as usize))
        } else if key == THREADS@ {
            Some(CollaboratorCall::ResizeThreadPool(current as usize))
        } else if key == USI_HASH@ {
            Some(CollaboratorCall::ResizeResultCache(current as usize))
        } else {
            None
        },
        _ => None,
    }
}

/// Whether storing `v` under `key` takes the engine's readiness away: a new
/// evaluation directory has to be loaded before the next search.
pub open spec fn clears_ready(key: Seq<char>, v: OptionValue) -> bool {
    v is StringOption && key == EVAL_DIR@
}

/// The registry after setting the option `key` of `m` to a text: the new
/// value under `key` where the input is taken, `m` itself where it is not.
pub open spec fn state_after_set(m: Map<Seq<char>, OptionValue>, key: Seq<char>, text: Seq<char>)
    -> Map<Seq<char>, OptionValue> {
    match set_outcome(m, key, text) {
        Ok(v) => m.insert(key, v),
        Err(_) => m,
    }
}

/// What the caller of a set is told: the command to carry out, if there is
/// one, or the reason why nothing was stored.
pub open spec fn set_result(m: Map<Seq<char>, OptionValue>, key: Seq<char>, text: Seq<char>)
    -> Result<Option<CollaboratorCall>, OptionError> {
    match set_outcome(m, key, text) {
        Ok(v) => Ok(call_after_set(key, v)),
        Err(e) => Err(e),
    }
}

/// The engine's readiness after a set: it is lost where the input is taken
/// and `clears_ready` holds, and stays as it was otherwise.
pub open spec fn ready_after_set(
    m: Map<Seq<char>, OptionValue>,
    key: Seq<char>,
    text: Seq<char>,
    ready: bool,
) -> bool {
    match set_outcome(m, key, text) {
        Ok(v) => ready && !clears_ready(key, v),
        Err(_) => ready,
    }
}

/// The command that a button is bound to.
pub open spec fn button_call(key: Seq<char>) -> Option<CollaboratorCall> {
    if key == CLEAR_HASH@ {
        Some(CollaboratorCall::ClearResultCache)
    } else {
        None
    }
}

/// What pushing the button `key` of `m` comes to: the command that the
/// button is bound to, or the reason why nothing is done.
pub open spec fn push_outcome(m: Map<Seq<char>, OptionValue>, key: Seq<char>) -> Result<
    CollaboratorCall,
    OptionError,
> {
    if !m.contains_key(key) {
        Err(OptionError::IllegalName)
    } else if m[key] is Button {
        Ok(button_call(key).unwrap())
    } else {
        Err(OptionError::NotButton)
    }
}

} // verus!
