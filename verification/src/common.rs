//! Initialisation of the native layer.
//!
//! The layer is initialised once for the process and cannot be initialised
//! again.  [`SdkInit`] keeps what the one initialisation returned, so that
//! everyone who asks later is given the same answer without a second call.

use vstd::prelude::*;
use crate::error::HikError;
use crate::native::{NativeCall, NativeCallView};

verus! {

/// What is known of the initialisation of the native layer: nothing yet, or
/// the result of the one call that was made.
#[derive(Debug)]
pub struct SdkInit {
    first_result: Option<i32>,
}

impl View for SdkInit {
    type V = Option<i32>;

    closed spec fn view(&self) -> Option<i32> {
        self.first_result
    }
}

/// What a result of the initialising call means: 1 is success, and any
/// other result is the code of the failure.
pub open spec fn init_outcome(result: i32) -> Result<(), HikError> {
    if result == 1 {
        Ok(())
    } else {
        Err(HikError::InitFailed { code: result })
    }
}

/// The step that initialisation takes from `state`: the call, where none
/// was made yet; else the outcome of the call that was made, and no call.
pub open spec fn init_step(state: Option<i32>) -> Result<Option<NativeCallView>, HikError> {
    match state {
        None => Ok(Some(NativeCallView::Init)),
        Some(first) => match init_outcome(first) {
            Ok(()) => Ok(None),
            Err(e) => Err(e),
        },
    }
}

/// The reading of a step of initialisation.
pub open spec fn init_step_view(step: Result<Option<NativeCall>, HikError>) -> Result<
    Option<NativeCallView>,
    HikError,
> {
    match step {
        Ok(Some(call)) => Ok(Some(call@)),
        Ok(None) => Ok(None),
        Err(e) => Err(e),
    }
}

impl SdkInit {
    /// The state before any initialisation.
    pub fn new() -> (state: Self)
        ensures
            state@ is None,
    {
        SdkInit { first_result: None }
    }

    /// Takes the result of the initialising call.  The first result is kept
    /// for good; whatever is reported later is dropped, and the outcome is
    /// that of the first.
    pub fn init_reply(&mut self, result: i32) -> (outcome: Result<(), HikError>)
        ensures
            final(self)@ == Some(
                match old(self)@ {
                    Some(first) => first,
                    None => result,
                },
            ),
            outcome == init_outcome(final(self)@.unwrap()),
    {
        let kept: i32 = match self.first_result {
            Some(first) => first,
            None => result,
        };
        self.first_result = Some(kept);
        if kept != 1 {
            return Err(HikError::InitFailed { code: kept });
        }
        Ok(())
    }
}

/// Initialises the native layer, once.  Names the call where none was made
/// yet; its result goes to [`SdkInit::init_reply`].  Afterwards no call is
/// named any more, and the outcome of the first is given again.
pub fn init(state: &SdkInit) -> (step: Result<Option<NativeCall>, HikError>)
    ensures
        init_step_view(step) == init_step(state@),
{
    match state.first_result {
        None => Ok(Some(NativeCall::Init)),
        Some(first) => {
            if first != 1 {
                return Err(HikError::InitFailed { code: first });
            }
            Ok(None)
        },
    }
}

/// Once a result was taken, initialisation never names the call again.
pub proof fn lemma_init_is_called_once(state: Option<i32>)
    requires
        state is Some,
    ensures
        !(init_step(state) matches Ok(Some(_))),
{
}

} // verus!
