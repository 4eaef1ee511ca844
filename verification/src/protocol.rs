//! The shape shared by the reconciliation protocols: a protocol is advanced
//! one reply at a time, and each advance either names the next request or
//! ends the operation with its one outcome.

use crate::error::{ActivityError, ErrorView};
use vstd::prelude::*;

verus! {

/// What follows a reply: the next request, with the state to resume from
/// when its reply arrives, or the end of the operation.
#[derive(Debug, PartialEq, Eq)]
pub enum Progress<S, C, T> {
    Continue { state: S, call: C },
    Done(Result<T, ActivityError>),
}

/// The mathematical counterpart of [`Progress`].
pub enum ProgressView<S, C, T> {
    Continue { state: S, call: C },
    Done(Result<T, ErrorView>),
}

impl<S: View, C: View, T: View> View for Progress<S, C, T> {
    type V = ProgressView<S::V, C::V, T::V>;

    open spec fn view(&self) -> ProgressView<S::V, C::V, T::V> {
        match self {
            Progress::Continue { state, call } => ProgressView::Continue {
                state: state@,
                call: call@,
            },
            Progress::Done(Ok(value)) => ProgressView::Done(Ok(value@)),
            Progress::Done(Err(e)) => ProgressView::Done(Err(e@)),
        }
    }
}

} // verus!
