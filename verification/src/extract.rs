//! The built-in extractors: the whole event, a clone of shared state, and
//! the `Option` / `Result` wrappers that turn an inner extractor's failure
//! into a value instead of aborting dispatch.

use core::convert::Infallible;

use vstd::pervasive::cloned;
use vstd::prelude::*;

use crate::handler::FromRequest;
use crate::interaction::{Interaction, InteractionView};

verus! {

/// The identity extractor: a clone of the whole event; never fails.
impl<S> FromRequest<S> for Interaction {
    type Rejection = Infallible;

    open spec fn extracted(req: InteractionView, state: S, r: Result<Self, Infallible>) -> bool {
        r matches Ok(v) && v@ == req
    }

    fn from_request(req: &mut Interaction, state: &S) -> (r: Result<Self, Infallible>) {
        Ok(req.clone())
    }
}

/// A clone of the shared state, wrapped in a marker type; never fails.
pub struct State<S>(pub S);

impl<S: Clone> FromRequest<S> for State<S> {
    type Rejection = Infallible;

    open spec fn extracted(req: InteractionView, state: S, r: Result<Self, Infallible>) -> bool {
        r matches Ok(st) && cloned(state, st.0)
    }

    fn from_request(req: &mut Interaction, state: &S) -> (r: Result<Self, Infallible>) {
        Ok(State(state.clone()))
    }
}

/// Optional extraction: runs `T`'s extractor, yields `Some` on success and
/// swallows the failure into `None`; never itself fails.
impl<S, T: FromRequest<S>> FromRequest<S> for Option<T> {
    type Rejection = Infallible;

    open spec fn extracted(req: InteractionView, state: S, r: Result<Self, Infallible>) -> bool {
        exists|x: Result<T, T::Rejection>|
            {
                &&& #[trigger] T::extracted(req, state, x)
                &&& match x {
                    Ok(v) => r matches Ok(Some(w)) && w == v,
                    Err(_) => r matches Ok(o) && o is None,
                }
            }
    }

    fn from_request(req: &mut Interaction, state: &S) -> (r: Result<Self, Infallible>) {
        Ok(
            match T::from_request(req, state) {
                Ok(v) => Some(v),
                Err(_) => None,
            },
        )
    }
}

/// Fallible extraction: runs `T`'s extractor and yields its outcome as a
/// value, so the handler sees the failure instead of dispatch aborting;
/// never itself fails.
impl<S, T: FromRequest<S>> FromRequest<S> for Result<T, T::Rejection> {
    type Rejection = T::Rejection;

    open spec fn extracted(
        req: InteractionView,
        state: S,
        r: Result<Self, T::Rejection>,
    ) -> bool {
        exists|x: Result<T, T::Rejection>|
            #[trigger] T::extracted(req, state, x) && r == Ok::<Self, T::Rejection>(x)
    }

    fn from_request(req: &mut Interaction, state: &S) -> (r: Result<Self, T::Rejection>) {
        Ok(T::from_request(req, state))
    }
}

} // verus!
