//! The modal-submission extractor: requires the event's interaction data to
//! be a modal submission, flattens the modal's component tree into one flat
//! mapping, and decodes that mapping into the caller's payload type.

use vstd::prelude::*;
use vstd::string::StringExecFns;

use crate::flat::{flat_of_seq, flatten, FlatMap, FlatVal, FlatValue};
use crate::handler::FromRequest;
use crate::interaction::{
    clone_strings, Interaction, InteractionData, InteractionDataView, InteractionView,
};
use crate::into_response_impls::{error_report_response, BasicErrorReport, ErrorMessage};
use crate::response::{IntoResponse, Response, ResponseView};

verus! {

/// Why a flat mapping could not be decoded into the caller's payload type.
#[derive(Debug)]
pub struct DecodeError {
    pub message: String,
}

impl ErrorMessage for DecodeError {
    open spec fn spec_message(&self) -> Seq<char> {
        self.message@
    }

    fn message(&self) -> (r: String) {
        self.message.clone()
    }
}

/// A payload type decodable from a flattened modal mapping by matching its
/// field names against the mapping's keys.
pub trait FromFlat: Sized {
    /// Whether decoding the mapping `m` succeeds.
    spec fn flat_decodes(m: Map<Seq<char>, FlatVal>) -> bool;

    /// Whether `v` is a value that decoding `m` may hand back.
    spec fn flat_decoded(m: Map<Seq<char>, FlatVal>, v: Self) -> bool;

    fn from_flat(m: &FlatMap) -> (r: Result<Self, DecodeError>)
        ensures
            r is Ok <==> Self::flat_decodes(m@),
            r matches Ok(v) ==> Self::flat_decoded(m@, v),
    ;
}

/// A decoded modal submission: the modal's own id plus the typed payload
/// decoded from its flattened component tree.
#[derive(Debug)]
pub struct ModalSubmit<T> {
    pub custom_id: String,
    pub data: T,
}

/// Why a modal submission could not be extracted from an event.
#[derive(Debug)]
pub enum ModalSubmitError {
    /// The interaction data was present but could not be decoded into the
    /// requested payload type.
    DecodeFailure(DecodeError),
    /// The interaction data is present but not a modal submission.
    WrongInteractionData,
    /// The event carries no interaction data at all.
    NoInteractionData,
}

impl From<DecodeError> for ModalSubmitError {
    fn from(value: DecodeError) -> (r: Self) {
        ModalSubmitError::DecodeFailure(value)
    }
}

impl vstd::std_specs::convert::FromSpecImpl<DecodeError> for ModalSubmitError {
    open spec fn obeys_from_spec() -> bool {
        true
    }

    open spec fn from_spec(v: DecodeError) -> Self {
        ModalSubmitError::DecodeFailure(v)
    }
}

impl ErrorMessage for ModalSubmitError {
    open spec fn spec_message(&self) -> Seq<char> {
        match self {
            ModalSubmitError::DecodeFailure(_) => "Could not deserialize custom modal struct"@,
            ModalSubmitError::WrongInteractionData => "Invalid interaction data"@,
            ModalSubmitError::NoInteractionData => "No interaction data"@,
        }
    }

    fn message(&self) -> (r: String) {
        match self {
            ModalSubmitError::DecodeFailure(_) => String::from_str(
                "Could not deserialize custom modal struct",
            ),
            ModalSubmitError::WrongInteractionData => String::from_str("Invalid interaction data"),
            ModalSubmitError::NoInteractionData => String::from_str("No interaction data"),
        }
    }
}

impl IntoResponse for ModalSubmitError {
    /// An extraction failure surfaces as a privately-scoped message
    /// response carrying the error's human-readable text.
    open spec fn spec_response(self) -> ResponseView {
        error_report_response(self.spec_message())
    }

    fn into_response(self) -> (r: Response) {
        BasicErrorReport(self).into_response()
    }
}

impl<S, T: FromFlat> FromRequest<S> for ModalSubmit<T> {
    type Rejection = ModalSubmitError;

    open spec fn extracted(
        req: InteractionView,
        state: S,
        r: Result<Self, ModalSubmitError>,
    ) -> bool {
        match req.data {
            None => r matches Err(e) && e is NoInteractionData,
            Some(InteractionDataView::ModalSubmit(ms)) => {
                if T::flat_decodes(flat_of_seq(ms.components)) {
                    &&& r matches Ok(v)
                    &&& v.custom_id@ == ms.custom_id
                    &&& T::flat_decoded(flat_of_seq(ms.components), v.data)
                } else {
                    r matches Err(e) && e is DecodeFailure
                }
            },
            Some(_) => r matches Err(e) && e is WrongInteractionData,
        }
    }

    fn from_request(req: &mut Interaction, state: &S) -> (r: Result<Self, ModalSubmitError>) {
        match &req.data {
            Some(InteractionData::ModalSubmit(ms)) => {
                let map = flatten(&ms.components);
                match T::from_flat(&map) {
                    Ok(data) => Ok(ModalSubmit { custom_id: ms.custom_id.clone(), data }),
                    Err(e) => Err(ModalSubmitError::DecodeFailure(e)),
                }
            },
            Some(_) => Err(ModalSubmitError::WrongInteractionData),
            None => Err(ModalSubmitError::NoInteractionData),
        }
    }
}

/// A reference payload: one single-value field `name` and one multi-value
/// field `tags`. It documents how a payload decodes from a flat mapping,
/// and the round-trip law is proved of it for both valued leaf kinds.
#[derive(Debug)]
pub struct ExampleForm {
    pub name: String,
    pub tags: Vec<String>,
}

impl FromFlat for ExampleForm {
    open spec fn flat_decodes(m: Map<Seq<char>, FlatVal>) -> bool {
        &&& m.contains_key("name"@)
        &&& m["name"@] is Single
        &&& m.contains_key("tags"@)
        &&& m["tags"@] is Many
    }

    open spec fn flat_decoded(m: Map<Seq<char>, FlatVal>, v: Self) -> bool {
        &&& Self::flat_decodes(m)
        &&& v.name@ == m["name"@]->Single_0
        &&& v.tags.deep_view() == m["tags"@]->Many_0
    }

    fn from_flat(m: &FlatMap) -> (r: Result<Self, DecodeError>) {
        let name = match m.get(&String::from_str("name")) {
            Some(FlatValue::Single(s)) => s.clone(),
            _ => {
                return Err(
                    DecodeError {
                        message: String::from_str("expected a single value under key: name"),
                    },
                );
            },
        };
        let tags = match m.get(&String::from_str("tags")) {
            Some(FlatValue::Many(vs)) => clone_strings(vs),
            _ => {
                return Err(
                    DecodeError {
                        message: String::from_str("expected a value list under key: tags"),
                    },
                );
            },
        };
        Ok(ExampleForm { name, tags })
    }
}

} // verus!
