//! The canonical way ad-hoc error types become responses: wrap the error in
//! [`BasicErrorReport`] and it converts to a privately-scoped message
//! response carrying the error's human-readable text.

use vstd::prelude::*;

use crate::response::{
    Embed, EmbedView, IntoResponse, Response, ResponseData, ResponseDataView, ResponseKind,
    ResponseView,
};

verus! {

/// A human-readable, single-line account of an error. Error types implement
/// this so that [`BasicErrorReport`] can show them to the user.
pub trait ErrorMessage: Sized {
    /// The message's text.
    spec fn spec_message(&self) -> Seq<char>;

    fn message(&self) -> (r: String)
        ensures
            r@ == self.spec_message(),
    ;
}

/// Wraps any error with a message into a response: a channel message,
/// visible only to the invoking user, whose one embed holds the text.
pub struct BasicErrorReport<T>(pub T);

/// The model of the response a message `m` is reported as: an ephemeral
/// channel message with one embed that holds `m`.
pub open spec fn error_report_response(m: Seq<char>) -> ResponseView {
    ResponseView {
        kind: ResponseKind::ChannelMessageWithSource,
        data: Some(
            ResponseDataView { ephemeral: true, embeds: seq![EmbedView { description: m }] },
        ),
    }
}

impl<T: ErrorMessage> IntoResponse for BasicErrorReport<T> {
    open spec fn spec_response(self) -> ResponseView {
        error_report_response(self.0.spec_message())
    }

    fn into_response(self) -> (r: Response) {
        let mut embeds: Vec<Embed> = Vec::new();
        embeds.push(Embed { description: self.0.message() });
        let resp = Response {
            kind: ResponseKind::ChannelMessageWithSource,
            data: Some(ResponseData { ephemeral: true, embeds }),
        };
        proof {
            assert(resp@.data->Some_0.embeds =~= seq![
                EmbedView { description: self.0.spec_message() },
            ]);
            assert(resp@ =~= self.spec_response());
        }
        resp
    }
}

} // verus!
