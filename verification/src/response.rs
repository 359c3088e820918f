//! The outbound response shape and the conversion protocol that turns
//! handler results and extractor rejections into it.

use vstd::prelude::*;

verus! {

/// The kind tag of an outbound response. Dispatch only ever produces a bare
/// acknowledgement or a channel message with source.
#[derive(Clone, Copy, PartialEq, Eq, Structural, Debug)]
pub enum ResponseKind {
    Pong,
    ChannelMessageWithSource,
}

/// A single embedded rich-content block of a message response.
pub struct Embed {
    pub description: String,
}

/// Mathematical model of an [`Embed`].
#[verifier::ext_equal]
pub struct EmbedView {
    pub description: Seq<char>,
}

impl View for Embed {
    type V = EmbedView;

    open spec fn view(&self) -> EmbedView {
        EmbedView { description: self.description@ }
    }
}

/// The optional payload of a response: a privately-scoped ("ephemeral")
/// flag and a list of embeds.
pub struct ResponseData {
    pub ephemeral: bool,
    pub embeds: Vec<Embed>,
}

/// Mathematical model of a [`ResponseData`].
#[verifier::ext_equal]
pub struct ResponseDataView {
    pub ephemeral: bool,
    pub embeds: Seq<EmbedView>,
}

impl View for ResponseData {
    type V = ResponseDataView;

    open spec fn view(&self) -> ResponseDataView {
        ResponseDataView {
            ephemeral: self.ephemeral,
            embeds: self.embeds@.map(|i: int, e: Embed| e@),
        }
    }
}

/// The outbound unit of this library: a kind tag plus an optional payload.
pub struct Response {
    pub kind: ResponseKind,
    pub data: Option<ResponseData>,
}

/// Mathematical model of a [`Response`].
#[verifier::ext_equal]
pub struct ResponseView {
    pub kind: ResponseKind,
    pub data: Option<ResponseDataView>,
}

impl View for Response {
    type V = ResponseView;

    open spec fn view(&self) -> ResponseView {
        ResponseView {
            kind: self.kind,
            data: match self.data {
                Some(d) => Some(d@),
                None => None,
            },
        }
    }
}

/// The model of the minimal acknowledgement response: a bare `Pong` with no
/// payload.
pub open spec fn pong_response() -> ResponseView {
    ResponseView { kind: ResponseKind::Pong, data: None }
}

/// Conversion of a value into the outbound response shape. Every handler
/// return type and every extractor rejection type implements this.
pub trait IntoResponse: Sized {
    /// The response this value converts to.
    spec fn spec_response(self) -> ResponseView;

    fn into_response(self) -> (r: Response)
        ensures
            r@ == self.spec_response(),
    ;
}

impl IntoResponse for Response {
    open spec fn spec_response(self) -> ResponseView {
        self@
    }

    fn into_response(self) -> (r: Response) {
        self
    }
}

impl<T: IntoResponse, E: IntoResponse> IntoResponse for Result<T, E> {
    open spec fn spec_response(self) -> ResponseView {
        match self {
            Ok(t) => t.spec_response(),
            Err(e) => e.spec_response(),
        }
    }

    fn into_response(self) -> (r: Response) {
        match self {
            Ok(t) => t.into_response(),
            Err(e) => e.into_response(),
        }
    }
}

/// `Infallible` is the rejection type of the extractors that can never
/// fail. The conversion below is defensive dead code, reachable by no run.
impl IntoResponse for core::convert::Infallible {
    open spec fn spec_response(self) -> ResponseView {
        pong_response()
    }

    fn into_response(self) -> (r: Response) {
        Response { kind: ResponseKind::Pong, data: None }
    }
}

} // verus!
