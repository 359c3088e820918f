//! An extractor-based handler layer for chat-platform interaction events.
//!
//! An inbound [`Interaction`](interaction::Interaction) and a shared state
//! value are turned into an outbound [`Response`](response::Response) by
//! running one extractor per handler parameter, in declaration order, and
//! invoking the handler on the extracted values. The first extraction
//! failure short-circuits dispatch and is converted into an error response.

pub mod extract;
pub mod flat;
pub mod handler;
pub mod interaction;
pub mod laws;
pub mod into_response_impls;
pub mod modal_submit_extractor;
pub mod response;

pub use extract::State;
pub use handler::{make as make_handler, FromRequest, Handler, HandlerFunction};
pub use response::IntoResponse;
