use std::cell::Cell;

use niloecl::extract::State;
use niloecl::handler::FromRequest;
use niloecl::interaction::{Component, Interaction, InteractionData, ModalData};
use niloecl::into_response_impls::{BasicErrorReport, ErrorMessage};
use niloecl::make_handler;
use niloecl::modal_submit_extractor::{DecodeError, ExampleForm, ModalSubmit, ModalSubmitError};
use niloecl::response::{Response, ResponseKind};
use niloecl::IntoResponse;

fn pong() -> Response {
    Response { kind: ResponseKind::Pong, data: None }
}

fn modal_event() -> Interaction {
    Interaction {
        data: Some(InteractionData::ModalSubmit(ModalData {
            custom_id: "my_modal".to_string(),
            components: vec![
                Component::ActionRow(vec![Component::TextInput {
                    custom_id: "name".to_string(),
                    value: "nilo".to_string(),
                }]),
                Component::Label(Box::new(Component::MultiSelect {
                    custom_id: "tags".to_string(),
                    values: vec!["a".to_string(), "b".to_string()],
                })),
            ],
        })),
    }
}

fn command_event() -> Interaction {
    Interaction { data: Some(InteractionData::Command) }
}

#[test]
fn arity_zero_handler_is_invoked_without_event_traversal() {
    let ran = Cell::new(false);
    let handler = || {
        ran.set(true);
        pong()
    };
    let resp = make_handler(handler).run(Interaction { data: None }, 0u32);
    assert!(ran.get());
    assert!(matches!(resp.kind, ResponseKind::Pong));
    assert!(resp.data.is_none());
}

#[test]
fn optional_modal_with_state_over_non_modal_event_is_none_not_abort() {
    let handler = |m: Option<ModalSubmit<ExampleForm>>, st: State<u32>| {
        assert!(m.is_none());
        assert_eq!(st.0, 7);
        pong()
    };
    let resp = make_handler(handler).run(command_event(), 7u32);
    assert!(matches!(resp.kind, ResponseKind::Pong));
}

#[test]
fn failing_extractor_short_circuits_with_ephemeral_report() {
    let entered = Cell::new(false);
    let handler = |_m: ModalSubmit<ExampleForm>| {
        entered.set(true);
        pong()
    };
    let resp = make_handler(handler).run(Interaction { data: None }, 0u32);
    assert!(!entered.get(), "handler body must never be entered");
    assert!(matches!(resp.kind, ResponseKind::ChannelMessageWithSource));
    let data = resp.data.expect("an error report carries data");
    assert!(data.ephemeral, "the report must be privately scoped");
    assert_eq!(data.embeds.len(), 1);
    assert_eq!(data.embeds[0].description, "No interaction data");
}

#[test]
fn modal_submission_extracts_typed_payload() {
    let mut req = modal_event();
    let got = <ModalSubmit<ExampleForm> as FromRequest<u32>>::from_request(&mut req, &0)
        .expect("a well-formed modal decodes");
    assert_eq!(got.custom_id, "my_modal");
    assert_eq!(got.data.name, "nilo");
    assert_eq!(got.data.tags, vec!["a".to_string(), "b".to_string()]);
}

#[test]
fn modal_round_trip_is_lossless_through_dispatch() {
    let handler = |m: ModalSubmit<ExampleForm>, st: State<u32>| {
        assert_eq!(st.0, 3);
        assert_eq!(m.data.name, "nilo");
        assert_eq!(m.data.tags, vec!["a".to_string(), "b".to_string()]);
        pong()
    };
    let resp = make_handler(handler).run(modal_event(), 3u32);
    assert!(matches!(resp.kind, ResponseKind::Pong));
}

#[test]
fn wrong_interaction_data_is_reported() {
    let mut req = command_event();
    let err = <ModalSubmit<ExampleForm> as FromRequest<u32>>::from_request(&mut req, &0)
        .expect_err("a command is not a modal submission");
    assert!(matches!(err, ModalSubmitError::WrongInteractionData));
    assert_eq!(err.message(), "Invalid interaction data");
}

#[test]
fn missing_interaction_data_is_reported() {
    let mut req = Interaction { data: None };
    let err = <ModalSubmit<ExampleForm> as FromRequest<u32>>::from_request(&mut req, &0)
        .expect_err("no interaction data to extract from");
    assert!(matches!(err, ModalSubmitError::NoInteractionData));
    assert_eq!(err.message(), "No interaction data");
}

#[test]
fn undecodable_modal_is_reported_as_decode_failure() {
    let event = Interaction {
        data: Some(InteractionData::ModalSubmit(ModalData {
            custom_id: "m".to_string(),
            components: vec![Component::TextInput {
                custom_id: "unrelated".to_string(),
                value: "x".to_string(),
            }],
        })),
    };
    let handler = |_m: ModalSubmit<ExampleForm>| pong();
    let resp = make_handler(handler).run(event, 0u32);
    assert!(matches!(resp.kind, ResponseKind::ChannelMessageWithSource));
    let data = resp.data.expect("an error report carries data");
    assert!(data.ephemeral);
    assert_eq!(data.embeds[0].description, "Could not deserialize custom modal struct");
}

#[test]
fn identity_extractor_hands_the_whole_event_over() {
    let handler = |i: Interaction| {
        assert!(matches!(i.data, Some(InteractionData::Command)));
        pong()
    };
    let resp = make_handler(handler).run(command_event(), 0u32);
    assert!(matches!(resp.kind, ResponseKind::Pong));
}

#[test]
fn state_extractor_clones_shared_state() {
    let handler = |st: State<String>| {
        assert_eq!(st.0, "shared");
        pong()
    };
    let resp = make_handler(handler).run(Interaction { data: None }, "shared".to_string());
    assert!(matches!(resp.kind, ResponseKind::Pong));
}

#[test]
fn result_extractor_hands_the_failure_to_the_handler() {
    let handler = |r: Result<ModalSubmit<ExampleForm>, ModalSubmitError>| {
        assert!(matches!(r, Err(ModalSubmitError::WrongInteractionData)));
        pong()
    };
    let resp = make_handler(handler).run(command_event(), 0u32);
    assert!(matches!(resp.kind, ResponseKind::Pong));
}

#[test]
fn result_return_values_convert_through_either_arm() {
    let ok_handler = || Ok::<Response, ModalSubmitError>(pong());
    let resp = make_handler(ok_handler).run(Interaction { data: None }, 0u32);
    assert!(matches!(resp.kind, ResponseKind::Pong));

    let err_handler = || Err::<Response, ModalSubmitError>(ModalSubmitError::NoInteractionData);
    let resp = make_handler(err_handler).run(Interaction { data: None }, 0u32);
    assert!(matches!(resp.kind, ResponseKind::ChannelMessageWithSource));
    let data = resp.data.expect("an error report carries data");
    assert!(data.ephemeral);
    assert_eq!(data.embeds[0].description, "No interaction data");
}

#[test]
fn basic_error_report_is_an_ephemeral_embed() {
    let resp = BasicErrorReport(ModalSubmitError::WrongInteractionData).into_response();
    assert!(matches!(resp.kind, ResponseKind::ChannelMessageWithSource));
    let data = resp.data.expect("a report carries data");
    assert!(data.ephemeral);
    assert_eq!(data.embeds.len(), 1);
    assert_eq!(data.embeds[0].description, "Invalid interaction data");
}

#[test]
fn three_parameters_extract_in_declaration_order() {
    let handler = |i: Interaction, m: Option<ModalSubmit<ExampleForm>>, st: State<u32>| {
        assert!(matches!(
            i.data,
            Some(InteractionData::ModalSubmit(_))
        ));
        let m = m.expect("the event is a well-formed modal");
        assert_eq!(m.data.name, "nilo");
        assert_eq!(st.0, 11);
        pong()
    };
    let resp = make_handler(handler).run(modal_event(), 11u32);
    assert!(matches!(resp.kind, ResponseKind::Pong));
}

#[test]
fn a_tuple_of_extractors_is_one_extractor() {
    let handler = |pair: (Interaction, State<u32>)| {
        assert!(matches!(pair.0.data, Some(InteractionData::Command)));
        assert_eq!(pair.1 .0, 5);
        pong()
    };
    let resp = make_handler(handler).run(command_event(), 5u32);
    assert!(matches!(resp.kind, ResponseKind::Pong));
}

#[test]
fn decode_errors_report_their_own_message() {
    let resp =
        BasicErrorReport(DecodeError { message: "field is gone".to_string() }).into_response();
    assert!(matches!(resp.kind, ResponseKind::ChannelMessageWithSource));
    let data = resp.data.expect("a report carries data");
    assert!(data.ephemeral);
    assert_eq!(data.embeds[0].description, "field is gone");
}
