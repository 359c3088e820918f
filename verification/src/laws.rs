//! Laws of the dispatch and flattening protocols, each stated over every
//! input it speaks of and proved from the contracts alone.

use core::convert::Infallible;

use vstd::pervasive::cloned;
use vstd::prelude::*;

use crate::extract::State;
use crate::flat::{flat_of, flat_of_seq, FlatVal};
use crate::handler::{FromRequest, Handler};
use crate::interaction::{ComponentView, InteractionDataView, InteractionView};
use crate::into_response_impls::error_report_response;
use crate::modal_submit_extractor::{ExampleForm, FromFlat, ModalSubmit, ModalSubmitError};
use crate::response::{IntoResponse, ResponseView};

verus! {

/// An event without interaction data is rejected by the modal extractor
/// with `NoInteractionData`, whatever the payload type and the state.
pub proof fn lemma_modal_extractor_no_data<S, T: FromFlat>(
    req: InteractionView,
    state: S,
    r: Result<ModalSubmit<T>, ModalSubmitError>,
)
    requires
        req.data is None,
        <ModalSubmit<T> as FromRequest<S>>::extracted(req, state, r),
    ensures
        r matches Err(e) && e is NoInteractionData,
{
}

/// An event whose interaction data is present but not a modal submission is
/// rejected by the modal extractor with `WrongInteractionData`.
pub proof fn lemma_modal_extractor_wrong_data<S, T: FromFlat>(
    req: InteractionView,
    state: S,
    r: Result<ModalSubmit<T>, ModalSubmitError>,
)
    requires
        req.data matches Some(d) && !(d is ModalSubmit),
        <ModalSubmit<T> as FromRequest<S>>::extracted(req, state, r),
    ensures
        r matches Err(e) && e is WrongInteractionData,
{
}

/// A handler of arity zero is dispatched without reading the event: every
/// response it can produce over one event it can produce over any other.
pub proof fn lemma_arity_zero_ignores_event<S, R: IntoResponse, F: Fn() -> R>(
    f: F,
    event_a: InteractionView,
    event_b: InteractionView,
    state: S,
    r: ResponseView,
)
    requires
        <F as Handler<S, R, ()>>::dispatches(f, event_a, state, r),
    ensures
        <F as Handler<S, R, ()>>::dispatches(f, event_b, state, r),
{
}

/// Over a non-modal event, a handler expecting an optional modal submission
/// plus the shared state is still invoked: the modal failure is swallowed
/// into `None` instead of aborting dispatch, and the response is the
/// handler's own.
pub proof fn lemma_optional_modal_not_aborted<
    S: Clone,
    T: FromFlat,
    R: IntoResponse,
    F: Fn(Option<ModalSubmit<T>>, State<S>) -> R,
>(f: F, req: InteractionView, state: S, r: ResponseView)
    requires
        !(req.data matches Some(InteractionDataView::ModalSubmit(_))),
        <F as Handler<S, R, (Option<ModalSubmit<T>>, State<S>)>>::dispatches(f, req, state, r),
    ensures
        exists|st: State<S>, ret: R|
            cloned(state, st.0) && #[trigger] call_ensures(f, (None::<ModalSubmit<T>>, st), ret)
                && r == ret.spec_response(),
{
    let x1 = choose|x1: Result<Option<ModalSubmit<T>>, Infallible>|
        {
            &&& #[trigger] <Option<ModalSubmit<T>> as FromRequest<S>>::extracted(req, state, x1)
            &&& match x1 {
                Err(e1) => r == e1.spec_response(),
                Ok(v1) => exists|x2: Result<State<S>, Infallible>|
                    {
                        &&& #[trigger] <State<S> as FromRequest<S>>::extracted(req, state, x2)
                        &&& match x2 {
                            Err(e2) => r == e2.spec_response(),
                            Ok(v2) => exists|ret: R|
                                #[trigger] call_ensures(f, (v1, v2), ret) && r
                                    == ret.spec_response(),
                        }
                    },
            }
        };
    let x = choose|x: Result<ModalSubmit<T>, ModalSubmitError>|
        {
            &&& #[trigger] <ModalSubmit<T> as FromRequest<S>>::extracted(req, state, x)
            &&& match x {
                Ok(v) => x1 matches Ok(Some(w)) && w == v,
                Err(_) => x1 matches Ok(o) && o is None,
            }
        };
    assert(x is Err);
    assert(x1 matches Ok(o) && o is None);
}

/// When a handler's single parameter fails to extract — here, the modal
/// extractor over an event without interaction data — the response is the
/// rejection's own privately-scoped report, whatever the handler function;
/// the handler's result appears nowhere in it.
pub proof fn lemma_failed_extraction_reports<
    S,
    T: FromFlat,
    R: IntoResponse,
    F: Fn(ModalSubmit<T>) -> R,
>(f: F, req: InteractionView, state: S, r: ResponseView)
    requires
        req.data is None,
        <F as Handler<S, R, (ModalSubmit<T>,)>>::dispatches(f, req, state, r),
    ensures
        r == error_report_response("No interaction data"@),
        r.data matches Some(d) && d.ephemeral,
{
}

/// Last write wins: whatever earlier siblings wrote under a key, a
/// single-value leaf standing after them in document order leaves its own
/// value there.
pub proof fn lemma_later_leaf_wins(cs: Seq<ComponentView>, custom_id: Seq<char>, value: Seq<char>)
    ensures
        flat_of_seq(cs.push(ComponentView::TextInput { custom_id, value })).contains_key(
            custom_id,
        ),
        flat_of_seq(cs.push(ComponentView::TextInput { custom_id, value }))[custom_id]
            == FlatVal::Single(value),
{
    let leaf = ComponentView::TextInput { custom_id, value };
    assert(cs.push(leaf).drop_last() =~= cs);
    assert(cs.push(leaf).last() == leaf);
    let m = flat_of_seq(cs.push(leaf));
    assert(m == flat_of_seq(cs).union_prefer_right(flat_of(leaf)));
    assert(flat_of(leaf) == Map::<Seq<char>, FlatVal>::empty().insert(
        custom_id,
        FlatVal::Single(value),
    ));
    assert(m.contains_key(custom_id) && m[custom_id] == FlatVal::Single(value));
}

/// The component tree that encodes exactly the fields of an
/// [`ExampleForm`]: one text input for `name`, one multi-select for `tags`.
pub open spec fn example_form_tree(name: Seq<char>, tags: Seq<Seq<char>>) -> Seq<ComponentView> {
    seq![
        ComponentView::TextInput { custom_id: "name"@, value: name },
        ComponentView::MultiSelect { custom_id: "tags"@, values: tags },
    ]
}

/// Round trip: flattening the tree that encodes exactly an
/// [`ExampleForm`]'s fields decodes, and decodes losslessly — any value
/// decoded from it carries the encoded `name` and `tags` back unchanged,
/// for both valued leaf kinds.
pub proof fn lemma_example_form_round_trip(name: Seq<char>, tags: Seq<Seq<char>>)
    ensures
        ExampleForm::flat_decodes(flat_of_seq(example_form_tree(name, tags))),
        forall|w: ExampleForm|
            ExampleForm::flat_decoded(flat_of_seq(example_form_tree(name, tags)), w) ==> w.name@
                == name && w.tags.deep_view() == tags,
{
    reveal_strlit("name");
    reveal_strlit("tags");
    reveal_with_fuel(flat_of_seq, 3);
    let cs = example_form_tree(name, tags);
    assert(("name"@)[0] == 'n' && ("tags"@)[0] == 't');
    assert("name"@ != "tags"@);
    let one = Map::<Seq<char>, FlatVal>::empty().insert("name"@, FlatVal::Single(name));
    let two = one.insert("tags"@, FlatVal::Many(tags));
    assert(cs.drop_last().drop_last() =~= Seq::<ComponentView>::empty());
    assert(cs.drop_last().last() == cs[0]);
    assert(flat_of_seq(cs.drop_last()) =~= one);
    let m = flat_of_seq(cs);
    assert(m =~= two);
    assert(m.contains_key("name"@) && m["name"@] == FlatVal::Single(name));
    assert(m.contains_key("tags"@) && m["tags"@] == FlatVal::Many(tags));
}

} // verus!

