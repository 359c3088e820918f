//! The inbound interaction event, modeled as plain data: an optional tagged
//! interaction-data payload, whose modal-submission variant carries a
//! recursive component tree.

use vstd::prelude::*;

verus! {

/// One node of a modal's component tree.
pub enum Component {
    /// Wraps exactly one child component.
    Label(Box<Component>),
    /// Wraps a sequence of child components.
    ActionRow(Vec<Component>),
    /// A single-value input leaf.
    TextInput { custom_id: String, value: String },
    /// A multi-value select leaf.
    MultiSelect { custom_id: String, values: Vec<String> },
    /// A leaf that carries no submitted value; flattening skips it.
    Inert,
}

/// Mathematical model of a [`Component`].
#[verifier::ext_equal]
pub enum ComponentView {
    Label(Box<ComponentView>),
    ActionRow(Seq<ComponentView>),
    TextInput { custom_id: Seq<char>, value: Seq<char> },
    MultiSelect { custom_id: Seq<char>, values: Seq<Seq<char>> },
    Inert,
}

/// The model of one component node.
pub open spec fn component_view(c: Component) -> ComponentView
    decreases c,
{
    match c {
        Component::Label(inner) => ComponentView::Label(Box::new(component_view(*inner))),
        Component::ActionRow(children) => ComponentView::ActionRow(components_view(children@)),
        Component::TextInput { custom_id, value } => ComponentView::TextInput {
            custom_id: custom_id@,
            value: value@,
        },
        Component::MultiSelect { custom_id, values } => ComponentView::MultiSelect {
            custom_id: custom_id@,
            values: values.deep_view(),
        },
        Component::Inert => ComponentView::Inert,
    }
}

/// The models of a sequence of component nodes, in order.
pub open spec fn components_view(cs: Seq<Component>) -> Seq<ComponentView>
    decreases cs,
{
    if cs.len() == 0 {
        Seq::empty()
    } else {
        components_view(cs.drop_last()).push(component_view(cs.last()))
    }
}

impl View for Component {
    type V = ComponentView;

    open spec fn view(&self) -> ComponentView {
        component_view(*self)
    }
}

/// Pointwise reading of [`components_view`]: the model of the sequence is
/// the sequence of the models.
pub proof fn lemma_components_view_index(cs: Seq<Component>)
    ensures
        components_view(cs).len() == cs.len(),
        forall|i: int| 0 <= i < cs.len() ==> components_view(cs)[i] == component_view(cs[i]),
    decreases cs,
{
    if cs.len() > 0 {
        lemma_components_view_index(cs.drop_last());
    }
}

/// The modal-submission payload: the modal's own id and its component tree.
pub struct ModalData {
    pub custom_id: String,
    pub components: Vec<Component>,
}

/// Mathematical model of a [`ModalData`].
#[verifier::ext_equal]
pub struct ModalDataView {
    pub custom_id: Seq<char>,
    pub components: Seq<ComponentView>,
}

impl View for ModalData {
    type V = ModalDataView;

    open spec fn view(&self) -> ModalDataView {
        ModalDataView { custom_id: self.custom_id@, components: components_view(self.components@) }
    }
}

/// The tagged interaction-data payload of an event.
pub enum InteractionData {
    /// A modal submission.
    ModalSubmit(ModalData),
    /// An application command invocation.
    Command,
    /// A message-component interaction.
    MessageComponent,
}

/// Mathematical model of an [`InteractionData`].
#[verifier::ext_equal]
pub enum InteractionDataView {
    ModalSubmit(ModalDataView),
    Command,
    MessageComponent,
}

impl View for InteractionData {
    type V = InteractionDataView;

    open spec fn view(&self) -> InteractionDataView {
        match self {
            InteractionData::ModalSubmit(m) => InteractionDataView::ModalSubmit(m@),
            InteractionData::Command => InteractionDataView::Command,
            InteractionData::MessageComponent => InteractionDataView::MessageComponent,
        }
    }
}

/// The inbound interaction event.
pub struct Interaction {
    pub data: Option<InteractionData>,
}

/// Mathematical model of an [`Interaction`].
#[verifier::ext_equal]
pub struct InteractionView {
    pub data: Option<InteractionDataView>,
}

impl View for Interaction {
    type V = InteractionView;

    open spec fn view(&self) -> InteractionView {
        InteractionView {
            data: match &self.data {
                Some(d) => Some(d@),
                None => None,
            },
        }
    }
}

/// Clone a vector of strings, preserving its model.
pub fn clone_strings(vs: &Vec<String>) -> (r: Vec<String>)
    ensures
        r.deep_view() == vs.deep_view(),
        r@.len() == vs@.len(),
{
    let mut r: Vec<String> = Vec::new();
    let mut i: usize = 0;
    while i < vs.len()
        invariant
            i <= vs.len(),
            r.len() == i,
            forall|j: int| 0 <= j < i ==> r@[j] == vs@[j],
        decreases vs.len() - i,
    {
        r.push(vs[i].clone());
        i += 1;
    }
    proof {
        assert(r.deep_view() =~= vs.deep_view());
    }
    r
}

impl Clone for Component {
    /// A clone preserves the model exactly.
    fn clone(&self) -> (r: Self)
        ensures
            r@ == self@,
        decreases *self,
    {
        match self {
            Component::Label(inner) => Component::Label(Box::new((&**inner).clone())),
            Component::ActionRow(children) => {
                let mut cloned: Vec<Component> = Vec::new();
                let mut i: usize = 0;
                while i < children.len()
                    invariant
                        *self == Component::ActionRow(*children),
                        i <= children.len(),
                        cloned.len() == i,
                        forall|j: int| 0 <= j < i ==> cloned@[j]@ == children@[j]@,
                    decreases children.len() - i,
                {
                    proof {
                        assert(decreases_to!(*self => (*self)->ActionRow_0));
                        assert(decreases_to!(*children => children@));
                        assert(decreases_to!(children@ => children@[i as int]));
                        assert(decreases_to!(*self => children@[i as int]));
                    }
                    cloned.push(children[i].clone());
                    i += 1;
                }
                proof {
                    lemma_components_view_index(children@);
                    lemma_components_view_index(cloned@);
                    assert(components_view(cloned@) =~= components_view(children@));
                }
                Component::ActionRow(cloned)
            },
            Component::TextInput { custom_id, value } => Component::TextInput {
                custom_id: custom_id.clone(),
                value: value.clone(),
            },
            Component::MultiSelect { custom_id, values } => Component::MultiSelect {
                custom_id: custom_id.clone(),
                values: clone_strings(values),
            },
            Component::Inert => Component::Inert,
        }
    }
}

impl Clone for ModalData {
    /// A clone preserves the model exactly.
    fn clone(&self) -> (r: Self)
        ensures
            r@ == self@,
    {
        let mut cs: Vec<Component> = Vec::new();
        let mut i: usize = 0;
        while i < self.components.len()
            invariant
                i <= self.components.len(),
                cs.len() == i,
                forall|j: int| 0 <= j < i ==> cs@[j]@ == self.components@[j]@,
            decreases self.components.len() - i,
        {
            cs.push(self.components[i].clone());
            i += 1;
        }
        proof {
            lemma_components_view_index(self.components@);
            lemma_components_view_index(cs@);
            assert(components_view(cs@) =~= components_view(self.components@));
        }
        ModalData { custom_id: self.custom_id.clone(), components: cs }
    }
}

impl Clone for InteractionData {
    /// A clone preserves the model exactly.
    fn clone(&self) -> (r: Self)
        ensures
            r@ == self@,
    {
        match self {
            InteractionData::ModalSubmit(m) => InteractionData::ModalSubmit(m.clone()),
            InteractionData::Command => InteractionData::Command,
            InteractionData::MessageComponent => InteractionData::MessageComponent,
        }
    }
}

impl Clone for Interaction {
    /// A clone preserves the model exactly.
    fn clone(&self) -> (r: Self)
        ensures
            r@ == self@,
    {
        Interaction {
            data: match &self.data {
                Some(d) => Some(d.clone()),
                None => None,
            },
        }
    }
}

} // verus!
