//! The modal-flattening transform: a pre-order walk of a component tree
//! that collects every valued leaf into one flat string-keyed mapping,
//! where a later duplicate key overwrites an earlier one.

use vstd::prelude::*;

use crate::interaction::{
    clone_strings, component_view, components_view, lemma_components_view_index, Component,
    ComponentView,
};

verus! {

/// One value of the flattened mapping: a single-value leaf contributes a
/// string, a multi-value leaf a list of strings.
pub enum FlatValue {
    Single(String),
    Many(Vec<String>),
}

/// Mathematical model of a [`FlatValue`].
#[verifier::ext_equal]
pub enum FlatVal {
    Single(Seq<char>),
    Many(Seq<Seq<char>>),
}

impl View for FlatValue {
    type V = FlatVal;

    open spec fn view(&self) -> FlatVal {
        match self {
            FlatValue::Single(s) => FlatVal::Single(s@),
            FlatValue::Many(vs) => FlatVal::Many(vs.deep_view()),
        }
    }
}

/// The mapping one component node flattens to: label nodes pass through to
/// their child, action rows flatten their children in order, valued leaves
/// contribute their one key, and inert leaves contribute nothing.
pub open spec fn flat_of(c: ComponentView) -> Map<Seq<char>, FlatVal>
    decreases c,
{
    match c {
        ComponentView::Label(inner) => flat_of(*inner),
        ComponentView::ActionRow(children) => flat_of_seq(children),
        ComponentView::TextInput { custom_id, value } => Map::empty().insert(
            custom_id,
            FlatVal::Single(value),
        ),
        ComponentView::MultiSelect { custom_id, values } => Map::empty().insert(
            custom_id,
            FlatVal::Many(values),
        ),
        ComponentView::Inert => Map::empty(),
    }
}

/// The mapping a sequence of sibling components flattens to, in document
/// order. `union_prefer_right` makes a later duplicate key win over an
/// earlier one.
pub open spec fn flat_of_seq(cs: Seq<ComponentView>) -> Map<Seq<char>, FlatVal>
    decreases cs,
{
    if cs.len() == 0 {
        Map::empty()
    } else {
        flat_of_seq(cs.drop_last()).union_prefer_right(flat_of(cs.last()))
    }
}

/// Overriding union is associative.
pub proof fn lemma_union_prefer_right_assoc(
    a: Map<Seq<char>, FlatVal>,
    b: Map<Seq<char>, FlatVal>,
    c: Map<Seq<char>, FlatVal>,
)
    ensures
        a.union_prefer_right(b).union_prefer_right(c) == a.union_prefer_right(
            b.union_prefer_right(c),
        ),
{
    assert(a.union_prefer_right(b).union_prefer_right(c) =~= a.union_prefer_right(
        b.union_prefer_right(c),
    ));
}

/// Flattening one more sibling extends the mapping of the prefix by the
/// sibling's own mapping, later keys winning.
pub proof fn lemma_flat_of_seq_take_succ(cs: Seq<ComponentView>, i: int)
    requires
        0 <= i < cs.len(),
    ensures
        flat_of_seq(cs.take(i + 1)) == flat_of_seq(cs.take(i)).union_prefer_right(
            flat_of(cs[i]),
        ),
{
    assert(cs.take(i + 1).drop_last() =~= cs.take(i));
    assert(cs.take(i + 1).last() == cs[i]);
}

/// The flattened mapping, held as the ordered list of inserts it was built
/// from; its model is the mapping those inserts leave behind.
pub struct FlatMap {
    pub entries: Vec<(String, FlatValue)>,
}

/// The mapping an ordered list of key-value inserts leaves behind.
pub open spec fn assoc_view(s: Seq<(String, FlatValue)>) -> Map<Seq<char>, FlatVal>
    decreases s,
{
    if s.len() == 0 {
        Map::empty()
    } else {
        assoc_view(s.drop_last()).insert(s.last().0@, s.last().1@)
    }
}

impl View for FlatMap {
    type V = Map<Seq<char>, FlatVal>;

    open spec fn view(&self) -> Map<Seq<char>, FlatVal> {
        assoc_view(self.entries@)
    }
}

/// Entries at or past position `i` never mention `key`, so the mapping
/// agrees at `key` with the mapping of the first `i` entries.
proof fn lemma_assoc_view_agree(s: Seq<(String, FlatValue)>, i: int, key: Seq<char>)
    requires
        0 <= i <= s.len(),
        forall|j: int| i <= j < s.len() ==> s[j].0@ != key,
    ensures
        assoc_view(s).contains_key(key) == assoc_view(s.take(i)).contains_key(key),
        assoc_view(s).contains_key(key) ==> assoc_view(s)[key] == assoc_view(s.take(i))[key],
    decreases s.len() - i,
{
    if i == s.len() {
        assert(s.take(i) =~= s);
    } else {
        assert(s.take(i + 1).drop_last() =~= s.take(i));
        lemma_assoc_view_agree(s, i + 1, key);
    }
}

impl FlatMap {
    /// The empty mapping.
    pub fn new() -> (r: Self)
        ensures
            r@ == Map::<Seq<char>, FlatVal>::empty(),
    {
        FlatMap { entries: Vec::new() }
    }

    /// Record `value` under `key`, overwriting whatever the key held.
    pub fn insert(&mut self, key: String, value: FlatValue)
        ensures
            final(self)@ == old(self)@.insert(key@, value@),
    {
        let ghost before = self.entries@;
        self.entries.push((key, value));
        proof {
            assert(self.entries@.drop_last() =~= before);
        }
    }

    /// Look the key up in the mapping.
    pub fn get(&self, key: &String) -> (r: Option<&FlatValue>)
        ensures
            match r {
                Some(v) => self@.contains_key(key@) && v@ == self@[key@],
                None => !self@.contains_key(key@),
            },
    {
        let mut i: usize = self.entries.len();
        while i > 0
            invariant
                i <= self.entries.len(),
                forall|j: int| i <= j < self.entries@.len() ==> self.entries@[j].0@ != key@,
            decreases i,
        {
            i -= 1;
            if self.entries[i].0 == *key {
                proof {
                    lemma_assoc_view_agree(self.entries@, i + 1, key@);
                    assert(self.entries@.take(i + 1).drop_last() =~= self.entries@.take(i as int));
                    assert(self.entries@.take(i + 1).last() == self.entries@[i as int]);
                }
                return Some(&self.entries[i].1);
            }
        }
        proof {
            lemma_assoc_view_agree(self.entries@, 0, key@);
            assert(self.entries@.take(0) =~= Seq::<(String, FlatValue)>::empty());
        }
        None
    }
}

/// Record every valued leaf under `component` into `map`, in document
/// order; a leaf overwrites whatever its key held before.
pub fn map_component_extend(component: &Component, map: &mut FlatMap)
    ensures
        final(map)@ == old(map)@.union_prefer_right(flat_of(component@)),
    decreases *component,
{
    match component {
        Component::Label(inner) => {
            map_component_extend(&**inner, map);
        },
        Component::ActionRow(children) => {
            let ghost m0 = map@;
            let ghost cv = components_view(children@);
            proof {
                lemma_components_view_index(children@);
                assert(cv.take(0) =~= Seq::<ComponentView>::empty());
                assert(m0.union_prefer_right(flat_of_seq(cv.take(0))) =~= m0);
            }
            let mut i: usize = 0;
            while i < children.len()
                invariant
                    *component == Component::ActionRow(*children),
                    cv == components_view(children@),
                    cv.len() == children@.len(),
                    forall|j: int| 0 <= j < children@.len() ==> cv[j] == component_view(
                        children@[j],
                    ),
                    i <= children.len(),
                    map@ == m0.union_prefer_right(flat_of_seq(cv.take(i as int))),
                decreases children.len() - i,
            {
                proof {
                    assert(decreases_to!(*component => (*component)->ActionRow_0));
                    assert(decreases_to!(*children => children@));
                    assert(decreases_to!(children@ => children@[i as int]));
                    assert(decreases_to!(*component => children@[i as int]));
                }
                map_component_extend(&children[i], map);
                proof {
                    lemma_flat_of_seq_take_succ(cv, i as int);
                    lemma_union_prefer_right_assoc(
                        m0,
                        flat_of_seq(cv.take(i as int)),
                        flat_of(cv[i as int]),
                    );
                }
                i += 1;
            }
            proof {
                assert(cv.take(children@.len() as int) =~= cv);
            }
        },
        Component::TextInput { custom_id, value } => {
            map.insert(custom_id.clone(), FlatValue::Single(value.clone()));
            proof {
                assert(map@ =~= old(map)@.union_prefer_right(flat_of(component@)));
            }
        },
        Component::MultiSelect { custom_id, values } => {
            map.insert(custom_id.clone(), FlatValue::Many(clone_strings(values)));
            proof {
                assert(map@ =~= old(map)@.union_prefer_right(flat_of(component@)));
            }
        },
        Component::Inert => {
            proof {
                assert(map@ =~= old(map)@.union_prefer_right(flat_of(component@)));
            }
        },
    }
}

/// Flatten a modal's component trees into one mapping, in document order,
/// a later duplicate key winning over an earlier one.
pub fn flatten(components: &Vec<Component>) -> (r: FlatMap)
    ensures
        r@ == flat_of_seq(components_view(components@)),
{
    let ghost cv = components_view(components@);
    let mut map = FlatMap::new();
    proof {
        lemma_components_view_index(components@);
        assert(cv.take(0) =~= Seq::<ComponentView>::empty());
        assert(map@.union_prefer_right(flat_of_seq(cv.take(0))) =~= map@);
        assert(map@ =~= Map::<Seq<char>, FlatVal>::empty().union_prefer_right(
            flat_of_seq(cv.take(0)),
        ));
    }
    let mut i: usize = 0;
    while i < components.len()
        invariant
            cv == components_view(components@),
            cv.len() == components@.len(),
            forall|j: int| 0 <= j < components@.len() ==> cv[j] == component_view(components@[j]),
            i <= components.len(),
            map@ == Map::<Seq<char>, FlatVal>::empty().union_prefer_right(
                flat_of_seq(cv.take(i as int)),
            ),
        decreases components.len() - i,
    {
        map_component_extend(&components[i], &mut map);
        proof {
            lemma_flat_of_seq_take_succ(cv, i as int);
            lemma_union_prefer_right_assoc(
                Map::<Seq<char>, FlatVal>::empty(),
                flat_of_seq(cv.take(i as int)),
                flat_of(cv[i as int]),
            );
        }
        i += 1;
    }
    proof {
        assert(cv.take(components@.len() as int) =~= cv);
        assert(Map::<Seq<char>, FlatVal>::empty().union_prefer_right(flat_of_seq(cv)) =~= flat_of_seq(cv));
    }
    map
}

} // verus!
