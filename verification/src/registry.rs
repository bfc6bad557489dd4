//! The renderers of a session, each under the identity of its surface, in
//! a map that is walked in ascending order of the identities.

use crate::state::State;
use std::collections::BTreeMap;
use vstd::prelude::*;
use vstd::std_specs::cmp::OrdSpec;
use vstd::std_specs::iter::IteratorSpec;

verus! {

broadcast use {vstd::std_specs::btree::group_btree_axioms, vstd::laws_cmp::group_laws_cmp};

/// The renderers of a session.
#[derive(Debug)]
pub struct Registry {
    pub map: BTreeMap<u32, State>,
}

/// Whether the identities ascend from place to place; then none occurs
/// twice.
pub open spec fn ascending(keys: Seq<u32>) -> bool {
    forall|i: int, j: int| 0 <= i < j < keys.len() ==> keys[i] < keys[j]
}

/// Whether a sequence lists exactly the identities of a set, in ascending
/// order.
pub open spec fn lists(keys: Seq<u32>, identities: Set<u32>) -> bool {
    &&& ascending(keys)
    &&& forall|k: u32| identities.contains(k) <==> keys.contains(k)
}

/// The identities of a set in ascending order: the order in which the
/// renderers are visited.
pub open spec fn order_of(identities: Set<u32>) -> Seq<u32> {
    choose|keys: Seq<u32>| lists(keys, identities)
}

/// Two ascending sequences that hold the same identities are equal.
pub proof fn lemma_ascending_unique(a: Seq<u32>, b: Seq<u32>)
    requires
        ascending(a),
        ascending(b),
        forall|k: u32| a.contains(k) <==> b.contains(k),
    ensures
        a == b,
    decreases a.len(),
{
    if a.len() == 0 {
        if b.len() > 0 {
            assert(b.contains(b[0]));
            let i = choose|i: int| 0 <= i < a.len() && a[i] == b[0];
        }
        assert(a =~= b);
    } else if b.len() == 0 {
        assert(a.contains(a[0]));
        let i = choose|i: int| 0 <= i < b.len() && b[i] == a[0];
    } else {
        let x = a.last();
        let y = b.last();
        assert(a.contains(x));
        let ix = choose|i: int| 0 <= i < b.len() && b[i] == x;
        assert(b.contains(y));
        let iy = choose|i: int| 0 <= i < a.len() && a[i] == y;
        assert(x <= y) by {
            if ix < b.len() - 1 {
                assert(b[ix] < b[b.len() - 1]);
            }
        }
        assert(y <= x) by {
            if iy < a.len() - 1 {
                assert(a[iy] < a[a.len() - 1]);
            }
        }
        let a0 = a.drop_last();
        let b0 = b.drop_last();
        assert forall|k: u32| a0.contains(k) <==> b0.contains(k) by {
            if a0.contains(k) {
                let i = choose|i: int| 0 <= i < a0.len() && a0[i] == k;
                assert(a[i] == k && a[i] < a[a.len() - 1]);
                assert(a.contains(k));
                let j = choose|j: int| 0 <= j < b.len() && b[j] == k;
                assert(j < b.len() - 1);
                assert(b0[j] == k);
            }
            if b0.contains(k) {
                let i = choose|i: int| 0 <= i < b0.len() && b0[i] == k;
                assert(b[i] == k && b[i] < b[b.len() - 1]);
                assert(b.contains(k));
                let j = choose|j: int| 0 <= j < a.len() && a[j] == k;
                assert(j < a.len() - 1);
                assert(a0[j] == k);
            }
        }
        assert(ascending(a0)) by {
            assert forall|i: int, j: int| 0 <= i < j < a0.len() implies a0[i] < a0[j] by {
                assert(a[i] < a[j]);
            }
        }
        assert(ascending(b0)) by {
            assert forall|i: int, j: int| 0 <= i < j < b0.len() implies b0[i] < b0[j] by {
                assert(b[i] < b[j]);
            }
        }
        lemma_ascending_unique(a0, b0);
        assert(a =~= a0.push(x));
        assert(b =~= b0.push(y));
    }
}

/// A sequence that lists the identities of a set is their order.
pub proof fn lemma_order(keys: Seq<u32>, identities: Set<u32>)
    requires
        lists(keys, identities),
    ensures
        order_of(identities) == keys,
        lists(order_of(identities), identities),
{
    let chosen = order_of(identities);
    assert(lists(chosen, identities));
    lemma_ascending_unique(chosen, keys);
}

impl View for Registry {
    type V = Map<u32, State>;

    open spec fn view(&self) -> Map<u32, State> {
        self.map@
    }
}

impl Registry {
    /// Every renderer is well formed.
    pub open spec fn wf(self) -> bool {
        forall|k: u32| self@.contains_key(k) ==> (#[trigger] self@[k]).wf()
    }

    /// A registry without renderers.
    pub fn new() -> (r: Registry)
        ensures
            r@ == Map::<u32, State>::empty(),
            r.wf(),
    {
        Registry { map: BTreeMap::new() }
    }

    /// The number of renderers.
    pub fn len(&self) -> (n: usize)
        ensures
            n == self@.dom().len(),
    {
        self.map.len()
    }

    /// Whether a surface has a renderer.
    pub fn contains(&self, key: u32) -> (r: bool)
        ensures
            r == self@.contains_key(key),
    {
        self.map.contains_key(&key)
    }

    /// The renderer of a surface.
    pub fn get(&self, key: u32) -> (r: Option<&State>)
        ensures
            match r {
                Some(state) => self@.contains_key(key) && *state == self@[key],
                None => !self@.contains_key(key),
            },
    {
        self.map.get(&key)
    }

    /// Puts a renderer under an identity, in place of the one that was
    /// there, if any.
    pub fn insert(&mut self, key: u32, state: State)
        requires
            old(self).wf(),
            state.wf(),
        ensures
            final(self)@ == old(self)@.insert(key, state),
            final(self).wf(),
    {
        self.map.insert(key, state);
        proof {
            assert forall|k: u32| self@.contains_key(k) implies (#[trigger] self@[k]).wf() by {
                if k != key {
                    assert(old(self)@.contains_key(k) && self@[k] == old(self)@[k]);
                }
            }
        }
    }

    /// Takes the renderer of a surface out, to be changed and put back.
    pub fn take(&mut self, key: u32) -> (r: Option<State>)
        ensures
            match r {
                Some(state) => {
                    &&& old(self)@.contains_key(key)
                    &&& state == old(self)@[key]
                    &&& final(self)@ == old(self)@.remove(key)
                },
                None => !old(self)@.contains_key(key) && final(self)@ == old(self)@,
            },
            old(self).wf() ==> final(self).wf(),
    {
        let taken = self.map.remove(&key);
        proof {
            if taken is None {
                assert(self@ =~= old(self)@);
            }
            if old(self).wf() {
                assert forall|k: u32| self@.contains_key(k) implies (#[trigger] self@[k]).wf() by {
                    assert(old(self)@.contains_key(k) && self@[k] == old(self)@[k]);
                }
            }
        }
        taken
    }

    /// The identities, in ascending order.
    pub fn keys(&self) -> (r: Vec<u32>)
        ensures
            r@ == order_of(self@.dom()),
            lists(r@, self@.dom()),
    {
        let mut keys: Vec<u32> = Vec::new();
        for k in it: self.map.keys()
            invariant
                it.seq() == self.map.keys().remaining(),
                keys@.len() == it.index(),
                forall|j: int| 0 <= j < keys@.len() ==> keys@[j] == *it.seq()[j],
        {
            keys.push(*k);
        }
        proof {
            let s = self.map.keys().remaining();
            vstd::std_specs::btree::axiom_spec_keys_iter(&self.map);
            vstd::std_specs::btree::axiom_increasing_seq_meaning::<&u32>(s);
            assert(keys@ =~= s.unref());
            assert forall|i: int, j: int| 0 <= i < j < keys@.len() implies keys@[i]
                < keys@[j] by {
                assert(OrdSpec::cmp_spec(&s[i], &s[j]) is Less);
            }
            assert forall|k: u32| self@.dom().contains(k) <==> keys@.contains(k) by {
                assert(keys@.to_set().contains(k) <==> keys@.contains(k));
            }
            lemma_order(keys@, self@.dom());
        }
        keys
    }
}

} // verus!
