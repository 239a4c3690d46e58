//! The keyword tree: for each keyword id, the ids of its children.
use std::collections::{BTreeMap, HashMap};

use vstd::prelude::*;
use vstd::std_specs::btree::increasing_seq;
use vstd::std_specs::cmp::OrdSpec;
use vstd::std_specs::iter::IteratorSpec;

use crate::keywords::Keyword;
use crate::lrobject::LrId;

verus! {

broadcast use vstd::std_specs::hash::group_hash_axioms, vstd::std_specs::btree::group_btree_axioms,
    vstd::laws_cmp::group_laws_cmp;

/// Map of a parent id to the ids of its children.
pub struct KeywordTree {
    map: HashMap<LrId, Vec<LrId>>,
}

impl View for KeywordTree {
    type V = Map<LrId, Seq<LrId>>;

    closed spec fn view(&self) -> Map<LrId, Seq<LrId>> {
        self.map@.map_values(|v: Vec<LrId>| v@)
    }
}

/// The children of `id`, none if it has no entry.
pub open spec fn children_of(t: Map<LrId, Seq<LrId>>, id: LrId) -> Seq<LrId> {
    if t.contains_key(id) {
        t[id]
    } else {
        Seq::empty()
    }
}

/// The tree after `k` is added as the last child of its parent.
pub open spec fn with_child(t: Map<LrId, Seq<LrId>>, k: Keyword) -> Map<LrId, Seq<LrId>> {
    t.insert(k.parent, children_of(t, k.parent).push(k.id))
}

/// The tree after each keyword of `ks` is added in turn.
pub open spec fn with_children(t: Map<LrId, Seq<LrId>>, ks: Seq<Keyword>) -> Map<LrId, Seq<LrId>>
    decreases ks.len(),
{
    if ks.len() == 0 {
        t
    } else {
        with_child(with_children(t, ks.drop_last()), ks.last())
    }
}

pub open spec fn ascending(ks: Seq<LrId>) -> bool {
    forall|i: int, j: int| 0 <= i < j < ks.len() ==> ks[i] < ks[j]
}

/// The keys of `m`, in ascending order.
pub open spec fn keys_in_order(m: Map<LrId, Keyword>) -> Seq<LrId> {
    choose|ks: Seq<LrId>| ascending(ks) && ks.to_set() == m.dom()
}

/// The keywords of `m`, in ascending order of their keys.
pub open spec fn values_in_order(m: Map<LrId, Keyword>) -> Seq<Keyword> {
    keys_in_order(m).map_values(|k: LrId| m[k])
}

/// The ids of the keywords of `ks` whose parent is `id`, in the order of `ks`.
pub open spec fn ids_with_parent(ks: Seq<Keyword>, id: LrId) -> Seq<LrId>
    decreases ks.len(),
{
    if ks.len() == 0 {
        Seq::empty()
    } else if ks.last().parent == id {
        ids_with_parent(ks.drop_last(), id).push(ks.last().id)
    } else {
        ids_with_parent(ks.drop_last(), id)
    }
}

/// Two ascending sequences with the same elements are the same.
proof fn lemma_ascending_unique(a: Seq<LrId>, b: Seq<LrId>)
    requires
        ascending(a),
        ascending(b),
        a.to_set() == b.to_set(),
    ensures
        a == b,
    decreases a.len(),
{
    if a.len() == 0 {
        if b.len() > 0 {
            assert(b.to_set().contains(b[0]));
        }
        assert(a =~= b);
    } else {
        assert(a.to_set().contains(a[0]));
        assert(b.len() > 0);
        assert(b.to_set().contains(b[0]));
        let i = choose|i: int| 0 <= i < a.len() && a[i] == b[0];
        let j = choose|j: int| 0 <= j < b.len() && b[j] == a[0];
        assert(a[0] <= a[i]);
        assert(b[0] <= b[j]);
        assert(a[0] == b[0]);
        let a1 = a.drop_first();
        let b1 = b.drop_first();
        assert forall|x: LrId| a1.to_set().contains(x) implies b1.to_set().contains(x) by {
            let k = choose|k: int| 0 <= k < a1.len() && a1[k] == x;
            assert(a[k + 1] == x);
            assert(b.to_set().contains(x));
            let m = choose|m: int| 0 <= m < b.len() && b[m] == x;
            assert(m != 0);
            assert(b1[m - 1] == x);
        }
        assert forall|x: LrId| b1.to_set().contains(x) implies a1.to_set().contains(x) by {
            let k = choose|k: int| 0 <= k < b1.len() && b1[k] == x;
            assert(b[k + 1] == x);
            assert(a.to_set().contains(x));
            let m = choose|m: int| 0 <= m < a.len() && a[m] == x;
            assert(m != 0);
            assert(a1[m - 1] == x);
        }
        assert(a1.to_set() =~= b1.to_set());
        lemma_ascending_unique(a1, b1);
        assert(a =~= seq![a[0]] + a1);
        assert(b =~= seq![b[0]] + b1);
    }
}

/// Adding keywords in turn appends to each parent the ids of its new
/// children, in order, and leaves the other entries alone.
pub proof fn lemma_children_after(t: Map<LrId, Seq<LrId>>, ks: Seq<Keyword>, id: LrId)
    ensures
        children_of(with_children(t, ks), id) == children_of(t, id) + ids_with_parent(ks, id),
    decreases ks.len(),
{
    if ks.len() == 0 {
        assert(children_of(t, id) + Seq::empty() =~= children_of(t, id));
    } else {
        lemma_children_after(t, ks.drop_last(), id);
        let before = with_children(t, ks.drop_last());
        if ks.last().parent == id {
            assert(children_of(t, id) + ids_with_parent(ks.drop_last(), id).push(ks.last().id)
                =~= (children_of(t, id) + ids_with_parent(ks.drop_last(), id)).push(ks.last().id));
        }
    }
}

impl KeywordTree {
    /// An empty tree.
    pub fn new() -> (r: KeywordTree)
        ensures
            r@ == Map::<LrId, Seq<LrId>>::empty(),
    {
        let r = KeywordTree { map: HashMap::new() };
        assert(r@ =~= Map::<LrId, Seq<LrId>>::empty());
        r
    }

    /// The children of the keyword `id`; none for an id without children,
    /// or that no keyword has.
    pub fn children_for(&self, id: LrId) -> (r: Vec<LrId>)
        ensures
            r@ == children_of(self@, id),
    {
        match self.map.get(&id) {
            Some(children) => {
                let mut out: Vec<LrId> = Vec::new();
                let mut k: usize = 0;
                while k < children.len()
                    invariant
                        k <= children.len(),
                        out@ == children@.take(k as int),
                    decreases children.len() - k,
                {
                    out.push(children[k]);
                    assert(out@ =~= children@.take(k + 1));
                    k += 1;
                }
                assert(children@.take(children.len() as int) =~= children@);
                out
            },
            None => Vec::new(),
        }
    }

    /// Add `keyword` as the last child of its parent.
    fn add_child(&mut self, keyword: &Keyword)
        ensures
            final(self)@ == with_child(old(self)@, *keyword),
    {
        let mut children = match self.map.remove(&keyword.parent) {
            Some(children) => children,
            None => Vec::new(),
        };
        children.push(keyword.id);
        self.map.insert(keyword.parent, children);
        assert(self@ =~= with_child(old(self)@, *keyword));
    }

    /// Add each keyword of `children` to the tree, in ascending order of
    /// their keys.
    pub fn add_children(&mut self, children: &BTreeMap<LrId, Keyword>)
        ensures
            final(self)@ == with_children(old(self)@, values_in_order(children@)),
    {
        let ghost start = self@;
        let values = children.values();
        let ghost order: Seq<LrId> = choose|ks: Seq<LrId>|
            {
                &&& increasing_seq(ks)
                &&& ks.to_set() == children@.dom()
                &&& ks.no_duplicates()
                &&& IteratorSpec::remaining(&values) == ks.map(|i: int, k: LrId| &children@[k])
            };
        proof {
            assert(vstd::laws_cmp::obeys_cmp::<LrId>());
            assert forall|i: int, j: int| 0 <= i < j < order.len() implies order[i] < order[j] by {
                assert(order[i].cmp_spec(&order[j]) is Less);
            }
            lemma_ascending_unique(order, keys_in_order(children@));
            assert(IteratorSpec::remaining(&values).unref() =~= values_in_order(children@));
        }
        for child in it: values
            invariant
                it.seq().unref() == values_in_order(children@),
                self@ == with_children(start, values_in_order(children@).take(it.index() as int)),
        {
            proof {
                assert(values_in_order(children@).take(it.index() + 1).drop_last()
                    =~= values_in_order(children@).take(it.index() as int));
            }
            self.add_child(child);
        }
        proof {
            assert(values_in_order(children@).take(values_in_order(children@).len() as int)
                =~= values_in_order(children@));
        }
    }

    /// Builds the tree of five keywords with parents 0, 1, 2, 0, 2 (ids 1 to
    /// 5), and checks which children each parent gets.
    pub fn test() {
        let mut keywords: BTreeMap<LrId, Keyword> = BTreeMap::new();
        keywords.insert(1, Keyword::new(1, 0, "", ""));
        keywords.insert(2, Keyword::new(2, 1, "", ""));
        keywords.insert(3, Keyword::new(3, 2, "", ""));
        keywords.insert(4, Keyword::new(4, 0, "", ""));
        keywords.insert(5, Keyword::new(5, 2, "", ""));
        let ghost m = keywords@;
        let mut tree = KeywordTree::new();
        tree.add_children(&keywords);
        let children = tree.children_for(0);
        let none = tree.children_for(999);
        proof {
            let ks = seq![1i64, 2i64, 3i64, 4i64, 5i64];
            assert(ks.to_set() =~= m.dom()) by {
                assert forall|x: LrId| m.dom().contains(x) implies ks.to_set().contains(x) by {
                    if x == 1 {
                        assert(ks[0] == x);
                    } else if x == 2 {
                        assert(ks[1] == x);
                    } else if x == 3 {
                        assert(ks[2] == x);
                    } else if x == 4 {
                        assert(ks[3] == x);
                    } else {
                        assert(ks[4] == x);
                    }
                }
            }
            lemma_ascending_unique(ks, keys_in_order(m));
            let vs = values_in_order(m);
            assert(vs.len() == 5);
            assert(vs[0].id == 1 && vs[0].parent == 0);
            assert(vs[1].id == 2 && vs[1].parent == 1);
            assert(vs[2].id == 3 && vs[2].parent == 2);
            assert(vs[3].id == 4 && vs[3].parent == 0);
            assert(vs[4].id == 5 && vs[4].parent == 2);
            lemma_children_after(Map::empty(), vs, 0);
            lemma_children_after(Map::empty(), vs, 999);
            assert(vs.drop_last().drop_last().drop_last().drop_last().drop_last().len() == 0);
            reveal_with_fuel(ids_with_parent, 6);
            assert(ids_with_parent(vs, 0) =~= seq![1i64, 4i64]);
            assert(ids_with_parent(vs, 999) =~= Seq::<LrId>::empty());
        }
        assert(children@ == seq![1i64, 4i64]);
        assert(none@.len() == 0);
    }
}

} // verus!
