//! The layout tree of a pane grid.
use vstd::prelude::*;
use crate::pane_grid::axis::Axis;
use crate::pane_grid::pane::Pane;
use crate::pane_grid::split::Split;

verus! {

/// The bit pattern of the `f32` ratio `0.5`, which a new split starts with.
pub const HALF_RATIO_BITS: u32 = 0x3F00_0000u32;

/// A layout node of a pane grid.
///
/// The ratio of a split, a number in `[0.0, 1.0]`, is held as the bit
/// pattern of its `f32` value; the tree logic only stores and replaces it.
#[derive(Debug)]
pub enum Node {
    /// The region of this [`Node`] is split into two.
    Split {
        /// The [`Split`] of this [`Node`].
        id: Split,
        /// The direction of the split.
        axis: Axis,
        /// The bits of the `f32` ratio of the split in [0.0, 1.0].
        ratio: u32,
        /// The left/top [`Node`] of the split.
        a: Box<Node>,
        /// The right/bottom [`Node`] of the split.
        b: Box<Node>,
    },
    /// The region of this [`Node`] is taken by a [`Pane`].
    Pane(Pane),
}

/// The amount of splits stacked along each axis of a [`Node`].
#[derive(Debug)]
pub enum Count {
    /// The count of a split node.
    Split {
        /// Splits side by side along the horizontal axis.
        horizontal: usize,
        /// Splits side by side along the vertical axis.
        vertical: usize,
        /// The count of the left/top node.
        a: Box<Count>,
        /// The count of the right/bottom node.
        b: Box<Count>,
    },
    /// The count of a pane.
    Pane,
}

/// The number of nodes of a tree.
pub open spec fn size(node: Node) -> nat
    decreases node,
{
    match node {
        Node::Split { a, b, .. } => 1 + size(*a) + size(*b),
        Node::Pane(_) => 1,
    }
}

/// The panes of a tree, left/top before right/bottom.
pub open spec fn panes(node: Node) -> Seq<Pane>
    decreases node,
{
    match node {
        Node::Split { a, b, .. } => panes(*a) + panes(*b),
        Node::Pane(p) => seq![p],
    }
}

/// The splits of a tree, in the order that a depth-first walk with a stack
/// yields them: a split, then the splits of its right/bottom node, then those
/// of its left/top node.
pub open spec fn split_ids(node: Node) -> Seq<Split>
    decreases node,
{
    match node {
        Node::Split { id, a, b, .. } => seq![id] + split_ids(*b) + split_ids(*a),
        Node::Pane(_) => Seq::empty(),
    }
}

/// The leftmost/topmost pane of a tree.
pub open spec fn first_pane_of(node: Node) -> Pane
    decreases node,
{
    match node {
        Node::Split { a, .. } => first_pane_of(*a),
        Node::Pane(p) => p,
    }
}

/// The pane that a node is, if it is one.
pub open spec fn pane_of(node: Node) -> Option<Pane> {
    match node {
        Node::Split { .. } => None,
        Node::Pane(p) => Some(p),
    }
}

/// Splits stacked along the horizontal axis.
pub open spec fn horizontal_count(node: Node) -> nat
    decreases node,
{
    match node {
        Node::Split { axis, a, b, .. } => match axis {
            Axis::Horizontal => 1 + horizontal_count(*a) + horizontal_count(*b),
            Axis::Vertical => {
                let ha = horizontal_count(*a);
                let hb = horizontal_count(*b);
                if ha >= hb { ha } else { hb }
            },
        },
        Node::Pane(_) => 0,
    }
}

/// Splits stacked along the vertical axis.
pub open spec fn vertical_count(node: Node) -> nat
    decreases node,
{
    match node {
        Node::Split { axis, a, b, .. } => match axis {
            Axis::Horizontal => {
                let va = vertical_count(*a);
                let vb = vertical_count(*b);
                if va >= vb { va } else { vb }
            },
            Axis::Vertical => 1 + vertical_count(*a) + vertical_count(*b),
        },
        Node::Pane(_) => 0,
    }
}

/// Whether a count has the shape of a node and holds its counts at every
/// level.
pub open spec fn counts(count: Count, node: Node) -> bool
    decreases node,
{
    match (count, node) {
        (Count::Split { horizontal, vertical, a: ca, b: cb }, Node::Split { a, b, .. }) => {
            &&& horizontal == horizontal_count(node)
            &&& vertical == vertical_count(node)
            &&& counts(*ca, *a)
            &&& counts(*cb, *b)
        },
        (Count::Pane, Node::Pane(_)) => true,
        _ => false,
    }
}

/// The tree after putting `with` in place of the first pane `pane` in
/// left/top-first order; the tree itself when it holds no such pane.
pub open spec fn replace_first(node: Node, pane: Pane, with: Node) -> Node
    decreases node,
{
    match node {
        Node::Split { id, axis, ratio, a, b } => if panes(*a).contains(pane) {
            Node::Split { id, axis, ratio, a: Box::new(replace_first(*a, pane, with)), b }
        } else {
            Node::Split { id, axis, ratio, a, b: Box::new(replace_first(*b, pane, with)) }
        },
        Node::Pane(p) => if p == pane {
            with
        } else {
            node
        },
    }
}

/// The tree after giving the split `split` the ratio `ratio`: the first such
/// split in left/top-first order is changed; whether one was found.
pub open spec fn resized(node: Node, split: Split, ratio: u32) -> (Node, bool)
    decreases node,
{
    match node {
        Node::Split { id, axis, ratio: r, a, b } => if id == split {
            (Node::Split { id, axis, ratio, a, b }, true)
        } else {
            let (na, fa) = resized(*a, split, ratio);
            if fa {
                (Node::Split { id, axis, ratio: r, a: Box::new(na), b }, true)
            } else {
                let (nb, fb) = resized(*b, split, ratio);
                (Node::Split { id, axis, ratio: r, a, b: Box::new(nb) }, fb)
            }
        },
        Node::Pane(_) => (node, false),
    }
}

/// The tree after removing the pane `pane`, and the pane that takes its place
/// (the first pane of its sibling); `None` when the pane is not a child of a
/// split of the tree.
pub open spec fn removed(node: Node, pane: Pane) -> (Node, Option<Pane>)
    decreases node,
{
    match node {
        Node::Split { id, axis, ratio, a, b } => if pane_of(*a) == Some(pane) {
            (*b, Some(first_pane_of(*b)))
        } else if pane_of(*b) == Some(pane) {
            (*a, Some(first_pane_of(*a)))
        } else {
            let (na, ra) = removed(*a, pane);
            if ra is Some {
                (Node::Split { id, axis, ratio, a: Box::new(na), b }, ra)
            } else {
                let (nb, rb) = removed(*b, pane);
                (Node::Split { id, axis, ratio, a, b: Box::new(nb) }, rb)
            }
        },
        Node::Pane(_) => (node, None),
    }
}

/// Something is in the concatenation of two sequences iff it is in one of
/// them.
pub proof fn lemma_concat_contains<A>(x: Seq<A>, y: Seq<A>, e: A)
    ensures
        (x + y).contains(e) <==> x.contains(e) || y.contains(e),
{
    if x.contains(e) {
        let i = choose|i: int| 0 <= i < x.len() && x[i] == e;
        assert((x + y)[i] == e);
    }
    if y.contains(e) {
        let i = choose|i: int| 0 <= i < y.len() && y[i] == e;
        assert((x + y)[x.len() + i] == e);
    }
    if (x + y).contains(e) {
        let i = choose|i: int| 0 <= i < (x + y).len() && (x + y)[i] == e;
        if i < x.len() {
            assert(x[i] == e);
        } else {
            assert(y[i - x.len()] == e);
        }
    }
}

proof fn lemma_resized_unchanged(node: Node, split: Split, ratio: u32)
    ensures
        !resized(node, split, ratio).1 ==> resized(node, split, ratio).0 == node,
    decreases node,
{
    if let Node::Split { id, axis, ratio: r, a, b } = node {
        lemma_resized_unchanged(*a, split, ratio);
        lemma_resized_unchanged(*b, split, ratio);
    }
}

proof fn lemma_removed_unchanged(node: Node, pane: Pane)
    ensures
        removed(node, pane).1 is None ==> removed(node, pane).0 == node,
    decreases node,
{
    if let Node::Split { id, axis, ratio, a, b } = node {
        lemma_removed_unchanged(*a, pane);
        lemma_removed_unchanged(*b, pane);
    }
}

impl Count {
    /// The splits stacked along the horizontal axis.
    pub fn horizontal(&self) -> (r: usize)
        ensures
            r == match self {
                Count::Split { horizontal, .. } => *horizontal,
                Count::Pane => 0,
            },
    {
        match self {
            Count::Split { horizontal, .. } => *horizontal,
            Count::Pane => 0,
        }
    }

    /// The splits stacked along the vertical axis.
    pub fn vertical(&self) -> (r: usize)
        ensures
            r == match self {
                Count::Split { vertical, .. } => *vertical,
                Count::Pane => 0,
            },
    {
        match self {
            Count::Split { vertical, .. } => *vertical,
            Count::Pane => 0,
        }
    }
}

proof fn lemma_counts_bounded(node: Node)
    ensures
        horizontal_count(node) < size(node),
        vertical_count(node) < size(node),
    decreases node,
{
    if let Node::Split { a, b, .. } = node {
        lemma_counts_bounded(*a);
        lemma_counts_bounded(*b);
    }
}

proof fn lemma_count_top(count: Count, node: Node)
    requires
        counts(count, node),
    ensures
        (match count {
            Count::Split { horizontal, .. } => horizontal as int,
            Count::Pane => 0,
        }) == horizontal_count(node),
        (match count {
            Count::Split { vertical, .. } => vertical as int,
            Count::Pane => 0,
        }) == vertical_count(node),
{
}

impl Node {
    /// Returns each [`Split`] in this [`Node`], in the order of a depth-first
    /// walk that visits the right/bottom node of a split first.
    pub fn splits(&self) -> (r: Vec<Split>)
        ensures
            r@ == split_ids(*self),
        decreases self,
    {
        match self {
            Node::Split { id, a, b, .. } => {
                let mut r: Vec<Split> = Vec::new();
                r.push(*id);
                let mut rb = b.splits();
                r.append(&mut rb);
                let mut ra = a.splits();
                r.append(&mut ra);
                r
            },
            Node::Pane(_) => Vec::new(),
        }
    }

    /// Counts the splits stacked along each axis, at every level of the tree.
    pub fn count(&self) -> (r: Count)
        requires
            size(*self) <= usize::MAX,
        ensures
            counts(r, *self),
        decreases self,
    {
        match self {
            Node::Split { a, b, axis, .. } => {
                proof {
                    lemma_counts_bounded(**a);
                    lemma_counts_bounded(**b);
                }
                let ca = a.count();
                let cb = b.count();
                proof {
                    lemma_count_top(ca, **a);
                    lemma_count_top(cb, **b);
                }
                let (horizontal, vertical) = match axis {
                    Axis::Horizontal => {
                        let va = ca.vertical();
                        let vb = cb.vertical();
                        (1 + ca.horizontal() + cb.horizontal(), if va >= vb { va } else { vb })
                    },
                    Axis::Vertical => {
                        let ha = ca.horizontal();
                        let hb = cb.horizontal();
                        (if ha >= hb { ha } else { hb }, 1 + ca.vertical() + cb.vertical())
                    },
                };
                Count::Split { horizontal, vertical, a: Box::new(ca), b: Box::new(cb) }
            },
            Node::Pane(_) => Count::Pane,
        }
    }

    /// Finds the node of the pane `pane`: the first such pane in left/top-first
    /// order. Whatever the caller then writes through the returned reference
    /// takes the place of that pane in the tree.
    pub fn find(&mut self, pane: Pane) -> (r: Option<&mut Node>)
        ensures
            r is None <==> !panes(*old(self)).contains(pane),
            r is None ==> *final(self) == *old(self),
            r matches Some(n) ==> *n == Node::Pane(pane) && *final(self) == replace_first(
                *old(self),
                pane,
                *final(n),
            ),
        decreases size(*old(self)),
    {
        match self {
            Node::Split { a, b, .. } => {
                proof {
                    lemma_concat_contains(panes(**a), panes(**b), pane);
                }
                match a.find(pane) {
                    Some(n) => Some(n),
                    None => b.find(pane),
                }
            },
            Node::Pane(p) => {
                proof {
                    assert(panes(Node::Pane(*p))[0] == *p);
                }
                if *p == pane {
                    Some(self)
                } else {
                    None
                }
            },
        }
    }

    /// Replaces this node with a split whose left/top node is this node and
    /// whose right/bottom node is the pane `new_pane`.
    pub fn split(&mut self, id: Split, axis: Axis, new_pane: Pane)
        ensures
            *final(self) == (Node::Split {
                id,
                axis,
                ratio: HALF_RATIO_BITS,
                a: Box::new(*old(self)),
                b: Box::new(Node::Pane(new_pane)),
            }),
    {
        let mut previous = Node::Pane(new_pane);
        std::mem::swap(self, &mut previous);
        *self = Node::Split {
            id,
            axis,
            ratio: HALF_RATIO_BITS,
            a: Box::new(previous),
            b: Box::new(Node::Pane(new_pane)),
        };
    }

    /// Replaces this node with a split whose left/top node is the pane `pane`
    /// and whose right/bottom node is this node.
    pub fn split_inverse(&mut self, id: Split, axis: Axis, pane: Pane)
        ensures
            *final(self) == (Node::Split {
                id,
                axis,
                ratio: HALF_RATIO_BITS,
                a: Box::new(Node::Pane(pane)),
                b: Box::new(*old(self)),
            }),
    {
        let mut previous = Node::Pane(pane);
        std::mem::swap(self, &mut previous);
        *self = Node::Split {
            id,
            axis,
            ratio: HALF_RATIO_BITS,
            a: Box::new(Node::Pane(pane)),
            b: Box::new(previous),
        };
    }

    /// Gives the split `split` the ratio `percentage` (the bits of an `f32`),
    /// returning whether the split was found.
    pub fn resize(&mut self, split: Split, percentage: u32) -> (r: bool)
        ensures
            *final(self) == resized(*old(self), split, percentage).0,
            r == resized(*old(self), split, percentage).1,
        decreases size(*old(self)),
    {
        let mut taken = Node::Pane(Pane(0));
        std::mem::swap(self, &mut taken);
        let (node, found) = Self::resized_node(taken, split, percentage);
        *self = node;
        found
    }

    fn resized_node(node: Node, split: Split, percentage: u32) -> (r: (Node, bool))
        ensures
            r == resized(node, split, percentage),
        decreases size(node),
    {
        match node {
            Node::Split { id, axis, ratio, a, b } => {
                if id == split {
                    (Node::Split { id, axis, ratio: percentage, a, b }, true)
                } else {
                    proof {
                        lemma_resized_unchanged(*a, split, percentage);
                    }
                    let (na, fa) = Self::resized_node(*a, split, percentage);
                    if fa {
                        (Node::Split { id, axis, ratio, a: Box::new(na), b }, true)
                    } else {
                        let (nb, fb) = Self::resized_node(*b, split, percentage);
                        (Node::Split { id, axis, ratio, a: Box::new(na), b: Box::new(nb) }, fb)
                    }
                }
            },
            Node::Pane(p) => (Node::Pane(p), false),
        }
    }

    /// Removes the pane `pane`, returning the pane that takes its place.
    pub fn remove(&mut self, pane: Pane) -> (r: Option<Pane>)
        ensures
            *final(self) == removed(*old(self), pane).0,
            r == removed(*old(self), pane).1,
        decreases size(*old(self)),
    {
        let mut taken = Node::Pane(pane);
        std::mem::swap(self, &mut taken);
        let (node, r) = Self::removed_node(taken, pane);
        *self = node;
        r
    }

    fn removed_node(node: Node, pane: Pane) -> (r: (Node, Option<Pane>))
        ensures
            r == removed(node, pane),
        decreases size(node),
    {
        match node {
            Node::Split { id, axis, ratio, a, b } => {
                if a.pane() == Some(pane) {
                    let first = b.first_pane();
                    (*b, Some(first))
                } else if b.pane() == Some(pane) {
                    let first = a.first_pane();
                    (*a, Some(first))
                } else {
                    proof {
                        lemma_removed_unchanged(*a, pane);
                    }
                    let (na, ra) = Self::removed_node(*a, pane);
                    if ra.is_some() {
                        (Node::Split { id, axis, ratio, a: Box::new(na), b }, ra)
                    } else {
                        let (nb, rb) = Self::removed_node(*b, pane);
                        (Node::Split { id, axis, ratio, a: Box::new(na), b: Box::new(nb) }, rb)
                    }
                }
            },
            Node::Pane(p) => (Node::Pane(p), None),
        }
    }

    /// The pane that this node is, if it is one.
    pub fn pane(&self) -> (r: Option<Pane>)
        ensures
            r == pane_of(*self),
    {
        match self {
            Node::Split { .. } => None,
            Node::Pane(pane) => Some(*pane),
        }
    }

    /// The leftmost/topmost pane of this node.
    pub fn first_pane(&self) -> (r: Pane)
        ensures
            r == first_pane_of(*self),
        decreases self,
    {
        match self {
            Node::Split { a, .. } => a.first_pane(),
            Node::Pane(pane) => *pane,
        }
    }
}

/// Splitting a node keeps every pane of it, in order, and adds the new pane
/// after them; `split_inverse` adds the pane before them.
pub proof fn lemma_split_panes(node: Node, id: Split, axis: Axis, pane: Pane)
    ensures
        panes(
            Node::Split {
                id,
                axis,
                ratio: HALF_RATIO_BITS,
                a: Box::new(node),
                b: Box::new(Node::Pane(pane)),
            },
        ) == panes(node).push(pane),
        panes(
            Node::Split {
                id,
                axis,
                ratio: HALF_RATIO_BITS,
                a: Box::new(Node::Pane(pane)),
                b: Box::new(node),
            },
        ) == seq![pane] + panes(node),
{
    assert(panes(Node::Pane(pane)) == seq![pane]);
    assert(panes(node) + seq![pane] =~= panes(node).push(pane));
}

/// Resizing never changes the panes or the splits of a tree, and it finds the
/// split exactly when the tree holds it.
pub proof fn lemma_resize_keeps_structure(node: Node, split: Split, ratio: u32)
    ensures
        panes(resized(node, split, ratio).0) == panes(node),
        split_ids(resized(node, split, ratio).0) == split_ids(node),
        resized(node, split, ratio).1 <==> split_ids(node).contains(split),
    decreases node,
{
    lemma_resized_unchanged(node, split, ratio);
    if let Node::Split { id, axis, ratio: r, a, b } = node {
        lemma_resize_keeps_structure(*a, split, ratio);
        lemma_resize_keeps_structure(*b, split, ratio);
        lemma_concat_contains(seq![id] + split_ids(*b), split_ids(*a), split);
        lemma_concat_contains(seq![id], split_ids(*b), split);
        assert(seq![id][0] == id);
    }
}

/// Removing a pane from a split tree succeeds exactly when the tree holds the
/// pane. Then the panes that remain are those of the tree with one occurrence
/// of the pane taken out, and the pane that takes its place is one of them.
pub proof fn lemma_remove_panes(node: Node, pane: Pane)
    requires
        node is Split,
    ensures
        removed(node, pane).1 is Some <==> panes(node).contains(pane),
        removed(node, pane).1 is Some ==> panes(removed(node, pane).0).to_multiset() == panes(
            node,
        ).to_multiset().remove(pane),
        removed(node, pane).1 matches Some(p) ==> panes(removed(node, pane).0).contains(p),
    decreases node,
{
    broadcast use vstd::seq_lib::lemma_multiset_commutative;
    broadcast use vstd::multiset::group_multiset_axioms;

    lemma_removed_unchanged(node, pane);
    if let Node::Split { id, axis, ratio, a, b } = node {
        lemma_concat_contains(panes(*a), panes(*b), pane);
        lemma_first_pane_in(*a);
        lemma_first_pane_in(*b);
        assert(panes(Node::Pane(pane))[0] == pane);
        if pane_of(*a) == Some(pane) {
            assert(panes(*a) =~= seq![pane]);
            assert(panes(node).to_multiset() =~= seq![pane].to_multiset().add(panes(*b).to_multiset()));
            assert(seq![pane].to_multiset() =~= vstd::multiset::Multiset::singleton(pane)) by {
                assert(seq![pane] =~= Seq::<Pane>::empty().push(pane));
                Seq::<Pane>::empty().to_multiset_ensures();
            }
        } else if pane_of(*b) == Some(pane) {
            assert(panes(*b) =~= seq![pane]);
            assert(seq![pane].to_multiset() =~= vstd::multiset::Multiset::singleton(pane)) by {
                assert(seq![pane] =~= Seq::<Pane>::empty().push(pane));
                Seq::<Pane>::empty().to_multiset_ensures();
            }
        } else {
            if *a is Pane {
                lemma_pane_only_itself(*a, pane);
            }
            if *b is Pane {
                lemma_pane_only_itself(*b, pane);
            }
            if *a is Split {
                lemma_remove_panes(*a, pane);
            }
            if *b is Split {
                lemma_remove_panes(*b, pane);
            }
            let (na, ra) = removed(*a, pane);
            if ra is Some {
                lemma_concat_contains(panes(na), panes(*b), ra->0);
                assert(panes(*a).to_multiset().count(pane) > 0) by {
                    panes(*a).to_multiset_ensures();
                }
            } else {
                let (nb, rb) = removed(*b, pane);
                if rb is Some {
                    lemma_concat_contains(panes(*a), panes(nb), rb->0);
                    assert(panes(*b).to_multiset().count(pane) > 0) by {
                        panes(*b).to_multiset_ensures();
                    }
                }
            }
        }
    }
}

proof fn lemma_first_pane_in(node: Node)
    ensures
        panes(node).contains(first_pane_of(node)),
    decreases node,
{
    match node {
        Node::Split { a, b, .. } => {
            lemma_first_pane_in(*a);
            lemma_concat_contains(panes(*a), panes(*b), first_pane_of(node));
        },
        Node::Pane(p) => {
            assert(panes(node)[0] == p);
        },
    }
}

proof fn lemma_pane_only_itself(node: Node, pane: Pane)
    requires
        node is Pane,
        pane_of(node) != Some(pane),
    ensures
        !panes(node).contains(pane),
{
}

/// The reference that `find` returns points at the pane's node: writing
/// the pane back through it leaves the tree as it was.
/// Closing the pane that a split just opened gives the node back: after
/// [`Node::split`] of a node with a new pane, [`Node::remove`] of that pane
/// restores the node, and hands back its first pane.
pub proof fn lemma_remove_undoes_split(node: Node, id: Split, axis: Axis, pane: Pane)
    ensures
        removed(
            Node::Split {
                id,
                axis,
                ratio: HALF_RATIO_BITS,
                a: Box::new(node),
                b: Box::new(Node::Pane(pane)),
            },
            pane,
        ) == (node, Some(first_pane_of(node))),
{
}

pub proof fn lemma_replace_first_same(node: Node, pane: Pane)
    ensures
        replace_first(node, pane, Node::Pane(pane)) == node,
    decreases node,
{
    if let Node::Split { a, b, .. } = node {
        lemma_replace_first_same(*a, pane);
        lemma_replace_first_same(*b, pane);
    }
}

/// The splits of a tree with their ratios, in the order of [`split_ids`].
pub open spec fn split_ratios(node: Node) -> Seq<(Split, u32)>
    decreases node,
{
    match node {
        Node::Split { id, ratio, a, b, .. } => seq![(id, ratio)] + split_ratios(*b) + split_ratios(
            *a,
        ),
        Node::Pane(_) => Seq::empty(),
    }
}

/// Whether `after` has the splits of `before`, in the same places, every
/// split other than `split` keeping its ratio.
pub open spec fn others_keep_ratios(
    before: Seq<(Split, u32)>,
    after: Seq<(Split, u32)>,
    split: Split,
) -> bool {
    &&& after.len() == before.len()
    &&& forall|i: int|
        0 <= i < before.len() ==> (#[trigger] after[i]).0 == before[i].0 && (before[i].0 != split
            ==> after[i].1 == before[i].1)
}

proof fn lemma_others_keep_concat(
    x: Seq<(Split, u32)>,
    x2: Seq<(Split, u32)>,
    y: Seq<(Split, u32)>,
    y2: Seq<(Split, u32)>,
    split: Split,
)
    requires
        others_keep_ratios(x, x2, split),
        others_keep_ratios(y, y2, split),
    ensures
        others_keep_ratios(x + y, x2 + y2, split),
{
    assert forall|i: int| 0 <= i < (x + y).len() implies (#[trigger] (x2 + y2)[i]).0 == (x
        + y)[i].0 && ((x + y)[i].0 != split ==> (x2 + y2)[i].1 == (x + y)[i].1) by {
        if i < x.len() {
            assert((x2 + y2)[i] == x2[i]);
            assert((x + y)[i] == x[i]);
        } else {
            assert((x2 + y2)[i] == y2[i - x.len()]);
            assert((x + y)[i] == y[i - x.len()]);
        }
    }
}

/// Resizing a split changes the ratio of that split only: every split of
/// the tree stays in its place, every split with another id keeps its
/// ratio, and when the split is found some split with its id gets the new
/// ratio (the only one, when ids are unique).
pub proof fn lemma_resize_changes_only_that_split(node: Node, split: Split, ratio: u32)
    ensures
        others_keep_ratios(split_ratios(node), split_ratios(resized(node, split, ratio).0), split),
        resized(node, split, ratio).1 ==> exists|i: int|
            0 <= i < split_ratios(node).len() && #[trigger] split_ratios(
                resized(node, split, ratio).0,
            )[i] == (split, ratio),
    decreases node,
{
    lemma_resized_unchanged(node, split, ratio);
    if let Node::Split { id, axis, ratio: r, a, b } = node {
        lemma_resize_changes_only_that_split(*a, split, ratio);
        lemma_resize_changes_only_that_split(*b, split, ratio);
        lemma_resized_unchanged(*a, split, ratio);
        lemma_resized_unchanged(*b, split, ratio);
        let ra = split_ratios(*a);
        let rb = split_ratios(*b);
        let head = seq![(id, r)];
        if id == split {
            let new_head = seq![(id, ratio)];
            assert(others_keep_ratios(head, new_head, split));
            assert(others_keep_ratios(rb, rb, split));
            assert(others_keep_ratios(ra, ra, split));
            lemma_others_keep_concat(head, new_head, rb, rb, split);
            lemma_others_keep_concat(head + rb, new_head + rb, ra, ra, split);
            assert(split_ratios(resized(node, split, ratio).0)[0] == (split, ratio));
        } else {
            let (na, fa) = resized(*a, split, ratio);
            assert(others_keep_ratios(head, head, split));
            if fa {
                let ra2 = split_ratios(na);
                assert(others_keep_ratios(rb, rb, split));
                lemma_others_keep_concat(head, head, rb, rb, split);
                lemma_others_keep_concat(head + rb, head + rb, ra, ra2, split);
                let i = choose|i: int| 0 <= i < ra.len() && #[trigger] ra2[i] == (split, ratio);
                assert((head + rb + ra2)[head.len() + rb.len() + i] == ra2[i]);
            } else {
                let (nb, fb) = resized(*b, split, ratio);
                let rb2 = split_ratios(nb);
                assert(others_keep_ratios(ra, ra, split));
                lemma_others_keep_concat(head, head, rb, rb2, split);
                lemma_others_keep_concat(head + rb, head + rb2, ra, ra, split);
                if fb {
                    let i = choose|i: int| 0 <= i < rb.len() && #[trigger] rb2[i] == (split, ratio);
                    assert((head + rb2 + ra)[head.len() + i] == rb2[i]);
                }
            }
        }
    }
}

} // verus!
