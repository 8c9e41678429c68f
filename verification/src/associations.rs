//! Rebuilding a one-to-many association on the client side: child rows,
//! loaded in one query, are regrouped under the parent rows they belong to.

use vstd::prelude::*;

verus! {

/// A row with an identifier of its own.
pub trait Identifiable {
    /// The row's identifier.
    spec fn ident(&self) -> int;

    /// The row's identifier.
    fn id(&self) -> (id: i32)
        ensures
            id as int == self.ident(),
    ;
}

/// A child row that points to its parent, a row of type `Parent`, by a
/// foreign key.
pub trait BelongsTo<Parent>: Sized {
    /// The identifier of the parent row.
    spec fn parent(&self) -> int;

    /// The identifier of the parent row.
    fn foreign_key(&self) -> (key: i32)
        ensures
            key as int == self.parent(),
    ;

    /// A copy of the row.
    fn duplicate(&self) -> (copy: Self)
        ensures
            copy == *self,
    ;
}

/// Whether a child row belongs to the parent `parent_id`.
pub open spec fn child_of<P, C: BelongsTo<P>>(parent_id: int) -> spec_fn(C) -> bool {
    |child: C| child.parent() == parent_id
}

/// The rows of `children` that belong to `parent_id`, in their order.
pub open spec fn children_of<P, C: BelongsTo<P>>(children: Seq<C>, parent_id: int) -> Seq<C> {
    children.filter(child_of::<P, C>(parent_id))
}

/// One group for each of `parents`, in their order: the rows of `children`
/// that belong to that parent, in the order of `children`.
pub open spec fn grouping<P: Identifiable, C: BelongsTo<P>>(
    children: Seq<C>,
    parents: Seq<P>,
) -> Seq<Seq<C>> {
    Seq::new(parents.len(), |i: int| children_of::<P, C>(children, parents[i].ident()))
}

/// The rows of `children` that belong to `parent_id`, in their order.
pub fn select_children<P, C: BelongsTo<P>>(children: &Vec<C>, parent_id: i32) -> (group: Vec<C>)
    ensures
        group@ == children_of::<P, C>(children@, parent_id as int),
{
    let ghost belongs = child_of::<P, C>(parent_id as int);
    let mut group: Vec<C> = Vec::new();
    let mut i: usize = 0;
    proof {
        reveal(Seq::filter);
        assert(group@ =~= children@.take(0).filter(belongs));
    }
    while i < children.len()
        invariant
            i <= children.len(),
            belongs == child_of::<P, C>(parent_id as int),
            group@ == children@.take(i as int).filter(belongs),
        decreases children.len() - i,
    {
        let child = &children[i];
        proof {
            assert(children@.take(i + 1) =~= children@.take(i as int).push(*child));
            children@.take(i as int).lemma_filter_push(*child, belongs);
        }
        if child.foreign_key() == parent_id {
            group.push(child.duplicate());
        }
        i += 1;
    }
    assert(children@.take(children.len() as int) =~= children@);
    group
}

/// Groups `children` under `parents`: the result has one group for each
/// parent, at the parent's position, and the group holds the children whose
/// foreign key is the parent's identifier, in the order of `children`. A
/// parent without children gets an empty group.
pub fn grouped_by<P: Identifiable, C: BelongsTo<P>>(children: &Vec<C>, parents: &Vec<P>) -> (groups:
    Vec<Vec<C>>)
    ensures
        groups@.len() == parents@.len(),
        forall|i: int|
            0 <= i < parents@.len() ==> (#[trigger] groups@[i])@ == grouping(
                children@,
                parents@,
            )[i],
{
    let mut groups: Vec<Vec<C>> = Vec::new();
    let mut i: usize = 0;
    while i < parents.len()
        invariant
            i <= parents.len(),
            groups@.len() == i,
            forall|k: int|
                0 <= k < i ==> (#[trigger] groups@[k])@ == grouping(children@, parents@)[k],
        decreases parents.len() - i,
    {
        let group = select_children::<P, C>(children, parents[i].id());
        groups.push(group);
        i += 1;
    }
    groups
}


/// A selection keeps the order of its source: of two rows of the selection,
/// the earlier one stands earlier in the source too.
pub proof fn lemma_filter_keeps_order<A>(rows: Seq<A>, keep: spec_fn(A) -> bool, a: int, b: int)
    requires
        0 <= a < b < rows.filter(keep).len(),
    ensures
        exists|i: int, j: int|
            #![trigger rows[i], rows[j]]
            0 <= i < j < rows.len() && rows[i] == rows.filter(keep)[a] && rows[j] == rows.filter(
                keep,
            )[b],
    decreases rows.len(),
{
    reveal(Seq::filter);
    let rest = rows.drop_last();
    let selected = rest.filter(keep);
    if keep(rows.last()) && b == selected.len() {
        rest.lemma_filter_contains_rev(keep, selected[a]);
        let i = choose|i: int| 0 <= i < rest.len() && rest[i] == selected[a];
        let j = rows.len() - 1;
        assert(rows[i] == rows.filter(keep)[a] && rows[j] == rows.filter(keep)[b]);
    } else {
        lemma_filter_keeps_order(rest, keep, a, b);
        let (i, j) = choose|i: int, j: int|
            #![trigger rest[i], rest[j]]
            0 <= i < j < rest.len() && rest[i] == selected[a] && rest[j] == selected[b];
        assert(rows[i] == rows.filter(keep)[a] && rows[j] == rows.filter(keep)[b]);
    }
}

/// Grouping keeps the parents' order and loses no parent: there is one
/// group for each parent, at the parent's position, and a parent to which
/// no child belongs has an empty group there.
pub proof fn grouping_keeps_parents<P: Identifiable, C: BelongsTo<P>>(
    children: Seq<C>,
    parents: Seq<P>,
    at: int,
)
    requires
        0 <= at < parents.len(),
    ensures
        grouping(children, parents).len() == parents.len(),
        grouping(children, parents)[at] == children_of::<P, C>(children, parents[at].ident()),
        (forall|i: int| 0 <= i < children.len() ==> (#[trigger] children[i]).parent()
            != parents[at].ident()) ==> grouping(children, parents)[at].len() == 0,
{
    let belongs = child_of::<P, C>(parents[at].ident());
    let group = children.filter(belongs);
    if group.len() > 0 {
        children.lemma_filter_pred(belongs, 0);
        children.lemma_filter_contains_rev(belongs, group[0]);
    }
}

/// A group holds the children of its parent and no others: each of its rows
/// is one of the children and belongs to the parent, and each child that
/// belongs to the parent is in the group.
pub proof fn grouping_holds_the_children<P: Identifiable, C: BelongsTo<P>>(
    children: Seq<C>,
    parents: Seq<P>,
    at: int,
)
    requires
        0 <= at < parents.len(),
    ensures
        forall|a: int|
            0 <= a < grouping(children, parents)[at].len() ==> {
                let row = #[trigger] grouping(children, parents)[at][a];
                row.parent() == parents[at].ident() && children.contains(row)
            },
        forall|i: int|
            0 <= i < children.len() && (#[trigger] children[i]).parent() == parents[at].ident()
                ==> grouping(children, parents)[at].contains(children[i]),
{
    let belongs = child_of::<P, C>(parents[at].ident());
    let group = children.filter(belongs);
    assert forall|a: int| 0 <= a < group.len() implies (#[trigger] group[a]).parent()
        == parents[at].ident() && children.contains(group[a]) by {
        children.lemma_filter_pred(belongs, a);
        children.lemma_filter_contains_rev(belongs, group[a]);
    }
    assert forall|i: int|
        0 <= i < children.len() && (#[trigger] children[i]).parent()
            == parents[at].ident() implies group.contains(children[i]) by {
        children.lemma_filter_contains(belongs, i);
    }
}

/// Within a group the children keep the order in which they were given: of
/// two rows of a group, the earlier one stands earlier among the children
/// too.
pub proof fn grouping_keeps_children_order<P: Identifiable, C: BelongsTo<P>>(
    children: Seq<C>,
    parents: Seq<P>,
    at: int,
    a: int,
    b: int,
)
    requires
        0 <= at < parents.len(),
        0 <= a < b < grouping(children, parents)[at].len(),
    ensures
        exists|i: int, j: int|
            #![trigger children[i], children[j]]
            0 <= i < j < children.len() && children[i] == grouping(children, parents)[at][a]
                && children[j] == grouping(children, parents)[at][b],
{
    lemma_filter_keeps_order(children, child_of::<P, C>(parents[at].ident()), a, b);
}

/// The pairs of the items of `left` and `right` at equal positions, as far
/// as the shorter of the two goes.
pub open spec fn zipped<A, B>(left: Seq<A>, right: Seq<B>) -> Seq<(A, B)> {
    Seq::new(
        if left.len() <= right.len() {
            left.len()
        } else {
            right.len()
        },
        |i: int| (left[i], right[i]),
    )
}

/// The items of `items` in reverse order.
fn reversed<T>(items: Vec<T>) -> (out: Vec<T>)
    ensures
        out@ == items@.reverse(),
{
    let mut rest = items;
    let mut out: Vec<T> = Vec::new();
    while rest.len() > 0
        invariant
            rest@ == items@.take(rest@.len() as int),
            rest@.len() <= items@.len(),
            out@.len() + rest@.len() == items@.len(),
            forall|k: int| 0 <= k < out@.len() ==> out@[k] == items@[items@.len() - 1 - k],
        decreases rest@.len(),
    {
        let item = rest.pop().unwrap();
        out.push(item);
    }
    assert(out@ =~= items@.reverse());
    out
}

/// Splits a list of pairs into the list of their first items and the list
/// of their second items.
pub fn unzip<A, B>(pairs: Vec<(A, B)>) -> (parts: (Vec<A>, Vec<B>))
    ensures
        parts.0@ == pairs@.map_values(|pair: (A, B)| pair.0),
        parts.1@ == pairs@.map_values(|pair: (A, B)| pair.1),
{
    let mut rest = pairs;
    let mut firsts: Vec<A> = Vec::new();
    let mut seconds: Vec<B> = Vec::new();
    while rest.len() > 0
        invariant
            rest@ == pairs@.take(rest@.len() as int),
            rest@.len() <= pairs@.len(),
            firsts@.len() + rest@.len() == pairs@.len(),
            seconds@.len() == firsts@.len(),
            forall|k: int|
                0 <= k < firsts@.len() ==> firsts@[k] == pairs@[pairs@.len() - 1 - k].0
                    && seconds@[k] == pairs@[pairs@.len() - 1 - k].1,
        decreases rest@.len(),
    {
        let (first, second) = rest.pop().unwrap();
        firsts.push(first);
        seconds.push(second);
    }
    let firsts = reversed(firsts);
    let seconds = reversed(seconds);
    assert(firsts@ =~= pairs@.map_values(|pair: (A, B)| pair.0));
    assert(seconds@ =~= pairs@.map_values(|pair: (A, B)| pair.1));
    (firsts, seconds)
}

/// Pairs the items of `left` and `right` at equal positions, as far as the
/// shorter of the two goes.
pub fn zip<A, B>(left: Vec<A>, right: Vec<B>) -> (pairs: Vec<(A, B)>)
    ensures
        pairs@ == zipped(left@, right@),
{
    let mut left_rest = left;
    let mut right_rest = right;
    let count = if left_rest.len() <= right_rest.len() {
        left_rest.len()
    } else {
        right_rest.len()
    };
    left_rest.truncate(count);
    right_rest.truncate(count);
    let mut backwards: Vec<(A, B)> = Vec::new();
    while left_rest.len() > 0
        invariant
            count == zipped(left@, right@).len(),
            left_rest@.len() == right_rest@.len(),
            left_rest@.len() <= count,
            left_rest@ == left@.take(left_rest@.len() as int),
            right_rest@ == right@.take(right_rest@.len() as int),
            backwards@.len() + left_rest@.len() == count,
            forall|k: int|
                0 <= k < backwards@.len() ==> backwards@[k] == zipped(left@, right@)[count - 1
                    - k],
        decreases left_rest@.len(),
    {
        let first = left_rest.pop().unwrap();
        let second = right_rest.pop().unwrap();
        backwards.push((first, second));
    }
    let pairs = reversed(backwards);
    assert(pairs@ =~= zipped(left@, right@));
    pairs
}


/// Whether the identifiers of `rows` grow strictly from row to row.
pub open spec fn ascending<P: Identifiable>(rows: Seq<P>) -> bool {
    forall|i: int, j: int|
        0 <= i < j < rows.len() ==> (#[trigger] rows[i]).ident() < (#[trigger] rows[j]).ident()
}

/// Whether the identifiers of `rows` grow strictly from row to row.
pub fn is_ascending<P: Identifiable>(rows: &Vec<P>) -> (yes: bool)
    ensures
        yes == ascending(rows@),
{
    if rows.len() == 0 {
        return true;
    }
    let mut i: usize = 1;
    while i < rows.len()
        invariant
            1 <= i <= rows.len(),
            ascending(rows@.take(i as int)),
        decreases rows.len() - i,
    {
        if rows[i - 1].id() >= rows[i].id() {
            assert(!(rows@[i - 1].ident() < rows@[i as int].ident()));
            return false;
        }
        proof {
            let before = rows@.take(i as int);
            let now = rows@.take(i + 1);
            assert forall|a: int, b: int| 0 <= a < b < now.len() implies (#[trigger] now[a]).ident()
                < (#[trigger] now[b]).ident() by {
                if b < i {
                    assert(before[a].ident() < before[b].ident());
                } else if a < i - 1 {
                    assert(before[a].ident() < before[i - 1].ident());
                }
            }
        }
        i += 1;
    }
    assert(rows@.take(i as int) =~= rows@);
    true
}

/// The identifiers of `parents`, in their order.
pub fn ids_of<P: Identifiable>(parents: &Vec<P>) -> (ids: Vec<i32>)
    ensures
        ids@.len() == parents@.len(),
        forall|i: int| 0 <= i < parents@.len() ==> (#[trigger] ids@[i]) as int == parents@[i].ident(),
{
    let mut ids: Vec<i32> = Vec::new();
    let mut i: usize = 0;
    while i < parents.len()
        invariant
            i <= parents.len(),
            ids@.len() == i,
            forall|k: int| 0 <= k < i ==> (#[trigger] ids@[k]) as int == parents@[k].ident(),
        decreases parents.len() - i,
    {
        ids.push(parents[i].id());
        i += 1;
    }
    ids
}

} // verus!
