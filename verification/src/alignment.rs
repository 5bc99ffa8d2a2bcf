//! Matching names against the syntax that shows them.
//!
//! A declaration lists its parameters or fields in source order; the names
//! to find among them come in the same order, but only some of the children
//! are asked for. The names are aligned with the children in one walk that
//! never goes back.

use crate::syntax::NamedNode;
use vstd::prelude::*;

verus! {

/// Whether `child` shows the name `name`.
pub open spec fn child_named(child: Option<NamedNode>, name: Seq<char>) -> bool {
    child matches Some(node) && node.text == name
}

/// The first position at or behind `from` at which `children` shows `name`,
/// or the length of `children` if there is none.
pub open spec fn locate(children: Seq<Option<NamedNode>>, from: int, name: Seq<char>) -> int
    decreases children.len() - from,
{
    if from < 0 || from >= children.len() {
        children.len() as int
    } else if child_named(children[from], name) {
        from
    } else {
        locate(children, from + 1, name)
    }
}

/// The positions in `children` that the names from `names[k]` on are matched
/// with, when the search starts at `from`.
///
/// The children are walked once and forwards: each name takes the first
/// child behind its predecessor's that shows it, and the children passed over
/// are left alone. The first name that no child shows ends the walk, for
/// itself and for the names behind it.
pub open spec fn alignment(
    children: Seq<Option<NamedNode>>,
    from: int,
    names: Seq<Seq<char>>,
    k: int,
) -> Seq<int>
    decreases names.len() - k,
{
    if k < 0 || k >= names.len() {
        Seq::empty()
    } else {
        let at = locate(children, from, names[k]);
        if at >= children.len() {
            Seq::empty()
        } else {
            seq![at] + alignment(children, at + 1, names, k + 1)
        }
    }
}

/// What `locate` finds: the first child at or behind `from` that shows
/// `name`.
pub proof fn lemma_locate(children: Seq<Option<NamedNode>>, from: int, name: Seq<char>)
    requires
        0 <= from <= children.len(),
    ensures
        from <= locate(children, from, name) <= children.len(),
        forall|j: int|
            from <= j < locate(children, from, name) ==> !child_named(#[trigger] children[j], name),
        locate(children, from, name) < children.len() ==> child_named(
            children[locate(children, from, name)],
            name,
        ),
    decreases children.len() - from,
{
    if from < children.len() && !child_named(children[from], name) {
        lemma_locate(children, from + 1, name);
    }
}

/// Where the search goes on behind the first `i` positions of an alignment
/// that started at `from`.
pub open spec fn cursor_behind(positions: Seq<int>, from: int, i: int) -> int {
    if i <= 0 {
        from
    } else {
        positions[i - 1] + 1
    }
}

/// Whether the match at `positions[i]` is in order: it lies in `children`
/// at or behind `from`, and it is the first child behind the match before
/// that shows `names[k + i]`.
pub open spec fn walk_step(
    children: Seq<Option<NamedNode>>,
    from: int,
    names: Seq<Seq<char>>,
    k: int,
    positions: Seq<int>,
    i: int,
) -> bool {
    &&& from <= positions[i] < children.len()
    &&& child_named(children[positions[i]], names[k + i])
    &&& positions[i] == locate(children, cursor_behind(positions, from, i), names[k + i])
}

/// Whether `positions` are the matches of one forward walk for the names
/// from `names[k]` on. No more names are matched than there are; each is
/// matched with the first child behind the one before that shows it, so the
/// positions rise; and if a name is left over, no child behind the last
/// position shows the first such name.
pub open spec fn is_forward_walk(
    children: Seq<Option<NamedNode>>,
    from: int,
    names: Seq<Seq<char>>,
    k: int,
    positions: Seq<int>,
) -> bool {
    &&& positions.len() <= names.len() - k
    &&& forall|i: int|
        0 <= i < positions.len() ==> #[trigger] walk_step(children, from, names, k, positions, i)
    &&& forall|i: int, j: int| 0 <= i < j < positions.len() ==> positions[i] < positions[j]
    &&& positions.len() < names.len() - k ==> locate(
        children,
        cursor_behind(positions, from, positions.len() as int),
        names[k + positions.len()],
    ) >= children.len()
}

/// An alignment is the forward walk that its definition describes.
pub proof fn lemma_alignment(
    children: Seq<Option<NamedNode>>,
    from: int,
    names: Seq<Seq<char>>,
    k: int,
)
    requires
        0 <= from,
        0 <= k <= names.len(),
    ensures
        is_forward_walk(children, from, names, k, alignment(children, from, names, k)),
    decreases names.len() - k,
{
    let positions = alignment(children, from, names, k);
    if k < names.len() {
        let at = locate(children, from, names[k]);
        if from <= children.len() {
            lemma_locate(children, from, names[k]);
        }
        if at < children.len() {
            let rest = alignment(children, at + 1, names, k + 1);
            lemma_alignment(children, at + 1, names, k + 1);
            assert(positions == seq![at] + rest);
            assert forall|i: int| 0 <= i < positions.len() implies #[trigger] walk_step(
                children,
                from,
                names,
                k,
                positions,
                i,
            ) by {
                if i > 0 {
                    assert(walk_step(children, at + 1, names, k + 1, rest, i - 1));
                    assert(positions[i] == rest[i - 1]);
                    assert(cursor_behind(positions, from, i) == cursor_behind(rest, at + 1, i - 1));
                }
            }
            assert forall|i: int, j: int| 0 <= i < j < positions.len() implies positions[i]
                < positions[j] by {
                assert(positions[j] == rest[j - 1]);
                assert(walk_step(children, at + 1, names, k + 1, rest, j - 1));
                if i > 0 {
                    assert(positions[i] == rest[i - 1]);
                }
            }
            if positions.len() < names.len() - k {
                assert(cursor_behind(positions, from, positions.len() as int) == cursor_behind(
                    rest,
                    at + 1,
                    rest.len() as int,
                ));
            }
        }
    }
}

/// A name that no child shows ends the walk: neither it nor any name behind
/// it is matched, and the names before it are matched as if the list of names
/// ended there.
pub proof fn lemma_alignment_stops_at_unmatched(
    children: Seq<Option<NamedNode>>,
    from: int,
    names: Seq<Seq<char>>,
    k: int,
    m: int,
)
    requires
        0 <= from,
        0 <= k <= m < names.len(),
        forall|j: int| 0 <= j < children.len() ==> !child_named(#[trigger] children[j], names[m]),
    ensures
        alignment(children, from, names, k) == alignment(children, from, names.take(m), k),
        alignment(children, from, names, k).len() <= m - k,
    decreases m - k,
{
    let at = locate(children, from, names[k]);
    if from <= children.len() {
        lemma_locate(children, from, names[k]);
    }
    if k < m {
        assert(names.take(m)[k] == names[k]);
        if at < children.len() {
            lemma_alignment_stops_at_unmatched(children, at + 1, names, k + 1, m);
        }
    }
}

} // verus!
