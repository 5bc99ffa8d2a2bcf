//! What the forward walk finds where declaration and syntax agree: every
//! name that is to be replaced, at the child it was collected for.

use crate::alignment::{alignment, child_named, locate};
use crate::case_conv::{conforms, CaseType};
use crate::replacement::{
    current_names, replacement_for, replacements, replacements_upto, ReplacementView,
};
use crate::syntax::NamedNode;
use vstd::prelude::*;

verus! {

/// Whether the entry at `i` has a name that does not follow `case`.
pub open spec fn is_flagged(names: Seq<Option<Seq<char>>>, case: CaseType, i: int) -> bool {
    names[i] matches Some(name) && !conforms(name, case)
}

/// The positions among the first `n` entries whose names do not follow
/// `case`, in rising order.
pub open spec fn flagged_upto(names: Seq<Option<Seq<char>>>, case: CaseType, n: int) -> Seq<int>
    decreases n,
{
    if n <= 0 {
        Seq::empty()
    } else if is_flagged(names, case, n - 1) {
        flagged_upto(names, case, n - 1).push(n - 1)
    } else {
        flagged_upto(names, case, n - 1)
    }
}

/// The positions of the entries whose names do not follow `case`.
pub open spec fn flagged(names: Seq<Option<Seq<char>>>, case: CaseType) -> Seq<int> {
    flagged_upto(names, case, names.len() as int)
}

/// Whether the syntax shows what the declaration holds: one child per entry,
/// which shows the entry's name, or nothing where the entry has no name.
pub open spec fn shows_names(
    children: Seq<Option<NamedNode>>,
    names: Seq<Option<Seq<char>>>,
) -> bool {
    &&& children.len() == names.len()
    &&& forall|i: int|
        0 <= i < names.len() ==> match #[trigger] names[i] {
            Some(name) => child_named(children[i], name),
            None => children[i] is None,
        }
}

/// Whether the replacement at `j` is the one for the name at the `j`th
/// flagged position.
pub open spec fn replaces_flagged(
    names: Seq<Option<Seq<char>>>,
    case: CaseType,
    positions: Seq<int>,
    found: Seq<ReplacementView>,
    j: int,
) -> bool {
    &&& 0 <= positions[j] < names.len()
    &&& is_flagged(names, case, positions[j])
    &&& Some(found[j]) == replacement_for(names[positions[j]]->0, case)
}

/// The replacements are those for the names at the flagged positions, one
/// each and in the same order.
pub proof fn lemma_replacements_at_flagged(names: Seq<Option<Seq<char>>>, case: CaseType, n: int)
    requires
        0 <= n <= names.len(),
    ensures
        replacements_upto(names, case, n).len() == flagged_upto(names, case, n).len(),
        forall|j: int|
            0 <= j < flagged_upto(names, case, n).len() ==> #[trigger] replaces_flagged(
                names,
                case,
                flagged_upto(names, case, n),
                replacements_upto(names, case, n),
                j,
            ),
    decreases n,
{
    if n > 0 {
        lemma_replacements_at_flagged(names, case, n - 1);
        let positions = flagged_upto(names, case, n);
        let found = replacements_upto(names, case, n);
        assert forall|j: int| 0 <= j < positions.len() implies #[trigger] replaces_flagged(
            names,
            case,
            positions,
            found,
            j,
        ) by {
            if j < flagged_upto(names, case, n - 1).len() {
                assert(replaces_flagged(
                    names,
                    case,
                    flagged_upto(names, case, n - 1),
                    replacements_upto(names, case, n - 1),
                    j,
                ));
            }
        }
    }
}

/// A flagged position before `n` is listed among the flagged positions up to
/// `n`, behind those that lie before it.
proof fn lemma_flagged_listed(names: Seq<Option<Seq<char>>>, case: CaseType, p: int, n: int)
    requires
        0 <= p <= n <= names.len(),
    ensures
        flagged_upto(names, case, p).len() <= flagged_upto(names, case, n).len(),
        p < n && is_flagged(names, case, p) ==> flagged_upto(names, case, p).len() < flagged_upto(
            names,
            case,
            n,
        ).len() && flagged_upto(names, case, n)[flagged_upto(names, case, p).len() as int] == p,
    decreases n,
{
    if p < n {
        lemma_flagged_listed(names, case, p, n - 1);
    }
}

/// Where the syntax shows what the declaration holds, a walk that starts at
/// the child `p`, with the first name that is flagged at or behind `p`, finds
/// the flagged positions from there on.
proof fn lemma_walk_from(
    children: Seq<Option<NamedNode>>,
    names: Seq<Option<Seq<char>>>,
    case: CaseType,
    p: int,
)
    requires
        shows_names(children, names),
        0 <= p <= names.len(),
    ensures
        alignment(
            children,
            p,
            current_names(replacements(names, case)),
            flagged_upto(names, case, p).len() as int,
        ) =~= flagged(names, case).skip(flagged_upto(names, case, p).len() as int),
    decreases names.len() - p,
{
    let n = names.len() as int;
    let all = flagged(names, case);
    let wanted = current_names(replacements(names, case));
    let k = flagged_upto(names, case, p).len() as int;
    lemma_replacements_at_flagged(names, case, n);
    lemma_flagged_listed(names, case, p, n);
    if p < n {
        lemma_walk_from(children, names, case, p + 1);
        if is_flagged(names, case, p) {
            assert(replaces_flagged(names, case, all, replacements(names, case), k));
            assert(wanted[k] == names[p]->0);
            assert(locate(children, p, wanted[k]) == p);
            assert(all.skip(k) =~= seq![p] + all.skip(k + 1));
        } else if k < wanted.len() {
            assert(replaces_flagged(names, case, all, replacements(names, case), k));
            assert(!child_named(children[p], wanted[k]));
            assert(locate(children, p, wanted[k]) == locate(children, p + 1, wanted[k]));
        }
    }
}

/// Where the syntax shows what the declaration holds, the walk finds every
/// name that is to be replaced, each at the child it was collected for: the
/// children with names that follow the convention are passed over, and no
/// replacement is left without a match.
pub proof fn lemma_agreement(
    children: Seq<Option<NamedNode>>,
    names: Seq<Option<Seq<char>>>,
    case: CaseType,
)
    requires
        shows_names(children, names),
    ensures
        alignment(children, 0, current_names(replacements(names, case)), 0) == flagged(
            names,
            case,
        ),
        flagged(names, case).len() == replacements(names, case).len(),
{
    lemma_walk_from(children, names, case, 0);
    lemma_replacements_at_flagged(names, case, names.len() as int);
    assert(flagged(names, case).skip(0) =~= flagged(names, case));
}

} // verus!
