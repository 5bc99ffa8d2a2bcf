//! The unit of work between the two stages of a validation: a name that
//! does not follow its convention, with the name to suggest in its place.

use crate::case_conv::{classify, CaseType};
use vstd::prelude::*;

verus! {

/// A replacement, as a value.
pub struct ReplacementView {
    pub current_name: Seq<char>,
    pub suggested_text: Seq<char>,
    pub expected_case: CaseType,
}

/// A name that does not follow its convention, with the name to suggest in
/// its place.
#[derive(Clone, Debug, PartialEq, Eq)]
pub struct Replacement {
    pub current_name: String,
    pub suggested_text: String,
    pub expected_case: CaseType,
}

impl DeepView for Replacement {
    type V = ReplacementView;

    open spec fn deep_view(&self) -> ReplacementView {
        ReplacementView {
            current_name: self.current_name@,
            suggested_text: self.suggested_text@,
            expected_case: self.expected_case,
        }
    }
}

/// The replacement for `name`, if it does not follow `case`.
pub open spec fn replacement_for(name: Seq<char>, case: CaseType) -> Option<ReplacementView> {
    match classify(name, case) {
        Some(text) => Some(
            ReplacementView { current_name: name, suggested_text: text, expected_case: case },
        ),
        None => None,
    }
}

/// The replacements for the first `n` of `names`, in their order. An entry
/// without a name gives none.
pub open spec fn replacements_upto(names: Seq<Option<Seq<char>>>, case: CaseType, n: int) -> Seq<
    ReplacementView,
>
    decreases n,
{
    if n <= 0 {
        Seq::empty()
    } else {
        let before = replacements_upto(names, case, n - 1);
        match names[n - 1] {
            Some(name) => match replacement_for(name, case) {
                Some(replacement) => before.push(replacement),
                None => before,
            },
            None => before,
        }
    }
}

/// The replacements for `names`, in their order.
pub open spec fn replacements(names: Seq<Option<Seq<char>>>, case: CaseType) -> Seq<
    ReplacementView,
> {
    replacements_upto(names, case, names.len() as int)
}

/// The names that `replacements` are for, in their order.
pub open spec fn current_names(replacements: Seq<ReplacementView>) -> Seq<Seq<char>> {
    Seq::new(replacements.len(), |i: int| replacements[i].current_name)
}

} // verus!
