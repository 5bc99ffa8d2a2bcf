//! The diagnostic that reports a name with the wrong casing, and the sink
//! that collects diagnostics.

use crate::case_conv::CaseType;
use crate::syntax::{FileId, SyntaxNodePtr};
use vstd::prelude::*;

verus! {

/// A diagnostic, as a value.
pub struct IncorrectCaseView {
    pub file: FileId,
    pub ident_type: Seq<char>,
    pub ident: SyntaxNodePtr,
    pub expected_case: CaseType,
    pub ident_text: Seq<char>,
    pub suggested_text: Seq<char>,
}

impl IncorrectCaseView {
    /// The text of the diagnostic.
    pub open spec fn message(self) -> Seq<char> {
        self.ident_type + " `"@ + self.ident_text + "` should have a "@
            + self.expected_case.spec_label() + " name, e.g. `"@ + self.suggested_text + "`"@
    }
}

/// A name that does not follow the casing expected of it.
#[derive(Clone, Debug, PartialEq, Eq)]
pub struct IncorrectCase {
    /// The file of the declaration.
    pub file: FileId,
    /// What the name belongs to: `Function`, `Argument`, `Structure` or
    /// `Field`.
    pub ident_type: String,
    /// Where the name stands.
    pub ident: SyntaxNodePtr,
    /// The convention that the name does not follow.
    pub expected_case: CaseType,
    /// The name as it is.
    pub ident_text: String,
    /// The name to use instead.
    pub suggested_text: String,
}

impl DeepView for IncorrectCase {
    type V = IncorrectCaseView;

    open spec fn deep_view(&self) -> IncorrectCaseView {
        IncorrectCaseView {
            file: self.file,
            ident_type: self.ident_type@,
            ident: self.ident,
            expected_case: self.expected_case,
            ident_text: self.ident_text@,
            suggested_text: self.suggested_text@,
        }
    }
}

impl IncorrectCase {
    /// The text of the diagnostic, such as
    /// ``Function `Foo` should have a snake_case name, e.g. `foo` ``.
    pub fn message(&self) -> (text: String)
        ensures
            text@ == self.deep_view().message(),
    {
        let mut text = self.ident_type.clone();
        text.append(" `");
        text.append(self.ident_text.as_str());
        text.append("` should have a ");
        text.append(self.expected_case.label());
        text.append(" name, e.g. `");
        text.append(self.suggested_text.as_str());
        text.append("`");
        text
    }
}

/// Collects diagnostics in the order in which they are pushed. Nothing is
/// ever taken out or changed.
#[derive(Clone, Debug, PartialEq, Eq)]
pub struct DiagnosticSink {
    diagnostics: Vec<IncorrectCase>,
}

impl DeepView for DiagnosticSink {
    type V = Seq<IncorrectCaseView>;

    closed spec fn deep_view(&self) -> Seq<IncorrectCaseView> {
        self.diagnostics.deep_view()
    }
}

impl DiagnosticSink {
    /// A sink that holds nothing.
    pub fn new() -> (sink: DiagnosticSink)
        ensures
            sink.deep_view() == Seq::<IncorrectCaseView>::empty(),
    {
        let sink = DiagnosticSink { diagnostics: Vec::new() };
        sink
    }

    /// Adds `diagnostic` behind those that the sink holds.
    pub fn push(&mut self, diagnostic: IncorrectCase)
        ensures
            final(self).deep_view() == old(self).deep_view().push(diagnostic.deep_view()),
    {
        self.diagnostics.push(diagnostic);
    }

    /// How many diagnostics the sink holds.
    pub fn len(&self) -> (n: usize)
        ensures
            n == self.deep_view().len(),
    {
        self.diagnostics.len()
    }

    /// The diagnostics, in the order in which they were pushed.
    pub fn diagnostics(&self) -> (all: &Vec<IncorrectCase>)
        ensures
            all.deep_view() == self.deep_view(),
    {
        &self.diagnostics
    }
}

} // verus!
