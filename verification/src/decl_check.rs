//! Validators for the names that declarations introduce: functions and their
//! parameters, structs and their fields.
//!
//! A declaration is validated in two stages. The first reads what the item
//! declares and collects a [`Replacement`] for every name that does not
//! follow its convention. The second, which is skipped when nothing was
//! collected, finds the syntax node of each such name and pushes one
//! diagnostic per node that it finds.

use crate::agreement::{flagged, lemma_agreement, shows_names};
use crate::alignment::{
    alignment, child_named, lemma_alignment, lemma_alignment_stops_at_unmatched, locate,
};
use crate::case_conv::{to_camel_case, to_lower_snake_case, CaseType};
use crate::diagnostics::{DiagnosticSink, IncorrectCase, IncorrectCaseView};
use crate::database::{
    AdtId, Database, EnumId, FunctionDataView, FunctionId, FunctionItem, ModuleDefId,
    StructDataView, StructId, StructItem, VariantData, VariantDataView,
};
use crate::replacement::{
    current_names, replacement_for, replacements, replacements_upto, Replacement, ReplacementView,
};
use crate::syntax::{FieldList, FileId, Name, NamedNode, Pat, SyntaxNodePtr};
use vstd::prelude::*;

verus! {

/// An inconsistency, as a value.
pub enum InconsistencyView {
    MissingName { replacement: ReplacementView },
    MissingList { replacements: Seq<ReplacementView> },
    NotFound { index: int, replacement: ReplacementView },
}

/// A disagreement between what an item declares and the syntax it was
/// declared with: a replacement was collected for a name that the syntax does
/// not show. It carries the replacements that found no place.
#[derive(Clone, Debug, PartialEq, Eq)]
pub enum Inconsistency {
    /// The item's own name is to be replaced, but its syntax has no name.
    MissingName { replacement: Replacement },
    /// Names of parameters or fields are to be replaced, but the syntax has
    /// no list of them.
    MissingList { replacements: Vec<Replacement> },
    /// The replacement at `index` names a parameter or field that the list
    /// does not hold behind the one found for the replacement before.
    NotFound { index: usize, replacement: Replacement },
}

impl DeepView for Inconsistency {
    type V = InconsistencyView;

    open spec fn deep_view(&self) -> InconsistencyView {
        match self {
            Inconsistency::MissingName { replacement } => InconsistencyView::MissingName {
                replacement: replacement.deep_view(),
            },
            Inconsistency::MissingList { replacements } => InconsistencyView::MissingList {
                replacements: replacements.deep_view(),
            },
            Inconsistency::NotFound { index, replacement } => InconsistencyView::NotFound {
                index: *index as int,
                replacement: replacement.deep_view(),
            },
        }
    }
}

/// How a validation ended, as a value.
pub open spec fn outcome_view(outcome: Result<(), Inconsistency>) -> Result<
    (),
    InconsistencyView,
> {
    match outcome {
        Ok(()) => Ok(()),
        Err(inconsistency) => Err(inconsistency.deep_view()),
    }
}

/// The replacement for a function's own name: functions are in lower snake
/// case.
pub open spec fn function_name_replacement(data: FunctionDataView) -> Option<ReplacementView> {
    replacement_for(data.name, CaseType::LowerSnakeCase)
}

/// The replacements for a function's parameters: parameters are in lower
/// snake case.
pub open spec fn function_param_replacements(data: FunctionDataView) -> Seq<ReplacementView> {
    replacements(data.param_names, CaseType::LowerSnakeCase)
}

/// The replacement for a struct's own name: structs are in upper camel case.
pub open spec fn struct_name_replacement(data: StructDataView) -> Option<ReplacementView> {
    replacement_for(data.name, CaseType::UpperCamelCase)
}

/// The replacements for a struct's fields: the fields of a record struct are
/// in lower snake case, and those of a tuple struct have no names to check.
pub open spec fn struct_field_replacements(data: StructDataView) -> Seq<ReplacementView> {
    match data.variant_data {
        VariantDataView::Record(fields) => replacements(
            Seq::new(fields.len(), |i: int| Some(fields[i])),
            CaseType::LowerSnakeCase,
        ),
        _ => Seq::empty(),
    }
}

/// The diagnostic for `replacement`, found at `node` in `file`.
pub open spec fn diagnostic(
    file: FileId,
    ident_type: Seq<char>,
    node: SyntaxNodePtr,
    replacement: ReplacementView,
) -> IncorrectCaseView {
    IncorrectCaseView {
        file,
        ident_type,
        ident: node,
        expected_case: replacement.expected_case,
        ident_text: replacement.current_name,
        suggested_text: replacement.suggested_text,
    }
}

/// The diagnostics for the replacements that are matched at `positions`: the
/// first replacement with the child at the first position, and so on.
pub open spec fn diagnostics_at(
    file: FileId,
    ident_type: Seq<char>,
    children: Seq<Option<NamedNode>>,
    replacements: Seq<ReplacementView>,
    positions: Seq<int>,
) -> Seq<IncorrectCaseView> {
    Seq::new(
        positions.len(),
        |i: int| diagnostic(file, ident_type, children[positions[i]]->0.ptr, replacements[i]),
    )
}

/// The diagnostics for a declaration.
///
/// `name` and `children` are what the syntax shows: the declaration's name
/// and its list of parameters or fields. `own` and `subs` are the
/// replacements collected for the declaration's own name and for its
/// parameters or fields.
///
/// A replacement for the own name gives one diagnostic; if the syntax shows
/// no name, there is none at all. The replacements for parameters or fields
/// give one diagnostic each as far as they are aligned with the list, and
/// none where there is no list.
pub open spec fn declaration_diagnostics(
    file: FileId,
    own_type: Seq<char>,
    sub_type: Seq<char>,
    name: Option<NamedNode>,
    children: Option<Seq<Option<NamedNode>>>,
    own: Option<ReplacementView>,
    subs: Seq<ReplacementView>,
) -> Seq<IncorrectCaseView> {
    if own is Some && name is None {
        Seq::empty()
    } else {
        let first = match (own, name) {
            (Some(replacement), Some(node)) => seq![
                diagnostic(file, own_type, node.ptr, replacement),
            ],
            _ => Seq::empty(),
        };
        let rest = match children {
            Some(list) => diagnostics_at(
                file,
                sub_type,
                list,
                subs,
                alignment(list, 0, current_names(subs), 0),
            ),
            None => Seq::empty(),
        };
        first + rest
    }
}

/// How the search for the syntax of a declaration's replacements ends: well,
/// or with the first disagreement met and the replacements that it leaves
/// without a place.
pub open spec fn declaration_outcome(
    name: Option<NamedNode>,
    children: Option<Seq<Option<NamedNode>>>,
    own: Option<ReplacementView>,
    subs: Seq<ReplacementView>,
) -> Result<(), InconsistencyView> {
    if own is Some && name is None {
        Err(InconsistencyView::MissingName { replacement: own->0 })
    } else {
        match children {
            Some(list) => {
                let found = alignment(list, 0, current_names(subs), 0).len() as int;
                if found < subs.len() {
                    Err(InconsistencyView::NotFound { index: found, replacement: subs[found] })
                } else {
                    Ok(())
                }
            },
            None => if subs.len() > 0 {
                Err(InconsistencyView::MissingList { replacements: subs })
            } else {
                Ok(())
            },
        }
    }
}

/// The diagnostics for a function, given the replacements collected for it.
pub open spec fn function_diagnostics(
    item: FunctionItem,
    own: Option<ReplacementView>,
    params: Seq<ReplacementView>,
) -> Seq<IncorrectCaseView> {
    declaration_diagnostics(
        item.source.file_id,
        "Function"@,
        "Argument"@,
        item.source.value.deep_view().name,
        item.source.value.deep_view().params,
        own,
        params,
    )
}

/// How the search for the syntax of a function's replacements ends.
pub open spec fn function_outcome(
    item: FunctionItem,
    own: Option<ReplacementView>,
    params: Seq<ReplacementView>,
) -> Result<(), InconsistencyView> {
    declaration_outcome(
        item.source.value.deep_view().name,
        item.source.value.deep_view().params,
        own,
        params,
    )
}

/// The diagnostics for a struct, given the replacements collected for it.
pub open spec fn struct_diagnostics(
    item: StructItem,
    own: Option<ReplacementView>,
    fields: Seq<ReplacementView>,
) -> Seq<IncorrectCaseView> {
    declaration_diagnostics(
        item.source.file_id,
        "Structure"@,
        "Field"@,
        item.source.value.deep_view().name,
        item.source.value.deep_view().record_fields,
        own,
        fields,
    )
}

/// How the search for the syntax of a struct's replacements ends.
pub open spec fn struct_outcome(
    item: StructItem,
    own: Option<ReplacementView>,
    fields: Seq<ReplacementView>,
) -> Result<(), InconsistencyView> {
    declaration_outcome(
        item.source.value.deep_view().name,
        item.source.value.deep_view().record_fields,
        own,
        fields,
    )
}

/// The diagnostics that validating the item `def` of `db` gives. Only
/// functions and structs are validated.
pub open spec fn item_diagnostics(db: Database, def: ModuleDefId) -> Seq<IncorrectCaseView> {
    match def {
        ModuleDefId::FunctionId(id) => function_diagnostics(
            db.function(id),
            function_name_replacement(db.function(id).data.deep_view()),
            function_param_replacements(db.function(id).data.deep_view()),
        ),
        ModuleDefId::AdtId(AdtId::StructId(id)) => struct_diagnostics(
            db.structure(id),
            struct_name_replacement(db.structure(id).data.deep_view()),
            struct_field_replacements(db.structure(id).data.deep_view()),
        ),
        _ => Seq::empty(),
    }
}

/// How validating the item `def` of `db` ends.
pub open spec fn item_outcome(db: Database, def: ModuleDefId) -> Result<
    (),
    InconsistencyView,
> {
    match def {
        ModuleDefId::FunctionId(id) => function_outcome(
            db.function(id),
            function_name_replacement(db.function(id).data.deep_view()),
            function_param_replacements(db.function(id).data.deep_view()),
        ),
        ModuleDefId::AdtId(AdtId::StructId(id)) => struct_outcome(
            db.structure(id),
            struct_name_replacement(db.structure(id).data.deep_view()),
            struct_field_replacements(db.structure(id).data.deep_view()),
        ),
        _ => Ok(()),
    }
}

/// A declaration never gets more diagnostics than replacements were
/// collected for it.
pub proof fn lemma_diagnostics_bounded(
    file: FileId,
    own_type: Seq<char>,
    sub_type: Seq<char>,
    name: Option<NamedNode>,
    children: Option<Seq<Option<NamedNode>>>,
    own: Option<ReplacementView>,
    subs: Seq<ReplacementView>,
)
    ensures
        declaration_diagnostics(file, own_type, sub_type, name, children, own, subs).len() <= (
        if own is Some {
            1int
        } else {
            0int
        }) + subs.len(),
{
    if let Some(list) = children {
        lemma_alignment(list, 0, current_names(subs), 0);
    }
}

/// Validating an item never gives more diagnostics than it has names that do
/// not follow their convention.
pub proof fn lemma_item_diagnostics_bounded(db: Database, def: ModuleDefId)
    ensures
        item_diagnostics(db, def).len() <= match def {
            ModuleDefId::FunctionId(id) => (if function_name_replacement(
                db.function(id).data.deep_view(),
            ) is Some {
                1int
            } else {
                0int
            }) + function_param_replacements(db.function(id).data.deep_view()).len(),
            ModuleDefId::AdtId(AdtId::StructId(id)) => (if struct_name_replacement(
                db.structure(id).data.deep_view(),
            ) is Some {
                1int
            } else {
                0int
            }) + struct_field_replacements(db.structure(id).data.deep_view()).len(),
            _ => 0int,
        },
{
    match def {
        ModuleDefId::FunctionId(id) => {
            let item = db.function(id);
            lemma_diagnostics_bounded(
                item.source.file_id,
                "Function"@,
                "Argument"@,
                item.source.value.deep_view().name,
                item.source.value.deep_view().params,
                function_name_replacement(item.data.deep_view()),
                function_param_replacements(item.data.deep_view()),
            );
        },
        ModuleDefId::AdtId(AdtId::StructId(id)) => {
            let item = db.structure(id);
            lemma_diagnostics_bounded(
                item.source.file_id,
                "Structure"@,
                "Field"@,
                item.source.value.deep_view().name,
                item.source.value.deep_view().record_fields,
                struct_name_replacement(item.data.deep_view()),
                struct_field_replacements(item.data.deep_view()),
            );
        },
        _ => {},
    }
}

/// A replacement for a name that no entry of the list shows gets no
/// diagnostic, and neither do the replacements behind it. The diagnostics for
/// the replacements before it are those that the list of replacements would
/// get if it ended before that one, and the outcome reports a disagreement.
pub proof fn lemma_unmatched_replacement(
    file: FileId,
    own_type: Seq<char>,
    sub_type: Seq<char>,
    name: Option<NamedNode>,
    children: Seq<Option<NamedNode>>,
    own: Option<ReplacementView>,
    subs: Seq<ReplacementView>,
    m: int,
)
    requires
        0 <= m < subs.len(),
        forall|j: int|
            0 <= j < children.len() ==> !child_named(#[trigger] children[j], subs[m].current_name),
    ensures
        declaration_diagnostics(file, own_type, sub_type, name, Some(children), own, subs)
            == declaration_diagnostics(
            file,
            own_type,
            sub_type,
            name,
            Some(children),
            own,
            subs.take(m),
        ),
        declaration_diagnostics(file, own_type, sub_type, name, Some(children), own, subs).len()
            <= (if own is Some {
            1int
        } else {
            0int
        }) + m,
        declaration_outcome(name, Some(children), own, subs) is Err,
{
    let names = current_names(subs);
    assert(current_names(subs.take(m)) =~= names.take(m));
    lemma_alignment_stops_at_unmatched(children, 0, names, 0, m);
    let positions = alignment(children, 0, names, 0);
    assert(diagnostics_at(file, sub_type, children, subs, positions) =~= diagnostics_at(
        file,
        sub_type,
        children,
        subs.take(m),
        positions,
    ));
}

/// Where the syntax shows the declaration's name and, child by child, the
/// names that the replacements were collected from, nothing is amiss: every
/// replacement gets its diagnostic, at the child that it was collected for.
pub proof fn lemma_agreeing_declaration(
    file: FileId,
    own_type: Seq<char>,
    sub_type: Seq<char>,
    name: Option<NamedNode>,
    children: Seq<Option<NamedNode>>,
    own: Option<ReplacementView>,
    names: Seq<Option<Seq<char>>>,
    case: CaseType,
)
    requires
        own is Some ==> name is Some,
        shows_names(children, names),
    ensures
        declaration_outcome(name, Some(children), own, replacements(names, case)) is Ok,
        declaration_diagnostics(
            file,
            own_type,
            sub_type,
            name,
            Some(children),
            own,
            replacements(names, case),
        ) == (match own {
            Some(replacement) => seq![diagnostic(file, own_type, name->0.ptr, replacement)],
            None => Seq::empty(),
        }) + diagnostics_at(
            file,
            sub_type,
            children,
            replacements(names, case),
            flagged(names, case),
        ),
        declaration_diagnostics(
            file,
            own_type,
            sub_type,
            name,
            Some(children),
            own,
            replacements(names, case),
        ).len() == (if own is Some {
            1int
        } else {
            0int
        }) + replacements(names, case).len(),
{
    lemma_agreement(children, names, case);
}

/// A struct without named fields, a unit struct or a tuple struct, has no
/// field replacements: it gets the one diagnostic for its own name, if that
/// is to be replaced and the syntax shows it, and no other.
pub proof fn lemma_struct_without_named_fields(db: Database, id: StructId)
    requires
        !(db.structure(id).data.deep_view().variant_data is Record),
    ensures
        struct_field_replacements(db.structure(id).data.deep_view()).len() == 0,
        item_diagnostics(db, ModuleDefId::AdtId(AdtId::StructId(id))) == match (
            struct_name_replacement(db.structure(id).data.deep_view()),
            db.structure(id).source.value.deep_view().name,
        ) {
            (Some(replacement), Some(node)) => seq![
                diagnostic(db.structure(id).source.file_id, "Structure"@, node.ptr, replacement),
            ],
            _ => Seq::empty(),
        },
        item_outcome(db, ModuleDefId::AdtId(AdtId::StructId(id))) is Err <==> (
        struct_name_replacement(db.structure(id).data.deep_view()) is Some
            && db.structure(id).source.value.deep_view().name is None),
{
    let item = db.structure(id);
    let own = struct_name_replacement(item.data.deep_view());
    let subs = struct_field_replacements(item.data.deep_view());
    let file = item.source.file_id;
    let found = item_diagnostics(db, ModuleDefId::AdtId(AdtId::StructId(id)));
    assert(subs =~= Seq::empty());
    match item.source.value.deep_view().record_fields {
        Some(list) => {
            assert(alignment(list, 0, current_names(subs), 0) =~= Seq::empty());
            assert(diagnostics_at(file, "Field"@, list, subs, Seq::empty()) =~= Seq::empty());
        },
        None => {},
    }
    match (own, item.source.value.deep_view().name) {
        (Some(replacement), Some(node)) => {
            assert(found =~= seq![diagnostic(file, "Structure"@, node.ptr, replacement)]);
        },
        _ => {
            assert(found =~= Seq::empty());
        },
    }
}

/// Whether the name node `left`, if there is one, shows the name `right`.
pub fn names_equal(left: Option<&Name>, right: &String) -> (r: bool)
    ensures
        r == child_named(left.deep_view(), right@),
{
    match left {
        Some(left) => left.text == *right,
        None => false,
    }
}

/// Whether `pat`, if there is one, is an identifier pattern that binds the
/// name `name`. What the pattern holds around the identifier, such as `mut`,
/// does not count.
pub fn pat_equals_to_name(pat: Option<&Pat>, name: &String) -> (r: bool)
    ensures
        r == (pat matches Some(p) && child_named(p.deep_view(), name@)),
{
    match pat {
        Some(Pat::IdentPat { name: bound, .. }) => *bound == *name,
        _ => false,
    }
}

/// Validates the declaration of one item and pushes what it finds into a
/// sink.
pub struct DeclValidator {
    owner: ModuleDefId,
    sink: DiagnosticSink,
}

impl DeclValidator {
    /// The item that is validated.
    pub closed spec fn spec_owner(&self) -> ModuleDefId {
        self.owner
    }

    /// The diagnostics that the sink holds.
    pub closed spec fn emitted(&self) -> Seq<IncorrectCaseView> {
        self.sink.deep_view()
    }

    /// A validator for the item `owner`, which pushes into `sink`.
    pub fn new(owner: ModuleDefId, sink: DiagnosticSink) -> (validator: DeclValidator)
        ensures
            validator.spec_owner() == owner,
            validator.emitted() == sink.deep_view(),
    {
        DeclValidator { owner, sink }
    }

    /// The item that is validated.
    pub fn owner(&self) -> (owner: ModuleDefId)
        ensures
            owner == self.spec_owner(),
    {
        self.owner
    }

    /// The sink, with all that was pushed into it.
    pub fn sink(&self) -> (sink: &DiagnosticSink)
        ensures
            sink.deep_view() == self.emitted(),
    {
        &self.sink
    }

    /// Gives the sink back, with all that was pushed into it.
    pub fn into_sink(self) -> (sink: DiagnosticSink)
        ensures
            sink.deep_view() == self.emitted(),
    {
        self.sink
    }

    /// Validates the item that the validator was made for. Functions and
    /// structs are validated; for every other kind of item nothing is done.
    pub fn validate_item(&mut self, db: &Database) -> (outcome: Result<(), Inconsistency>)
        requires
            db.resolves(old(self).spec_owner()),
        ensures
            final(self).spec_owner() == old(self).spec_owner(),
            final(self).emitted() == old(self).emitted() + item_diagnostics(
                *db,
                old(self).spec_owner(),
            ),
            outcome_view(outcome) == item_outcome(*db, old(self).spec_owner()),
    {
        match self.owner {
            ModuleDefId::FunctionId(func) => self.validate_func(db, func),
            ModuleDefId::AdtId(adt) => self.validate_adt(db, adt),
            _ => {
                Ok(())
            },
        }
    }

    /// Validates the function `func`: its name and the names of its
    /// parameters are expected in lower snake case.
    pub fn validate_func(&mut self, db: &Database, func: FunctionId) -> (outcome: Result<
        (),
        Inconsistency,
    >)
        requires
            db.has_function(func),
        ensures
            final(self).spec_owner() == old(self).spec_owner(),
            final(self).emitted() == old(self).emitted() + item_diagnostics(
                *db,
                ModuleDefId::FunctionId(func),
            ),
            outcome_view(outcome) == item_outcome(*db, ModuleDefId::FunctionId(func)),
    {
        let data = db.function_data(func);

        // 1. Check the function name.
        let fn_name_replacement = match to_lower_snake_case(data.name.as_str()) {
            Some(new_name) => Some(
                Replacement {
                    current_name: data.name.clone(),
                    suggested_text: new_name,
                    expected_case: CaseType::LowerSnakeCase,
                },
            ),
            None => None,
        };

        // 2. Check the parameter names.
        let mut fn_param_replacements: Vec<Replacement> = Vec::new();
        let ghost names = data.param_names.deep_view();
        let mut i: usize = 0;
        while i < data.param_names.len()
            invariant
                i <= data.param_names.len(),
                names == data.param_names.deep_view(),
                fn_param_replacements.deep_view() =~= replacements_upto(
                    names,
                    CaseType::LowerSnakeCase,
                    i as int,
                ),
            decreases data.param_names.len() - i,
        {
            match &data.param_names[i] {
                Some(param_name) => {
                    match to_lower_snake_case(param_name.as_str()) {
                        Some(new_name) => {
                            let replacement = Replacement {
                                current_name: param_name.clone(),
                                suggested_text: new_name,
                                expected_case: CaseType::LowerSnakeCase,
                            };
                            fn_param_replacements.push(replacement);
                        },
                        None => {},
                    }
                },
                None => {},
            }
            i += 1;
        }

        // 3. Where anything is to be replaced, find it in the source.
        self.create_incorrect_case_diagnostic_for_func(
            func,
            db,
            fn_name_replacement,
            fn_param_replacements,
        )
    }

    /// Given the names of a function that are to be replaced, finds each of
    /// them in the function's syntax and pushes a diagnostic for it.
    #[verifier::loop_isolation(false)]
    pub fn create_incorrect_case_diagnostic_for_func(
        &mut self,
        func: FunctionId,
        db: &Database,
        fn_name_replacement: Option<Replacement>,
        fn_param_replacements: Vec<Replacement>,
    ) -> (outcome: Result<(), Inconsistency>)
        requires
            db.has_function(func),
        ensures
            final(self).spec_owner() == old(self).spec_owner(),
            final(self).emitted() == old(self).emitted() + function_diagnostics(
                db.function(func),
                fn_name_replacement.deep_view(),
                fn_param_replacements.deep_view(),
            ),
            outcome_view(outcome) == function_outcome(
                db.function(func),
                fn_name_replacement.deep_view(),
                fn_param_replacements.deep_view(),
            ),
    {
        let ghost subs = fn_param_replacements.deep_view();

        // The source is only looked at if there is a name to replace.
        if fn_name_replacement.is_none() && fn_param_replacements.len() == 0 {
            return Ok(());
        }
        let fn_src = db.function_source(func);
        let ghost file = fn_src.file_id;

        if let Some(replacement) = fn_name_replacement {
            let ast_ptr = match &fn_src.value.name {
                Some(name) => name.ptr,
                None => {
                    // A replacement for the name of a function that has none.
                    return Err(Inconsistency::MissingName { replacement });
                },
            };
            let diagnostic = IncorrectCase {
                file: fn_src.file_id,
                ident_type: "Function".to_owned(),
                ident: ast_ptr,
                expected_case: replacement.expected_case,
                ident_text: replacement.current_name,
                suggested_text: replacement.suggested_text,
            };
            self.sink.push(diagnostic);
        }
        let ghost with_name = self.emitted();

        let fn_params_list = match &fn_src.value.param_list {
            Some(params) => params,
            None => {
                if fn_param_replacements.len() > 0 {
                    // Replacements for the parameters of a function that has
                    // no parameter list.
                    return Err(
                        Inconsistency::MissingList { replacements: fn_param_replacements },
                    );
                }
                return Ok(());
            },
        };
        let ghost children = fn_params_list.deep_view();
        let ghost names = current_names(subs);
        let ghost total = alignment(children, 0, names, 0);
        let ghost mut found: Seq<int> = Seq::empty();
        let mut cursor: usize = 0;
        let mut k: usize = 0;
        while k < fn_param_replacements.len()
            invariant
                k <= fn_param_replacements.len(),
                cursor <= fn_params_list.params.len(),
                found.len() == k,
                total =~= found + alignment(children, cursor as int, names, k as int),
                self.emitted() =~= with_name + diagnostics_at(
                    file,
                    "Argument"@,
                    children,
                    subs,
                    found,
                ),
                self.spec_owner() == old(self).spec_owner(),
            decreases fn_param_replacements.len() - k,
        {
            // The replacements are in the order of the parameter list, which
            // also holds the parameters that are named as they should be.
            let param_to_rename = &fn_param_replacements[k];
            let ghost start = cursor;
            while cursor < fn_params_list.params.len() && !pat_equals_to_name(
                fn_params_list.params[cursor].pat.as_ref(),
                &param_to_rename.current_name,
            )
                invariant
                    start <= cursor <= fn_params_list.params.len(),
                    locate(children, cursor as int, param_to_rename.current_name@) == locate(
                        children,
                        start as int,
                        param_to_rename.current_name@,
                    ),
                decreases fn_params_list.params.len() - cursor,
            {
                cursor += 1;
            }
            if cursor >= fn_params_list.params.len() {
                // A replacement for a parameter that the list does not hold.
                return Err(
                    Inconsistency::NotFound {
                        index: k,
                        replacement: Replacement {
                            current_name: param_to_rename.current_name.clone(),
                            suggested_text: param_to_rename.suggested_text.clone(),
                            expected_case: param_to_rename.expected_case,
                        },
                    },
                );
            }
            let ast_ptr = fn_params_list.params[cursor].pat.as_ref().unwrap().ptr();
            let diagnostic = IncorrectCase {
                file: fn_src.file_id,
                ident_type: "Argument".to_owned(),
                ident: ast_ptr,
                expected_case: param_to_rename.expected_case,
                ident_text: param_to_rename.current_name.clone(),
                suggested_text: param_to_rename.suggested_text.clone(),
            };
            self.sink.push(diagnostic);
            proof {
                found = found.push(cursor as int);
            }
            cursor += 1;
            k += 1;
        }
        Ok(())
    }

    /// Validates the struct `struct_id`: its name is expected in upper camel
    /// case, and the names of the fields of a record struct in lower snake
    /// case.
    pub fn validate_struct(&mut self, db: &Database, struct_id: StructId) -> (outcome: Result<
        (),
        Inconsistency,
    >)
        requires
            db.has_struct(struct_id),
        ensures
            final(self).spec_owner() == old(self).spec_owner(),
            final(self).emitted() == old(self).emitted() + item_diagnostics(
                *db,
                ModuleDefId::AdtId(AdtId::StructId(struct_id)),
            ),
            outcome_view(outcome) == item_outcome(*db, ModuleDefId::AdtId(AdtId::StructId(struct_id))),
    {
        let data = db.struct_data(struct_id);

        // 1. Check the structure name.
        let struct_name_replacement = match to_camel_case(data.name.as_str()) {
            Some(new_name) => Some(
                Replacement {
                    current_name: data.name.clone(),
                    suggested_text: new_name,
                    expected_case: CaseType::UpperCamelCase,
                },
            ),
            None => None,
        };

        // 2. Check the field names.
        let mut struct_fields_replacements: Vec<Replacement> = Vec::new();
        if let VariantData::Record(fields) = &data.variant_data {
            let ghost names = Seq::new(fields@.len(), |i: int| Some(fields@[i].name@));
            let mut i: usize = 0;
            while i < fields.len()
                invariant
                    i <= fields.len(),
                    names == Seq::new(fields@.len(), |i: int| Some(fields@[i].name@)),
                    struct_fields_replacements.deep_view() =~= replacements_upto(
                        names,
                        CaseType::LowerSnakeCase,
                        i as int,
                    ),
                decreases fields.len() - i,
            {
                let field = &fields[i];
                match to_lower_snake_case(field.name.as_str()) {
                    Some(new_name) => {
                        let replacement = Replacement {
                            current_name: field.name.clone(),
                            suggested_text: new_name,
                            expected_case: CaseType::LowerSnakeCase,
                        };
                        struct_fields_replacements.push(replacement);
                    },
                    None => {},
                }
                i += 1;
            }
            assert(names =~= Seq::new(
                fields.deep_view().len(),
                |i: int| Some(fields.deep_view()[i]),
            ));
        }

        // 3. Where anything is to be replaced, find it in the source.
        self.create_incorrect_case_diagnostic_for_struct(
            struct_id,
            db,
            struct_name_replacement,
            struct_fields_replacements,
        )
    }

    /// Given the names of a struct that are to be replaced, finds each of
    /// them in the struct's syntax and pushes a diagnostic for it.
    #[verifier::loop_isolation(false)]
    pub fn create_incorrect_case_diagnostic_for_struct(
        &mut self,
        struct_id: StructId,
        db: &Database,
        struct_name_replacement: Option<Replacement>,
        struct_fields_replacements: Vec<Replacement>,
    ) -> (outcome: Result<(), Inconsistency>)
        requires
            db.has_struct(struct_id),
        ensures
            final(self).spec_owner() == old(self).spec_owner(),
            final(self).emitted() == old(self).emitted() + struct_diagnostics(
                db.structure(struct_id),
                struct_name_replacement.deep_view(),
                struct_fields_replacements.deep_view(),
            ),
            outcome_view(outcome) == struct_outcome(
                db.structure(struct_id),
                struct_name_replacement.deep_view(),
                struct_fields_replacements.deep_view(),
            ),
    {
        let ghost subs = struct_fields_replacements.deep_view();

        // The source is only looked at if there is a name to replace.
        if struct_name_replacement.is_none() && struct_fields_replacements.len() == 0 {
            return Ok(());
        }
        let struct_src = db.struct_source(struct_id);
        let ghost file = struct_src.file_id;

        if let Some(replacement) = struct_name_replacement {
            let ast_ptr = match &struct_src.value.name {
                Some(name) => name.ptr,
                None => {
                    // A replacement for the name of a struct that has none.
                    return Err(Inconsistency::MissingName { replacement });
                },
            };
            let diagnostic = IncorrectCase {
                file: struct_src.file_id,
                ident_type: "Structure".to_owned(),
                ident: ast_ptr,
                expected_case: replacement.expected_case,
                ident_text: replacement.current_name,
                suggested_text: replacement.suggested_text,
            };
            self.sink.push(diagnostic);
        }
        let ghost with_name = self.emitted();

        let struct_fields_list = match &struct_src.value.field_list {
            Some(FieldList::RecordFieldList(fields)) => fields,
            _ => {
                if struct_fields_replacements.len() > 0 {
                    // Replacements for the fields of a struct that has no
                    // record field list.
                    return Err(
                        Inconsistency::MissingList { replacements: struct_fields_replacements },
                    );
                }
                return Ok(());
            },
        };
        let ghost children = struct_fields_list.deep_view();
        let ghost names = current_names(subs);
        let ghost total = alignment(children, 0, names, 0);
        let ghost mut found: Seq<int> = Seq::empty();
        let mut cursor: usize = 0;
        let mut k: usize = 0;
        while k < struct_fields_replacements.len()
            invariant
                k <= struct_fields_replacements.len(),
                cursor <= struct_fields_list.fields.len(),
                found.len() == k,
                total =~= found + alignment(children, cursor as int, names, k as int),
                self.emitted() =~= with_name + diagnostics_at(
                    file,
                    "Field"@,
                    children,
                    subs,
                    found,
                ),
                self.spec_owner() == old(self).spec_owner(),
            decreases struct_fields_replacements.len() - k,
        {
            // The replacements are in the order of the field list, which also
            // holds the fields that are named as they should be.
            let field_to_rename = &struct_fields_replacements[k];
            let ghost start = cursor;
            while cursor < struct_fields_list.fields.len() && !names_equal(
                struct_fields_list.fields[cursor].name.as_ref(),
                &field_to_rename.current_name,
            )
                invariant
                    start <= cursor <= struct_fields_list.fields.len(),
                    locate(children, cursor as int, field_to_rename.current_name@) == locate(
                        children,
                        start as int,
                        field_to_rename.current_name@,
                    ),
                decreases struct_fields_list.fields.len() - cursor,
            {
                cursor += 1;
            }
            if cursor >= struct_fields_list.fields.len() {
                // A replacement for a field that the list does not hold.
                return Err(
                    Inconsistency::NotFound {
                        index: k,
                        replacement: Replacement {
                            current_name: field_to_rename.current_name.clone(),
                            suggested_text: field_to_rename.suggested_text.clone(),
                            expected_case: field_to_rename.expected_case,
                        },
                    },
                );
            }
            let ast_ptr = struct_fields_list.fields[cursor].name.as_ref().unwrap().ptr;
            let diagnostic = IncorrectCase {
                file: struct_src.file_id,
                ident_type: "Field".to_owned(),
                ident: ast_ptr,
                expected_case: field_to_rename.expected_case,
                ident_text: field_to_rename.current_name.clone(),
                suggested_text: field_to_rename.suggested_text.clone(),
            };
            self.sink.push(diagnostic);
            proof {
                found = found.push(cursor as int);
            }
            cursor += 1;
            k += 1;
        }
        Ok(())
    }

    /// Validates the algebraic data type `adt`. Structs are validated, enums
    /// are read and left alone, and unions are not looked at.
    pub fn validate_adt(&mut self, db: &Database, adt: AdtId) -> (outcome: Result<
        (),
        Inconsistency,
    >)
        requires
            db.resolves(ModuleDefId::AdtId(adt)),
        ensures
            final(self).spec_owner() == old(self).spec_owner(),
            final(self).emitted() == old(self).emitted() + item_diagnostics(
                *db,
                ModuleDefId::AdtId(adt),
            ),
            outcome_view(outcome) == item_outcome(*db, ModuleDefId::AdtId(adt)),
    {
        match adt {
            AdtId::StructId(struct_id) => self.validate_struct(db, struct_id),
            AdtId::EnumId(enum_id) => {
                self.validate_enum(db, enum_id);
                Ok(())
            },
            AdtId::UnionId(_) => {
                // Unions are not validated.
                Ok(())
            },
        }
    }

    /// Reads what the enum `enum_id` declares. The names of an enum and of
    /// its variants are not validated, so nothing is pushed.
    pub fn validate_enum(&mut self, db: &Database, enum_id: EnumId)
        requires
            db.has_enum(enum_id),
        ensures
            final(self).spec_owner() == old(self).spec_owner(),
            final(self).emitted() == old(self).emitted(),
    {
        let _data = db.enum_data(enum_id);
    }
}

} // verus!
