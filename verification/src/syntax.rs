//! The concrete syntax of a declaration, as far as the naming checks read it:
//! which names a declaration, its parameters and its fields carry, and where
//! each of them stands in the source text.

use vstd::prelude::*;

verus! {

/// The file that a declaration comes from.
#[derive(Clone, Copy, Debug, PartialEq, Eq, Structural)]
pub struct FileId(pub u32);

/// A pointer to a node of the syntax tree: the range of source text that the
/// node covers.
#[derive(Clone, Copy, Debug, PartialEq, Eq, Structural)]
pub struct SyntaxNodePtr {
    pub start: u32,
    pub end: u32,
}

/// A value together with the file it comes from.
#[derive(Clone, Debug, PartialEq, Eq)]
pub struct InFile<T> {
    pub file_id: FileId,
    pub value: T,
}

/// What the checks read of a node that may be matched by name: the name it
/// shows and the pointer to it.
pub struct NamedNode {
    pub text: Seq<char>,
    pub ptr: SyntaxNodePtr,
}

/// A name node: the name of a function, of a struct or of a record field.
#[derive(Clone, Debug, PartialEq, Eq)]
pub struct Name {
    pub text: String,
    pub ptr: SyntaxNodePtr,
}

impl DeepView for Name {
    type V = NamedNode;

    open spec fn deep_view(&self) -> NamedNode {
        NamedNode { text: self.text@, ptr: self.ptr }
    }
}

/// The pattern of a parameter.
#[derive(Clone, Debug, PartialEq, Eq)]
pub enum Pat {
    /// A pattern that binds one identifier. `name` is that identifier alone,
    /// without what the pattern holds around it, such as `mut` or `ref`;
    /// `ptr` points to the whole pattern.
    IdentPat { name: String, ptr: SyntaxNodePtr },
    /// Any other pattern: it binds no single name.
    Other { ptr: SyntaxNodePtr },
}

impl DeepView for Pat {
    type V = Option<NamedNode>;

    /// What the pattern can be matched by: an identifier pattern by the
    /// identifier it binds, any other pattern by nothing.
    open spec fn deep_view(&self) -> Option<NamedNode> {
        match self {
            Pat::IdentPat { name, ptr } => Some(NamedNode { text: name@, ptr: *ptr }),
            Pat::Other { .. } => None,
        }
    }
}

impl Pat {
    /// The pointer to the pattern.
    pub open spec fn spec_ptr(&self) -> SyntaxNodePtr {
        match self {
            Pat::IdentPat { ptr, .. } => *ptr,
            Pat::Other { ptr } => *ptr,
        }
    }

    /// The pointer to the pattern.
    pub fn ptr(&self) -> (r: SyntaxNodePtr)
        ensures
            r == self.spec_ptr(),
    {
        match self {
            Pat::IdentPat { ptr, .. } => *ptr,
            Pat::Other { ptr } => *ptr,
        }
    }
}

/// One entry of a parameter list. The pattern is missing where the source
/// could not be parsed.
#[derive(Clone, Debug, PartialEq, Eq)]
pub struct Param {
    pub pat: Option<Pat>,
}

impl DeepView for Param {
    type V = Option<NamedNode>;

    /// The identifier pattern of the parameter, if it has one.
    open spec fn deep_view(&self) -> Option<NamedNode> {
        match self.pat {
            Some(pat) => pat.deep_view(),
            None => None,
        }
    }
}

/// The parameter list of a function, in source order.
#[derive(Clone, Debug, PartialEq, Eq)]
pub struct ParamList {
    pub params: Vec<Param>,
}

impl DeepView for ParamList {
    type V = Seq<Option<NamedNode>>;

    open spec fn deep_view(&self) -> Seq<Option<NamedNode>> {
        self.params.deep_view()
    }
}

/// What the checks read of a function's syntax.
pub struct FnSourceView {
    pub name: Option<NamedNode>,
    pub params: Option<Seq<Option<NamedNode>>>,
}

/// The syntax node of a function. Name and parameter list are missing where
/// the source could not be parsed.
#[derive(Clone, Debug, PartialEq, Eq)]
pub struct FnSource {
    pub name: Option<Name>,
    pub param_list: Option<ParamList>,
}

impl DeepView for FnSource {
    type V = FnSourceView;

    open spec fn deep_view(&self) -> FnSourceView {
        FnSourceView { name: self.name.deep_view(), params: self.param_list.deep_view() }
    }
}

/// One field of a record field list.
#[derive(Clone, Debug, PartialEq, Eq)]
pub struct RecordField {
    pub name: Option<Name>,
}

impl DeepView for RecordField {
    type V = Option<NamedNode>;

    open spec fn deep_view(&self) -> Option<NamedNode> {
        self.name.deep_view()
    }
}

/// The fields of a record struct, in source order.
#[derive(Clone, Debug, PartialEq, Eq)]
pub struct RecordFieldList {
    pub fields: Vec<RecordField>,
}

impl DeepView for RecordFieldList {
    type V = Seq<Option<NamedNode>>;

    open spec fn deep_view(&self) -> Seq<Option<NamedNode>> {
        self.fields.deep_view()
    }
}

/// The fields of a tuple struct, which carry no names.
#[derive(Clone, Debug, PartialEq, Eq)]
pub struct TupleFieldList {
    pub fields: Vec<SyntaxNodePtr>,
}

/// The field list of a struct.
#[derive(Clone, Debug, PartialEq, Eq)]
pub enum FieldList {
    RecordFieldList(RecordFieldList),
    TupleFieldList(TupleFieldList),
}

impl FieldList {
    /// The named fields: those of a record field list, and none otherwise.
    pub open spec fn record_fields(&self) -> Option<Seq<Option<NamedNode>>> {
        match self {
            FieldList::RecordFieldList(list) => Some(list.deep_view()),
            FieldList::TupleFieldList(_) => None,
        }
    }
}

/// What the checks read of a struct's syntax.
pub struct StructSourceView {
    pub name: Option<NamedNode>,
    /// The fields of the record field list, if the struct has one.
    pub record_fields: Option<Seq<Option<NamedNode>>>,
}

/// The syntax node of a struct. A unit struct has no field list.
#[derive(Clone, Debug, PartialEq, Eq)]
pub struct StructSource {
    pub name: Option<Name>,
    pub field_list: Option<FieldList>,
}

impl DeepView for StructSource {
    type V = StructSourceView;

    open spec fn deep_view(&self) -> StructSourceView {
        StructSourceView {
            name: self.name.deep_view(),
            record_fields: match self.field_list {
                Some(list) => list.record_fields(),
                None => None,
            },
        }
    }
}

} // verus!
