//! The resolved declarations that the naming checks read: the names that the
//! items of a program declare, and the store that hands them out by identity.

use crate::syntax::{FnSource, InFile, StructSource};
use vstd::prelude::*;

verus! {

/// The identity of a function.
#[derive(Clone, Copy, Debug, PartialEq, Eq, Structural)]
pub struct FunctionId(pub u32);

/// The identity of a struct.
#[derive(Clone, Copy, Debug, PartialEq, Eq, Structural)]
pub struct StructId(pub u32);

/// The identity of an enum.
#[derive(Clone, Copy, Debug, PartialEq, Eq, Structural)]
pub struct EnumId(pub u32);

/// The identity of a union.
#[derive(Clone, Copy, Debug, PartialEq, Eq, Structural)]
pub struct UnionId(pub u32);

/// The identity of an algebraic data type.
#[derive(Clone, Copy, Debug, PartialEq, Eq, Structural)]
pub enum AdtId {
    StructId(StructId),
    EnumId(EnumId),
    UnionId(UnionId),
}

/// The identity of an item that a module defines.
#[derive(Clone, Copy, Debug, PartialEq, Eq, Structural)]
pub enum ModuleDefId {
    FunctionId(FunctionId),
    AdtId(AdtId),
    ConstId(u32),
    StaticId(u32),
    TraitId(u32),
    TypeAliasId(u32),
}

/// What a function declares, as a value.
pub struct FunctionDataView {
    pub name: Seq<char>,
    pub param_names: Seq<Option<Seq<char>>>,
}

/// What a function declares: its name and the names of its parameters in
/// declaration order. A parameter that binds no single name has none.
#[derive(Clone, Debug, PartialEq, Eq)]
pub struct FunctionData {
    pub name: String,
    pub param_names: Vec<Option<String>>,
}

impl DeepView for FunctionData {
    type V = FunctionDataView;

    open spec fn deep_view(&self) -> FunctionDataView {
        FunctionDataView { name: self.name@, param_names: self.param_names.deep_view() }
    }
}

/// One field of a struct.
#[derive(Clone, Debug, PartialEq, Eq)]
pub struct FieldData {
    pub name: String,
}

impl DeepView for FieldData {
    type V = Seq<char>;

    open spec fn deep_view(&self) -> Seq<char> {
        self.name@
    }
}

/// The fields of a struct, as values.
pub enum VariantDataView {
    Record(Seq<Seq<char>>),
    Tuple(Seq<Seq<char>>),
    Unit,
}

/// The fields of a struct, in declaration order.
#[derive(Clone, Debug, PartialEq, Eq)]
pub enum VariantData {
    Record(Vec<FieldData>),
    Tuple(Vec<FieldData>),
    Unit,
}

impl DeepView for VariantData {
    type V = VariantDataView;

    open spec fn deep_view(&self) -> VariantDataView {
        match self {
            VariantData::Record(fields) => VariantDataView::Record(fields.deep_view()),
            VariantData::Tuple(fields) => VariantDataView::Tuple(fields.deep_view()),
            VariantData::Unit => VariantDataView::Unit,
        }
    }
}

/// What a struct declares, as a value.
pub struct StructDataView {
    pub name: Seq<char>,
    pub variant_data: VariantDataView,
}

/// What a struct declares: its name and its fields.
#[derive(Clone, Debug, PartialEq, Eq)]
pub struct StructData {
    pub name: String,
    pub variant_data: VariantData,
}

impl DeepView for StructData {
    type V = StructDataView;

    open spec fn deep_view(&self) -> StructDataView {
        StructDataView { name: self.name@, variant_data: self.variant_data.deep_view() }
    }
}

/// What an enum declares: its name and the names of its variants.
#[derive(Clone, Debug, PartialEq, Eq)]
pub struct EnumData {
    pub name: String,
    pub variants: Vec<String>,
}

/// A function of the store: what it declares and where it was declared.
#[derive(Clone, Debug, PartialEq, Eq)]
pub struct FunctionItem {
    pub data: FunctionData,
    pub source: InFile<FnSource>,
}

/// A struct of the store: what it declares and where it was declared.
#[derive(Clone, Debug, PartialEq, Eq)]
pub struct StructItem {
    pub data: StructData,
    pub source: InFile<StructSource>,
}

/// The store of resolved declarations. The identity of a function, a struct
/// or an enum is its position in the store.
#[derive(Clone, Debug, PartialEq, Eq)]
pub struct Database {
    pub functions: Vec<FunctionItem>,
    pub structs: Vec<StructItem>,
    pub enums: Vec<EnumData>,
}

impl Database {
    /// Whether the store holds the function `id`.
    pub open spec fn has_function(&self, id: FunctionId) -> bool {
        id.0 < self.functions@.len()
    }

    /// Whether the store holds the struct `id`.
    pub open spec fn has_struct(&self, id: StructId) -> bool {
        id.0 < self.structs@.len()
    }

    /// Whether the store holds the enum `id`.
    pub open spec fn has_enum(&self, id: EnumId) -> bool {
        id.0 < self.enums@.len()
    }

    /// Whether the store can resolve `def`. Only functions, structs and
    /// enums are ever looked up.
    pub open spec fn resolves(&self, def: ModuleDefId) -> bool {
        match def {
            ModuleDefId::FunctionId(id) => self.has_function(id),
            ModuleDefId::AdtId(AdtId::StructId(id)) => self.has_struct(id),
            ModuleDefId::AdtId(AdtId::EnumId(id)) => self.has_enum(id),
            _ => true,
        }
    }

    /// The function `id`.
    pub open spec fn function(&self, id: FunctionId) -> FunctionItem {
        self.functions@[id.0 as int]
    }

    /// The struct `id`.
    pub open spec fn structure(&self, id: StructId) -> StructItem {
        self.structs@[id.0 as int]
    }

    /// A store that holds nothing.
    pub fn new() -> (db: Database)
        ensures
            db.functions@.len() == 0,
            db.structs@.len() == 0,
            db.enums@.len() == 0,
    {
        Database { functions: Vec::new(), structs: Vec::new(), enums: Vec::new() }
    }

    /// Whether the store can resolve `def`.
    pub fn can_resolve(&self, def: ModuleDefId) -> (r: bool)
        ensures
            r == self.resolves(def),
    {
        match def {
            ModuleDefId::FunctionId(id) => (id.0 as usize) < self.functions.len(),
            ModuleDefId::AdtId(AdtId::StructId(id)) => (id.0 as usize) < self.structs.len(),
            ModuleDefId::AdtId(AdtId::EnumId(id)) => (id.0 as usize) < self.enums.len(),
            _ => true,
        }
    }

    /// What the function `id` declares.
    pub fn function_data(&self, id: FunctionId) -> (data: &FunctionData)
        requires
            self.has_function(id),
        ensures
            *data == self.function(id).data,
    {
        &self.functions[id.0 as usize].data
    }

    /// The syntax that the function `id` was declared with.
    pub fn function_source(&self, id: FunctionId) -> (source: &InFile<FnSource>)
        requires
            self.has_function(id),
        ensures
            *source == self.function(id).source,
    {
        &self.functions[id.0 as usize].source
    }

    /// What the struct `id` declares.
    pub fn struct_data(&self, id: StructId) -> (data: &StructData)
        requires
            self.has_struct(id),
        ensures
            *data == self.structure(id).data,
    {
        &self.structs[id.0 as usize].data
    }

    /// The syntax that the struct `id` was declared with.
    pub fn struct_source(&self, id: StructId) -> (source: &InFile<StructSource>)
        requires
            self.has_struct(id),
        ensures
            *source == self.structure(id).source,
    {
        &self.structs[id.0 as usize].source
    }

    /// What the enum `id` declares.
    pub fn enum_data(&self, id: EnumId) -> (data: &EnumData)
        requires
            self.has_enum(id),
        ensures
            *data == self.enums@[id.0 as int],
    {
        &self.enums[id.0 as usize]
    }
}

} // verus!
