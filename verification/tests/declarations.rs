use naming_check::case_conv::CaseType;
use naming_check::decl_check::{DeclValidator, Inconsistency};
use naming_check::diagnostics::{DiagnosticSink, IncorrectCase};
use naming_check::replacement::Replacement;
use naming_check::database::{
    AdtId, Database, EnumData, EnumId, FieldData, FunctionData, FunctionId, FunctionItem,
    ModuleDefId, StructData, StructId, StructItem, UnionId, VariantData,
};
use naming_check::syntax::{
    FieldList, FnSource, FileId, InFile, Name, Param, ParamList, Pat, RecordField,
    RecordFieldList, StructSource, SyntaxNodePtr, TupleFieldList,
};

fn ptr(text: &str, start: u32) -> SyntaxNodePtr {
    SyntaxNodePtr { start, end: start + text.len() as u32 }
}

fn name(text: &str, start: u32) -> Name {
    Name { text: text.to_string(), ptr: ptr(text, start) }
}

fn ident_param(text: &str, start: u32) -> Param {
    Param { pat: Some(Pat::IdentPat { name: text.to_string(), ptr: ptr(text, start) }) }
}

/// A function as the parser and the resolver agree on it: every parameter is
/// an identifier pattern.
fn function(file: u32, fn_name: &str, name_start: u32, params: &[(&str, u32)]) -> FunctionItem {
    FunctionItem {
        data: FunctionData {
            name: fn_name.to_string(),
            param_names: params.iter().map(|(text, _)| Some(text.to_string())).collect(),
        },
        source: InFile {
            file_id: FileId(file),
            value: FnSource {
                name: Some(name(fn_name, name_start)),
                param_list: Some(ParamList {
                    params: params.iter().map(|(text, start)| ident_param(text, *start)).collect(),
                }),
            },
        },
    }
}

/// A record struct as the parser and the resolver agree on it.
fn record_struct(
    file: u32,
    struct_name: &str,
    name_start: u32,
    fields: &[(&str, u32)],
) -> StructItem {
    StructItem {
        data: StructData {
            name: struct_name.to_string(),
            variant_data: VariantData::Record(
                fields.iter().map(|(text, _)| FieldData { name: text.to_string() }).collect(),
            ),
        },
        source: InFile {
            file_id: FileId(file),
            value: StructSource {
                name: Some(name(struct_name, name_start)),
                field_list: Some(FieldList::RecordFieldList(RecordFieldList {
                    fields: fields
                        .iter()
                        .map(|(text, start)| RecordField { name: Some(name(text, *start)) })
                        .collect(),
                })),
            },
        },
    }
}

fn database(functions: Vec<FunctionItem>, structs: Vec<StructItem>) -> Database {
    Database { functions, structs, enums: Vec::new() }
}

fn validate(db: &Database, owner: ModuleDefId) -> (Vec<IncorrectCase>, Result<(), Inconsistency>) {
    let mut validator = DeclValidator::new(owner, DiagnosticSink::new());
    let outcome = validator.validate_item(db);
    (validator.into_sink().diagnostics().clone(), outcome)
}

/// Range and text of each diagnostic, as an annotation under the source
/// would give them.
fn annotations(diagnostics: &[IncorrectCase]) -> Vec<(u32, u32, String)> {
    diagnostics.iter().map(|d| (d.ident.start, d.ident.end, d.message())).collect()
}

fn replacement(current: &str, suggested: &str, case: CaseType) -> Replacement {
    Replacement {
        current_name: current.to_string(),
        suggested_text: suggested.to_string(),
        expected_case: case,
    }
}

#[test]
fn incorrect_function_name() {
    // fn NonSnakeCaseName() {}
    let db = database(vec![function(0, "NonSnakeCaseName", 4, &[])], vec![]);
    let (diagnostics, outcome) = validate(&db, ModuleDefId::FunctionId(FunctionId(0)));
    assert_eq!(outcome, Ok(()));
    assert_eq!(
        annotations(&diagnostics),
        vec![(
            4,
            20,
            "Function `NonSnakeCaseName` should have a snake_case name, e.g. `non_snake_case_name`"
                .to_string()
        )]
    );
}

#[test]
fn incorrect_function_params() {
    // fn foo(SomeParam: u8) {}
    //
    // fn foo2(ok_param: &str, CAPS_PARAM: u8) {}
    let db = database(
        vec![
            function(0, "foo", 4, &[("SomeParam", 8)]),
            function(0, "foo2", 117, &[("ok_param", 122), ("CAPS_PARAM", 138)]),
        ],
        vec![],
    );
    let (first, first_outcome) = validate(&db, ModuleDefId::FunctionId(FunctionId(0)));
    assert_eq!(first_outcome, Ok(()));
    assert_eq!(
        annotations(&first),
        vec![(
            8,
            17,
            "Argument `SomeParam` should have a snake_case name, e.g. `some_param`".to_string()
        )]
    );
    let (second, second_outcome) = validate(&db, ModuleDefId::FunctionId(FunctionId(1)));
    assert_eq!(second_outcome, Ok(()));
    assert_eq!(
        annotations(&second),
        vec![(
            138,
            148,
            "Argument `CAPS_PARAM` should have a snake_case name, e.g. `caps_param`".to_string()
        )]
    );
}

#[test]
fn incorrect_struct_name() {
    // struct non_camel_case_name {}
    let db = database(vec![], vec![record_struct(0, "non_camel_case_name", 8, &[])]);
    let (diagnostics, outcome) =
        validate(&db, ModuleDefId::AdtId(AdtId::StructId(StructId(0))));
    assert_eq!(outcome, Ok(()));
    assert_eq!(
        annotations(&diagnostics),
        vec![(
            8,
            27,
            "Structure `non_camel_case_name` should have a CamelCase name, e.g. `NonCamelCaseName`"
                .to_string()
        )]
    );
}

#[test]
fn incorrect_struct_field() {
    // struct SomeStruct { SomeField: u8 }
    let db = database(vec![], vec![record_struct(0, "SomeStruct", 8, &[("SomeField", 21)])]);
    let (diagnostics, outcome) =
        validate(&db, ModuleDefId::AdtId(AdtId::StructId(StructId(0))));
    assert_eq!(outcome, Ok(()));
    assert_eq!(
        annotations(&diagnostics),
        vec![(
            21,
            30,
            "Field `SomeField` should have a snake_case name, e.g. `some_field`".to_string()
        )]
    );
}

#[test]
fn function_name_diagnostic_carries_the_replacement() {
    let db = database(vec![function(7, "NonSnakeCaseName", 4, &[])], vec![]);
    let (diagnostics, _) = validate(&db, ModuleDefId::FunctionId(FunctionId(0)));
    assert_eq!(
        diagnostics,
        vec![IncorrectCase {
            file: FileId(7),
            ident_type: "Function".to_string(),
            ident: SyntaxNodePtr { start: 4, end: 20 },
            expected_case: CaseType::LowerSnakeCase,
            ident_text: "NonSnakeCaseName".to_string(),
            suggested_text: "non_snake_case_name".to_string(),
        }]
    );
}

#[test]
fn conforming_parameter_is_passed_over() {
    let db = database(
        vec![function(0, "foo2", 4, &[("ok_param", 9), ("CAPS_PARAM", 25)])],
        vec![],
    );
    let (diagnostics, outcome) = validate(&db, ModuleDefId::FunctionId(FunctionId(0)));
    assert_eq!(outcome, Ok(()));
    assert_eq!(diagnostics.len(), 1);
    assert_eq!(diagnostics[0].ident_type, "Argument");
    assert_eq!(diagnostics[0].ident_text, "CAPS_PARAM");
    assert_eq!(diagnostics[0].suggested_text, "caps_param");
    assert_eq!(diagnostics[0].ident, SyntaxNodePtr { start: 25, end: 35 });
}

#[test]
fn name_and_parameters_are_reported_in_order() {
    let db = database(
        vec![function(0, "BadName", 4, &[("FirstArg", 12), ("fine", 30), ("SecondArg", 40)])],
        vec![],
    );
    let (diagnostics, outcome) = validate(&db, ModuleDefId::FunctionId(FunctionId(0)));
    assert_eq!(outcome, Ok(()));
    let found: Vec<(String, String, String)> = diagnostics
        .iter()
        .map(|d| (d.ident_type.clone(), d.ident_text.clone(), d.suggested_text.clone()))
        .collect();
    assert_eq!(
        found,
        vec![
            ("Function".to_string(), "BadName".to_string(), "bad_name".to_string()),
            ("Argument".to_string(), "FirstArg".to_string(), "first_arg".to_string()),
            ("Argument".to_string(), "SecondArg".to_string(), "second_arg".to_string()),
        ]
    );
}

#[test]
fn parameter_without_a_name_is_not_checked() {
    let mut item = function(0, "foo", 4, &[("Tuple", 8), ("BadArg", 20)]);
    item.data.param_names[0] = None;
    item.source.value.param_list = Some(ParamList {
        params: vec![
            Param { pat: Some(Pat::Other { ptr: SyntaxNodePtr { start: 8, end: 14 } }) },
            ident_param("BadArg", 20),
        ],
    });
    let db = database(vec![item], vec![]);
    let (diagnostics, outcome) = validate(&db, ModuleDefId::FunctionId(FunctionId(0)));
    assert_eq!(outcome, Ok(()));
    assert_eq!(annotations(&diagnostics).len(), 1);
    assert_eq!(diagnostics[0].ident_text, "BadArg");
}

#[test]
fn conforming_declarations_give_nothing() {
    let db = database(
        vec![function(0, "foo2", 4, &[("ok_param", 9), ("other_1", 25)])],
        vec![record_struct(0, "SomeStruct", 8, &[("some_field", 21), ("_unused", 40)])],
    );
    let (diagnostics, outcome) = validate(&db, ModuleDefId::FunctionId(FunctionId(0)));
    assert_eq!(outcome, Ok(()));
    assert!(diagnostics.is_empty());
    let (diagnostics, outcome) =
        validate(&db, ModuleDefId::AdtId(AdtId::StructId(StructId(0))));
    assert_eq!(outcome, Ok(()));
    assert!(diagnostics.is_empty());
}

#[test]
fn nothing_to_replace_means_no_look_at_the_source() {
    // The syntax has neither name nor parameter list, but nothing asks for
    // them.
    let mut item = function(0, "fine", 4, &[("also_fine", 9)]);
    item.source.value = FnSource { name: None, param_list: None };
    let db = database(vec![item], vec![]);
    let mut validator =
        DeclValidator::new(ModuleDefId::FunctionId(FunctionId(0)), DiagnosticSink::new());
    let outcome = validator.create_incorrect_case_diagnostic_for_func(
        FunctionId(0),
        &db,
        None,
        Vec::new(),
    );
    assert_eq!(outcome, Ok(()));
    assert_eq!(validator.sink().len(), 0);
    assert_eq!(validator.validate_item(&db), Ok(()));
    assert_eq!(validator.sink().len(), 0);
}

#[test]
fn function_without_a_name_node_is_inconsistent() {
    let mut item = function(0, "BadName", 4, &[("BadArg", 12)]);
    item.source.value.name = None;
    let db = database(vec![item], vec![]);
    let (diagnostics, outcome) = validate(&db, ModuleDefId::FunctionId(FunctionId(0)));
    assert_eq!(
        outcome,
        Err(Inconsistency::MissingName {
            replacement: replacement("BadName", "bad_name", CaseType::LowerSnakeCase)
        })
    );
    assert!(diagnostics.is_empty());
}

#[test]
fn function_without_a_parameter_list_is_inconsistent() {
    let mut item = function(0, "BadName", 4, &[("BadArg", 12)]);
    item.source.value.param_list = None;
    let db = database(vec![item], vec![]);
    let (diagnostics, outcome) = validate(&db, ModuleDefId::FunctionId(FunctionId(0)));
    assert_eq!(
        outcome,
        Err(Inconsistency::MissingList {
            replacements: vec![replacement("BadArg", "bad_arg", CaseType::LowerSnakeCase)]
        })
    );
    // The diagnostic for the function's own name stays.
    assert_eq!(diagnostics.len(), 1);
    assert_eq!(diagnostics[0].ident_type, "Function");
}

#[test]
fn missing_parameter_list_is_fine_without_parameter_replacements() {
    let mut item = function(0, "BadName", 4, &[]);
    item.source.value.param_list = None;
    let db = database(vec![item], vec![]);
    let (diagnostics, outcome) = validate(&db, ModuleDefId::FunctionId(FunctionId(0)));
    assert_eq!(outcome, Ok(()));
    assert_eq!(diagnostics.len(), 1);
}

#[test]
fn replacement_that_the_list_does_not_show_ends_the_walk() {
    let db = database(
        vec![function(3, "foo", 4, &[("FirstArg", 8), ("SecondArg", 20), ("ThirdArg", 32)])],
        vec![],
    );
    let mut validator =
        DeclValidator::new(ModuleDefId::FunctionId(FunctionId(0)), DiagnosticSink::new());
    let outcome = validator.create_incorrect_case_diagnostic_for_func(
        FunctionId(0),
        &db,
        None,
        vec![
            replacement("FirstArg", "first_arg", CaseType::LowerSnakeCase),
            replacement("Elsewhere", "elsewhere", CaseType::LowerSnakeCase),
            replacement("ThirdArg", "third_arg", CaseType::LowerSnakeCase),
        ],
    );
    assert_eq!(
        outcome,
        Err(Inconsistency::NotFound {
            index: 1,
            replacement: replacement("Elsewhere", "elsewhere", CaseType::LowerSnakeCase)
        })
    );
    let diagnostics = validator.into_sink().diagnostics().clone();
    assert_eq!(diagnostics.len(), 1);
    assert_eq!(diagnostics[0].ident_text, "FirstArg");
    assert_eq!(diagnostics[0].ident, SyntaxNodePtr { start: 8, end: 16 });
}

#[test]
fn the_walk_never_goes_back() {
    // The replacements come in another order than the parameters: the
    // second one lies before the first and is not found again.
    let db = database(vec![function(0, "foo", 4, &[("AArg", 8), ("BArg", 20)])], vec![]);
    let mut validator =
        DeclValidator::new(ModuleDefId::FunctionId(FunctionId(0)), DiagnosticSink::new());
    let outcome = validator.create_incorrect_case_diagnostic_for_func(
        FunctionId(0),
        &db,
        None,
        vec![
            replacement("BArg", "b_arg", CaseType::LowerSnakeCase),
            replacement("AArg", "a_arg", CaseType::LowerSnakeCase),
        ],
    );
    assert_eq!(
        outcome,
        Err(Inconsistency::NotFound {
            index: 1,
            replacement: replacement("AArg", "a_arg", CaseType::LowerSnakeCase)
        })
    );
    let diagnostics = validator.into_sink().diagnostics().clone();
    assert_eq!(diagnostics.len(), 1);
    assert_eq!(diagnostics[0].ident_text, "BArg");
}

#[test]
fn binding_modifier_does_not_hide_the_parameter() {
    // fn foo(mut BadArg: u8) {}
    let mut item = function(0, "foo", 4, &[("BadArg", 12)]);
    item.source.value.param_list = Some(ParamList {
        params: vec![Param {
            pat: Some(Pat::IdentPat {
                name: "BadArg".to_string(),
                ptr: SyntaxNodePtr { start: 8, end: 18 },
            }),
        }],
    });
    let db = database(vec![item], vec![]);
    let (diagnostics, outcome) = validate(&db, ModuleDefId::FunctionId(FunctionId(0)));
    assert_eq!(outcome, Ok(()));
    // The diagnostic points at the whole pattern.
    assert_eq!(
        annotations(&diagnostics),
        vec![(
            8,
            18,
            "Argument `BadArg` should have a snake_case name, e.g. `bad_arg`".to_string()
        )]
    );
}

#[test]
fn emitter_finds_a_parameter_behind_its_binding_modifier() {
    // fn f(mut SomeParam: u8) {}
    let mut item = function(0, "f", 4, &[("SomeParam", 10)]);
    item.source.value.param_list = Some(ParamList {
        params: vec![Param {
            pat: Some(Pat::IdentPat {
                name: "SomeParam".to_string(),
                ptr: SyntaxNodePtr { start: 6, end: 19 },
            }),
        }],
    });
    let db = database(vec![item], vec![]);
    let mut validator =
        DeclValidator::new(ModuleDefId::FunctionId(FunctionId(0)), DiagnosticSink::new());
    let outcome = validator.create_incorrect_case_diagnostic_for_func(
        FunctionId(0),
        &db,
        None,
        vec![replacement("SomeParam", "some_param", CaseType::LowerSnakeCase)],
    );
    assert_eq!(outcome, Ok(()));
    let diagnostics = validator.into_sink().diagnostics().clone();
    assert_eq!(diagnostics.len(), 1);
    assert_eq!(diagnostics[0].ident_type, "Argument");
    assert_eq!(diagnostics[0].ident_text, "SomeParam");
    assert_eq!(diagnostics[0].suggested_text, "some_param");
    assert_eq!(diagnostics[0].ident, SyntaxNodePtr { start: 6, end: 19 });
}

#[test]
fn unit_struct_gives_one_diagnostic_for_its_name() {
    let item = StructItem {
        data: StructData { name: "unit_struct".to_string(), variant_data: VariantData::Unit },
        source: InFile {
            file_id: FileId(0),
            value: StructSource { name: Some(name("unit_struct", 7)), field_list: None },
        },
    };
    let db = database(vec![], vec![item]);
    let (diagnostics, outcome) =
        validate(&db, ModuleDefId::AdtId(AdtId::StructId(StructId(0))));
    assert_eq!(outcome, Ok(()));
    assert_eq!(
        annotations(&diagnostics),
        vec![(
            7,
            18,
            "Structure `unit_struct` should have a CamelCase name, e.g. `UnitStruct`".to_string()
        )]
    );
}

#[test]
fn tuple_struct_gives_one_diagnostic_for_its_name() {
    let item = StructItem {
        data: StructData {
            name: "tuple_struct".to_string(),
            variant_data: VariantData::Tuple(vec![
                FieldData { name: "0".to_string() },
                FieldData { name: "1".to_string() },
            ]),
        },
        source: InFile {
            file_id: FileId(0),
            value: StructSource {
                name: Some(name("tuple_struct", 7)),
                field_list: Some(FieldList::TupleFieldList(TupleFieldList {
                    fields: vec![
                        SyntaxNodePtr { start: 20, end: 22 },
                        SyntaxNodePtr { start: 24, end: 27 },
                    ],
                })),
            },
        },
    };
    let db = database(vec![], vec![item]);
    let (diagnostics, outcome) =
        validate(&db, ModuleDefId::AdtId(AdtId::StructId(StructId(0))));
    assert_eq!(outcome, Ok(()));
    assert_eq!(diagnostics.len(), 1);
    assert_eq!(diagnostics[0].ident_type, "Structure");
    assert_eq!(diagnostics[0].suggested_text, "TupleStruct");
}

#[test]
fn field_replacements_against_a_tuple_struct_are_inconsistent() {
    let mut item = record_struct(0, "SomeStruct", 8, &[("SomeField", 21)]);
    item.source.value.field_list =
        Some(FieldList::TupleFieldList(TupleFieldList { fields: vec![] }));
    let db = database(vec![], vec![item]);
    let (diagnostics, outcome) =
        validate(&db, ModuleDefId::AdtId(AdtId::StructId(StructId(0))));
    assert_eq!(
        outcome,
        Err(Inconsistency::MissingList {
            replacements: vec![replacement("SomeField", "some_field", CaseType::LowerSnakeCase)]
        })
    );
    assert!(diagnostics.is_empty());
}

#[test]
fn struct_without_a_name_node_is_inconsistent() {
    let mut item = record_struct(0, "bad_struct", 8, &[("BadField", 21)]);
    item.source.value.name = None;
    let db = database(vec![], vec![item]);
    let (diagnostics, outcome) =
        validate(&db, ModuleDefId::AdtId(AdtId::StructId(StructId(0))));
    assert_eq!(
        outcome,
        Err(Inconsistency::MissingName {
            replacement: replacement("bad_struct", "BadStruct", CaseType::UpperCamelCase)
        })
    );
    assert!(diagnostics.is_empty());
}

#[test]
fn field_that_the_list_does_not_show_ends_the_walk() {
    let mut item =
        record_struct(0, "SomeStruct", 8, &[("FirstField", 21), ("SecondField", 40)]);
    item.source.value.field_list = Some(FieldList::RecordFieldList(RecordFieldList {
        fields: vec![
            RecordField { name: Some(name("FirstField", 21)) },
            RecordField { name: None },
        ],
    }));
    let db = database(vec![], vec![item]);
    let (diagnostics, outcome) =
        validate(&db, ModuleDefId::AdtId(AdtId::StructId(StructId(0))));
    assert_eq!(
        outcome,
        Err(Inconsistency::NotFound {
            index: 1,
            replacement: replacement("SecondField", "second_field", CaseType::LowerSnakeCase)
        })
    );
    assert_eq!(diagnostics.len(), 1);
    assert_eq!(diagnostics[0].ident_type, "Field");
    assert_eq!(diagnostics[0].suggested_text, "first_field");
}

#[test]
fn enums_unions_and_other_items_are_left_alone() {
    let mut db = database(vec![], vec![]);
    db.enums.push(EnumData {
        name: "bad_enum".to_string(),
        variants: vec!["bad_variant".to_string()],
    });
    for owner in [
        ModuleDefId::AdtId(AdtId::EnumId(EnumId(0))),
        ModuleDefId::AdtId(AdtId::UnionId(UnionId(5))),
        ModuleDefId::ConstId(1),
        ModuleDefId::StaticId(2),
        ModuleDefId::TraitId(3),
        ModuleDefId::TypeAliasId(4),
    ] {
        let (diagnostics, outcome) = validate(&db, owner);
        assert_eq!(outcome, Ok(()));
        assert!(diagnostics.is_empty());
    }
}

#[test]
fn diagnostics_are_added_behind_those_in_the_sink() {
    let db = database(
        vec![function(0, "BadName", 4, &[])],
        vec![record_struct(1, "bad_struct", 8, &[])],
    );
    let mut first =
        DeclValidator::new(ModuleDefId::FunctionId(FunctionId(0)), DiagnosticSink::new());
    assert_eq!(first.owner(), ModuleDefId::FunctionId(FunctionId(0)));
    assert_eq!(first.validate_item(&db), Ok(()));
    let mut second =
        DeclValidator::new(ModuleDefId::AdtId(AdtId::StructId(StructId(0))), first.into_sink());
    assert_eq!(second.validate_item(&db), Ok(()));
    let texts: Vec<String> =
        second.sink().diagnostics().iter().map(|d| d.ident_text.clone()).collect();
    assert_eq!(texts, vec!["BadName".to_string(), "bad_struct".to_string()]);
    assert_eq!(second.sink().diagnostics()[1].file, FileId(1));
}

#[test]
fn validating_twice_gives_the_same_diagnostics_again() {
    let db = database(vec![function(0, "BadName", 4, &[("BadArg", 12)])], vec![]);
    let (once, _) = validate(&db, ModuleDefId::FunctionId(FunctionId(0)));
    let (again, _) = validate(&db, ModuleDefId::FunctionId(FunctionId(0)));
    assert_eq!(once, again);
    assert_eq!(once.len(), 2);
}

#[test]
fn database_hands_out_what_it_holds() {
    let empty = Database::new();
    assert!(empty.functions.is_empty() && empty.structs.is_empty() && empty.enums.is_empty());
    let item = function(2, "foo", 4, &[("bar", 8)]);
    let record = record_struct(3, "Foo", 8, &[("bar", 14)]);
    let db = database(vec![item.clone()], vec![record.clone()]);
    assert_eq!(db.function_data(FunctionId(0)), &item.data);
    assert_eq!(db.function_source(FunctionId(0)), &item.source);
    assert_eq!(db.struct_data(StructId(0)), &record.data);
    assert_eq!(db.struct_source(StructId(0)), &record.source);
    assert!(db.can_resolve(ModuleDefId::FunctionId(FunctionId(0))));
    assert!(!db.can_resolve(ModuleDefId::FunctionId(FunctionId(1))));
    assert!(db.can_resolve(ModuleDefId::AdtId(AdtId::StructId(StructId(0)))));
    assert!(!db.can_resolve(ModuleDefId::AdtId(AdtId::StructId(StructId(1)))));
    assert!(!db.can_resolve(ModuleDefId::AdtId(AdtId::EnumId(EnumId(0)))));
    assert!(db.can_resolve(ModuleDefId::AdtId(AdtId::UnionId(UnionId(9)))));
    assert!(db.can_resolve(ModuleDefId::ConstId(9)));
}
