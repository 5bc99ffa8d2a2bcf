use naming_check::case_conv::{classify_and_suggest, to_camel_case, to_lower_snake_case, CaseType};

fn snake(name: &str) -> Option<String> {
    to_lower_snake_case(name)
}

fn camel(name: &str) -> Option<String> {
    to_camel_case(name)
}

fn some(text: &str) -> Option<String> {
    Some(text.to_string())
}

#[test]
fn literal_conversions() {
    assert_eq!(
        classify_and_suggest("NonSnakeCaseName", CaseType::LowerSnakeCase),
        some("non_snake_case_name")
    );
    assert_eq!(classify_and_suggest("SomeParam", CaseType::LowerSnakeCase), some("some_param"));
    assert_eq!(classify_and_suggest("CAPS_PARAM", CaseType::LowerSnakeCase), some("caps_param"));
    assert_eq!(
        classify_and_suggest("non_camel_case_name", CaseType::UpperCamelCase),
        some("NonCamelCaseName")
    );
    assert_eq!(classify_and_suggest("SomeField", CaseType::LowerSnakeCase), some("some_field"));
}

#[test]
fn names_in_the_convention_are_not_flagged() {
    for name in ["foo_bar", "foo", "foo2", "ok_param", "a", "x1_y2", "_unused", "__x__", "r2d2"] {
        assert_eq!(snake(name), None, "{}", name);
    }
    for name in ["FooBar", "Foo", "SomeStruct", "A", "HTTPServer", "Foo2", "_Hidden", "X1Y2"] {
        assert_eq!(camel(name), None, "{}", name);
    }
}

#[test]
fn names_without_a_stem_are_not_flagged() {
    for name in ["", "_", "__", "_____"] {
        assert_eq!(snake(name), None);
        assert_eq!(camel(name), None);
    }
}

#[test]
fn lowercase_to_uppercase_starts_a_word() {
    assert_eq!(snake("fooBar"), some("foo_bar"));
    assert_eq!(snake("fooBarBaz"), some("foo_bar_baz"));
    assert_eq!(camel("fooBar"), some("FooBar"));
}

#[test]
fn acronym_ends_before_its_last_letter() {
    assert_eq!(snake("HTTPServer"), some("http_server"));
    assert_eq!(snake("parseHTTPRequest"), some("parse_http_request"));
    assert_eq!(snake("ABc"), some("a_bc"));
    assert_eq!(snake("HTTP"), some("http"));
    assert_eq!(camel("my_HTTPServer"), some("MyHttpServer"));
}

#[test]
fn digits_stay_with_the_word_before() {
    assert_eq!(snake("Foo2"), some("foo2"));
    assert_eq!(snake("foo2Bar"), some("foo2_bar"));
    assert_eq!(snake("HTTP2Server"), some("http2_server"));
    assert_eq!(snake("AB1c"), some("ab1c"));
    assert_eq!(camel("foo_2bar"), some("Foo2bar"));
    assert_eq!(camel("a1_b2"), some("A1B2"));
}

#[test]
fn underscores_around_the_stem_are_kept() {
    assert_eq!(snake("_FooBar"), some("_foo_bar"));
    assert_eq!(snake("__FooBar_"), some("__foo_bar_"));
    assert_eq!(camel("_foo_bar__"), some("_FooBar__"));
    assert_eq!(camel("__x"), some("__X"));
}

#[test]
fn underscores_inside_the_stem_separate_words() {
    assert_eq!(snake("foo__bar"), some("foo_bar"));
    assert_eq!(snake("Foo_Bar"), some("foo_bar"));
    assert_eq!(snake("FOO___BAR"), some("foo_bar"));
    assert_eq!(camel("foo__bar"), some("FooBar"));
    assert_eq!(camel("Foo_Bar"), some("FooBar"));
    assert_eq!(camel("A_B"), some("AB"));
}

#[test]
fn upper_camel_case_lowers_the_rest_of_each_word() {
    assert_eq!(camel("CAPS_PARAM"), some("CapsParam"));
    assert_eq!(camel("some_FIELD"), some("SomeField"));
    assert_eq!(camel("lower"), some("Lower"));
    assert_eq!(camel("fooBAR"), some("FooBar"));
}

#[test]
fn characters_without_case_are_kept() {
    assert_eq!(snake("Größe"), some("größe"));
    assert_eq!(snake("größe"), None);
    assert_eq!(snake("éA"), some("éa"));
    assert_eq!(camel("été_chaud"), some("étéChaud"));
    assert_eq!(camel("Été"), None);
    assert_eq!(snake("名前Name"), some("名前name"));
}

#[test]
fn a_suggestion_is_never_flagged_again() {
    let names = [
        "NonSnakeCaseName",
        "CAPS_PARAM",
        "non_camel_case_name",
        "HTTPServer",
        "my_HTTPServer",
        "a_b",
        "A_B",
        "foo__bar",
        "__FooBar_",
        "foo2Bar",
        "_",
        "",
        "fooBAR",
        "X",
        "x",
        "aB_cD__eF",
    ];
    for case in [CaseType::LowerSnakeCase, CaseType::UpperCamelCase] {
        for name in names {
            let after = classify_and_suggest(name, case).unwrap_or(name.to_string());
            assert_eq!(classify_and_suggest(&after, case), None, "{} -> {}", name, after);
        }
    }
}

#[test]
fn a_suggestion_differs_from_the_name() {
    for name in ["Foo", "fooBar", "foo__bar", "FOO", "foo_bar", "_A_"] {
        for case in [CaseType::LowerSnakeCase, CaseType::UpperCamelCase] {
            if let Some(suggested) = classify_and_suggest(name, case) {
                assert_ne!(suggested, name);
            }
        }
    }
}

#[test]
fn the_two_shorthands_agree_with_the_classifier() {
    for name in ["Foo", "fooBar", "foo_bar", "FOO_BAR", "_x", "HTTPServer"] {
        assert_eq!(snake(name), classify_and_suggest(name, CaseType::LowerSnakeCase));
        assert_eq!(camel(name), classify_and_suggest(name, CaseType::UpperCamelCase));
    }
}

#[test]
fn labels_of_the_conventions() {
    assert_eq!(CaseType::LowerSnakeCase.label(), "snake_case");
    assert_eq!(CaseType::UpperCamelCase.label(), "CamelCase");
}
