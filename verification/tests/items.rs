use jsonschema::compilation::JSONSchema;
use jsonschema::error::{ValidationError, ValidationErrorKind};
use jsonschema::json::{Json, Number};
use jsonschema::paths::PathChunk;
use jsonschema::primitive_type::PrimitiveType;

fn convert(value: &serde_json::Value) -> Json {
    match value {
        serde_json::Value::Null => Json::Null,
        serde_json::Value::Bool(flag) => Json::Bool(*flag),
        serde_json::Value::Number(number) => Json::Number(if let Some(n) = number.as_u64() {
            Number::Integer(i128::from(n))
        } else if let Some(n) = number.as_i64() {
            Number::Integer(i128::from(n))
        } else {
            Number::Float(number.as_f64().unwrap().to_bits())
        }),
        serde_json::Value::String(text) => Json::String(text.clone()),
        serde_json::Value::Array(items) => Json::Array(items.iter().map(convert).collect()),
        serde_json::Value::Object(members) => Json::Object(
            members.iter().map(|(name, value)| (name.clone(), convert(value))).collect(),
        ),
    }
}

fn json(text: &str) -> Json {
    convert(&serde_json::from_str::<serde_json::Value>(text).unwrap())
}

fn schema(text: &str) -> JSONSchema {
    JSONSchema::compile(&json(text), None).unwrap()
}

fn errors(compiled: &JSONSchema, instance: &str) -> Vec<ValidationError> {
    match compiled.validate(&json(instance)) {
        Ok(()) => vec![],
        Err(errors) => errors,
    }
}

fn at(indices: &[usize]) -> Vec<PathChunk> {
    indices.iter().map(|index| PathChunk::Index(*index)).collect()
}

fn type_error(indices: &[usize], kind: PrimitiveType) -> ValidationError {
    ValidationError { instance_path: at(indices), kind: ValidationErrorKind::Type { kind } }
}

fn false_error(indices: &[usize]) -> ValidationError {
    ValidationError { instance_path: at(indices), kind: ValidationErrorKind::FalseSchema }
}

#[test]
fn tuple_form_passes_every_instance_that_is_no_array() {
    let compiled = schema(r#"{"items": [{"type": "number"}, false]}"#);
    for instance in ["null", "true", "7", "-7", "1.5", "\"x\"", "{}", "{\"0\": \"x\"}"] {
        assert!(compiled.is_valid(&json(instance)), "{}", instance);
        assert_eq!(compiled.validate(&json(instance)), Ok(()), "{}", instance);
    }
}

#[test]
fn list_form_passes_every_instance_that_is_no_array() {
    for text in [r#"{"items": {"type": "number"}}"#, r#"{"items": false}"#] {
        let compiled = schema(text);
        for instance in ["null", "false", "7", "1e3", "\"x\"", "{}", "{\"a\": [\"x\"]}"] {
            assert!(compiled.is_valid(&json(instance)), "{} {}", text, instance);
            assert_eq!(compiled.validate(&json(instance)), Ok(()), "{} {}", text, instance);
        }
    }
}

#[test]
fn tuple_form_checks_each_element_against_its_own_position() {
    let compiled = schema(r#"{"items": [{"type": "number"}, {"type": "string"}]}"#);
    assert!(compiled.is_valid(&json(r#"[1, "x"]"#)));
    assert!(!compiled.is_valid(&json(r#"["x", 1]"#)));
    assert_eq!(
        errors(&compiled, r#"["x", 1]"#),
        vec![type_error(&[0], PrimitiveType::Number), type_error(&[1], PrimitiveType::String)]
    );
}

#[test]
fn tuple_form_ignores_elements_after_the_last_schema() {
    let compiled = schema(r#"{"items": [{"type": "number"}]}"#);
    for instance in [r#"[1, 2]"#, r#"[1, "x"]"#, r#"[1, null]"#, r#"[1, [false], {}]"#] {
        assert!(compiled.is_valid(&json(instance)), "{}", instance);
        assert_eq!(errors(&compiled, instance), vec![], "{}", instance);
    }
    for instance in [r#"["a", 2]"#, r#"["a", "x"]"#, r#"["a", null]"#, r#"["a", [0], {}]"#] {
        assert!(!compiled.is_valid(&json(instance)), "{}", instance);
        assert_eq!(
            errors(&compiled, instance),
            vec![type_error(&[0], PrimitiveType::Number)],
            "{}",
            instance
        );
    }
}

#[test]
fn tuple_form_ignores_schemas_after_the_last_element() {
    let compiled = schema(r#"{"items": [{"type": "number"}, {"type": "string"}, false]}"#);
    assert!(compiled.is_valid(&json("[]")));
    assert!(compiled.is_valid(&json("[1]")));
    assert!(compiled.is_valid(&json(r#"[1, "x"]"#)));
    assert!(!compiled.is_valid(&json(r#"[1, "x", 3]"#)));
    assert_eq!(errors(&compiled, "[true]"), vec![type_error(&[0], PrimitiveType::Number)]);
    assert_eq!(errors(&compiled, r#"[1, "x", 3]"#), vec![false_error(&[2])]);
}

#[test]
fn list_form_is_valid_exactly_when_every_element_is() {
    let compiled = schema(r#"{"items": {"type": "number"}}"#);
    let element = schema(r#"{"type": "number"}"#);
    for instance in ["[]", "[1]", "[1, 2, 3]", r#"[1, "x", 3]"#, r#"["x"]"#, "[null, 2.5]"] {
        let whole = json(instance);
        let each = match &whole {
            Json::Array(items) => items.iter().all(|item| element.is_valid(item)),
            _ => unreachable!(),
        };
        assert_eq!(compiled.is_valid(&whole), each, "{}", instance);
    }
}

#[test]
fn list_form_reports_the_one_element_that_is_wrong_at_its_index() {
    let compiled = schema(r#"{"items": {"type": "number"}}"#);
    assert_eq!(errors(&compiled, "[1, 2, 3]"), vec![]);
    assert_eq!(errors(&compiled, r#"[1, "x", 3]"#), vec![type_error(&[1], PrimitiveType::Number)]);
    assert_eq!(errors(&compiled, r#"[1, 2, "x"]"#), vec![type_error(&[2], PrimitiveType::Number)]);
    assert_eq!(errors(&compiled, r#"[[], 2, 3]"#), vec![type_error(&[0], PrimitiveType::Number)]);
}

#[test]
fn tuple_of_number_and_string_against_two_numbers() {
    let compiled = schema(r#"{"items": [{"type": "number"}, {"type": "string"}]}"#);
    let found = errors(&compiled, "[1, 2]");
    assert_eq!(found.len(), 1);
    assert_eq!(found[0].instance_path, vec![PathChunk::Index(1)]);
    assert_eq!(found[0].kind, ValidationErrorKind::Type { kind: PrimitiveType::String });
    assert_eq!(found[0].to_string(), "value is not of type 'string'");
}

#[test]
fn tuple_of_number_and_string_against_two_strings() {
    let compiled = schema(r#"{"items": [{"type": "number"}, {"type": "string"}]}"#);
    let found = errors(&compiled, r#"["x", "y"]"#);
    assert_eq!(found.len(), 1);
    assert_eq!(found[0].instance_path, vec![PathChunk::Index(0)]);
    assert_eq!(found[0].kind, ValidationErrorKind::Type { kind: PrimitiveType::Number });
    assert_eq!(found[0].to_string(), "value is not of type 'number'");
}

#[test]
fn items_true_is_as_good_as_no_items() {
    let with = schema(r#"{"items": true}"#);
    let without = schema("{}");
    let typed_with = schema(r#"{"items": true, "type": "array"}"#);
    let typed_without = schema(r#"{"type": "array"}"#);
    for instance in ["[]", "[1]", r#"[1, "x", null, [2], {"a": 1}]"#, "5", "\"x\"", "{}", "null"] {
        let value = json(instance);
        assert!(with.is_valid(&value), "{}", instance);
        assert_eq!(with.is_valid(&value), without.is_valid(&value), "{}", instance);
        assert_eq!(with.validate(&value), without.validate(&value), "{}", instance);
        assert_eq!(typed_with.is_valid(&value), typed_without.is_valid(&value), "{}", instance);
        assert_eq!(typed_with.validate(&value), typed_without.validate(&value), "{}", instance);
    }
}

#[test]
fn items_false_accepts_the_empty_array() {
    let compiled = schema(r#"{"items": false}"#);
    assert!(compiled.is_valid(&json("[]")));
    assert_eq!(compiled.validate(&json("[]")), Ok(()));
}

#[test]
fn items_false_rejects_every_element() {
    let compiled = schema(r#"{"items": false}"#);
    assert!(!compiled.is_valid(&json("[1]")));
    assert_eq!(errors(&compiled, "[1]"), vec![false_error(&[0])]);
    assert_eq!(errors(&compiled, "[1]")[0].to_string(), "false schema does not allow any value");
    assert_eq!(
        errors(&compiled, r#"[null, "x", []]"#),
        vec![false_error(&[0]), false_error(&[1]), false_error(&[2])]
    );
}

#[test]
fn the_same_question_has_the_same_answer() {
    let compiled = schema(r#"{"items": [{"items": {"type": "string"}}, {"type": "null"}]}"#);
    for instance in ["[]", r#"[["a", 1, "b", 2], 3]"#, r#"[["a"], null]"#, "7"] {
        let value = json(instance);
        let first = compiled.is_valid(&value);
        let found = compiled.validate(&value);
        for _ in 0..3 {
            assert_eq!(compiled.is_valid(&value), first, "{}", instance);
            assert_eq!(compiled.validate(&value), found, "{}", instance);
        }
    }
    assert_eq!(
        errors(&compiled, r#"[["a", 1, "b", 2], 3]"#),
        vec![
            type_error(&[0, 1], PrimitiveType::String),
            type_error(&[0, 3], PrimitiveType::String),
            type_error(&[1], PrimitiveType::Null),
        ]
    );
}

#[test]
fn list_form_goes_through_the_validators_first() {
    // The members of the shared schema are taken in the order of their names:
    // `items` comes before `type`.
    let compiled = schema(r#"{"items": {"type": "array", "items": {"type": "number"}}}"#);
    assert_eq!(
        errors(&compiled, r#"[[1, "a"], 5, ["b"]]"#),
        vec![
            type_error(&[0, 1], PrimitiveType::Number),
            type_error(&[2, 0], PrimitiveType::Number),
            type_error(&[1], PrimitiveType::Array),
        ]
    );
}

#[test]
fn list_form_finds_what_a_walk_through_the_elements_finds() {
    let shared = r#"{"type": "array", "items": {"type": "number"}}"#;
    let compiled = JSONSchema::compile(
        &Json::Object(vec![("items".to_string(), json(shared))]),
        None,
    ).unwrap();
    let element = schema(shared);
    for instance in [r#"[[1, "a"], 5, ["b"]]"#, "[]", "[[], [1, 2]]", r#"["x", "y", [null]]"#] {
        let whole = json(instance);
        let mut by_element: Vec<ValidationError> = vec![];
        if let Json::Array(items) = &whole {
            for (index, item) in items.iter().enumerate() {
                if let Err(found) = element.validate(item) {
                    for error in found {
                        let mut instance_path = vec![PathChunk::Index(index)];
                        instance_path.extend(error.instance_path);
                        by_element.push(ValidationError { instance_path, kind: error.kind });
                    }
                }
            }
        }
        let by_validator = errors(&compiled, instance);
        assert_eq!(by_validator.len(), by_element.len(), "{}", instance);
        for error in &by_validator {
            assert!(by_element.contains(error), "{}", instance);
        }
        for error in &by_element {
            assert!(by_validator.contains(error), "{}", instance);
        }
    }
}

#[test]
fn the_verdict_is_yes_exactly_when_nothing_is_reported() {
    let compiled = schema(r#"{"type": "array", "items": [{"items": false}, {"type": "integer"}]}"#);
    for instance in ["[]", "[[]]", "[[], 1]", "[[1], 1]", "[[], 1.5]", "[3]", "3", "[[], -4, 2]"] {
        let value = json(instance);
        assert_eq!(compiled.is_valid(&value), compiled.validate(&value).is_ok(), "{}", instance);
    }
    assert_eq!(errors(&compiled, "3"), vec![type_error(&[], PrimitiveType::Array)]);
    assert_eq!(
        errors(&compiled, "[[1], 1.5]"),
        vec![false_error(&[0, 0]), type_error(&[1], PrimitiveType::Integer)]
    );
}

#[test]
fn paths_of_nested_arrays_name_every_index_on_the_way() {
    let compiled = schema(r#"{"items": {"items": {"items": {"type": "boolean"}}}}"#);
    assert_eq!(
        errors(&compiled, "[[[true, 0]], [[], [false], [1, true, 2]]]"),
        vec![
            type_error(&[0, 0, 1], PrimitiveType::Boolean),
            type_error(&[1, 2, 0], PrimitiveType::Boolean),
            type_error(&[1, 2, 2], PrimitiveType::Boolean),
        ]
    );
}
