use jsonschema::compilation::context::{CompilationContext, Draft};
use jsonschema::compilation::compile_validators;
use jsonschema::error::{ValidationError, ValidationErrorKind};
use jsonschema::json::{Json, Number};
use jsonschema::keywords::items::compile;
use jsonschema::keywords::type_;
use jsonschema::keywords::{format_validators, format_vec_of_validators};
use jsonschema::paths::{InstancePath, PathChunk};
use jsonschema::primitive_type::PrimitiveType;
use jsonschema::text::{is_word, join_next};

fn word(value: &str) -> Json {
    Json::String(value.to_string())
}

fn object(members: Vec<(&str, Json)>) -> Json {
    Json::Object(members.into_iter().map(|(name, value)| (name.to_string(), value)).collect())
}

fn described(schema: Json) -> String {
    let context = CompilationContext::new(Draft::Draft7);
    compile(&vec![], &schema, &context).unwrap().unwrap().to_string()
}

#[test]
fn a_tuple_is_written_as_a_bracketed_list_of_its_positions() {
    assert_eq!(described(Json::Array(vec![])), "items: []");
    assert_eq!(described(Json::Array(vec![Json::Bool(true)])), "items: [{}]");
    assert_eq!(described(Json::Array(vec![Json::Bool(false)])), "items: [false]");
    assert_eq!(
        described(
            Json::Array(
                vec![
                    object(vec![("type", word("number"))]),
                    Json::Bool(false),
                    object(vec![]),
                    object(vec![("items", Json::Bool(true))]),
                ],
            ),
        ),
        "items: [{type: number}, false, {}, true]"
    );
}

#[test]
fn a_list_is_written_as_its_shared_schema() {
    assert_eq!(described(object(vec![])), "items: {}");
    assert_eq!(described(Json::Bool(false)), "items: false");
    assert_eq!(described(object(vec![("type", word("object"))])), "items: {type: object}");
    assert_eq!(
        described(object(vec![("items", Json::Bool(false)), ("type", word("array"))])),
        "items: {items: false, type: array}"
    );
    assert_eq!(
        described(
            object(
                vec![(
                    "items",
                    Json::Array(vec![object(vec![("type", word("null"))]), Json::Bool(true)]),
                )],
            ),
        ),
        "items: {items: [{type: null}, {}]}"
    );
}

#[test]
fn a_validator_set_is_written_between_braces() {
    let context = CompilationContext::new(Draft::Draft7);
    let none = compile_validators(&Json::Bool(true), &context).unwrap();
    assert_eq!(format_validators(&none), "{}");
    let never = compile_validators(&Json::Bool(false), &context).unwrap();
    assert_eq!(format_validators(&never), "false");
    let always = compile_validators(&object(vec![("items", Json::Bool(true))]), &context).unwrap();
    assert_eq!(format_validators(&always), "true");
    let one = compile_validators(&object(vec![("type", word("string"))]), &context).unwrap();
    assert_eq!(format_validators(&one), "{type: string}");
    let two = compile_validators(
        &object(vec![("type", word("array")), ("items", Json::Bool(true))]),
        &context,
    ).unwrap();
    assert_eq!(format_validators(&two), "{type: array, true}");
    assert_eq!(format_vec_of_validators(&vec![]), "");
    assert_eq!(format_vec_of_validators(&vec![one]), "{type: string}");
    assert_eq!(format_vec_of_validators(&vec![none, never, two]), "{}, false, {type: array, true}");
}

#[test]
fn parts_are_joined_with_the_separator_between_them() {
    let mut text = String::new();
    join_next(&mut text, true, ", ", "a");
    assert_eq!(text, "a");
    join_next(&mut text, false, ", ", "b");
    assert_eq!(text, "a, b");
    join_next(&mut text, false, "", "c");
    assert_eq!(text, "a, bc");
    assert!(is_word(&"items".to_string(), "items"));
    assert!(!is_word(&"items".to_string(), "item"));
    assert!(!is_word(&"Items".to_string(), "items"));
}

#[test]
fn every_primitive_type_has_its_name() {
    let all = [
        (PrimitiveType::Array, "array"),
        (PrimitiveType::Boolean, "boolean"),
        (PrimitiveType::Integer, "integer"),
        (PrimitiveType::Null, "null"),
        (PrimitiveType::Number, "number"),
        (PrimitiveType::Object, "object"),
        (PrimitiveType::String, "string"),
    ];
    for (kind, name) in all {
        assert_eq!(kind.to_string(), name);
        assert_eq!(PrimitiveType::from_name(&name.to_string()), Some(kind));
    }
    for name in ["", "Array", "int", "float", "strings", " null"] {
        assert_eq!(PrimitiveType::from_name(&name.to_string()), None, "{}", name);
    }
}

#[test]
fn every_value_has_the_types_that_its_shape_gives_it() {
    let values = [
        (Json::Null, vec![PrimitiveType::Null]),
        (Json::Bool(false), vec![PrimitiveType::Boolean]),
        (Json::Number(Number::Integer(0)), vec![PrimitiveType::Integer, PrimitiveType::Number]),
        (Json::Number(Number::Integer(-1)), vec![PrimitiveType::Integer, PrimitiveType::Number]),
        (
            Json::Number(Number::Integer(18446744073709551615)),
            vec![PrimitiveType::Integer, PrimitiveType::Number],
        ),
        (Json::Number(Number::Float(0x4004_0000_0000_0000)), vec![PrimitiveType::Number]),
        (word(""), vec![PrimitiveType::String]),
        (Json::Array(vec![]), vec![PrimitiveType::Array]),
        (object(vec![]), vec![PrimitiveType::Object]),
    ];
    let all = [
        PrimitiveType::Array,
        PrimitiveType::Boolean,
        PrimitiveType::Integer,
        PrimitiveType::Null,
        PrimitiveType::Number,
        PrimitiveType::Object,
        PrimitiveType::String,
    ];
    for (value, kinds) in &values {
        for kind in all {
            assert_eq!(kind.matches(value), kinds.contains(&kind), "{:?} {:?}", value, kind);
        }
    }
}

#[test]
fn the_type_keyword_takes_the_name_of_one_type() {
    let context = CompilationContext::new(Draft::Draft7);
    let validator = type_::compile(&vec![], &word("integer"), &context).unwrap().unwrap();
    assert_eq!(validator.to_string(), "type: integer");
    for schema in [word("int"), Json::Null, Json::Array(vec![word("integer")]), object(vec![])] {
        assert!(type_::compile(&vec![], &schema, &context).unwrap().is_err());
    }
}

#[test]
fn an_error_says_which_constraint_was_violated() {
    let error = ValidationError::false_schema(vec![PathChunk::Index(3)]);
    assert_eq!(error.instance_path, vec![PathChunk::Index(3)]);
    assert_eq!(error.kind, ValidationErrorKind::FalseSchema);
    assert_eq!(error.to_string(), "false schema does not allow any value");
    let error = ValidationError::single_type_error(vec![], PrimitiveType::Object);
    assert_eq!(error.instance_path, vec![]);
    assert_eq!(error.kind, ValidationErrorKind::Type { kind: PrimitiveType::Object });
    assert_eq!(error.to_string(), "value is not of type 'object'");
}

#[test]
fn a_path_is_a_stack_of_chunks() {
    let mut path = InstancePath::new();
    assert_eq!(path.len(), 0);
    assert_eq!(path.to_vec(), vec![]);
    path.pop();
    assert_eq!(path.len(), 0);
    path.push(PathChunk::Index(2));
    path.push(PathChunk::Name("name".to_string()));
    assert_eq!(path.len(), 2);
    assert_eq!(path.to_vec(), vec![PathChunk::Index(2), PathChunk::Name("name".to_string())]);
    path.pop();
    assert_eq!(path.to_vec(), vec![PathChunk::Index(2)]);
    path.push(PathChunk::Index(0));
    assert_eq!(path.to_vec(), vec![PathChunk::Index(2), PathChunk::Index(0)]);
    path.pop();
    path.pop();
    assert_eq!(path.to_vec(), vec![]);
    assert_eq!(PathChunk::Name("a".to_string()).clone(), PathChunk::Name("a".to_string()));
    assert_eq!(PathChunk::Index(7).clone(), PathChunk::Index(7));
}
