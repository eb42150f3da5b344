use jsonschema::compilation::context::{CompilationContext, Draft};
use jsonschema::compilation::{compile_validators, JSONSchema};
use jsonschema::error::{CompilationError, ValidationError, ValidationErrorKind};
use jsonschema::json::{Json, Number};
use jsonschema::keywords::boolean::{FalseValidator, TrueValidator};
use jsonschema::keywords::items::{compile, ItemsArrayValidator, ItemsObjectValidator};
use jsonschema::paths::{InstancePath, PathChunk};
use jsonschema::primitive_type::PrimitiveType;
use jsonschema::validator::Validator;

fn text(value: &str) -> Json {
    Json::String(value.to_string())
}

fn object(members: Vec<(&str, Json)>) -> Json {
    Json::Object(members.into_iter().map(|(name, value)| (name.to_string(), value)).collect())
}

fn typed(name: &str) -> Json {
    object(vec![("type", text(name))])
}

fn number(value: i128) -> Json {
    Json::Number(Number::Integer(value))
}

fn context() -> CompilationContext {
    CompilationContext::new(Draft::Draft7)
}

fn root() -> JSONSchema {
    JSONSchema::compile(&Json::Bool(true), None).unwrap()
}

fn items(schema: &Json) -> Option<Result<Validator, CompilationError>> {
    compile(&vec![], schema, &context())
}

#[test]
fn an_array_compiles_to_the_tuple_form() {
    let schema = Json::Array(vec![typed("number"), typed("string")]);
    let validator = items(&schema).unwrap().unwrap();
    assert!(matches!(validator, Validator::ItemsArray(_)));
    assert_eq!(validator.to_string(), "items: [{type: number}, {type: string}]");
    assert!(validator.is_valid(&root(), &Json::Array(vec![number(1), text("x")])));
    assert!(!validator.is_valid(&root(), &Json::Array(vec![text("x"), text("x")])));
}

#[test]
fn an_empty_array_compiles_to_a_tuple_form_that_checks_nothing() {
    let validator = items(&Json::Array(vec![])).unwrap().unwrap();
    assert!(matches!(validator, Validator::ItemsArray(_)));
    assert_eq!(validator.to_string(), "items: []");
    assert!(validator.is_valid(&root(), &Json::Array(vec![number(1), Json::Null])));
}

#[test]
fn an_object_compiles_to_the_list_form() {
    let validator = items(&typed("number")).unwrap().unwrap();
    assert!(matches!(validator, Validator::ItemsObject(_)));
    assert_eq!(validator.to_string(), "items: {type: number}");
    assert!(validator.is_valid(&root(), &Json::Array(vec![number(1), number(2)])));
    assert!(!validator.is_valid(&root(), &Json::Array(vec![number(1), Json::Null])));
}

#[test]
fn true_compiles_to_the_validator_that_accepts_everything() {
    let validator = items(&Json::Bool(true)).unwrap().unwrap();
    assert!(matches!(validator, Validator::True(_)));
    assert_eq!(validator.to_string(), "true");
    let mut path = InstancePath::new();
    for instance in [Json::Null, number(1), Json::Array(vec![Json::Null, text("x")])] {
        assert!(validator.is_valid(&root(), &instance));
        assert_eq!(validator.validate(&root(), &instance, &mut path), vec![]);
    }
}

#[test]
fn false_compiles_to_the_list_form_of_the_schema_false() {
    let validator = items(&Json::Bool(false)).unwrap().unwrap();
    assert!(matches!(validator, Validator::ItemsObject(_)));
    assert_eq!(validator.to_string(), "items: false");
    assert!(validator.is_valid(&root(), &Json::Array(vec![])));
    assert!(!validator.is_valid(&root(), &Json::Array(vec![Json::Null])));
    assert!(validator.is_valid(&root(), &Json::Null));
}

#[test]
fn the_keyword_does_not_apply_to_other_values() {
    assert!(items(&Json::Null).is_none());
    assert!(items(&number(3)).is_none());
    assert!(items(&number(-3)).is_none());
    assert!(items(&Json::Number(Number::Float(0x3ff8_0000_0000_0000))).is_none());
    assert!(items(&text("number")).is_none());
}

#[test]
fn the_failure_of_a_schema_in_a_tuple_is_the_failure_of_the_tuple() {
    let schema = Json::Array(vec![typed("number"), number(5), typed("string")]);
    assert_eq!(items(&schema).unwrap().unwrap_err(), CompilationError::SchemaError);
    let schema = Json::Array(vec![Json::Bool(true), typed("numbers")]);
    assert_eq!(items(&schema).unwrap().unwrap_err(), CompilationError::SchemaError);
    let schema = Json::Array(vec![Json::Array(vec![])]);
    assert_eq!(items(&schema).unwrap().unwrap_err(), CompilationError::SchemaError);
}

#[test]
fn the_failure_of_the_shared_schema_is_the_failure_of_the_list() {
    let schema = object(vec![("type", number(5))]);
    assert_eq!(items(&schema).unwrap().unwrap_err(), CompilationError::SchemaError);
    let schema = object(vec![("items", object(vec![("items", Json::Array(vec![Json::Null]))]))]);
    assert_eq!(items(&schema).unwrap().unwrap_err(), CompilationError::SchemaError);
}

#[test]
fn the_two_forms_compile_by_themselves() {
    let tuple = ItemsArrayValidator::compile(&vec![typed("null"), Json::Bool(false)], &context());
    assert_eq!(tuple.unwrap().to_string(), "items: [{type: null}, false]");
    let tuple = ItemsArrayValidator::compile(&vec![typed("null"), Json::Null], &context());
    assert_eq!(tuple.unwrap_err(), CompilationError::SchemaError);
    let list = ItemsObjectValidator::compile(&typed("null"), &context());
    assert_eq!(list.unwrap().to_string(), "items: {type: null}");
    let list = ItemsObjectValidator::compile(&Json::Bool(true), &context());
    assert_eq!(list.unwrap().to_string(), "items: {}");
    let list = ItemsObjectValidator::compile(&text("null"), &context());
    assert_eq!(list.unwrap_err(), CompilationError::SchemaError);
}

#[test]
fn the_boolean_validators_compile_without_a_schema() {
    let yes = TrueValidator::compile().unwrap();
    let no = FalseValidator::compile().unwrap();
    assert!(yes.is_valid(&root(), &Json::Null));
    assert!(!no.is_valid(&root(), &Json::Null));
    let mut path = InstancePath::new();
    path.push(PathChunk::Name("a".to_string()));
    assert_eq!(yes.validate(&root(), &Json::Null, &mut path), vec![]);
    assert_eq!(
        no.validate(&root(), &Json::Null, &mut path),
        vec![ValidationError {
            instance_path: vec![PathChunk::Name("a".to_string())],
            kind: ValidationErrorKind::FalseSchema,
        }]
    );
    assert_eq!(path.to_vec(), vec![PathChunk::Name("a".to_string())]);
}

#[test]
fn a_schema_is_a_boolean_or_an_object() {
    assert_eq!(compile_validators(&Json::Bool(true), &context()).unwrap().len(), 0);
    let none = compile_validators(&Json::Bool(false), &context()).unwrap();
    assert_eq!(none.len(), 1);
    assert!(matches!(none[0], Validator::False(_)));
    assert_eq!(compile_validators(&object(vec![]), &context()).unwrap().len(), 0);
    for schema in [Json::Null, number(1), text("x"), Json::Array(vec![])] {
        assert_eq!(
            compile_validators(&schema, &context()).unwrap_err(),
            CompilationError::SchemaError
        );
    }
}

#[test]
fn an_object_compiles_to_one_validator_for_each_keyword_that_applies() {
    let schema = object(
        vec![
            ("title", text("a list")),
            ("type", text("array")),
            ("items", number(3)),
            ("items", typed("string")),
        ],
    );
    let validators = compile_validators(&schema, &context()).unwrap();
    assert_eq!(validators.len(), 2);
    assert_eq!(validators[0].to_string(), "type: array");
    assert_eq!(validators[1].to_string(), "items: {type: string}");
}

#[test]
fn the_first_keyword_that_fails_ends_the_compilation() {
    let schema = object(vec![("type", text("array")), ("items", Json::Array(vec![number(1)]))]);
    assert_eq!(
        compile_validators(&schema, &context()).unwrap_err(),
        CompilationError::SchemaError
    );
    assert_eq!(JSONSchema::compile(&schema, None).unwrap_err(), CompilationError::SchemaError);
    let schema = object(vec![("type", Json::Array(vec![text("array")]))]);
    assert_eq!(JSONSchema::compile(&schema, None).unwrap_err(), CompilationError::SchemaError);
}

#[test]
fn a_document_is_read_as_the_latest_edition_unless_it_names_one() {
    let schema = typed("array");
    assert_eq!(JSONSchema::compile(&schema, None).unwrap().draft(), Draft::Draft7);
    assert_eq!(JSONSchema::compile(&schema, Some(Draft::Draft4)).unwrap().draft(), Draft::Draft4);
    assert_eq!(JSONSchema::compile(&schema, Some(Draft::Draft6)).unwrap().draft(), Draft::Draft6);
    assert_eq!(CompilationContext::new(Draft::Draft6).draft(), Draft::Draft6);
}

#[test]
fn validators_leave_the_path_as_they_found_it() {
    let schema = Json::Array(vec![typed("number"), object(vec![("items", typed("string"))])]);
    let validator = items(&schema).unwrap().unwrap();
    let instance = Json::Array(vec![text("x"), Json::Array(vec![text("y"), number(2)])]);
    let mut path = InstancePath::new();
    path.push(PathChunk::Name("rows".to_string()));
    path.push(PathChunk::Index(4));
    let found = validator.validate(&root(), &instance, &mut path);
    assert_eq!(path.len(), 2);
    assert_eq!(path.to_vec(), vec![PathChunk::Name("rows".to_string()), PathChunk::Index(4)]);
    assert_eq!(
        found,
        vec![
            ValidationError {
                instance_path: vec![
                    PathChunk::Name("rows".to_string()),
                    PathChunk::Index(4),
                    PathChunk::Index(0),
                ],
                kind: ValidationErrorKind::Type { kind: PrimitiveType::Number },
            },
            ValidationError {
                instance_path: vec![
                    PathChunk::Name("rows".to_string()),
                    PathChunk::Index(4),
                    PathChunk::Index(1),
                    PathChunk::Index(1),
                ],
                kind: ValidationErrorKind::Type { kind: PrimitiveType::String },
            },
        ]
    );
}

fn shared<T: Send + Sync>() {}

#[test]
fn a_compiled_schema_can_be_shared_between_threads() {
    shared::<JSONSchema>();
    shared::<Validator>();
    shared::<ItemsArrayValidator>();
    shared::<ItemsObjectValidator>();
}
