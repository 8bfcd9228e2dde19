use std::rc::Rc;

use protocol_codegen::protocol;
use protocol_codegen::registry::{RegistryError, Structure, Type, TypeRegistry};

fn declared(name: &str, kind: &str, cname: &str) -> protocol::Type {
    protocol::Type { name: name.to_string(), kind: kind.to_string(), cname: cname.to_string() }
}

fn field(name: &str, field_type: &str) -> protocol::Field {
    protocol::Field { name: name.to_string(), field_type: field_type.to_string() }
}

fn primitive(name: &str) -> Type {
    Type::Primitive(name.to_string())
}

#[test]
fn default_registry_holds_the_builtin_types() {
    let registry = TypeRegistry::default();
    assert_eq!(registry.type_map.len(), 5);
    assert_eq!(*registry.get_type("int"), primitive("int"));
    assert_eq!(*registry.get_type("bool"), primitive("bool"));
    assert_eq!(*registry.get_type("float"), primitive("float"));
    assert_eq!(*registry.get_type("double"), primitive("double"));
    assert_eq!(*registry.get_type("string"), Type::String);
}

#[test]
fn get_type_builds_arrays() {
    let registry = TypeRegistry::default();
    assert_eq!(*registry.get_type("int[]"), Type::Array(Rc::new(primitive("int"))));
    assert_eq!(
        *registry.get_type("string[][]"),
        Type::Array(Rc::new(Type::Array(Rc::new(Type::String))))
    );
}

#[test]
fn can_resolve_matches_what_get_type_accepts() {
    let mut registry = TypeRegistry::default();
    assert!(registry.can_resolve("int"));
    assert!(registry.can_resolve("int[][]"));
    assert!(!registry.can_resolve("unknown"));
    assert!(!registry.can_resolve("unknown[]"));
    assert!(!registry.can_resolve(""));
    assert!(!registry.can_resolve("[]"));
    registry.register_type("x", primitive("char"));
    assert!(!registry.can_resolve("x"));
    registry.register_type("é", primitive("wchar_t"));
    assert!(registry.can_resolve("é"));
    assert_eq!(*registry.get_type("é"), primitive("wchar_t"));
    registry.register_type("€", primitive("euro_t"));
    assert!(!registry.can_resolve("€"));
    registry.register_type("a€", primitive("euro_t"));
    assert!(!registry.can_resolve("a€"));
}

#[test]
fn register_declared_primitive() {
    let mut registry = TypeRegistry::default();
    assert_eq!(registry.register_declared_type(&declared("u8", "primitive", "uint8_t")), Ok(()));
    assert_eq!(*registry.get_type("u8"), primitive("uint8_t"));
    assert_eq!(registry.type_map.len(), 6);
}

#[test]
fn register_declared_structure() {
    let mut registry = TypeRegistry::default();
    assert_eq!(registry.register_declared_type(&declared("point", "structure", "t_point")), Ok(()));
    assert_eq!(
        *registry.get_type("point"),
        Type::Structure(Structure {
            name: "point".to_string(),
            cname: "t_point".to_string(),
            fields: vec![],
        })
    );
}

#[test]
fn register_declared_string_is_impossible() {
    let mut registry = TypeRegistry::default();
    let error = registry.register_declared_type(&declared("text", "string", "char *")).unwrap_err();
    assert_eq!(error, RegistryError::ImpossibleDeclaration("string".to_string()));
    assert_eq!(error.message(), "Impossible to declare type: string");
    assert!(!registry.can_resolve("text"));
}

#[test]
fn register_declared_array_is_impossible() {
    let mut registry = TypeRegistry::default();
    let error = registry.register_declared_type(&declared("list", "array", "GArray *")).unwrap_err();
    assert_eq!(error, RegistryError::ImpossibleDeclaration("array".to_string()));
    assert_eq!(error.message(), "Impossible to declare type: array");
}

#[test]
fn register_declared_unknown_kind() {
    let mut registry = TypeRegistry::default();
    let error = registry.register_declared_type(&declared("thing", "enum", "int")).unwrap_err();
    assert_eq!(error, RegistryError::UnknownKind("enum".to_string()));
    assert_eq!(error.message(), "Unknown type: enum");
    assert_eq!(registry.type_map.len(), 5);
}

#[test]
fn convert_resolves_fields_and_names_the_c_type() {
    let mut registry = TypeRegistry::default();
    let object = protocol::Object {
        name: "pair".to_string(),
        fields: vec![field("left", "int"), field("right", "string[]")],
    };
    let structure = registry.convert(&object);
    assert_eq!(structure.name, "pair");
    assert_eq!(structure.cname, "t_pair");
    assert_eq!(structure.fields.len(), 2);
    assert_eq!(structure.fields[0].name, "left");
    assert_eq!(*structure.fields[0].field_type, primitive("int"));
    assert_eq!(structure.fields[1].name, "right");
    assert_eq!(*structure.fields[1].field_type, Type::Array(Rc::new(Type::String)));
    assert!(!registry.can_resolve("pair"));
}

#[test]
fn convert_and_register_makes_the_structure_usable() {
    let mut registry = TypeRegistry::default();
    let point = protocol::Object {
        name: "point".to_string(),
        fields: vec![field("x", "int"), field("y", "int")],
    };
    let structure = registry.convert_and_register(&point);
    assert_eq!(structure.cname, "t_point");
    assert_eq!(*registry.get_type("point"), Type::Structure(structure.clone()));
    let path = protocol::Object { name: "path".to_string(), fields: vec![field("points", "point[]")] };
    let converted = registry.convert(&path);
    assert_eq!(
        *converted.fields[0].field_type,
        Type::Array(Rc::new(Type::Structure(structure)))
    );
}

#[test]
fn cname_of_every_kind() {
    let structure = Structure { name: "point".to_string(), cname: "t_point".to_string(), fields: vec![] };
    assert_eq!(primitive("int").cname(), "int");
    assert_eq!(Type::String.cname(), "char *");
    assert_eq!(Type::Array(Rc::new(Type::String)).cname(), "GArray *");
    assert_eq!(Type::Structure(structure).cname(), "t_point *");
}

#[test]
fn json_name_of_every_kind() {
    let structure = Structure { name: "point".to_string(), cname: "t_point".to_string(), fields: vec![] };
    assert_eq!(primitive("bool").json_name(), "Bool");
    assert_eq!(primitive("int").json_name(), "Number");
    assert_eq!(primitive("double").json_name(), "Number");
    assert_eq!(Type::String.json_name(), "String");
    assert_eq!(Type::Array(Rc::new(primitive("bool"))).json_name(), "Item");
    assert_eq!(Type::Structure(structure).json_name(), "Item");
}

#[test]
fn register_type_replaces_an_entry() {
    let mut registry = TypeRegistry::default();
    registry.register_type("int", primitive("int32_t"));
    assert_eq!(*registry.get_type("int"), primitive("int32_t"));
    assert_eq!(registry.type_map.len(), 5);
}
