//! The registry of known types, and the conversion of protocol objects
//! into structures whose fields carry resolved types.
use std::rc::Rc;
use vstd::hash_map::StringHashMap;
use vstd::prelude::*;
use vstd::string::StringSliceAdditionalSpecFns;
use vstd::utf8::*;

use crate::protocol;
use crate::text::str_eq;

verus! {

broadcast use vstd::utf8::encode_utf8_decode_utf8;

/// A field of a structure with its resolved type.
#[derive(Debug, Clone, PartialEq, Eq)]
pub struct Field {
    pub name: String,
    pub field_type: Rc<Type>,
}

/// A structure: its protocol name, its C type name and its fields.
#[derive(Debug, Clone, PartialEq, Eq)]
pub struct Structure {
    pub name: String,
    pub cname: String,
    pub fields: Vec<Field>,
}

/// A resolved type.
#[derive(Debug, PartialEq, Eq)]
pub enum Type {
    Primitive(String),
    String,
    Array(Rc<Type>),
    Structure(Structure),
}

/// The C spelling of a type.
pub open spec fn type_cname(t: Type) -> Seq<char> {
    match t {
        Type::Primitive(prim_name) => prim_name@,
        Type::String => "char *"@,
        Type::Array(_) => "GArray *"@,
        Type::Structure(structure) => structure.cname@ + " *"@,
    }
}

/// The cJSON family of a type (`cJSON_Add<name>ToObject`, `cJSON_Is<name>`, ...).
pub open spec fn type_json_name(t: Type) -> Seq<char> {
    match t {
        Type::Primitive(prim_name) => if prim_name@ == "bool"@ {
            "Bool"@
        } else {
            "Number"@
        },
        Type::String => "String"@,
        Type::Array(_) => "Item"@,
        Type::Structure(_) => "Item"@,
    }
}

/// Calls `Rc::clone`, which hands out another pointer to the same value.
#[verifier::external_body]
fn rc_clone(r: &Rc<Type>) -> (res: Rc<Type>)
    ensures
        *res == **r,
{
    Rc::clone(r)
}

impl Type {
    /// The C spelling of the type.
    pub fn cname(&self) -> (r: String)
        ensures
            r@ == type_cname(*self),
    {
        match self {
            Type::Primitive(prim_name) => prim_name.clone(),
            Type::String => String::from_str("char *"),
            Type::Array(_) => String::from_str("GArray *"),
            Type::Structure(structure) => structure.cname.clone().concat(" *"),
        }
    }

    /// The cJSON family of the type.
    pub fn json_name(&self) -> (r: String)
        ensures
            r@ == type_json_name(*self),
    {
        match self {
            Type::Primitive(prim_name) => if str_eq(prim_name.as_str(), "bool") {
                String::from_str("Bool")
            } else {
                String::from_str("Number")
            },
            Type::String => String::from_str("String"),
            Type::Array(_) => String::from_str("Item"),
            Type::Structure(_) => String::from_str("Item"),
        }
    }
}

impl Field {
    /// A copy of the field that shares its type.
    fn duplicate(&self) -> (r: Field)
        ensures
            r == *self,
    {
        Field { name: self.name.clone(), field_type: rc_clone(&self.field_type) }
    }
}

impl Structure {
    /// A copy of the structure, field by field.
    fn duplicate(&self) -> (r: Structure)
        ensures
            same_structure(r, *self),
    {
        let mut fields: Vec<Field> = Vec::new();
        let n = self.fields.len();
        for i in 0..n
            invariant
                n == self.fields.len(),
                fields.len() == i,
                forall|j: int| 0 <= j < i ==> fields@[j] == self.fields@[j],
        {
            fields.push(self.fields[i].duplicate());
        }
        assert(fields@ =~= self.fields@);
        Structure { name: self.name.clone(), cname: self.cname.clone(), fields }
    }
}

/// Two structures with the same names and the same fields.
pub open spec fn same_structure(a: Structure, b: Structure) -> bool {
    &&& a.name == b.name
    &&& a.cname == b.cname
    &&& a.fields@ == b.fields@
}

/// `new` is `old` with the entry under `name` added or replaced, and every
/// other entry kept.
pub open spec fn updated_at(
    old_types: Map<Seq<char>, Rc<Type>>,
    new_types: Map<Seq<char>, Rc<Type>>,
    name: Seq<char>,
) -> bool {
    &&& new_types.dom() == old_types.dom().insert(name)
    &&& forall|k: Seq<char>|
        k != name && #[trigger] old_types.contains_key(k) ==> new_types[k] == old_types[k]
}

/// True when the last two bytes of a name spell `[]`.
pub open spec fn ends_with_brackets(bytes: Seq<u8>) -> bool {
    bytes.len() >= 2 && bytes[bytes.len() - 2] == 0x5bu8 && bytes[bytes.len() - 1] == 0x5du8
}

/// A type name, as UTF-8 bytes, can be looked up: it is at least two bytes
/// long, its last two bytes can be split off at a character boundary, and
/// either it ends with `[]` and the rest can be looked up, or it is a key of
/// the registry.
pub open spec fn resolvable_bytes(types: Map<Seq<char>, Rc<Type>>, bytes: Seq<u8>) -> bool
    decreases bytes.len(),
{
    &&& bytes.len() >= 2
    &&& is_char_boundary(bytes, bytes.len() - 2)
    &&& if ends_with_brackets(bytes) {
        resolvable_bytes(types, bytes.subrange(0, bytes.len() - 2))
    } else {
        types.contains_key(decode_utf8(bytes))
    }
}

/// The type a name stands for: `T[]` is an array of `T`, any other name is
/// looked up in the registry.
pub open spec fn resolve_bytes(types: Map<Seq<char>, Rc<Type>>, bytes: Seq<u8>) -> Type
    decreases bytes.len(),
{
    if ends_with_brackets(bytes) {
        Type::Array(Rc::new(resolve_bytes(types, bytes.subrange(0, bytes.len() - 2))))
    } else {
        *types[decode_utf8(bytes)]
    }
}

/// A type name can be looked up.
pub open spec fn resolvable(types: Map<Seq<char>, Rc<Type>>, name: Seq<char>) -> bool {
    resolvable_bytes(types, encode_utf8(name))
}

/// The type a name stands for.
pub open spec fn resolved_type(types: Map<Seq<char>, Rc<Type>>, name: Seq<char>) -> Type {
    resolve_bytes(types, encode_utf8(name))
}

/// Every field type of the object can be looked up.
pub open spec fn object_resolvable(types: Map<Seq<char>, Rc<Type>>, object: protocol::Object) -> bool {
    forall|i: int|
        0 <= i < object.fields.len() ==> #[trigger] resolvable(
            types,
            object.fields@[i].field_type@,
        )
}

/// `structure` is the conversion of `object` against `types`: the same name,
/// the C name `t_<name>`, and the same fields in the same order, each with its
/// type resolved.
pub open spec fn converted(
    types: Map<Seq<char>, Rc<Type>>,
    object: protocol::Object,
    structure: Structure,
) -> bool {
    &&& structure.name@ == object.name@
    &&& structure.cname@ == "t_"@ + object.name@
    &&& structure.fields.len() == object.fields.len()
    &&& forall|i: int|
        0 <= i < object.fields.len() ==> {
            &&& (#[trigger] structure.fields@[i]).name@ == object.fields@[i].name@
            &&& *structure.fields@[i].field_type == resolved_type(
                types,
                object.fields@[i].field_type@,
            )
        }
}

/// `t` is a primitive type with the C name `name`.
pub open spec fn is_primitive(t: Type, name: Seq<char>) -> bool {
    t matches Type::Primitive(n) && n@ == name
}

/// The registry every protocol starts from: `int`, `bool`, `float`,
/// `double` as primitives of the same C name, and `string`.
pub open spec fn builtin_types(types: Map<Seq<char>, Rc<Type>>) -> bool {
    &&& types.dom() =~= set!["int"@, "bool"@, "float"@, "double"@, "string"@]
    &&& is_primitive(*types["int"@], "int"@)
    &&& is_primitive(*types["bool"@], "bool"@)
    &&& is_primitive(*types["float"@], "float"@)
    &&& is_primitive(*types["double"@], "double"@)
    &&& *types["string"@] == Type::String
}

/// Why a declared type was refused.
#[derive(Debug, PartialEq, Eq)]
pub enum RegistryError {
    /// The kind is `string` or `array`, which cannot be declared.
    ImpossibleDeclaration(String),
    /// The kind is none of the known ones.
    UnknownKind(String),
}

/// The message of an error.
pub open spec fn error_message(e: RegistryError) -> Seq<char> {
    match e {
        RegistryError::ImpossibleDeclaration(kind) => "Impossible to declare type: "@ + kind@,
        RegistryError::UnknownKind(kind) => "Unknown type: "@ + kind@,
    }
}

impl RegistryError {
    /// The message of the error.
    pub fn message(&self) -> (r: String)
        ensures
            r@ == error_message(*self),
    {
        match self {
            RegistryError::ImpossibleDeclaration(kind) => String::from_str(
                "Impossible to declare type: ",
            ).concat(kind.as_str()),
            RegistryError::UnknownKind(kind) => String::from_str("Unknown type: ").concat(
                kind.as_str(),
            ),
        }
    }
}

/// The known types, by name.
pub struct TypeRegistry {
    pub type_map: StringHashMap<Rc<Type>>,
}

impl View for TypeRegistry {
    type V = Map<Seq<char>, Rc<Type>>;

    open spec fn view(&self) -> Map<Seq<char>, Rc<Type>> {
        self.type_map@
    }
}

impl Default for TypeRegistry {
    /// A registry with the builtin types.
    fn default() -> (r: Self)
        ensures
            builtin_types(r@),
    {
        proof {
            reveal_strlit("int");
            reveal_strlit("bool");
            reveal_strlit("float");
            reveal_strlit("double");
            reveal_strlit("string");
            assert("double"@[0] != "string"@[0]);
        }
        let mut registry = TypeRegistry { type_map: StringHashMap::new() };
        registry.register_type("int", Type::Primitive(String::from_str("int")));
        registry.register_type("bool", Type::Primitive(String::from_str("bool")));
        registry.register_type("float", Type::Primitive(String::from_str("float")));
        registry.register_type("double", Type::Primitive(String::from_str("double")));
        registry.register_type("string", Type::String);
        registry
    }
}

impl TypeRegistry {
    /// Registers a type that the protocol declares: a `primitive` under its
    /// C name, or an (opaque) `structure` with no fields. The kinds `string`
    /// and `array` cannot be declared; any other kind is unknown.
    pub fn register_declared_type(&mut self, declared: &protocol::Type) -> (r: Result<
        (),
        RegistryError,
    >)
        ensures
            declared.kind@ == "primitive"@ ==> {
                &&& r is Ok
                &&& updated_at(old(self)@, final(self)@, declared.name@)
                &&& is_primitive(*final(self)@[declared.name@], declared.cname@)
            },
            declared.kind@ == "structure"@ ==> {
                &&& r is Ok
                &&& updated_at(old(self)@, final(self)@, declared.name@)
                &&& *final(self)@[declared.name@] matches Type::Structure(s) && s.name@
                    == declared.name@ && s.cname@ == declared.cname@ && s.fields.len() == 0
            },
            (declared.kind@ == "string"@ || declared.kind@ == "array"@) ==> {
                &&& final(self)@ == old(self)@
                &&& r matches Err(RegistryError::ImpossibleDeclaration(kind)) && kind@
                    == declared.kind@
            },
            !(declared.kind@ == "primitive"@ || declared.kind@ == "structure"@
                || declared.kind@ == "string"@ || declared.kind@ == "array"@) ==> {
                &&& final(self)@ == old(self)@
                &&& r matches Err(RegistryError::UnknownKind(kind)) && kind@ == declared.kind@
            },
    {
        proof {
            reveal_strlit("primitive");
            reveal_strlit("structure");
            reveal_strlit("string");
            reveal_strlit("array");
            assert("primitive"@[0] != "structure"@[0]);
            assert("string"@.len() == 6 && "array"@.len() == 5);
            assert("primitive"@.len() == 9 && "structure"@.len() == 9);
        }
        let kind = declared.kind.as_str();
        if str_eq(kind, "primitive") {
            self.register_type(declared.name.as_str(), Type::Primitive(declared.cname.clone()));
            Ok(())
        } else if str_eq(kind, "structure") {
            self.register_type(
                declared.name.as_str(),
                Type::Structure(
                    Structure {
                        name: declared.name.clone(),
                        cname: declared.cname.clone(),
                        fields: Vec::new(),
                    },
                ),
            );
            Ok(())
        } else if str_eq(kind, "string") || str_eq(kind, "array") {
            Err(RegistryError::ImpossibleDeclaration(declared.kind.clone()))
        } else {
            Err(RegistryError::UnknownKind(declared.kind.clone()))
        }
    }

    /// Converts an object and registers the result as a structure type under
    /// the object's name.
    pub fn convert_and_register(&mut self, object: &protocol::Object) -> (r: Structure)
        requires
            object_resolvable(old(self)@, *object),
        ensures
            converted(old(self)@, *object, r),
            updated_at(old(self)@, final(self)@, object.name@),
            *final(self)@[object.name@] matches Type::Structure(s) && same_structure(s, r),
    {
        let structure = self.convert(object);
        self.register_type(object.name.as_str(), Type::Structure(structure.duplicate()));
        structure
    }

    /// Converts an object into a structure: its C name is `t_<name>` and each
    /// field's type name is resolved. The registry is left as it was.
    pub fn convert(&mut self, object: &protocol::Object) -> (r: Structure)
        requires
            object_resolvable(old(self)@, *object),
        ensures
            converted(old(self)@, *object, r),
            final(self)@ == old(self)@,
    {
        let mut fields: Vec<Field> = Vec::new();
        let n = object.fields.len();
        for i in 0..n
            invariant
                n == object.fields.len(),
                object_resolvable(self@, *object),
                fields.len() == i,
                forall|j: int|
                    0 <= j < i ==> {
                        &&& (#[trigger] fields@[j]).name@ == object.fields@[j].name@
                        &&& *fields@[j].field_type == resolved_type(
                            self@,
                            object.fields@[j].field_type@,
                        )
                    },
        {
            let object_field = &object.fields[i];
            assert(resolvable(self@, object.fields@[i as int].field_type@));
            let field_type = self.get_type(object_field.field_type.as_str());
            fields.push(Field { name: object_field.name.clone(), field_type });
        }
        let cname = String::from_str("t_").concat(object.name.as_str());
        Structure { name: object.name.clone(), cname, fields }
    }

    /// Registers (or replaces) a type under a name.
    pub fn register_type(&mut self, name: &str, new_type: Type)
        ensures
            final(self)@ == old(self)@.insert(name@, Rc::new(new_type)),
    {
        self.type_map.insert(name.to_owned(), Rc::new(new_type));
    }

    /// Looks up a type by name; `T[]` stands for an array of `T`.
    pub fn get_type(&self, name: &str) -> (r: Rc<Type>)
        requires
            resolvable_bytes(self@, encode_utf8(name@)),
        ensures
            *r == resolve_bytes(self@, encode_utf8(name@)),
        decreases encode_utf8(name@).len(),
    {
        let n = name.as_bytes().len();
        let (prefix, suffix) = name.split_at(n - 2);
        let suffix_bytes = suffix.as_bytes();
        assert(suffix_bytes@ =~= encode_utf8(name@).subrange(n - 2, n as int));
        if suffix_bytes[0] == 0x5bu8 && suffix_bytes[1] == 0x5du8 {
            let item_type = self.get_type(prefix);
            Rc::new(Type::Array(item_type))
        } else {
            assert(name@ == decode_utf8(encode_utf8(name@)));
            rc_clone(self.type_map.get(name).unwrap())
        }
    }

    /// Whether `get_type` can look up a name.
    pub fn can_resolve(&self, name: &str) -> (r: bool)
        ensures
            r == resolvable_bytes(self@, encode_utf8(name@)),
        decreases encode_utf8(name@).len(),
    {
        let n = name.as_bytes().len();
        if n < 2 {
            return false;
        }
        if !name.is_char_boundary(n - 2) {
            return false;
        }
        let (prefix, suffix) = name.split_at(n - 2);
        let suffix_bytes = suffix.as_bytes();
        assert(suffix_bytes@ =~= encode_utf8(name@).subrange(n - 2, n as int));
        if suffix_bytes[0] == 0x5bu8 && suffix_bytes[1] == 0x5du8 {
            self.can_resolve(prefix)
        } else {
            assert(name@ == decode_utf8(encode_utf8(name@)));
            self.type_map.contains_key(name)
        }
    }
}

/// A name that `get_type` looks up directly: at least two bytes long, its
/// last two bytes split off at a character boundary, and not ending in `[]`.
pub open spec fn plain_name(name: Seq<char>) -> bool {
    let bytes = encode_utf8(name);
    &&& bytes.len() >= 2
    &&& is_char_boundary(bytes, bytes.len() - 2)
    &&& !ends_with_brackets(bytes)
}

/// Encoding characters as UTF-8 distributes over concatenation.
pub proof fn lemma_encode_utf8_concat(a: Seq<char>, b: Seq<char>)
    ensures
        encode_utf8(a + b) == encode_utf8(a) + encode_utf8(b),
    decreases a.len(),
{
    if a.len() == 0 {
        assert(a + b =~= b);
        assert(encode_utf8(a) =~= Seq::<u8>::empty());
        assert(encode_utf8(a) + encode_utf8(b) =~= encode_utf8(b));
    } else {
        lemma_encode_utf8_concat(a.drop_first(), b);
        assert((a + b).drop_first() =~= a.drop_first() + b);
        assert((a + b)[0] == a[0]);
        assert(encode_utf8(a + b) =~= encode_utf8(a) + encode_utf8(b));
    }
}

/// `[]` is the two bytes 0x5b 0x5d.
proof fn lemma_brackets_bytes()
    ensures
        encode_utf8("[]"@) == seq![0x5bu8, 0x5du8],
{
    reveal_strlit("[]");
    let chars = "[]"@;
    assert(chars[0] == '[' && chars[1] == ']');
    assert(chars.drop_first().drop_first() =~= Seq::<char>::empty());
    assert(('[' as u32) == 0x5bu32);
    assert((']' as u32) == 0x5du32);
    assert(0x5bu32 & 0x7fu32 == 0x5bu32) by (bit_vector);
    assert(0x5du32 & 0x7fu32 == 0x5du32) by (bit_vector);
    assert(encode_utf8(chars.drop_first().drop_first()) =~= Seq::<u8>::empty());
    assert(encode_utf8(chars.drop_first()) =~= seq![0x5du8]);
    assert(encode_utf8(chars) =~= seq![0x5bu8, 0x5du8]);
}

/// Law: a type name followed by `[]` stands for an array of what the name
/// stands for.
pub proof fn law_array_type(types: Map<Seq<char>, Rc<Type>>, name: Seq<char>)
    requires
        resolvable(types, name),
    ensures
        resolvable(types, name + "[]"@),
        resolved_type(types, name + "[]"@) == Type::Array(Rc::new(resolved_type(types, name))),
{
    broadcast use vstd::utf8::encode_utf8_valid_utf8;

    let b = encode_utf8(name);
    lemma_encode_utf8_concat(name, "[]"@);
    lemma_brackets_bytes();
    let whole = encode_utf8(name + "[]"@);
    assert(whole =~= b + seq![0x5bu8, 0x5du8]);
    assert(whole[b.len() as int] == 0x5bu8);
    is_char_boundary_iff_not_is_continuation_byte(whole, b.len() as int);
    assert(whole.subrange(0, whole.len() - 2) =~= b);
}

/// Law: right after a type is registered under a plain name, that name
/// stands for the registered type.
pub proof fn law_resolve_registered(types: Map<Seq<char>, Rc<Type>>, name: Seq<char>, t: Type)
    requires
        plain_name(name),
    ensures
        resolvable(types.insert(name, Rc::new(t)), name),
        resolved_type(types.insert(name, Rc::new(t)), name) == t,
{
}

/// Law: after `convert_and_register`, the object's (plain) name stands for
/// the structure that the conversion returned.
pub proof fn law_registered_structure_resolves(
    old_types: Map<Seq<char>, Rc<Type>>,
    new_types: Map<Seq<char>, Rc<Type>>,
    name: Seq<char>,
    structure: Structure,
)
    requires
        plain_name(name),
        updated_at(old_types, new_types, name),
        *new_types[name] matches Type::Structure(s) && same_structure(s, structure),
    ensures
        resolvable(new_types, name),
        resolved_type(new_types, name) matches Type::Structure(s) && same_structure(s, structure),
{
}

/// Law: the C spelling and the cJSON family of each kind of type: a
/// primitive is spelled by its own C name and belongs to `Bool` exactly when
/// it is `bool` (else `Number`); a string is `char *` of family `String`;
/// an array is a `GArray *` and a structure a pointer to its C type, both of
/// family `Item`.
pub proof fn law_type_names(t: Type)
    ensures
        t matches Type::Primitive(p) ==> type_cname(t) == p@ && type_json_name(t) == (if p@
            == "bool"@ {
            "Bool"@
        } else {
            "Number"@
        }),
        t is String ==> type_cname(t) == "char *"@ && type_json_name(t) == "String"@,
        t is Array ==> type_cname(t) == "GArray *"@ && type_json_name(t) == "Item"@,
        t matches Type::Structure(s) ==> type_cname(t) == s.cname@ + " *"@ && type_json_name(t)
            == "Item"@,
{
}

} // verus!
