//! cJSON code that writes the fields of a structure into a JSON object and
//! reads them back.
use std::rc::Rc;
use vstd::prelude::*;

use crate::registry::{type_cname, type_json_name, Field, Type};
use crate::text::str_eq;

verus! {

/// The code that creates a cJSON item `name` for the value at `access`.
pub open spec fn create_item_text(name: Seq<char>, access: Seq<char>, t: Type) -> Seq<char>
    decreases t,
{
    match t {
        Type::Array(item_type) => {
            let item_str = create_item_text(
                "item"@,
                "g_array_index("@ + access + ", "@ + type_cname(*item_type) + ", i)"@,
                *item_type,
            );
            "cJSON *"@ + name + " = cJSON_CreateArray(); for (guint i = 0; i < "@ + access
                + "->len; i++) { "@ + item_str + " cJSON_AddItemToArray("@ + name
                + ", item); }"@
        },
        Type::Structure(structure) => "cJSON *"@ + name + " = "@ + structure.name@
            + "_to_json("@ + access + ");"@,
        _ => "cJSON *"@ + name + " = cJSON_Create"@ + type_json_name(t) + "("@ + access
            + ");"@,
    }
}

/// The code that adds the value at `access` to `json` under the key `name`;
/// an array is first built as the item `name`.
pub open spec fn add_item_text(name: Seq<char>, access: Seq<char>, t: Type) -> Seq<char> {
    let before = match t {
        Type::Array(_) => create_item_text(name, access, t),
        _ => Seq::empty(),
    };
    let value = match t {
        Type::Array(_) => name,
        Type::Structure(structure) => structure.name@ + "_to_json("@ + access + ")"@,
        _ => access,
    };
    before + "cJSON_Add"@ + type_json_name(t) + "ToObject(json, \""@ + name + "\", "@ + value
        + ");"@
}

/// The code that adds all fields, each read from `<access><name>`.
pub open spec fn fields_to_json_text(access: Seq<char>, fields: Seq<Field>) -> Seq<char>
    decreases fields.len(),
{
    if fields.len() == 0 {
        Seq::empty()
    } else {
        let field = fields.last();
        fields_to_json_text(access, fields.drop_last()) + add_item_text(
            field.name@,
            access + field.name@,
            *field.field_type,
        )
    }
}

/// The code that fetches the item `name` of `json` as `<name>_json`.
pub open spec fn get_item_text(name: Seq<char>) -> Seq<char> {
    "cJSON *"@ + name + "_json = cJSON_GetObjectItemCaseSensitive(json, \""@ + name + "\");"@
}

/// The test that `<name>_json` holds a value of the type's cJSON family.
pub open spec fn check_type_text(name: Seq<char>, t: Type) -> Seq<char> {
    "cJSON_Is"@ + type_json_name(t) + "("@ + name + "_json)"@
}

/// The code that stores the value of `<name>_json` at `access`.
pub open spec fn extract_value_text(name: Seq<char>, access: Seq<char>, t: Type) -> Seq<char>
    decreases t,
{
    match t {
        Type::Primitive(prim) => {
            let value = if prim@ == "bool"@ {
                "cJSON_IsTrue("@ + name + "_json)"@
            } else if prim@ == "double"@ || prim@ == "float"@ {
                name + "_json->valuedouble"@
            } else {
                name + "_json->valueint"@
            };
            access + " = "@ + value + ";"@
        },
        Type::String => access + " = g_strdup("@ + name + "_json->valuestring);"@,
        Type::Array(item_type) => {
            let item_name = name + "_item"@;
            let item_str = type_cname(*item_type) + " "@ + extract_value_text(
                item_name,
                item_name,
                *item_type,
            );
            access + " = g_array_new(false, false, sizeof("@ + type_cname(*item_type)
                + ")); cJSON *"@ + item_name + "_json = NULL; cJSON_ArrayForEach("@ + item_name
                + "_json, "@ + name + "_json) { "@ + item_str + " g_array_append_val("@ + access
                + ", "@ + item_name + "); }"@
        },
        Type::Structure(structure) => access + " = "@ + structure.name@ + "_from_json("@ + name
            + "_json);"@,
    }
}

/// The declaration of a variable `name` holding the value of `<name>_json`.
pub open spec fn declare_value_text(name: Seq<char>, t: Type) -> Seq<char> {
    type_cname(t) + " "@ + extract_value_text(name, name, t)
}

/// The fetches of all fields' items.
pub open spec fn get_items_text(fields: Seq<Field>) -> Seq<char>
    decreases fields.len(),
{
    if fields.len() == 0 {
        Seq::empty()
    } else {
        get_items_text(fields.drop_last()) + get_item_text(fields.last().name@)
    }
}

/// The extraction of all fields, each stored at `<access><name>`.
pub open spec fn extract_values_text(access: Seq<char>, fields: Seq<Field>) -> Seq<char>
    decreases fields.len(),
{
    if fields.len() == 0 {
        Seq::empty()
    } else {
        let field = fields.last();
        extract_values_text(access, fields.drop_last()) + extract_value_text(
            field.name@,
            access + field.name@,
            *field.field_type,
        )
    }
}

/// All fetches first, then all extractions.
pub open spec fn fields_from_json_text(access: Seq<char>, fields: Seq<Field>) -> Seq<char> {
    get_items_text(fields) + extract_values_text(access, fields)
}

/// The code that writes every field, read from `<access><name>`, into the
/// cJSON object `json`.
pub fn fields_to_json(access: &str, fields: &[Field]) -> (r: String)
    ensures
        r@ == fields_to_json_text(access@, fields@),
{
    let mut buffer = String::new();
    let n = fields.len();
    for i in 0..n
        invariant
            n == fields@.len(),
            buffer@ == fields_to_json_text(access@, fields@.take(i as int)),
    {
        assert(fields@.take(i + 1).drop_last() =~= fields@.take(i as int));
        let field = &fields[i];
        let field_access = String::from_str(access).concat(field.name.as_str());
        let item = add_item(field.name.as_str(), field_access.as_str(), &*field.field_type);
        buffer.append(item.as_str());
    }
    assert(fields@.take(n as int) =~= fields@);
    buffer
}

fn add_item(name: &str, access: &str, item_type: &Type) -> (r: String)
    ensures
        r@ == add_item_text(name@, access@, *item_type),
{
    let mut buffer = String::new();
    let value = match item_type {
        Type::Array(_) => {
            let created = create_item(name, access, item_type);
            buffer.append(created.as_str());
            String::from_str(name)
        },
        Type::Structure(structure) => structure.name.clone().concat("_to_json(").concat(
            access,
        ).concat(")"),
        _ => String::from_str(access),
    };
    buffer.append("cJSON_Add");
    buffer.append(item_type.json_name().as_str());
    buffer.append("ToObject(json, \"");
    buffer.append(name);
    buffer.append("\", ");
    buffer.append(value.as_str());
    buffer.append(");");
    buffer
}

fn create_item(name: &str, access: &str, item_type: &Type) -> (r: String)
    ensures
        r@ == create_item_text(name@, access@, *item_type),
    decreases *item_type,
{
    match item_type {
        Type::Array(inner) => {
            let inner_access = String::from_str("g_array_index(").concat(access).concat(
                ", ",
            ).concat(inner.cname().as_str()).concat(", i)");
            let item_str = create_item("item", inner_access.as_str(), &**inner);
            let mut buffer = String::from_str("cJSON *");
            buffer.append(name);
            buffer.append(" = cJSON_CreateArray(); for (guint i = 0; i < ");
            buffer.append(access);
            buffer.append("->len; i++) { ");
            buffer.append(item_str.as_str());
            buffer.append(" cJSON_AddItemToArray(");
            buffer.append(name);
            buffer.append(", item); }");
            buffer
        },
        Type::Structure(structure) => {
            let mut buffer = String::from_str("cJSON *");
            buffer.append(name);
            buffer.append(" = ");
            buffer.append(structure.name.as_str());
            buffer.append("_to_json(");
            buffer.append(access);
            buffer.append(");");
            buffer
        },
        _ => {
            let mut buffer = String::from_str("cJSON *");
            buffer.append(name);
            buffer.append(" = cJSON_Create");
            buffer.append(item_type.json_name().as_str());
            buffer.append("(");
            buffer.append(access);
            buffer.append(");");
            buffer
        },
    }
}

/// The code that reads every field from the cJSON object `json` and stores
/// it at `<access><name>`: first all items are fetched, then all values are
/// extracted.
pub fn fields_from_json(access: &str, fields: &[Field]) -> (r: String)
    ensures
        r@ == fields_from_json_text(access@, fields@),
{
    let mut get_buffer = String::new();
    let mut extract_buffer = String::new();
    let n = fields.len();
    for i in 0..n
        invariant
            n == fields@.len(),
            get_buffer@ == get_items_text(fields@.take(i as int)),
            extract_buffer@ == extract_values_text(access@, fields@.take(i as int)),
    {
        assert(fields@.take(i + 1).drop_last() =~= fields@.take(i as int));
        let field = &fields[i];
        let item = get_item(field.name.as_str());
        get_buffer.append(item.as_str());
        let field_access = String::from_str(access).concat(field.name.as_str());
        let value = extract_value(field.name.as_str(), field_access.as_str(), &*field.field_type);
        extract_buffer.append(value.as_str());
    }
    assert(fields@.take(n as int) =~= fields@);
    get_buffer.concat(extract_buffer.as_str())
}

fn get_item(name: &str) -> (r: String)
    ensures
        r@ == get_item_text(name@),
{
    let mut buffer = String::from_str("cJSON *");
    buffer.append(name);
    buffer.append("_json = cJSON_GetObjectItemCaseSensitive(json, \"");
    buffer.append(name);
    buffer.append("\");");
    buffer
}

#[allow(dead_code)]
fn check_type(name: &str, value_type: &Type) -> (r: String)
    ensures
        r@ == check_type_text(name@, *value_type),
{
    let mut buffer = String::from_str("cJSON_Is");
    buffer.append(value_type.json_name().as_str());
    buffer.append("(");
    buffer.append(name);
    buffer.append("_json)");
    buffer
}

fn declare_value(name: &str, value_type: &Type) -> (r: String)
    ensures
        r@ == declare_value_text(name@, *value_type),
    decreases *value_type, 1nat,
{
    let value = extract_value(name, name, value_type);
    value_type.cname().concat(" ").concat(value.as_str())
}

fn extract_value(name: &str, access: &str, value_type: &Type) -> (r: String)
    ensures
        r@ == extract_value_text(name@, access@, *value_type),
    decreases *value_type, 0nat,
{
    match value_type {
        Type::Primitive(prim) => {
            let mut value = String::new();
            if str_eq(prim.as_str(), "bool") {
                value.append("cJSON_IsTrue(");
                value.append(name);
                value.append("_json)");
            } else if str_eq(prim.as_str(), "double") || str_eq(prim.as_str(), "float") {
                value.append(name);
                value.append("_json->valuedouble");
            } else {
                value.append(name);
                value.append("_json->valueint");
            }
            String::from_str(access).concat(" = ").concat(value.as_str()).concat(";")
        },
        Type::String => String::from_str(access).concat(" = g_strdup(").concat(name).concat(
            "_json->valuestring);",
        ),
        Type::Array(item_type) => {
            let item_name = String::from_str(name).concat("_item");
            let item_str = declare_value(item_name.as_str(), &**item_type);
            let item_cname = item_type.cname();
            let mut buffer = String::from_str(access);
            buffer.append(" = g_array_new(false, false, sizeof(");
            buffer.append(item_cname.as_str());
            buffer.append(")); cJSON *");
            buffer.append(item_name.as_str());
            buffer.append("_json = NULL; cJSON_ArrayForEach(");
            buffer.append(item_name.as_str());
            buffer.append("_json, ");
            buffer.append(name);
            buffer.append("_json) { ");
            buffer.append(item_str.as_str());
            buffer.append(" g_array_append_val(");
            buffer.append(access);
            buffer.append(", ");
            buffer.append(item_name.as_str());
            buffer.append("); }");
            buffer
        },
        Type::Structure(structure) => {
            let mut buffer = String::from_str(access);
            buffer.append(" = ");
            buffer.append(structure.name.as_str());
            buffer.append("_from_json(");
            buffer.append(name);
            buffer.append("_json);");
            buffer
        },
    }
}

/// Law: the code that writes two lists of fields, one after the other, is
/// the code that writes the joined list.
pub proof fn law_fields_to_json_concat(access: Seq<char>, first: Seq<Field>, second: Seq<Field>)
    ensures
        fields_to_json_text(access, first + second) == fields_to_json_text(access, first)
            + fields_to_json_text(access, second),
    decreases second.len(),
{
    if second.len() == 0 {
        assert(first + second =~= first);
        assert(fields_to_json_text(access, first) + fields_to_json_text(access, second)
            =~= fields_to_json_text(access, first));
    } else {
        law_fields_to_json_concat(access, first, second.drop_last());
        assert((first + second).drop_last() =~= first + second.drop_last());
        assert(fields_to_json_text(access, first + second) =~= fields_to_json_text(access, first)
            + fields_to_json_text(access, second));
    }
}

proof fn lemma_get_items_concat(first: Seq<Field>, second: Seq<Field>)
    ensures
        get_items_text(first + second) == get_items_text(first) + get_items_text(second),
    decreases second.len(),
{
    if second.len() == 0 {
        assert(first + second =~= first);
        assert(get_items_text(first) + get_items_text(second) =~= get_items_text(first));
    } else {
        lemma_get_items_concat(first, second.drop_last());
        assert((first + second).drop_last() =~= first + second.drop_last());
        assert(get_items_text(first + second) =~= get_items_text(first) + get_items_text(second));
    }
}

proof fn lemma_extract_values_concat(access: Seq<char>, first: Seq<Field>, second: Seq<Field>)
    ensures
        extract_values_text(access, first + second) == extract_values_text(access, first)
            + extract_values_text(access, second),
    decreases second.len(),
{
    if second.len() == 0 {
        assert(first + second =~= first);
        assert(extract_values_text(access, first) + extract_values_text(access, second)
            =~= extract_values_text(access, first));
    } else {
        lemma_extract_values_concat(access, first, second.drop_last());
        assert((first + second).drop_last() =~= first + second.drop_last());
        assert(extract_values_text(access, first + second) =~= extract_values_text(access, first)
            + extract_values_text(access, second));
    }
}

/// Law: the code that reads a joined list of fields fetches the items of
/// both lists first, and then extracts the values of both lists.
pub proof fn law_fields_from_json_concat(
    access: Seq<char>,
    first: Seq<Field>,
    second: Seq<Field>,
)
    ensures
        fields_from_json_text(access, first + second) == get_items_text(first) + get_items_text(
            second,
        ) + extract_values_text(access, first) + extract_values_text(access, second),
{
    lemma_get_items_concat(first, second);
    lemma_extract_values_concat(access, first, second);
    assert(fields_from_json_text(access, first + second) =~= get_items_text(first)
        + get_items_text(second) + extract_values_text(access, first) + extract_values_text(
        access,
        second,
    ));
}

/// Law: an item of a primitive or string type is created with the cJSON
/// family of its type (`Bool` for `bool`, `Number` for any other primitive,
/// `String` for a string), the same family under which a field of that type
/// is added to the object, whatever the item's name and where its value is
/// read from.
pub proof fn law_item_family(name: Seq<char>, access: Seq<char>, t: Type)
    requires
        t is Primitive || t is String,
    ensures
        ({
            let family = match t {
                Type::Primitive(p) => if p@ == "bool"@ {
                    "Bool"@
                } else {
                    "Number"@
                },
                _ => "String"@,
            };
            &&& create_item_text(name, access, t) == "cJSON *"@ + name + " = cJSON_Create"@
                + family + "("@ + access + ");"@
            &&& add_item_text(name, access, t) == "cJSON_Add"@ + family + "ToObject(json, \""@
                + name + "\", "@ + access + ");"@
        }),
{
    assert(Seq::<char>::empty() + "cJSON_Add"@ =~= "cJSON_Add"@);
}

/// Law: a `bool` is read with `cJSON_IsTrue`, wherever it is stored and
/// whatever its item is called (a field, or an item of an array, where the
/// name and the place are the same).
pub proof fn law_extract_bool(name: Seq<char>, access: Seq<char>, t: Type)
    requires
        t matches Type::Primitive(p) && p@ == "bool"@,
    ensures
        extract_value_text(name, access, t) == access + " = "@ + "cJSON_IsTrue("@ + name
            + "_json)"@ + ";"@,
{
}

/// Law: reading a value that is not an array depends on the place it is
/// stored in only through that place written in front: the code for
/// `access` is `access` followed by the code for an empty place.
pub proof fn law_extract_place_independent(name: Seq<char>, access: Seq<char>, t: Type)
    requires
        !(t is Array),
    ensures
        extract_value_text(name, access, t) == access + extract_value_text(
            name,
            Seq::empty(),
            t,
        ),
{
    assert(Seq::<char>::empty() + " = "@ =~= " = "@);
    match t {
        Type::Primitive(p) => {
            let value = if p@ == "bool"@ {
                "cJSON_IsTrue("@ + name + "_json)"@
            } else if p@ == "double"@ || p@ == "float"@ {
                name + "_json->valuedouble"@
            } else {
                name + "_json->valueint"@
            };
            assert(Seq::<char>::empty() + " = "@ + value + ";"@ =~= " = "@ + value + ";"@);
            assert(access + " = "@ + value + ";"@ =~= access + (" = "@ + value + ";"@));
        },
        Type::String => {
            assert(Seq::<char>::empty() + " = g_strdup("@ + name + "_json->valuestring);"@
                =~= " = g_strdup("@ + name + "_json->valuestring);"@);
            assert(access + " = g_strdup("@ + name + "_json->valuestring);"@ =~= access + (
            " = g_strdup("@ + name + "_json->valuestring);"@));
        },
        Type::Structure(st) => {
            assert(Seq::<char>::empty() + " = "@ + st.name@ + "_from_json("@ + name + "_json);"@
                =~= " = "@ + st.name@ + "_from_json("@ + name + "_json);"@);
            assert(access + " = "@ + st.name@ + "_from_json("@ + name + "_json);"@ =~= access + (
            " = "@ + st.name@ + "_from_json("@ + name + "_json);"@));
        },
        Type::Array(_) => {},
    }
}

/// Law: each item of an array is declared as a variable of the item's C
/// type and read with the same code as a value of the item's type stored
/// under the item's own name, then appended to the array.
pub proof fn law_extract_array_items(name: Seq<char>, access: Seq<char>, item_type: Type)
    ensures
        ({
            let item = name + "_item"@;
            extract_value_text(name, access, Type::Array(Rc::new(item_type))) == access
                + " = g_array_new(false, false, sizeof("@ + type_cname(item_type)
                + ")); cJSON *"@ + item + "_json = NULL; cJSON_ArrayForEach("@ + item + "_json, "@
                + name + "_json) { "@ + declare_value_text(item, item_type)
                + " g_array_append_val("@ + access + ", "@ + item + "); }"@
        }),
{
}

/// Law: how each kind of value is turned into a cJSON item: a structure
/// through its own `<name>_to_json`, an array as a new cJSON array filled,
/// item by item, with the item built the same way from
/// `g_array_index(<array>, <C type of the item>, i)`.
pub proof fn law_create_item_cases(name: Seq<char>, access: Seq<char>, t: Type)
    ensures
        t matches Type::Structure(s) ==> create_item_text(name, access, t) == "cJSON *"@ + name
            + " = "@ + s.name@ + "_to_json("@ + access + ");"@,
        t matches Type::Array(item_type) ==> create_item_text(name, access, t) == "cJSON *"@
            + name + " = cJSON_CreateArray(); for (guint i = 0; i < "@ + access
            + "->len; i++) { "@ + create_item_text(
            "item"@,
            "g_array_index("@ + access + ", "@ + type_cname(*item_type) + ", i)"@,
            *item_type,
        ) + " cJSON_AddItemToArray("@ + name + ", item); }"@,
{
}

/// Law: arrays and structures are added to the object as items: an array
/// is first built under the field's name and added by that name, a
/// structure is added as what its `<name>_to_json` returns.
pub proof fn law_add_item_cases(name: Seq<char>, access: Seq<char>, t: Type)
    ensures
        t is Array ==> add_item_text(name, access, t) == create_item_text(name, access, t)
            + "cJSON_Add"@ + "Item"@ + "ToObject(json, \""@ + name + "\", "@ + name + ");"@,
        t matches Type::Structure(s) ==> add_item_text(name, access, t) == "cJSON_Add"@
            + "Item"@ + "ToObject(json, \""@ + name + "\", "@ + s.name@ + "_to_json("@ + access
            + ")"@ + ");"@,
{
    assert(Seq::<char>::empty() + "cJSON_Add"@ =~= "cJSON_Add"@);
}

/// Law: how each kind of value other than an array is read: a string is
/// duplicated from `valuestring`, `double` and `float` are read from
/// `valuedouble`, other primitives but `bool` from `valueint`, and a
/// structure through its own `<name>_from_json`.
pub proof fn law_extract_cases(name: Seq<char>, access: Seq<char>, t: Type)
    ensures
        t is String ==> extract_value_text(name, access, t) == access + " = g_strdup("@ + name
            + "_json->valuestring);"@,
        t matches Type::Primitive(p) && (p@ == "double"@ || p@ == "float"@) ==> extract_value_text(
            name,
            access,
            t,
        ) == access + " = "@ + name + "_json->valuedouble"@ + ";"@,
        t matches Type::Primitive(p) && !(p@ == "double"@ || p@ == "float"@ || p@ == "bool"@)
            ==> extract_value_text(name, access, t) == access + " = "@ + name + "_json->valueint"@
            + ";"@,
        t matches Type::Structure(s) ==> extract_value_text(name, access, t) == access + " = "@
            + s.name@ + "_from_json("@ + name + "_json);"@,
{
    reveal_strlit("bool");
    reveal_strlit("double");
    reveal_strlit("float");
    assert("bool"@.len() == 4 && "double"@.len() == 6 && "float"@.len() == 5);
}

} // verus!
