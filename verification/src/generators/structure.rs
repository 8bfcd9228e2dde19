//! C declarations, constructor parameters, initialisation and release code
//! for the fields of a structure.
use std::rc::Rc;
use vstd::prelude::*;

use crate::registry::{type_cname, Field, Type};

verus! {

/// `<ctype> <name>;`
pub open spec fn decl_field_text(field: Field) -> Seq<char> {
    type_cname(*field.field_type) + " "@ + field.name@ + ";"@
}

/// The declarations of all fields, one after the other.
pub open spec fn decl_fields_text(fields: Seq<Field>) -> Seq<char>
    decreases fields.len(),
{
    if fields.len() == 0 {
        Seq::empty()
    } else {
        decl_fields_text(fields.drop_last()) + decl_field_text(fields.last())
    }
}

/// The code that releases the value at `access`: nothing for a primitive,
/// `g_free` for a string, the release of every item (when items need one)
/// followed by `g_array_free` for an array, `free_<name>` for a structure.
pub open spec fn free_value_text(access: Seq<char>, t: Type) -> Seq<char>
    decreases t,
{
    match t {
        Type::Primitive(_) => Seq::empty(),
        Type::String => "g_free("@ + access + ");"@,
        Type::Array(item_type) => {
            let item_str = free_value_text(
                "g_array_index("@ + access + ", "@ + type_cname(*item_type) + ", i)"@,
                *item_type,
            );
            let loop_str = if item_str.len() > 0 {
                "for (guint i = 0; i < "@ + access + "->len; i++) { "@ + item_str + " }"@
            } else {
                Seq::empty()
            };
            loop_str + " g_array_free("@ + access + ", true);"@
        },
        Type::Structure(structure) => "free_"@ + structure.name@ + "("@ + access + ");"@,
    }
}

/// The release code of all fields, each reached as `<access><name>`.
pub open spec fn free_fields_text(access: Seq<char>, fields: Seq<Field>) -> Seq<char>
    decreases fields.len(),
{
    if fields.len() == 0 {
        Seq::empty()
    } else {
        free_fields_text(access, fields.drop_last()) + free_value_text(
            access + fields.last().name@,
            *fields.last().field_type,
        )
    }
}

/// `<access><name> = <name>;`, with the string duplicated by `g_strdup`.
pub open spec fn init_field_text(access: Seq<char>, field: Field) -> Seq<char> {
    match *field.field_type {
        Type::String => access + field.name@ + " = g_strdup("@ + field.name@ + ");"@,
        _ => access + field.name@ + " = "@ + field.name@ + ";"@,
    }
}

/// The initialisation of all fields, one after the other.
pub open spec fn init_fields_text(access: Seq<char>, fields: Seq<Field>) -> Seq<char>
    decreases fields.len(),
{
    if fields.len() == 0 {
        Seq::empty()
    } else {
        init_fields_text(access, fields.drop_last()) + init_field_text(access, fields.last())
    }
}

/// `<ctype> <name>`, with `const` in front for a string.
pub open spec fn decl_param_text(field: Field) -> Seq<char> {
    match *field.field_type {
        Type::String => "const "@ + type_cname(*field.field_type) + " "@ + field.name@,
        _ => type_cname(*field.field_type) + " "@ + field.name@,
    }
}

/// The parameters of all fields, separated by commas.
pub open spec fn decl_params_text(fields: Seq<Field>) -> Seq<char>
    decreases fields.len(),
{
    if fields.len() == 0 {
        Seq::empty()
    } else if fields.len() == 1 {
        decl_param_text(fields[0])
    } else {
        decl_params_text(fields.drop_last()) + ","@ + decl_param_text(fields.last())
    }
}

/// The constructor parameters of the fields, separated by commas.
pub fn decl_params(fields: &[Field]) -> (r: String)
    ensures
        r@ == decl_params_text(fields@),
{
    let mut buffer = String::new();
    let n = fields.len();
    for i in 0..n
        invariant
            n == fields@.len(),
            buffer@ == decl_params_text(fields@.take(i as int)),
    {
        assert(fields@.take(i + 1).drop_last() =~= fields@.take(i as int));
        if i > 0 {
            buffer.append(",");
        }
        let param = decl_param(&fields[i]);
        buffer.append(param.as_str());
    }
    assert(fields@.take(n as int) =~= fields@);
    buffer
}

/// The initialisation of the fields, each stored as `<access><name>`.
pub fn init_fields(access: &str, fields: &[Field]) -> (r: String)
    ensures
        r@ == init_fields_text(access@, fields@),
{
    let mut buffer = String::new();
    let n = fields.len();
    for i in 0..n
        invariant
            n == fields@.len(),
            buffer@ == init_fields_text(access@, fields@.take(i as int)),
    {
        assert(fields@.take(i + 1).drop_last() =~= fields@.take(i as int));
        let init = init_field(access, &fields[i]);
        buffer.append(init.as_str());
    }
    assert(fields@.take(n as int) =~= fields@);
    buffer
}

/// The release code of the fields, each reached as `<access><name>`.
pub fn free_fields(access: &str, fields: &[Field]) -> (r: String)
    ensures
        r@ == free_fields_text(access@, fields@),
{
    let mut buffer = String::new();
    let n = fields.len();
    for i in 0..n
        invariant
            n == fields@.len(),
            buffer@ == free_fields_text(access@, fields@.take(i as int)),
    {
        assert(fields@.take(i + 1).drop_last() =~= fields@.take(i as int));
        let field = &fields[i];
        let field_access = String::from_str(access).concat(field.name.as_str());
        let free = free_value(field_access.as_str(), &*field.field_type);
        buffer.append(free.as_str());
    }
    assert(fields@.take(n as int) =~= fields@);
    buffer
}

/// The declarations of the fields.
pub fn decl_fields(fields: &[Field]) -> (r: String)
    ensures
        r@ == decl_fields_text(fields@),
{
    let mut buffer = String::new();
    let n = fields.len();
    for i in 0..n
        invariant
            n == fields@.len(),
            buffer@ == decl_fields_text(fields@.take(i as int)),
    {
        assert(fields@.take(i + 1).drop_last() =~= fields@.take(i as int));
        let decl = decl_field(&fields[i]);
        buffer.append(decl.as_str());
    }
    assert(fields@.take(n as int) =~= fields@);
    buffer
}

fn decl_field(field: &Field) -> (r: String)
    ensures
        r@ == decl_field_text(*field),
{
    field.field_type.cname().concat(" ").concat(field.name.as_str()).concat(";")
}

fn free_value(access: &str, value_type: &Type) -> (r: String)
    ensures
        r@ == free_value_text(access@, *value_type),
    decreases *value_type,
{
    match value_type {
        Type::Primitive(_) => String::new(),
        Type::String => String::from_str("g_free(").concat(access).concat(");"),
        Type::Array(item_type) => {
            let item_cname = item_type.cname();
            let item_access = String::from_str("g_array_index(").concat(access).concat(
                ", ",
            ).concat(item_cname.as_str()).concat(", i)");
            let item_str = free_value(item_access.as_str(), &**item_type);
            let loop_str = if !item_str.as_str().is_empty() {
                String::from_str("for (guint i = 0; i < ").concat(access).concat(
                    "->len; i++) { ",
                ).concat(item_str.as_str()).concat(" }")
            } else {
                String::new()
            };
            loop_str.concat(" g_array_free(").concat(access).concat(", true);")
        },
        Type::Structure(structure) => String::from_str("free_").concat(
            structure.name.as_str(),
        ).concat("(").concat(access).concat(");"),
    }
}

fn init_field(access: &str, field: &Field) -> (r: String)
    ensures
        r@ == init_field_text(access@, *field),
{
    match &*field.field_type {
        Type::String => String::from_str(access).concat(field.name.as_str()).concat(
            " = g_strdup(",
        ).concat(field.name.as_str()).concat(");"),
        _ => String::from_str(access).concat(field.name.as_str()).concat(" = ").concat(
            field.name.as_str(),
        ).concat(";"),
    }
}

fn decl_param(field: &Field) -> (r: String)
    ensures
        r@ == decl_param_text(*field),
{
    match &*field.field_type {
        Type::String => String::from_str("const ").concat(
            field.field_type.cname().as_str(),
        ).concat(" ").concat(field.name.as_str()),
        _ => field.field_type.cname().concat(" ").concat(field.name.as_str()),
    }
}

/// Law: the declarations of two lists of fields, one after the other, are
/// the declarations of the joined list.
pub proof fn law_decl_fields_concat(first: Seq<Field>, second: Seq<Field>)
    ensures
        decl_fields_text(first + second) == decl_fields_text(first) + decl_fields_text(second),
    decreases second.len(),
{
    if second.len() == 0 {
        assert(first + second =~= first);
        assert(decl_fields_text(first) + decl_fields_text(second) =~= decl_fields_text(first));
    } else {
        law_decl_fields_concat(first, second.drop_last());
        assert((first + second).drop_last() =~= first + second.drop_last());
        assert(decl_fields_text(first + second) =~= decl_fields_text(first) + decl_fields_text(
            second,
        ));
    }
}

/// Law: the release code of two lists of fields, one after the other, is the
/// release code of the joined list.
pub proof fn law_free_fields_concat(access: Seq<char>, first: Seq<Field>, second: Seq<Field>)
    ensures
        free_fields_text(access, first + second) == free_fields_text(access, first)
            + free_fields_text(access, second),
    decreases second.len(),
{
    if second.len() == 0 {
        assert(first + second =~= first);
        assert(free_fields_text(access, first) + free_fields_text(access, second)
            =~= free_fields_text(access, first));
    } else {
        law_free_fields_concat(access, first, second.drop_last());
        assert((first + second).drop_last() =~= first + second.drop_last());
        assert(free_fields_text(access, first + second) =~= free_fields_text(access, first)
            + free_fields_text(access, second));
    }
}

/// Law: the initialisation of two lists of fields, one after the other, is
/// the initialisation of the joined list.
pub proof fn law_init_fields_concat(access: Seq<char>, first: Seq<Field>, second: Seq<Field>)
    ensures
        init_fields_text(access, first + second) == init_fields_text(access, first)
            + init_fields_text(access, second),
    decreases second.len(),
{
    if second.len() == 0 {
        assert(first + second =~= first);
        assert(init_fields_text(access, first) + init_fields_text(access, second)
            =~= init_fields_text(access, first));
    } else {
        law_init_fields_concat(access, first, second.drop_last());
        assert((first + second).drop_last() =~= first + second.drop_last());
        assert(init_fields_text(access, first + second) =~= init_fields_text(access, first)
            + init_fields_text(access, second));
    }
}

/// Law: the parameters of two non-empty lists of fields, joined by a comma,
/// are the parameters of the joined list.
pub proof fn law_decl_params_concat(first: Seq<Field>, second: Seq<Field>)
    requires
        first.len() > 0,
        second.len() > 0,
    ensures
        decl_params_text(first + second) == decl_params_text(first) + ","@ + decl_params_text(
            second,
        ),
    decreases second.len(),
{
    assert((first + second).drop_last() =~= first + second.drop_last());
    assert((first + second).last() == second.last());
    if second.len() == 1 {
        assert(second.drop_last() =~= Seq::<Field>::empty());
        assert(first + second.drop_last() =~= first);
        assert(second[0] == second.last());
    } else {
        law_decl_params_concat(first, second.drop_last());
        assert(decl_params_text(first + second) =~= decl_params_text(first) + ","@
            + decl_params_text(second));
    }
}

/// Law: a value needs no release code exactly when it is a primitive;
/// strings, structures and arrays always get some.
pub proof fn law_free_needed(access: Seq<char>, t: Type)
    ensures
        (free_value_text(access, t).len() == 0) <==> (t is Primitive),
{
    match t {
        Type::Array(_) => {
            reveal_strlit(" g_array_free(");
            reveal_strlit(", true);");
        },
        Type::String => {
            reveal_strlit("g_free(");
        },
        Type::Structure(st) => {
            reveal_strlit("free_");
        },
        Type::Primitive(_) => {},
    }
}

/// Law: releasing an array of `T` runs the release code of `T` on every
/// item `g_array_index(<array>, <C type of T>, i)` in a loop over the array
/// (when items need any) and then frees the array itself; in particular the
/// strings inside nested arrays are all passed to `g_free`.
pub proof fn law_free_array(access: Seq<char>, item_type: Type)
    ensures
        ({
            let item_access = "g_array_index("@ + access + ", "@ + type_cname(item_type) + ", i)"@;
            let item_str = free_value_text(item_access, item_type);
            let whole = free_value_text(access, Type::Array(Rc::new(item_type)));
            &&& item_type is Primitive ==> whole == " g_array_free("@ + access + ", true);"@
            &&& !(item_type is Primitive) ==> whole == "for (guint i = 0; i < "@ + access
                + "->len; i++) { "@ + item_str + " }"@ + " g_array_free("@ + access
                + ", true);"@
        }),
{
    let item_access = "g_array_index("@ + access + ", "@ + type_cname(item_type) + ", i)"@;
    law_free_needed(item_access, item_type);
    assert(Seq::<char>::empty() + " g_array_free("@ + access + ", true);"@ =~= " g_array_free("@
        + access + ", true);"@);
}

/// Law: every field is initialised from the constructor parameter of the
/// same name, whatever its type; a string is duplicated, anything else is
/// assigned.
pub proof fn law_init_every_field(access: Seq<char>, field: Field)
    ensures
        *field.field_type matches Type::String ==> init_field_text(access, field) == access + field.name@
            + " = g_strdup("@ + field.name@ + ");"@,
        !(*field.field_type matches Type::String) ==> init_field_text(access, field) == access
            + field.name@ + " = "@ + field.name@ + ";"@,
{
}

/// Law: the initialisation of a list of fields is, field after field, the
/// initialisation of each of them; so `n` fields give `n` assignments.
pub proof fn law_init_fields_each(access: Seq<char>, fields: Seq<Field>, i: int)
    requires
        0 <= i < fields.len(),
    ensures
        init_fields_text(access, fields) == init_fields_text(access, fields.take(i))
            + init_field_text(access, fields[i]) + init_fields_text(access, fields.skip(i + 1)),
{
    law_init_fields_concat(access, fields.take(i), fields.skip(i));
    assert(fields.take(i) + fields.skip(i) =~= fields);
    let one = fields.skip(i).take(1);
    law_init_fields_concat(access, one, fields.skip(i + 1));
    assert(one + fields.skip(i + 1) =~= fields.skip(i));
    assert(one.drop_last() =~= Seq::<Field>::empty());
    assert(one.last() == fields[i]);
    assert(init_fields_text(access, one.drop_last()) =~= Seq::<char>::empty());
    assert(init_fields_text(access, one) =~= init_field_text(access, fields[i]));
    assert(init_fields_text(access, fields) =~= init_fields_text(access, fields.take(i))
        + init_field_text(access, fields[i]) + init_fields_text(access, fields.skip(i + 1)));
}

/// Law: how each kind of value other than an array is released: a string
/// with `g_free`, a structure with its own `free_<name>`, a primitive not
/// at all.
pub proof fn law_free_cases(access: Seq<char>, t: Type)
    ensures
        t is Primitive ==> free_value_text(access, t) == Seq::<char>::empty(),
        t is String ==> free_value_text(access, t) == "g_free("@ + access + ");"@,
        t matches Type::Structure(s) ==> free_value_text(access, t) == "free_"@ + s.name@ + "("@
            + access + ");"@,
{
}

/// Law: every field is declared with its C type and its name, and becomes
/// a constructor parameter of the same C type, `const` exactly for strings.
pub proof fn law_decl_every_field(field: Field)
    ensures
        decl_field_text(field) == type_cname(*field.field_type) + " "@ + field.name@ + ";"@,
        *field.field_type matches Type::String ==> decl_param_text(field) == "const "@
            + "char *"@ + " "@ + field.name@,
        !(*field.field_type matches Type::String) ==> decl_param_text(field) == type_cname(
            *field.field_type,
        ) + " "@ + field.name@,
{
}

} // verus!
