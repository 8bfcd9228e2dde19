use std::rc::Rc;

use protocol_codegen::generators::json::{fields_from_json, fields_to_json};
use protocol_codegen::generators::messages::{MessageContext, MessageType, MessagesContext};
use protocol_codegen::generators::models::{ModelContext, ModelsContext};
use protocol_codegen::generators::structure::{decl_fields, decl_params, free_fields, init_fields};
use protocol_codegen::protocol;
use protocol_codegen::registry::{Field, Structure, Type, TypeRegistry};

const DECL_FIELDS: &str = "int count;bool flag;double ratio;float speed;char * label;t_point * origin;GArray * ids;GArray * names;GArray * grid;GArray * points;";
const DECL_PARAMS: &str = "int count,bool flag,double ratio,float speed,const char * label,t_point * origin,GArray * ids,GArray * names,GArray * grid,GArray * points";
const INIT_FIELDS: &str = "request->data.move.count = count;request->data.move.flag = flag;request->data.move.ratio = ratio;request->data.move.speed = speed;request->data.move.label = g_strdup(label);request->data.move.origin = origin;request->data.move.ids = ids;request->data.move.names = names;request->data.move.grid = grid;request->data.move.points = points;";
const FREE_FIELDS: &str = "g_free(data->move.label);free_point(data->move.origin); g_array_free(data->move.ids, true);for (guint i = 0; i < data->move.names->len; i++) { g_free(g_array_index(data->move.names, char *, i)); } g_array_free(data->move.names, true);for (guint i = 0; i < data->move.grid->len; i++) {  g_array_free(g_array_index(data->move.grid, GArray *, i), true); } g_array_free(data->move.grid, true);for (guint i = 0; i < data->move.points->len; i++) { free_point(g_array_index(data->move.points, t_point *, i)); } g_array_free(data->move.points, true);";
const TO_JSON: &str = "cJSON_AddNumberToObject(json, \"count\", model->count);cJSON_AddBoolToObject(json, \"flag\", model->flag);cJSON_AddNumberToObject(json, \"ratio\", model->ratio);cJSON_AddNumberToObject(json, \"speed\", model->speed);cJSON_AddStringToObject(json, \"label\", model->label);cJSON_AddItemToObject(json, \"origin\", point_to_json(model->origin));cJSON *ids = cJSON_CreateArray(); for (guint i = 0; i < model->ids->len; i++) { cJSON *item = cJSON_CreateNumber(g_array_index(model->ids, int, i)); cJSON_AddItemToArray(ids, item); }cJSON_AddItemToObject(json, \"ids\", ids);cJSON *names = cJSON_CreateArray(); for (guint i = 0; i < model->names->len; i++) { cJSON *item = cJSON_CreateString(g_array_index(model->names, char *, i)); cJSON_AddItemToArray(names, item); }cJSON_AddItemToObject(json, \"names\", names);cJSON *grid = cJSON_CreateArray(); for (guint i = 0; i < model->grid->len; i++) { cJSON *item = cJSON_CreateArray(); for (guint i = 0; i < g_array_index(model->grid, GArray *, i)->len; i++) { cJSON *item = cJSON_CreateNumber(g_array_index(g_array_index(model->grid, GArray *, i), double, i)); cJSON_AddItemToArray(item, item); } cJSON_AddItemToArray(grid, item); }cJSON_AddItemToObject(json, \"grid\", grid);cJSON *points = cJSON_CreateArray(); for (guint i = 0; i < model->points->len; i++) { cJSON *item = point_to_json(g_array_index(model->points, t_point *, i)); cJSON_AddItemToArray(points, item); }cJSON_AddItemToObject(json, \"points\", points);";
const FROM_JSON: &str = "cJSON *count_json = cJSON_GetObjectItemCaseSensitive(json, \"count\");cJSON *flag_json = cJSON_GetObjectItemCaseSensitive(json, \"flag\");cJSON *ratio_json = cJSON_GetObjectItemCaseSensitive(json, \"ratio\");cJSON *speed_json = cJSON_GetObjectItemCaseSensitive(json, \"speed\");cJSON *label_json = cJSON_GetObjectItemCaseSensitive(json, \"label\");cJSON *origin_json = cJSON_GetObjectItemCaseSensitive(json, \"origin\");cJSON *ids_json = cJSON_GetObjectItemCaseSensitive(json, \"ids\");cJSON *names_json = cJSON_GetObjectItemCaseSensitive(json, \"names\");cJSON *grid_json = cJSON_GetObjectItemCaseSensitive(json, \"grid\");cJSON *points_json = cJSON_GetObjectItemCaseSensitive(json, \"points\");model->count = count_json->valueint;model->flag = cJSON_IsTrue(flag_json);model->ratio = ratio_json->valuedouble;model->speed = speed_json->valuedouble;model->label = g_strdup(label_json->valuestring);model->origin = point_from_json(origin_json);model->ids = g_array_new(false, false, sizeof(int)); cJSON *ids_item_json = NULL; cJSON_ArrayForEach(ids_item_json, ids_json) { int ids_item = ids_item_json->valueint; g_array_append_val(model->ids, ids_item); }model->names = g_array_new(false, false, sizeof(char *)); cJSON *names_item_json = NULL; cJSON_ArrayForEach(names_item_json, names_json) { char * names_item = g_strdup(names_item_json->valuestring); g_array_append_val(model->names, names_item); }model->grid = g_array_new(false, false, sizeof(GArray *)); cJSON *grid_item_json = NULL; cJSON_ArrayForEach(grid_item_json, grid_json) { GArray * grid_item = g_array_new(false, false, sizeof(double)); cJSON *grid_item_item_json = NULL; cJSON_ArrayForEach(grid_item_item_json, grid_item_json) { double grid_item_item = grid_item_item_json->valuedouble; g_array_append_val(grid_item, grid_item_item); } g_array_append_val(model->grid, grid_item); }model->points = g_array_new(false, false, sizeof(t_point *)); cJSON *points_item_json = NULL; cJSON_ArrayForEach(points_item_json, points_json) { t_point * points_item = point_from_json(points_item_json); g_array_append_val(model->points, points_item); }";
const MSG_FREE: &str = "";
const MSG_TO: &str = "cJSON_AddNumberToObject(json, \"count\", data->move.count);cJSON_AddBoolToObject(json, \"flag\", data->move.flag);cJSON_AddNumberToObject(json, \"ratio\", data->move.ratio);";
const MSG_FROM: &str = "cJSON *count_json = cJSON_GetObjectItemCaseSensitive(json, \"count\");cJSON *flag_json = cJSON_GetObjectItemCaseSensitive(json, \"flag\");cJSON *ratio_json = cJSON_GetObjectItemCaseSensitive(json, \"ratio\");data->move.count = count_json->valueint;data->move.flag = cJSON_IsTrue(flag_json);data->move.ratio = ratio_json->valuedouble;";
const MSG_INIT: &str = "request->data.move.count = count;request->data.move.flag = flag;request->data.move.ratio = ratio;";
const MODEL_FREE: &str = "g_free(point->tag);";
const MODEL_TO: &str = "cJSON_AddNumberToObject(json, \"x\", point->x);cJSON_AddStringToObject(json, \"tag\", point->tag);";
const MODEL_FROM: &str = "cJSON *x_json = cJSON_GetObjectItemCaseSensitive(json, \"x\");cJSON *tag_json = cJSON_GetObjectItemCaseSensitive(json, \"tag\");point->x = x_json->valueint;point->tag = g_strdup(tag_json->valuestring);";

fn field(name: &str, field_type: &str) -> protocol::Field {
    protocol::Field { name: name.to_string(), field_type: field_type.to_string() }
}

fn registry_with_point() -> TypeRegistry {
    let mut registry = TypeRegistry::default();
    let point = protocol::Type {
        name: "point".to_string(),
        kind: "structure".to_string(),
        cname: "t_point".to_string(),
    };
    registry.register_declared_type(&point).unwrap();
    registry
}

fn sample_fields() -> Vec<Field> {
    let mut registry = registry_with_point();
    let object = protocol::Object {
        name: "sample".to_string(),
        fields: vec![
            field("count", "int"),
            field("flag", "bool"),
            field("ratio", "double"),
            field("speed", "float"),
            field("label", "string"),
            field("origin", "point"),
            field("ids", "int[]"),
            field("names", "string[]"),
            field("grid", "double[][]"),
            field("points", "point[]"),
        ],
    };
    registry.convert(&object).fields
}

#[test]
fn decl_fields_covers_every_kind_of_type() {
    assert_eq!(decl_fields(&sample_fields()), DECL_FIELDS);
}

#[test]
fn decl_params_are_comma_separated_with_const_strings() {
    assert_eq!(decl_params(&sample_fields()), DECL_PARAMS);
}

#[test]
fn decl_params_of_no_field_is_empty() {
    assert_eq!(decl_params(&[]), "");
}

#[test]
fn init_fields_duplicates_strings() {
    assert_eq!(init_fields("request->data.move.", &sample_fields()), INIT_FIELDS);
}

#[test]
fn free_fields_releases_strings_structures_and_arrays() {
    assert_eq!(free_fields("data->move.", &sample_fields()), FREE_FIELDS);
}

#[test]
fn free_fields_of_primitives_is_empty() {
    let fields = sample_fields();
    assert_eq!(free_fields("data->move.", &fields[..4]), "");
}

#[test]
fn fields_to_json_covers_every_kind_of_type() {
    assert_eq!(fields_to_json("model->", &sample_fields()), TO_JSON);
}

#[test]
fn fields_from_json_fetches_then_extracts() {
    assert_eq!(fields_from_json("model->", &sample_fields()), FROM_JSON);
}

#[test]
fn generators_of_no_field_are_empty() {
    assert_eq!(decl_fields(&[]), "");
    assert_eq!(init_fields("a.", &[]), "");
    assert_eq!(free_fields("a.", &[]), "");
    assert_eq!(fields_to_json("a.", &[]), "");
    assert_eq!(fields_from_json("a.", &[]), "");
}

#[test]
fn single_string_field_outputs() {
    let fields = vec![Field { name: "tag".to_string(), field_type: Rc::new(Type::String) }];
    assert_eq!(decl_fields(&fields), "char * tag;");
    assert_eq!(decl_params(&fields), "const char * tag");
    assert_eq!(init_fields("p->", &fields), "p->tag = g_strdup(tag);");
    assert_eq!(free_fields("p->", &fields), "g_free(p->tag);");
    assert_eq!(fields_to_json("p->", &fields), "cJSON_AddStringToObject(json, \"tag\", p->tag);");
    assert_eq!(
        fields_from_json("p->", &fields),
        "cJSON *tag_json = cJSON_GetObjectItemCaseSensitive(json, \"tag\");p->tag = g_strdup(tag_json->valuestring);"
    );
}

#[test]
fn message_context_of_a_request() {
    let fields = sample_fields();
    let structure = Structure {
        name: "rq_move".to_string(),
        cname: "t_rq_move".to_string(),
        fields: fields[..3].to_vec(),
    };
    let message_type = MessageType { name: "request".to_string(), prefix: "rq".to_string() };
    let context = MessageContext::new(&message_type, &structure);
    assert_eq!(context.message_type, message_type);
    assert_eq!(context.name, "rq_move");
    assert_eq!(context.cname, "t_rq_move");
    assert_eq!(context.stripped_name, "move");
    assert_eq!(context.fields, "int count;bool flag;double ratio;");
    assert_eq!(context.constructor_params, "int count,bool flag,double ratio");
    assert_eq!(context.fields_init, MSG_INIT);
    assert_eq!(context.fields_free, MSG_FREE);
    assert_eq!(context.fields_to_json, MSG_TO);
    assert_eq!(context.fields_from_json, MSG_FROM);
}

#[test]
fn message_context_strips_every_leading_prefix() {
    let structure = Structure {
        name: "up_up_state".to_string(),
        cname: "t_up_up_state".to_string(),
        fields: vec![],
    };
    let message_type = MessageType { name: "update".to_string(), prefix: "up".to_string() };
    let context = MessageContext::new(&message_type, &structure);
    assert_eq!(context.stripped_name, "state");
    assert_eq!(context.fields, "");
    assert_eq!(context.constructor_params, "");
}

#[test]
fn message_context_keeps_a_name_without_the_prefix() {
    let structure = Structure { name: "ping".to_string(), cname: "t_ping".to_string(), fields: vec![] };
    let message_type = MessageType { name: "request".to_string(), prefix: "rq".to_string() };
    assert_eq!(MessageContext::new(&message_type, &structure).stripped_name, "ping");
}

#[test]
fn messages_context_keeps_order() {
    let message_type = MessageType { name: "request".to_string(), prefix: "rq".to_string() };
    let messages = vec![
        Structure { name: "rq_a".to_string(), cname: "t_rq_a".to_string(), fields: vec![] },
        Structure { name: "rq_b".to_string(), cname: "t_rq_b".to_string(), fields: vec![] },
    ];
    let context = MessagesContext::new(&messages, &message_type);
    assert_eq!(context.message_type, message_type);
    assert_eq!(context.messages.len(), 2);
    assert_eq!(context.messages[0].stripped_name, "a");
    assert_eq!(context.messages[1].stripped_name, "b");
}

#[test]
fn model_context_reaches_fields_through_the_pointer() {
    let structure = Structure {
        name: "point".to_string(),
        cname: "t_point".to_string(),
        fields: vec![
            Field { name: "x".to_string(), field_type: Rc::new(Type::Primitive("int".to_string())) },
            Field { name: "tag".to_string(), field_type: Rc::new(Type::String) },
        ],
    };
    let context = ModelContext::from_structure(&structure);
    assert_eq!(context.name, "point");
    assert_eq!(context.cname, "t_point");
    assert_eq!(context.fields, "int x;char * tag;");
    assert_eq!(context.fields_free, MODEL_FREE);
    assert_eq!(context.fields_to_json, MODEL_TO);
    assert_eq!(context.fields_from_json, MODEL_FROM);
    let all = ModelsContext::new(&[structure]);
    assert_eq!(all.models, vec![context]);
}
