//! What the model templates are filled with.
use vstd::prelude::*;

use crate::registry::Structure;

use super::json::{fields_from_json, fields_from_json_text, fields_to_json, fields_to_json_text};
use super::structure::{decl_fields, decl_fields_text, free_fields, free_fields_text};

verus! {

/// The text pieces of one model.
#[derive(Debug, Clone, PartialEq, Eq)]
pub struct ModelContext {
    pub name: String,
    pub cname: String,
    pub fields: String,
    pub fields_free: String,
    pub fields_to_json: String,
    pub fields_from_json: String,
}

/// The text pieces of all models.
#[derive(Debug, Clone, PartialEq, Eq)]
pub struct ModelsContext {
    pub models: Vec<ModelContext>,
}

/// `context` describes the model `structure`, whose fields are reached
/// through the pointer `<name>->`.
pub open spec fn model_context_of(structure: Structure, context: ModelContext) -> bool {
    let access = structure.name@ + "->"@;
    &&& context.name@ == structure.name@
    &&& context.cname@ == structure.cname@
    &&& context.fields@ == decl_fields_text(structure.fields@)
    &&& context.fields_free@ == free_fields_text(access, structure.fields@)
    &&& context.fields_to_json@ == fields_to_json_text(access, structure.fields@)
    &&& context.fields_from_json@ == fields_from_json_text(access, structure.fields@)
}

impl ModelContext {
    /// The text pieces of one model.
    pub fn from_structure(structure: &Structure) -> (r: Self)
        ensures
            model_context_of(*structure, r),
    {
        let access = structure.name.clone().concat("->");
        ModelContext {
            name: structure.name.clone(),
            cname: structure.cname.clone(),
            fields: decl_fields(structure.fields.as_slice()),
            fields_free: free_fields(access.as_str(), structure.fields.as_slice()),
            fields_to_json: fields_to_json(access.as_str(), structure.fields.as_slice()),
            fields_from_json: fields_from_json(access.as_str(), structure.fields.as_slice()),
        }
    }
}

impl ModelsContext {
    /// The text pieces of every model, in order.
    pub fn new(models: &[Structure]) -> (r: Self)
        ensures
            r.models.len() == models.len(),
            forall|i: int| 0 <= i < models.len() ==> model_context_of(models@[i], #[trigger] r.models@[i]),
    {
        let mut contexts: Vec<ModelContext> = Vec::new();
        let n = models.len();
        for i in 0..n
            invariant
                n == models.len(),
                contexts.len() == i,
                forall|j: int| 0 <= j < i ==> model_context_of(models@[j], #[trigger] contexts@[j]),
        {
            contexts.push(ModelContext::from_structure(&models[i]));
        }
        ModelsContext { models: contexts }
    }
}

/// Law: the code of a model reaches its fields through the pointer
/// `<name>->`, for releasing them as for writing and reading JSON.
pub proof fn law_model_access_shared(structure: Structure, context: ModelContext)
    requires
        model_context_of(structure, context),
    ensures
        ({
            let access = context.name@ + "->"@;
            &&& context.name@ == structure.name@
            &&& context.fields_free@ == free_fields_text(access, structure.fields@)
            &&& context.fields_to_json@ == fields_to_json_text(access, structure.fields@)
            &&& context.fields_from_json@ == fields_from_json_text(access, structure.fields@)
        }),
{
}

} // verus!
