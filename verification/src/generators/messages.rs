//! What the message (request and update) templates are filled with.
use vstd::prelude::*;

use crate::registry::Structure;
use crate::protocol::{prefixed, Object};
use crate::text::{law_strip_added_prefix, strip_leading, trim_start_matches};

use super::json::{fields_from_json, fields_from_json_text, fields_to_json, fields_to_json_text};
use super::structure::{
    decl_fields, decl_fields_text, decl_params, decl_params_text, free_fields, free_fields_text,
    init_fields, init_fields_text,
};

verus! {

/// A family of messages: its name (`request`, `update`) and the prefix of
/// its messages' names (`rq`, `up`).
#[derive(Debug, Clone, PartialEq, Eq)]
pub struct MessageType {
    pub name: String,
    pub prefix: String,
}

/// The text pieces of one message.
#[derive(Debug, Clone, PartialEq, Eq)]
pub struct MessageContext {
    pub message_type: MessageType,
    pub name: String,
    pub cname: String,
    pub stripped_name: String,
    pub fields: String,
    pub constructor_params: String,
    pub fields_init: String,
    pub fields_free: String,
    pub fields_to_json: String,
    pub fields_from_json: String,
}

/// The text pieces of a family of messages.
#[derive(Debug, Clone, PartialEq, Eq)]
pub struct MessagesContext {
    pub message_type: MessageType,
    pub messages: Vec<MessageContext>,
}

/// The name of a message without the leading `<prefix>_` of its family.
pub open spec fn stripped_name_of(message_type: MessageType, name: Seq<char>) -> Seq<char> {
    strip_leading(name, message_type.prefix@ + "_"@)
}

/// `context` describes the message `structure` of the family
/// `message_type`: its fields live in `data-><stripped name>.`, and the
/// constructor fills `<family>->data.<stripped name>.`.
pub open spec fn message_context_of(
    message_type: MessageType,
    structure: Structure,
    context: MessageContext,
) -> bool {
    let stripped = stripped_name_of(message_type, structure.name@);
    let access = "data->"@ + stripped + "."@;
    &&& context.message_type.name@ == message_type.name@
    &&& context.message_type.prefix@ == message_type.prefix@
    &&& context.name@ == structure.name@
    &&& context.cname@ == structure.cname@
    &&& context.stripped_name@ == stripped
    &&& context.fields@ == decl_fields_text(structure.fields@)
    &&& context.constructor_params@ == decl_params_text(structure.fields@)
    &&& context.fields_init@ == init_fields_text(
        message_type.name@ + "->data."@ + stripped + "."@,
        structure.fields@,
    )
    &&& context.fields_free@ == free_fields_text(access, structure.fields@)
    &&& context.fields_to_json@ == fields_to_json_text(access, structure.fields@)
    &&& context.fields_from_json@ == fields_from_json_text(access, structure.fields@)
}

impl MessageType {
    /// A copy of the message family.
    fn duplicate(&self) -> (r: MessageType)
        ensures
            r.name@ == self.name@,
            r.prefix@ == self.prefix@,
    {
        MessageType { name: self.name.clone(), prefix: self.prefix.clone() }
    }
}

impl MessageContext {
    /// The text pieces of one message of the family `message_type`.
    pub fn new(message_type: &MessageType, structure: &Structure) -> (r: Self)
        ensures
            message_context_of(*message_type, *structure, r),
    {
        let prefix = message_type.prefix.clone().concat("_");
        let stripped_name = trim_start_matches(structure.name.as_str(), prefix.as_str());
        let access = String::from_str("data->").concat(stripped_name.as_str()).concat(".");
        let init_access = message_type.name.clone().concat("->data.").concat(
            stripped_name.as_str(),
        ).concat(".");
        MessageContext {
            message_type: message_type.duplicate(),
            name: structure.name.clone(),
            cname: structure.cname.clone(),
            stripped_name: stripped_name.clone(),
            fields: decl_fields(structure.fields.as_slice()),
            constructor_params: decl_params(structure.fields.as_slice()),
            fields_init: init_fields(init_access.as_str(), structure.fields.as_slice()),
            fields_free: free_fields(access.as_str(), structure.fields.as_slice()),
            fields_to_json: fields_to_json(access.as_str(), structure.fields.as_slice()),
            fields_from_json: fields_from_json(access.as_str(), structure.fields.as_slice()),
        }
    }
}

impl MessagesContext {
    /// The text pieces of every message of the family, in order.
    pub fn new(messages: &[Structure], message_type: &MessageType) -> (r: Self)
        ensures
            r.message_type.name@ == message_type.name@,
            r.message_type.prefix@ == message_type.prefix@,
            r.messages.len() == messages.len(),
            forall|i: int|
                0 <= i < messages.len() ==> message_context_of(
                    *message_type,
                    messages@[i],
                    #[trigger] r.messages@[i],
                ),
    {
        let mut contexts: Vec<MessageContext> = Vec::new();
        let n = messages.len();
        for i in 0..n
            invariant
                n == messages.len(),
                contexts.len() == i,
                forall|j: int|
                    0 <= j < i ==> message_context_of(
                        *message_type,
                        messages@[j],
                        #[trigger] contexts@[j],
                    ),
        {
            contexts.push(MessageContext::new(message_type, &messages[i]));
        }
        MessagesContext { message_type: message_type.duplicate(), messages: contexts }
    }
}

/// Law: the requests named by `Protocol::prefix_messages` (`rq_<name>`) get
/// their own names back as stripped names in the `rq` family, as long as a
/// name did not already start with `rq_`.
pub proof fn law_request_names_round_trip(
    message_type: MessageType,
    before: Seq<Object>,
    after: Seq<Object>,
)
    requires
        message_type.prefix@ == "rq"@,
        prefixed("rq_"@, before, after),
        forall|i: int|
            0 <= i < before.len() ==> !(3 <= (#[trigger] before[i]).name@.len()
                && before[i].name@.take(3) == "rq_"@),
    ensures
        forall|i: int|
            0 <= i < after.len() ==> stripped_name_of(message_type, (#[trigger] after[i]).name@)
                == before[i].name@,
{
    reveal_strlit("rq");
    reveal_strlit("_");
    reveal_strlit("rq_");
    assert("rq"@ + "_"@ =~= "rq_"@);
    assert forall|i: int| 0 <= i < after.len() implies stripped_name_of(
        message_type,
        (#[trigger] after[i]).name@,
    ) == before[i].name@ by {
        assert(!(3 <= before[i].name@.len() && before[i].name@.take(3) == "rq_"@));
        law_strip_added_prefix("rq_"@, before[i].name@);
    }
}

/// Law: likewise for the updates (`up_<name>`) in the `up` family.
pub proof fn law_update_names_round_trip(
    message_type: MessageType,
    before: Seq<Object>,
    after: Seq<Object>,
)
    requires
        message_type.prefix@ == "up"@,
        prefixed("up_"@, before, after),
        forall|i: int|
            0 <= i < before.len() ==> !(3 <= (#[trigger] before[i]).name@.len()
                && before[i].name@.take(3) == "up_"@),
    ensures
        forall|i: int|
            0 <= i < after.len() ==> stripped_name_of(message_type, (#[trigger] after[i]).name@)
                == before[i].name@,
{
    reveal_strlit("up");
    reveal_strlit("_");
    reveal_strlit("up_");
    assert("up"@ + "_"@ =~= "up_"@);
    assert forall|i: int| 0 <= i < after.len() implies stripped_name_of(
        message_type,
        (#[trigger] after[i]).name@,
    ) == before[i].name@ by {
        assert(!(3 <= before[i].name@.len() && before[i].name@.take(3) == "up_"@));
        law_strip_added_prefix("up_"@, before[i].name@);
    }
}

/// Law: the code of a message reaches its fields through one place,
/// `data-><stripped name>.`, for releasing them as for writing and reading
/// JSON, and the constructor stores them in `<family>->data.<stripped name>.`,
/// where the stripped name is the message's name without its family prefix.
pub proof fn law_message_access_shared(
    message_type: MessageType,
    structure: Structure,
    context: MessageContext,
)
    requires
        message_context_of(message_type, structure, context),
    ensures
        context.stripped_name@ == strip_leading(structure.name@, message_type.prefix@ + "_"@),
        ({
            let access = "data->"@ + context.stripped_name@ + "."@;
            &&& context.fields_free@ == free_fields_text(access, structure.fields@)
            &&& context.fields_to_json@ == fields_to_json_text(access, structure.fields@)
            &&& context.fields_from_json@ == fields_from_json_text(access, structure.fields@)
            &&& context.fields_init@ == init_fields_text(
                message_type.name@ + "->data."@ + context.stripped_name@ + "."@,
                structure.fields@,
            )
        }),
{
}

} // verus!
