use vstd::prelude::*;

verus! {

/// A field of a protocol object: its name and the name of its type.
#[derive(Debug, Clone, PartialEq, Eq)]
pub struct Field {
    pub name: String,
    pub field_type: String,
}

/// A model, request or update of the protocol.
#[derive(Debug, Clone, PartialEq, Eq)]
pub struct Object {
    pub name: String,
    pub fields: Vec<Field>,
}

/// A type declared by the protocol: its name, its kind and its C name.
#[derive(Debug, Clone, PartialEq, Eq)]
pub struct Type {
    pub name: String,
    pub kind: String,
    pub cname: String,
}

/// The whole protocol description.
#[derive(Debug, Clone, PartialEq, Eq)]
pub struct Protocol {
    pub types: Vec<Type>,
    pub models: Vec<Object>,
    pub requests: Vec<Object>,
    pub updates: Vec<Object>,
}

/// `objects` is `before` with `prefix` put in front of every object's name.
pub open spec fn prefixed(prefix: Seq<char>, before: Seq<Object>, objects: Seq<Object>) -> bool {
    &&& objects.len() == before.len()
    &&& forall|i: int|
        0 <= i < objects.len() ==> {
            &&& (#[trigger] objects[i]).name@ == prefix + before[i].name@
            &&& objects[i].fields == before[i].fields
        }
}

impl Protocol {
    /// Puts `prefix` in front of the name of every object.
    pub fn add_prefix(prefix: &str, objects: &mut Vec<Object>)
        ensures
            prefixed(prefix@, old(objects)@, final(objects)@),
    {
        let ghost before = objects@;
        let mut done: Vec<Object> = Vec::new();
        let mut rest: Vec<Object> = Vec::new();
        std::mem::swap(objects, &mut rest);
        while rest.len() > 0
            invariant
                done.len() + rest.len() == before.len(),
                rest@ == before.skip(done.len() as int),
                prefixed(prefix@, before.take(done.len() as int), done@),
            decreases rest.len(),
        {
            let object = rest.remove(0);
            let Object { name, fields } = object;
            let new_name = String::from_str(prefix).concat(name.as_str());
            done.push(Object { name: new_name, fields });
        }
        assert(before.take(before.len() as int) =~= before);
        *objects = done;
    }

    /// Names the messages after their kind: requests get the prefix `rq_`,
    /// updates the prefix `up_`; types and models are left as they are.
    pub fn prefix_messages(&mut self)
        ensures
            prefixed("rq_"@, old(self).requests@, final(self).requests@),
            prefixed("up_"@, old(self).updates@, final(self).updates@),
            final(self).types == old(self).types,
            final(self).models == old(self).models,
    {
        Self::add_prefix("rq_", &mut self.requests);
        Self::add_prefix("up_", &mut self.updates);
    }
}

} // verus!
