//! Splits the fields of an event into a message and attributes.
//!
//! A field named `message` adds its value to the message; any other field
//! becomes an attribute under its name. In compatibility mode the fields that
//! a bridge from the `log` crate adds to carry the call site are left out.

use crate::attributes::{has_key, position_of, Attributes};
use crate::event::fields_view;
use crate::prefix::same_text;
use vstd::prelude::*;
use vstd::string::StringExecFns;

verus! {

/// The name of the field that holds an event's message.
pub open spec fn message_key() -> Seq<char> {
    "message"@
}

/// Whether a field is one that a bridge from the `log` crate adds to carry
/// the call site of the record that it bridges.
pub open spec fn is_log_field(name: Seq<char>) -> bool {
    name == "log.line"@ || name == "log.file"@ || name == "log.target"@ || name
        == "log.module_path"@
}

/// Whether a field becomes an attribute.
pub open spec fn is_attribute(name: Seq<char>, log_compat: bool) -> bool {
    name != message_key() && !(log_compat && is_log_field(name))
}

/// The message after a field has been recorded.
pub open spec fn message_after(message: Seq<char>, name: Seq<char>, value: Seq<char>) -> Seq<
    char,
> {
    if name == message_key() {
        message + value
    } else {
        message
    }
}

/// The attributes after a field has been recorded.
pub open spec fn attributes_after(
    attributes: Map<Seq<char>, Seq<char>>,
    log_compat: bool,
    name: Seq<char>,
    value: Seq<char>,
) -> Map<Seq<char>, Seq<char>> {
    if is_attribute(name, log_compat) {
        attributes.insert(name, value)
    } else {
        attributes
    }
}

/// The message of a list of fields: the values of its `message` fields, one
/// after the other.
pub open spec fn message_of(fields: Seq<(Seq<char>, Seq<char>)>) -> Seq<char>
    decreases fields.len(),
{
    if fields.len() == 0 {
        Seq::empty()
    } else {
        message_after(message_of(fields.drop_last()), fields.last().0, fields.last().1)
    }
}

/// The attributes of a list of fields: each name that is an attribute, with
/// the value of the last field of that name.
pub open spec fn attributes_of(fields: Seq<(Seq<char>, Seq<char>)>, log_compat: bool) -> Map<
    Seq<char>,
    Seq<char>,
>
    decreases fields.len(),
{
    if fields.len() == 0 {
        Map::empty()
    } else {
        attributes_after(
            attributes_of(fields.drop_last(), log_compat),
            log_compat,
            fields.last().0,
            fields.last().1,
        )
    }
}

/// The attributes of a list of fields never hold the message's name.
pub proof fn lemma_attributes_hold_no_message(
    fields: Seq<(Seq<char>, Seq<char>)>,
    log_compat: bool,
)
    ensures
        !attributes_of(fields, log_compat).contains_key(message_key()),
    decreases fields.len(),
{
    if fields.len() > 0 {
        lemma_attributes_hold_no_message(fields.drop_last(), log_compat);
    }
}

/// Where no field is named `message`, the message is empty.
pub proof fn lemma_message_is_empty_without_message_field(fields: Seq<(Seq<char>, Seq<char>)>)
    requires
        !has_key(fields, message_key()),
    ensures
        message_of(fields) == Seq::<char>::empty(),
    decreases fields.len(),
{
    if fields.len() > 0 {
        let before = fields.drop_last();
        assert(fields[fields.len() - 1].0 != message_key());
        assert(!has_key(before, message_key())) by {
            if has_key(before, message_key()) {
                let i = position_of(before, message_key());
                assert(fields[i].0 == message_key());
            }
        }
        lemma_message_is_empty_without_message_field(before);
    }
}

/// Where exactly one field is named `message`, its value is the message.
pub proof fn lemma_message_is_the_message_field(fields: Seq<(Seq<char>, Seq<char>)>, i: int)
    requires
        0 <= i < fields.len(),
        forall|j: int|
            0 <= j < fields.len() ==> ((#[trigger] fields[j]).0 == message_key() <==> j == i),
    ensures
        message_of(fields) == fields[i].1,
    decreases fields.len(),
{
    let before = fields.drop_last();
    let last = fields.len() - 1;
    if i == last {
        assert(!has_key(before, message_key())) by {
            if has_key(before, message_key()) {
                let j = position_of(before, message_key());
                assert(fields[j].0 == message_key());
            }
        }
        lemma_message_is_empty_without_message_field(before);
        assert(Seq::<char>::empty() + fields[i].1 =~= fields[i].1);
    } else {
        assert(fields[last].0 != message_key());
        assert forall|j: int| 0 <= j < before.len() implies ((#[trigger] before[j]).0
            == message_key() <==> j == i) by {
            assert(before[j] == fields[j]);
        }
        lemma_message_is_the_message_field(before, i);
    }
}

/// Whether the field at place `i` is the last one of its name.
pub open spec fn is_last_of_its_name(fields: Seq<(Seq<char>, Seq<char>)>, i: int) -> bool {
    &&& 0 <= i < fields.len()
    &&& forall|j: int| i < j < fields.len() ==> (#[trigger] fields[j]).0 != fields[i].0
}

/// A name is among the attributes of a list of fields exactly when it is the
/// name of an attribute and some field has it.
pub proof fn lemma_attribute_names(
    fields: Seq<(Seq<char>, Seq<char>)>,
    log_compat: bool,
    name: Seq<char>,
)
    ensures
        attributes_of(fields, log_compat).contains_key(name) <==> is_attribute(name, log_compat)
            && has_key(fields, name),
    decreases fields.len(),
{
    if fields.len() > 0 {
        let before = fields.drop_last();
        let last = fields.len() - 1;
        lemma_attribute_names(before, log_compat, name);
        if has_key(before, name) {
            let i = position_of(before, name);
            assert(fields[i].0 == name);
        }
        if has_key(fields, name) {
            let i = position_of(fields, name);
            if i < last {
                assert(before[i].0 == name);
            }
        }
        if fields[last].0 == name {
            assert(has_key(fields, name));
        }
    }
}

/// The value of an attribute is the value of the last field of its name.
pub proof fn lemma_attribute_is_last_value(
    fields: Seq<(Seq<char>, Seq<char>)>,
    log_compat: bool,
    i: int,
)
    requires
        is_last_of_its_name(fields, i),
        is_attribute(fields[i].0, log_compat),
    ensures
        attributes_of(fields, log_compat).contains_key(fields[i].0),
        attributes_of(fields, log_compat)[fields[i].0] == fields[i].1,
    decreases fields.len(),
{
    let before = fields.drop_last();
    let last = fields.len() - 1;
    if i < last {
        assert(fields[last].0 != fields[i].0);
        assert(before[i] == fields[i]);
        assert forall|j: int| i < j < before.len() implies (#[trigger] before[j]).0
            != before[i].0 by {
            assert(fields[j].0 != fields[i].0);
        }
        lemma_attribute_is_last_value(before, log_compat, i);
    }
}

/// Collects the message and the attributes of one event, field by field.
#[derive(Debug)]
pub struct Visitor {
    pub message: String,
    pub kvs: Attributes,
    pub log_compat: bool,
}

impl Visitor {
    /// A collector that has seen no field yet.
    pub fn new(log_compat: bool) -> (visitor: Visitor)
        ensures
            visitor.message@ == Seq::<char>::empty(),
            visitor.kvs@ == Map::<Seq<char>, Seq<char>>::empty(),
            visitor.kvs.wf(),
            visitor.log_compat == log_compat,
    {
        Visitor { message: String::new(), kvs: Attributes::new(), log_compat }
    }

    /// Whether a field name is one of those that the bridge from the `log`
    /// crate adds.
    pub fn is_log_name(name: &str) -> (found: bool)
        ensures
            found == is_log_field(name@),
    {
        same_text(name, "log.line") || same_text(name, "log.file") || same_text(name, "log.target")
            || same_text(name, "log.module_path")
    }

    /// Records one field, given by its name and the rendering of its value.
    pub fn record_debug(&mut self, name: &str, value: String)
        requires
            old(self).kvs.wf(),
        ensures
            final(self).kvs.wf(),
            final(self).log_compat == old(self).log_compat,
            final(self).message@ == message_after(old(self).message@, name@, value@),
            final(self).kvs@ == attributes_after(
                old(self).kvs@,
                old(self).log_compat,
                name@,
                value@,
            ),
            !old(self).kvs@.contains_key(message_key()) ==> !final(self).kvs@.contains_key(
                message_key(),
            ),
    {
        if same_text(name, "message") {
            self.message.append(value.as_str());
        } else if !(self.log_compat && Visitor::is_log_name(name)) {
            self.kvs.insert(name.to_owned(), value);
        }
    }

    /// Splits a list of fields, each a name and the rendering of its value,
    /// into the message and the attributes.
    pub fn extract(fields: Vec<(&str, String)>, log_compat: bool) -> (parts: (String, Attributes))
        ensures
            parts.0@ == message_of(fields_view(fields@)),
            parts.1@ == attributes_of(fields_view(fields@), log_compat),
            parts.1.wf(),
            !parts.1@.contains_key(message_key()),
    {
        let ghost all = fields_view(fields@);
        let mut visitor = Visitor::new(log_compat);
        for field in it: fields
            invariant
                all == fields_view(it.seq()),
                visitor.kvs.wf(),
                visitor.log_compat == log_compat,
                visitor.message@ == message_of(all.take(it.index() as int)),
                visitor.kvs@ == attributes_of(all.take(it.index() as int), log_compat),
        {
            proof {
                assert(all.take(it.index() + 1).drop_last() =~= all.take(it.index() as int));
            }
            visitor.record_debug(field.0, field.1);
        }
        proof {
            assert(all.take(all.len() as int) =~= all);
            lemma_attributes_hold_no_message(all, log_compat);
        }
        (visitor.message, visitor.kvs)
    }
}

} // verus!
