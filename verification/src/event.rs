//! The value that stands for one accepted event.

use vstd::prelude::*;
use crate::level::Level;

verus! {

/// What one event holds, as mathematical values.
pub struct EventView {
    pub level: Level,
    pub target: Seq<char>,
    pub message: Seq<char>,
    pub fields: Seq<(Seq<char>, Seq<char>)>,
}

/// The structured fields of an event as pairs of character sequences.
pub open spec fn fields_view(fields: Seq<(String, String)>) -> Seq<(Seq<char>, Seq<char>)> {
    Seq::new(fields.len(), |i: int| (fields[i].0@, fields[i].1@))
}

/// The events of a buffer as mathematical values, in the buffer's order.
pub open spec fn events_view(events: Seq<CollectedEvent>) -> Seq<EventView> {
    Seq::new(events.len(), |i: int| events[i]@)
}

/// One diagnostic event: its severity, the name of its source, its rendered
/// message and its structured fields, all owned by the value.
#[derive(Debug)]
pub struct CollectedEvent {
    level: Level,
    target: String,
    message: String,
    fields: Vec<(String, String)>,
}

impl View for CollectedEvent {
    type V = EventView;

    closed spec fn view(&self) -> EventView {
        EventView {
            level: self.level,
            target: self.target@,
            message: self.message@,
            fields: fields_view(self.fields@),
        }
    }
}

/// Copies a list of fields, name by name and value by value.
fn copy_fields(fields: &Vec<(String, String)>) -> (copy: Vec<(String, String)>)
    ensures
        fields_view(copy@) == fields_view(fields@),
{
    let mut copy: Vec<(String, String)> = Vec::new();
    let mut i: usize = 0;
    while i < fields.len()
        invariant
            i <= fields.len(),
            copy.len() == i,
            forall|j: int| 0 <= j < i ==> copy[j].0@ == fields[j].0@ && copy[j].1@ == fields[j].1@,
        decreases fields.len() - i,
    {
        let name = fields[i].0.clone();
        let value = fields[i].1.clone();
        copy.push((name, value));
        i += 1;
    }
    assert(fields_view(copy@) =~= fields_view(fields@));
    copy
}

impl CollectedEvent {
    /// Makes an event from its parts.
    pub fn new(level: Level, target: String, message: String, fields: Vec<(String, String)>) -> (event: Self)
        ensures
            event@ == (EventView {
                level,
                target: target@,
                message: message@,
                fields: fields_view(fields@),
            }),
    {
        CollectedEvent { level, target, message, fields }
    }

    /// Makes an event from metadata that may be incomplete. Without a level
    /// or without a target there is no event: nothing is filled in for them.
    pub fn from_metadata(
        level: Option<Level>,
        target: Option<String>,
        message: String,
        fields: Vec<(String, String)>,
    ) -> (event: Option<Self>)
        ensures
            event.is_some() <==> level.is_some() && target.is_some(),
            event.is_some() ==> event.unwrap()@ == (EventView {
                level: level.unwrap(),
                target: target.unwrap()@,
                message: message@,
                fields: fields_view(fields@),
            }),
    {
        match (level, target) {
            (Some(level), Some(target)) => Some(CollectedEvent::new(level, target, message, fields)),
            _ => None,
        }
    }

    /// The severity of the event.
    pub fn level(&self) -> (level: Level)
        ensures
            level == self@.level,
    {
        self.level
    }

    /// The name of the event's source.
    pub fn target(&self) -> (target: &String)
        ensures
            target@ == self@.target,
    {
        &self.target
    }

    /// The rendered message of the event.
    pub fn message(&self) -> (message: &String)
        ensures
            message@ == self@.message,
    {
        &self.message
    }

    /// The structured fields of the event, as pairs of name and value.
    pub fn fields(&self) -> (fields: &Vec<(String, String)>)
        ensures
            fields_view(fields@) == self@.fields,
    {
        &self.fields
    }

    /// An independent copy of the event.
    pub fn duplicate(&self) -> (copy: Self)
        ensures
            copy@ == self@,
    {
        CollectedEvent {
            level: self.level,
            target: self.target.clone(),
            message: self.message.clone(),
            fields: copy_fields(&self.fields),
        }
    }
}

impl Clone for CollectedEvent {
    fn clone(&self) -> (copy: Self)
        ensures
            copy@ == self@,
    {
        self.duplicate()
    }
}

} // verus!
