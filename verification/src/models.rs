//! The two kinds of rows that the storage holds.

use crate::text::Text;
use vstd::prelude::*;

verus! {

/// An occasion that the organiser has published.
#[derive(Debug, PartialEq, Eq)]
pub struct Event {
    /// Assigned by the storage; never shown to a visitor.
    pub id: i32,
    /// The identifier under which visitors address the event, as text.
    pub uuid: String,
    pub title: String,
    pub link: String,
    /// Free text; its line feeds become line breaks on the page.
    pub description: String,
    /// Kept as it was entered; never read as a date.
    pub date_time: String,
}

/// An `Event` in contracts.
pub struct EventView {
    pub id: i32,
    pub uuid: Text,
    pub title: Text,
    pub link: Text,
    pub description: Text,
    pub date_time: Text,
}

impl View for Event {
    type V = EventView;

    open spec fn view(&self) -> EventView {
        EventView {
            id: self.id,
            uuid: self.uuid@,
            title: self.title@,
            link: self.link@,
            description: self.description@,
            date_time: self.date_time@,
        }
    }
}

impl Clone for Event {
    fn clone(&self) -> (copy: Self)
        ensures
            copy@ == self@,
    {
        Event {
            id: self.id,
            uuid: self.uuid.clone(),
            title: self.title.clone(),
            link: self.link.clone(),
            description: self.description.clone(),
            date_time: self.date_time.clone(),
        }
    }
}

/// One visitor's interest in one event.
#[derive(Debug, PartialEq, Eq)]
pub struct InterestedPerson {
    /// Assigned by the storage.
    pub id: i32,
    /// The `id` of the event that the visitor is interested in.
    pub event_id: i32,
    pub name: String,
    /// Whether the name may be shown to other visitors.
    pub displayed: bool,
}

/// An `InterestedPerson` in contracts.
pub struct PersonView {
    pub id: i32,
    pub event_id: i32,
    pub name: Text,
    pub displayed: bool,
}

impl View for InterestedPerson {
    type V = PersonView;

    open spec fn view(&self) -> PersonView {
        PersonView {
            id: self.id,
            event_id: self.event_id,
            name: self.name@,
            displayed: self.displayed,
        }
    }
}

impl DeepView for InterestedPerson {
    type V = PersonView;

    open spec fn deep_view(&self) -> PersonView {
        self@
    }
}

impl Clone for InterestedPerson {
    fn clone(&self) -> (copy: Self)
        ensures
            copy@ == self@,
    {
        InterestedPerson {
            id: self.id,
            event_id: self.event_id,
            name: self.name.clone(),
            displayed: self.displayed,
        }
    }
}

} // verus!
