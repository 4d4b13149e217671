//! What a page says of the visitors who are interested in an event.

use crate::models::{Event, EventView, InterestedPerson, PersonView};
use crate::text::{break_lines, with_breaks, Text};
use vstd::prelude::*;

verus! {

/// The names of those among `people` who let their name be shown, in order.
pub open spec fn named_of(people: Seq<PersonView>) -> Seq<Text>
    decreases people.len(),
{
    if people.len() == 0 {
        Seq::empty()
    } else if people.last().displayed {
        named_of(people.drop_last()).push(people.last().name)
    } else {
        named_of(people.drop_last())
    }
}

/// How many among `people` keep their name to themselves.
pub open spec fn unnamed_of(people: Seq<PersonView>) -> nat
    decreases people.len(),
{
    if people.len() == 0 {
        0
    } else if people.last().displayed {
        unnamed_of(people.drop_last())
    } else {
        unnamed_of(people.drop_last()) + 1
    }
}

/// The noun that goes with a count of `unnamed` visitors.
pub open spec fn plurality_of(unnamed: nat) -> Text {
    if unnamed == 1 {
        "person"@
    } else {
        "people"@
    }
}

/// The summary of `people`.
pub open spec fn parties_of(people: Seq<PersonView>) -> PartiesView {
    PartiesView {
        named: named_of(people),
        unnamed: unnamed_of(people),
        any_interested: people.len() > 0,
        unnamed_plurality: plurality_of(unnamed_of(people)),
    }
}

/// The visitors interested in one event, as a page shows them.
#[derive(Debug, PartialEq, Eq)]
pub struct InterestedParties {
    /// The names that may be shown.
    pub named: Vec<String>,
    /// How many more are interested without showing their name.
    pub unnamed: usize,
    /// Whether anybody is interested at all.
    pub any_interested: bool,
    /// "person" or "people", to go with `unnamed`.
    pub unnamed_plurality: &'static str,
}

/// An `InterestedParties` in contracts.
pub struct PartiesView {
    pub named: Seq<Text>,
    pub unnamed: nat,
    pub any_interested: bool,
    pub unnamed_plurality: Text,
}

impl View for InterestedParties {
    type V = PartiesView;

    open spec fn view(&self) -> PartiesView {
        PartiesView {
            named: self.named.deep_view(),
            unnamed: self.unnamed as nat,
            any_interested: self.any_interested,
            unnamed_plurality: self.unnamed_plurality@,
        }
    }
}

impl Default for InterestedParties {
    /// Nobody yet, and no noun chosen.
    fn default() -> (empty: Self)
        ensures
            empty@ == (PartiesView {
                named: Seq::empty(),
                unnamed: 0,
                any_interested: false,
                unnamed_plurality: ""@,
            }),
    {
        let empty = InterestedParties {
            named: Vec::new(),
            unnamed: 0,
            any_interested: false,
            unnamed_plurality: "",
        };
        assert(empty.named.deep_view() == Seq::<Text>::empty());
        empty
    }
}

impl InterestedParties {
    /// Sorts `people` into those shown by name and those only counted.
    pub fn of(people: &Vec<InterestedPerson>) -> (summary: Self)
        ensures
            summary@ == parties_of(people.deep_view()),
    {
        let mut named: Vec<String> = Vec::new();
        let mut unnamed: usize = 0;
        let mut at: usize = 0;
        while at < people.len()
            invariant
                at <= people.len(),
                named.deep_view() == named_of(people.deep_view().take(at as int)),
                unnamed == unnamed_of(people.deep_view().take(at as int)),
                unnamed <= at,
            decreases people.len() - at,
        {
            proof {
                let upto = people.deep_view().take(at + 1);
                assert(upto.drop_last() == people.deep_view().take(at as int));
                assert(upto.last() == people[at as int]@);
            }
            if people[at].displayed {
                let name = people[at].name.clone();
                let ghost before = named.deep_view();
                named.push(name);
                assert(named.deep_view() == before.push(name@));
            } else {
                unnamed = unnamed + 1;
            }
            at = at + 1;
        }
        assert(people.deep_view().take(at as int) == people.deep_view());
        InterestedParties {
            named,
            unnamed,
            any_interested: people.len() > 0,
            unnamed_plurality: if unnamed == 1 {
                "person"
            } else {
                "people"
            },
        }
    }
}

/// One event as a page shows it.
#[derive(Debug, PartialEq, Eq)]
pub struct EventData {
    pub event: Event,
    /// The event's description as markup: its line feeds are line breaks, and
    /// nothing else is changed.
    pub description: String,
    pub interested_parties: InterestedParties,
}

/// An `EventData` in contracts.
pub struct EventDataView {
    pub event: EventView,
    pub description: Text,
    pub interested_parties: PartiesView,
}

impl View for EventData {
    type V = EventDataView;

    open spec fn view(&self) -> EventDataView {
        EventDataView {
            event: self.event@,
            description: self.description@,
            interested_parties: self.interested_parties@,
        }
    }
}

impl DeepView for EventData {
    type V = EventDataView;

    open spec fn deep_view(&self) -> EventDataView {
        self@
    }
}

/// What a page shows of `event` when `people` are interested in it.
pub open spec fn event_data_of(event: EventView, people: Seq<PersonView>) -> EventDataView {
    EventDataView {
        event,
        description: with_breaks(event.description),
        interested_parties: parties_of(people),
    }
}

impl EventData {
    /// Puts together what a page shows of `event`.
    pub fn of(event: Event, people: &Vec<InterestedPerson>) -> (data: Self)
        ensures
            data@ == event_data_of(event@, people.deep_view()),
    {
        let description = break_lines(event.description.as_str());
        let interested_parties = InterestedParties::of(people);
        EventData { event, description, interested_parties }
    }
}

} // verus!
