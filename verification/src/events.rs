//! Event records: a named gathering composed of ticket series.

use vstd::prelude::*;
use crate::assistance::clone_vec_string;
use crate::series::{clone_summary, TokenSeriesJson, TokenSeriesJsonV};

verus! {

/// One event. Created once together with its series; only `description`,
/// `banner`, `status` and `date` may change afterwards, and only at the
/// organizer's hand.
#[derive(Debug)]
pub struct Event {
    pub name: String,
    pub description: String,
    /// Modality code (for instance in-person or online).
    pub modality: u8,
    /// Aggregate capacity: the sum of the copies of its series, fixed at
    /// creation.
    pub capacity: u32,
    pub date: String,
    pub time: String,
    /// Status code of the event's lifecycle.
    pub status: u8,
    /// Monotonically increasing identity, starting at 1.
    pub index: i128,
    pub banner: String,
    /// The account that created the event; the only one allowed to update it.
    pub organizer: String,
    /// Labels of the ticket categories.
    pub ticket_type: Vec<String>,
    /// Point-in-time summaries of the series created with the event.
    pub tickets: Vec<TokenSeriesJson>,
    pub location: String,
}

/// The mathematical model of an event.
#[verifier::ext_equal]
pub ghost struct EventV {
    pub name: Seq<char>,
    pub description: Seq<char>,
    pub modality: u8,
    pub capacity: u32,
    pub date: Seq<char>,
    pub time: Seq<char>,
    pub status: u8,
    pub index: i128,
    pub banner: Seq<char>,
    pub organizer: Seq<char>,
    pub ticket_type: Seq<Seq<char>>,
    pub tickets: Seq<TokenSeriesJsonV>,
    pub location: Seq<char>,
}

impl View for Event {
    type V = EventV;

    open spec fn view(&self) -> EventV {
        EventV {
            name: self.name.deep_view(),
            description: self.description.deep_view(),
            modality: self.modality,
            capacity: self.capacity,
            date: self.date.deep_view(),
            time: self.time.deep_view(),
            status: self.status,
            index: self.index,
            banner: self.banner.deep_view(),
            organizer: self.organizer.deep_view(),
            ticket_type: self.ticket_type.deep_view(),
            tickets: self.tickets.deep_view(),
            location: self.location.deep_view(),
        }
    }
}

impl DeepView for Event {
    type V = EventV;

    open spec fn deep_view(&self) -> EventV {
        self.view()
    }
}

/// A copy of an event with the same model.
pub fn clone_event(e: &Event) -> (r: Event)
    ensures
        r@ == e@,
{
    let mut tickets: Vec<TokenSeriesJson> = Vec::new();
    for i in 0..e.tickets.len()
        invariant
            tickets.deep_view() =~= e.tickets.deep_view().take(i as int),
    {
        let c = clone_summary(&e.tickets[i]);
        let ghost prev_dv = tickets.deep_view();
        tickets.push(c);
        proof {
            assert(tickets.deep_view() =~= prev_dv.push(c@));
            assert(e.tickets.deep_view().take(i + 1) =~= e.tickets.deep_view().take(
                i as int,
            ).push(e.tickets@[i as int].deep_view()));
        }
    }
    let r = Event {
        name: e.name.clone(),
        description: e.description.clone(),
        modality: e.modality,
        capacity: e.capacity,
        date: e.date.clone(),
        time: e.time.clone(),
        status: e.status,
        index: e.index,
        banner: e.banner.clone(),
        organizer: e.organizer.clone(),
        ticket_type: clone_vec_string(&e.ticket_type),
        tickets,
        location: e.location.clone(),
    };
    proof {
        assert(e.tickets.deep_view().take(e.tickets@.len() as int) =~= e.tickets.deep_view());
        assert(r.ticket_type.deep_view() =~= e.ticket_type.deep_view());
        assert(r@ =~= e@);
    }
    r
}

} // verus!
