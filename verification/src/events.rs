use soroban_sdk::{Address, Env, Symbol};
use vstd::prelude::*;

use crate::host::publish_event;
use crate::symbol::is_short_symbol_text;

verus! {

/// The body of a published event: its fields, in the order in which the host
/// receives them, grouped by their types.
#[derive(Debug, PartialEq, Eq)]
pub enum EventData {
    SymbolAddressAddress(Symbol, Address, Address),
    SymbolAddressSymbol(Symbol, Address, Symbol),
    U64AddressU32(u64, Address, u32),
}

impl EventData {
    /// The topic that belongs with a body of this shape: each kind of event has
    /// its own shape of body.
    pub open spec fn topic_text(&self) -> Seq<char> {
        match self {
            EventData::SymbolAddressAddress(..) => seq!['t', 'r', 'a', 'n', 's', 'f', 'e', 'r'],
            EventData::SymbolAddressSymbol(..) => seq!['c', 'h', 'e', 'c', 'k', 'i', 'n'],
            EventData::U64AddressU32(..) => seq!['e', 'v', 'c', 'n', 'c', 'l', 'd'],
        }
    }
}

/// What one published event carries, by kind: the values that go into the event's
/// data, in the order in which they go there.
#[derive(Debug, PartialEq, Eq)]
pub enum EventPayload {
    /// A ticket passed from one holder to another.
    Transfer { ticket_id: Symbol, from: Address, to: Address },
    /// A ticket was checked in (validated) at its event.
    CheckIn { ticket_id: Symbol, validator: Address, event_id: Symbol },
    /// An organizer cancelled a published event.
    Cancelled { event_id: u64, organizer: Address, tickets_sold: u32 },
}

impl EventPayload {
    /// The text of the one topic under which an event of this kind is published.
    pub open spec fn topic_text(&self) -> Seq<char> {
        match self {
            EventPayload::Transfer { .. } => seq!['t', 'r', 'a', 'n', 's', 'f', 'e', 'r'],
            EventPayload::CheckIn { .. } => seq!['c', 'h', 'e', 'c', 'k', 'i', 'n'],
            EventPayload::Cancelled { .. } => seq!['e', 'v', 'c', 'n', 'c', 'l', 'd'],
        }
    }

    /// The topic under which this event is published.
    pub fn topic(&self) -> (topic: &'static str)
        ensures
            topic@ == self.topic_text(),
    {
        match self {
            EventPayload::Transfer { .. } => {
                proof {
                    reveal_strlit("transfer");
                }
                "transfer"
            },
            EventPayload::CheckIn { .. } => {
                proof {
                    reveal_strlit("checkin");
                }
                "checkin"
            },
            EventPayload::Cancelled { .. } => {
                proof {
                    reveal_strlit("evcncld");
                }
                "evcncld"
            },
        }
    }

    /// The body under which an event of this kind is published: its fields in order.
    pub open spec fn data_spec(&self) -> EventData {
        match *self {
            EventPayload::Transfer { ticket_id, from, to } =>
                EventData::SymbolAddressAddress(ticket_id, from, to),
            EventPayload::CheckIn { ticket_id, validator, event_id } =>
                EventData::SymbolAddressSymbol(ticket_id, validator, event_id),
            EventPayload::Cancelled { event_id, organizer, tickets_sold } =>
                EventData::U64AddressU32(event_id, organizer, tickets_sold),
        }
    }

    /// Splits this event into the topic and the body that the host is handed.
    pub fn into_parts(self) -> (parts: (&'static str, EventData))
        ensures
            parts.0@ == self.topic_text(),
            parts.1 == self.data_spec(),
            is_short_symbol_text(parts.0@),
            parts.0@ == parts.1.topic_text(),
            self matches EventPayload::Transfer { ticket_id, from, to } ==> parts.1
                == EventData::SymbolAddressAddress(ticket_id, from, to),
            self matches EventPayload::CheckIn { ticket_id, validator, event_id } ==> parts.1
                == EventData::SymbolAddressSymbol(ticket_id, validator, event_id),
            self matches EventPayload::Cancelled { event_id, organizer, tickets_sold } ==> parts.1
                == EventData::U64AddressU32(event_id, organizer, tickets_sold),
    {
        let topic = self.topic();
        proof {
            lemma_topic_is_short_symbol(&self);
        }
        let data = match self {
            EventPayload::Transfer { ticket_id, from, to } =>
                EventData::SymbolAddressAddress(ticket_id, from, to),
            EventPayload::CheckIn { ticket_id, validator, event_id } =>
                EventData::SymbolAddressSymbol(ticket_id, validator, event_id),
            EventPayload::Cancelled { event_id, organizer, tickets_sold } =>
                EventData::U64AddressU32(event_id, organizer, tickets_sold),
        };
        (topic, data)
    }

    /// Publishes this event on `env`: the topic and body of `into_parts`, handed
    /// to the host as they come.
    pub fn publish(self, env: &Env) {
        let (topic, data) = self.into_parts();
        publish_event(env, topic, data)
    }
}

/// Every topic fits in a short symbol, so building it never fails.
pub proof fn lemma_topic_is_short_symbol(payload: &EventPayload)
    ensures
        is_short_symbol_text(payload.topic_text()),
{
}

/// Two events share a topic exactly when they are of the same kind: the topic
/// tells a listener which kind of event it reads.
pub proof fn lemma_topic_determines_kind(a: &EventPayload, b: &EventPayload)
    ensures
        (a.topic_text() == b.topic_text()) <==> {
            ||| (a is Transfer && b is Transfer)
            ||| (a is CheckIn && b is CheckIn)
            ||| (a is Cancelled && b is Cancelled)
        },
{
}

/// The topic and body that an event is published under identify it entirely:
/// two events handed to the host alike carry the same fields in the same places.
pub proof fn lemma_parts_determine_payload(a: &EventPayload, b: &EventPayload)
    ensures
        (a.topic_text() == b.topic_text() && a.data_spec() == b.data_spec()) <==> a == b,
{
}

/// A transfer is published under `transfer` with the ticket, the sender and the
/// recipient as the first, second and third fields of its body, each unchanged.
pub proof fn lemma_transfer_fields(ticket_id: Symbol, from: Address, to: Address)
    ensures
        ({
            let p = EventPayload::Transfer { ticket_id, from, to };
            &&& p.topic_text() == seq!['t', 'r', 'a', 'n', 's', 'f', 'e', 'r']
            &&& p.data_spec() matches EventData::SymbolAddressAddress(a, b, c)
            &&& a == ticket_id && b == from && c == to
        }),
{
}

/// A check-in is published under `checkin` with the ticket, the validator and the
/// event as the first, second and third fields of its body, each unchanged.
pub proof fn lemma_check_in_fields(ticket_id: Symbol, validator: Address, event_id: Symbol)
    ensures
        ({
            let p = EventPayload::CheckIn { ticket_id, validator, event_id };
            &&& p.topic_text() == seq!['c', 'h', 'e', 'c', 'k', 'i', 'n']
            &&& p.data_spec() matches EventData::SymbolAddressSymbol(a, b, c)
            &&& a == ticket_id && b == validator && c == event_id
        }),
{
}

/// A cancellation is published under `evcncld` with the event id, the organizer
/// and the number of tickets sold as the first, second and third fields of its
/// body, each unchanged: no id is remapped and no count is cut short.
pub proof fn lemma_cancelled_fields(event_id: u64, organizer: Address, tickets_sold: u32)
    ensures
        ({
            let p = EventPayload::Cancelled { event_id, organizer, tickets_sold };
            &&& p.topic_text() == seq!['e', 'v', 'c', 'n', 'c', 'l', 'd']
            &&& p.data_spec() matches EventData::U64AddressU32(a, b, c)
            &&& a == event_id && b == organizer && c == tickets_sold
        }),
{
}

/// Every event is handed to the host under the topic that belongs with the shape
/// of its body, so a listener reading either one knows the kind.
pub proof fn lemma_topic_matches_body(p: &EventPayload)
    ensures
        p.topic_text() == p.data_spec().topic_text(),
{
}

/// A type for transfer of event
pub struct TransferEvent;

impl TransferEvent {
    /// Publishes a transfer of ticket `ticket_id` from `from` to `to`.
    pub fn emit(env: &Env, ticket_id: Symbol, from: Address, to: Address) {
        EventPayload::Transfer { ticket_id, from, to }.publish(env)
    }
}

/// Event emitted when a ticket is checked in (validated)
pub struct CheckInEvent;

impl CheckInEvent {
    /// Publishes the check-in of ticket `ticket_id` by `validator` at event `event_id`.
    pub fn emit(env: &Env, ticket_id: Symbol, validator: Address, event_id: Symbol) {
        EventPayload::CheckIn { ticket_id, validator, event_id }.publish(env)
    }
}

/// Event emitted when an organizer cancels a published event.
pub struct EventCancelled;

impl EventCancelled {
    /// Publishes that `organizer` cancelled event `event_id` after selling
    /// `tickets_sold` tickets.
    pub fn emit(env: &Env, event_id: u64, organizer: Address, tickets_sold: u32) {
        EventPayload::Cancelled { event_id, organizer, tickets_sold }.publish(env)
    }
}

} // verus!
