use soroban_sdk::{Address, Env, Symbol};
use vstd::prelude::*;

use crate::events::EventData;
use crate::symbol::is_short_symbol_text;

verus! {

/// The Soroban environment through which a contract reaches the host.
#[verifier::external_type_specification]
#[verifier::external_body]
pub struct ExEnv(Env);

/// A Soroban symbol, carried through this library as an opaque value.
#[verifier::external_type_specification]
#[verifier::external_body]
pub struct ExSymbol(Symbol);

/// A Soroban address, carried through this library as an opaque value.
#[verifier::external_type_specification]
#[verifier::external_body]
pub struct ExAddress(Address);

/// Publishes one contract event on `env` through `Events::publish` of soroban_sdk,
/// with the single topic `Symbol::short(topic)` and the fields of `data`, as a
/// tuple in the order they stand in, as its body.
///
/// `Symbol::short` panics unless `topic` is a short symbol text, which `requires`
/// rules out, together with a topic that does not belong with the body's shape.
/// Nothing is claimed of the host's event log: the call changes state
/// behind a shared reference to the environment, which no clause here can speak of.
/// The host may also stop on an exhausted budget, which no argument decides.
#[verifier::external_body]
pub(crate) fn publish_event(env: &Env, topic: &str, data: EventData)
    requires
        is_short_symbol_text(topic@),
        topic@ == data.topic_text(),
{
    let topics = (Symbol::short(topic),);
    match data {
        EventData::SymbolAddressAddress(a, b, c) => env.events().publish(topics, (a, b, c)),
        EventData::SymbolAddressSymbol(a, b, c) => env.events().publish(topics, (a, b, c)),
        EventData::U64AddressU32(a, b, c) => env.events().publish(topics, (a, b, c)),
    }
}

} // verus!
