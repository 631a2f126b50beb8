//! Events that the Lumentix ticketing contract publishes on the Soroban host:
//! ticket transfers, ticket check-ins and event cancellations.
#![allow(deprecated)]

pub mod host;
pub mod symbol;
pub mod events;
