//! Simulation core for a turn-based overland-journey game: an economy
//! ledger that validates purchases against a fixed budget, and a
//! progression engine that advances distance and date each turn and
//! resolves randomized health incidents.

pub mod ask;
pub mod date;
pub mod marksman;
pub mod meal;
pub mod mileage;
mod rng;
pub mod supplies;
pub mod text;
pub mod trip;
