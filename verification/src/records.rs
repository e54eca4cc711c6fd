//! Record shapes shared by the read queries, and the error kinds a
//! query can end with.
//!
//! Two payload fields come from outside crates and are carried through
//! untouched: a turn's scheduled roll time (`chrono`) and a roll's
//! per-territory results (`serde_json`). Both are declared below so that
//! they can stand in fields; no query reads inside either value.

use vstd::prelude::*;

verus! {

/// Declares `chrono::NaiveDateTime` so records may hold one. The value
/// is opaque to every query here: it is stored and handed back, never
/// inspected.
#[verifier::external_type_specification]
#[verifier::external_body]
pub struct ExNaiveDateTime(chrono::NaiveDateTime);

/// Declares `serde_json::Value` so records may hold one. The
/// per-territory roll payload has a schema owned by its producer; this
/// layer passes it through unmodified.
#[verifier::external_type_specification]
#[verifier::external_body]
pub struct ExJsonValue(serde_json::Value);

/// One row of the turn table: a scheduled (season, day) with its
/// lifecycle flags. Fields other than `id` may be absent on rows that
/// were only partially populated during seeding.
#[allow(non_snake_case)]
#[derive(Clone, Copy, Debug, PartialEq)]
pub struct TurnInfo {
    pub id: i32,
    pub season: Option<i32>,
    pub day: Option<i32>,
    pub complete: Option<bool>,
    pub active: Option<bool>,
    pub finale: Option<bool>,
    pub rollTime: Option<chrono::NaiveDateTime>,
}

/// The resolved "now" coordinate of the game: a season and a day.
///
/// Derived on every call from the turn table; zero is the documented
/// default for either field, never an error value.
#[derive(Clone, Copy, Debug, PartialEq, Eq, Structural)]
pub struct Latest {
    pub season: i32,
    pub day: i32,
}

/// The outcome data for one resolved (season, day): its time window,
/// chaos counters, and the opaque per-territory payload.
#[allow(non_snake_case)]
#[derive(Debug, PartialEq)]
pub struct Roll {
    pub startTime: String,
    pub endTime: String,
    pub chaosRerolls: i32,
    pub chaosWeight: i32,
    pub territoryRolls: serde_json::Value,
}

/// A stored roll row: the (season, day) key it is filed under together
/// with the [`Roll`] fields kept for it.
#[allow(non_snake_case)]
#[derive(Debug, PartialEq)]
pub struct RollRow {
    pub season: i32,
    pub day: i32,
    pub startTime: String,
    pub endTime: String,
    pub chaosRerolls: i32,
    pub chaosWeight: i32,
    pub territoryRolls: serde_json::Value,
}

/// One historical outcome for a (user, season, day), as served to
/// readers: territory and team by display name.
#[derive(Clone, Debug, PartialEq, Eq)]
pub struct Turn {
    pub season: i32,
    pub day: i32,
    pub stars: i32,
    pub mvp: bool,
    pub territory: String,
    pub team: String,
}

/// A user's most recent outcome, with fields that legacy rows may have
/// left unset.
#[derive(Clone, Copy, Debug, PartialEq, Eq)]
pub struct LastTurn {
    pub season: Option<i32>,
    pub day: Option<i32>,
    pub stars: Option<i32>,
}

/// One row of the historical turn log; nullable fields reflect
/// partially populated legacy rows.
#[derive(Clone, Debug, PartialEq)]
pub struct PastTurn {
    pub season: Option<i32>,
    pub day: Option<i32>,
    pub stars: Option<i32>,
    pub mvp: bool,
    pub territory: String,
    pub team: Option<String>,
}

/// How a read query can fail.
#[derive(Clone, Copy, Debug, PartialEq, Eq, Structural)]
pub enum Error {
    /// A query targeting an exact key matched zero rows.
    NotFound,
    /// The underlying record store failed (connectivity, malformed
    /// query, constraint violation).
    StoreError,
}

} // verus!
