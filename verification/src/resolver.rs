//! The latest-pointer resolver: from a snapshot of the turn table,
//! compute the single (season, day) coordinate the rest of the system
//! treats as authoritative.
//!
//! The policy is a three-tier fallback. Tier one finds the greatest
//! season mentioned by any row. Tier two looks for the least day of
//! that season still being actively played (`complete = false`,
//! `active = true`). Tier three, when no such day exists, falls back to
//! the greatest day seen in that season, and to zero when even that is
//! absent or its query fails. The resolver never yields an absent
//! season or day: zero is the documented default.

use vstd::prelude::*;

use crate::records::Error;
use crate::records::Latest;
use crate::records::TurnInfo;

verus! {

/// True when some row records season `s`.
pub open spec fn season_attained(rows: Seq<TurnInfo>, s: i32) -> bool {
    exists|i: int| 0 <= i < rows.len() && rows[i].season == Some(s)
}

/// True when no recorded season exceeds `s`.
pub open spec fn season_bounded(rows: Seq<TurnInfo>, s: i32) -> bool {
    forall|i: int| 0 <= i < rows.len() && rows[i].season is Some ==> rows[i].season->0 <= s
}

/// True when `s` is the greatest season recorded by any row.
pub open spec fn is_max_season(rows: Seq<TurnInfo>, s: i32) -> bool {
    season_attained(rows, s) && season_bounded(rows, s)
}

/// True when some row records a season at all.
pub open spec fn has_season(rows: Seq<TurnInfo>) -> bool {
    exists|i: int| 0 <= i < rows.len() && rows[i].season is Some
}

/// The store filter behind tier two: the row belongs to season `s` and
/// is flagged as not complete yet actively played. An absent flag fails
/// the filter, as an absent column fails an equality test in the store.
pub open spec fn active_incomplete_in(t: TurnInfo, s: i32) -> bool {
    t.season == Some(s) && t.complete == Some(false) && t.active == Some(true)
}

/// True when season `s` has an active-incomplete row with a recorded day.
pub open spec fn has_active_day(rows: Seq<TurnInfo>, s: i32) -> bool {
    exists|i: int| 0 <= i < rows.len() && active_incomplete_in(rows[i], s) && rows[i].day is Some
}

/// True when `d` is the least day recorded on an active-incomplete row
/// of season `s`.
pub open spec fn is_min_active_day(rows: Seq<TurnInfo>, s: i32, d: i32) -> bool {
    &&& exists|i: int|
        0 <= i < rows.len() && active_incomplete_in(rows[i], s) && rows[i].day == Some(d)
    &&& forall|i: int|
        0 <= i < rows.len() && active_incomplete_in(rows[i], s) && rows[i].day is Some
            ==> d <= rows[i].day->0
}

/// True when some row of season `s` records a day.
pub open spec fn has_day_in(rows: Seq<TurnInfo>, s: i32) -> bool {
    exists|i: int| 0 <= i < rows.len() && rows[i].season == Some(s) && rows[i].day is Some
}

/// True when `d` is the greatest day recorded by any row of season `s`.
pub open spec fn is_max_day_in(rows: Seq<TurnInfo>, s: i32, d: i32) -> bool {
    &&& exists|i: int| 0 <= i < rows.len() && rows[i].season == Some(s) && rows[i].day == Some(d)
    &&& forall|i: int|
        0 <= i < rows.len() && rows[i].season == Some(s) && rows[i].day is Some
            ==> rows[i].day->0 <= d
}

/// The tier-one aggregate: the greatest recorded season, or `None` when
/// no row records one. Rows with an absent season are ignored, as the
/// store's aggregate ignores absent values.
pub fn max_season(rows: &Vec<TurnInfo>) -> (r: Option<i32>)
    ensures
        r is None ==> !has_season(rows@),
        r matches Some(s) ==> is_max_season(rows@, s),
{
    let mut best: Option<i32> = None;
    let mut i: usize = 0;
    while i < rows.len()
        invariant
            i <= rows@.len(),
            best is None ==> forall|j: int| 0 <= j < i ==> rows@[j].season !is Some,
            best matches Some(s) ==> {
                &&& exists|j: int| 0 <= j < i && rows@[j].season == Some(s)
                &&& forall|j: int|
                    0 <= j < i && rows@[j].season is Some ==> rows@[j].season->0 <= s
            },
        decreases rows@.len() - i,
    {
        if let Some(v) = rows[i].season {
            match best {
                None => best = Some(v),
                Some(b) => {
                    if v > b {
                        best = Some(v);
                    }
                },
            }
        }
        i += 1;
    }
    best
}

/// The tier-two aggregate: the least day recorded on an
/// active-incomplete row of season `season`, or `None` when no such row
/// records a day.
pub fn min_active_day(rows: &Vec<TurnInfo>, season: i32) -> (r: Option<i32>)
    ensures
        r is None ==> !has_active_day(rows@, season),
        r matches Some(d) ==> is_min_active_day(rows@, season, d),
{
    let mut best: Option<i32> = None;
    let mut i: usize = 0;
    while i < rows.len()
        invariant
            i <= rows@.len(),
            best is None ==> forall|j: int|
                0 <= j < i && active_incomplete_in(rows@[j], season) ==> rows@[j].day !is Some,
            best matches Some(d) ==> {
                &&& exists|j: int|
                    0 <= j < i && active_incomplete_in(rows@[j], season)
                        && rows@[j].day == Some(d)
                &&& forall|j: int|
                    0 <= j < i && active_incomplete_in(rows@[j], season) && rows@[j].day is Some
                        ==> d <= rows@[j].day->0
            },
        decreases rows@.len() - i,
    {
        let row = rows[i];
        let matches_filter = match (row.season, row.complete, row.active) {
            (Some(s), Some(c), Some(a)) => s == season && !c && a,
            _ => false,
        };
        if matches_filter {
            if let Some(v) = row.day {
                match best {
                    None => best = Some(v),
                    Some(b) => {
                        if v < b {
                            best = Some(v);
                        }
                    },
                }
            }
        }
        i += 1;
    }
    best
}

/// The tier-three aggregate: the greatest day recorded by any row of
/// season `season`, or `None` when no row of that season records one.
pub fn max_day_in(rows: &Vec<TurnInfo>, season: i32) -> (r: Option<i32>)
    ensures
        r is None ==> !has_day_in(rows@, season),
        r matches Some(d) ==> is_max_day_in(rows@, season, d),
{
    let mut best: Option<i32> = None;
    let mut i: usize = 0;
    while i < rows.len()
        invariant
            i <= rows@.len(),
            best is None ==> forall|j: int|
                0 <= j < i && rows@[j].season == Some(season) ==> rows@[j].day !is Some,
            best matches Some(d) ==> {
                &&& exists|j: int|
                    0 <= j < i && rows@[j].season == Some(season) && rows@[j].day == Some(d)
                &&& forall|j: int|
                    0 <= j < i && rows@[j].season == Some(season) && rows@[j].day is Some
                        ==> rows@[j].day->0 <= d
            },
        decreases rows@.len() - i,
    {
        let row = rows[i];
        let in_season = match row.season {
            Some(s) => s == season,
            None => false,
        };
        if in_season {
            if let Some(v) = row.day {
                match best {
                    None => best = Some(v),
                    Some(b) => {
                        if v > b {
                            best = Some(v);
                        }
                    },
                }
            }
        }
        i += 1;
    }
    best
}

/// What a resolution in progress asks for next. The store's aggregate
/// queries run outside this layer; each answer is handed back to the
/// step functions below, which decide the next query or the result.
#[derive(Clone, Copy, Debug, PartialEq, Eq, Structural)]
pub enum Resolution {
    /// The pointer is resolved.
    Done(Latest),
    /// A tier-one or tier-two query failed; the call fails with this error.
    Failed(Error),
    /// Run the tier-two query: least active-incomplete day of this season.
    NeedActiveDay(i32),
    /// Run the tier-three query: greatest day recorded in this season.
    NeedFallbackDay(i32),
}

impl Latest {
    /// Decides on the outcome of the tier-one query, `MAX(season)` over
    /// every turn row. A failure fails the whole resolution; an absent
    /// maximum is the bootstrap case and resolves to (0, 0); a season
    /// sends the resolution on to tier two.
    pub fn from_season(outcome: Result<Option<i32>, Error>) -> (r: Resolution)
        ensures
            outcome matches Err(e) ==> r == Resolution::Failed(e),
            outcome matches Ok(None) ==> r == (Resolution::Done(Latest { season: 0, day: 0 })),
            outcome matches Ok(Some(s)) ==> r == Resolution::NeedActiveDay(s),
    {
        match outcome {
            Err(e) => Resolution::Failed(e),
            Ok(None) => Resolution::Done(Latest { season: 0, day: 0 }),
            Ok(Some(s)) => Resolution::NeedActiveDay(s),
        }
    }

    /// Decides on the outcome of the tier-two query, `MIN(day)` over the
    /// active-incomplete rows of `season`. A failure fails the whole
    /// resolution; a day is the in-progress day and resolves the
    /// pointer; an absent minimum sends the resolution on to tier three.
    pub fn from_active_day(season: i32, outcome: Result<Option<i32>, Error>) -> (r: Resolution)
        ensures
            outcome matches Err(e) ==> r == Resolution::Failed(e),
            outcome matches Ok(Some(d)) ==> r == (Resolution::Done(Latest { season, day: d })),
            outcome matches Ok(None) ==> r == Resolution::NeedFallbackDay(season),
    {
        match outcome {
            Err(e) => Resolution::Failed(e),
            Ok(Some(d)) => Resolution::Done(Latest { season, day: d }),
            Ok(None) => Resolution::NeedFallbackDay(season),
        }
    }

    /// Decides on the outcome of the tier-three query, `MAX(day)` over
    /// the rows of `season`. This tier exists to supply a default, so it
    /// never fails: an absent maximum and a failed query both coerce the
    /// day to zero rather than propagating an error.
    pub fn from_fallback_day(season: i32, outcome: Result<Option<i32>, Error>) -> (r: Latest)
        ensures
            outcome matches Ok(Some(d)) ==> r == (Latest { season, day: d }),
            outcome matches Ok(None) ==> r == (Latest { season, day: 0 }),
            outcome is Err ==> r == (Latest { season, day: 0 }),
    {
        match outcome {
            Ok(Some(d)) => Latest { season, day: d },
            _ => Latest { season, day: 0 },
        }
    }

    /// Resolves the latest pointer from a snapshot of the turn table,
    /// feeding each aggregate into the step functions above. Against an
    /// in-memory snapshot no query can fail, so the result is always a
    /// pointer: the in-progress day of the greatest season when one is
    /// flagged, else the greatest day seen in that season, else zero.
    pub fn latest(rows: &Vec<TurnInfo>) -> (r: Latest)
        ensures
            !has_season(rows@) ==> r == (Latest { season: 0, day: 0 }),
            has_season(rows@) ==> is_max_season(rows@, r.season),
            forall|s: i32, d: i32|
                is_max_season(rows@, s) && is_min_active_day(rows@, s, d) ==> r == (Latest {
                    season: s,
                    day: d,
                }),
            forall|s: i32, d: i32|
                is_max_season(rows@, s) && !has_active_day(rows@, s) && is_max_day_in(
                    rows@,
                    s,
                    d,
                ) ==> r == (Latest { season: s, day: d }),
            forall|s: i32|
                is_max_season(rows@, s) && !has_active_day(rows@, s) && !has_day_in(
                    rows@,
                    s,
                ) ==> r == (Latest { season: s, day: 0 }),
    {
        let season_outcome: Result<Option<i32>, Error> = Ok(max_season(rows));
        match Latest::from_season(season_outcome) {
            Resolution::Done(l) => l,
            Resolution::NeedActiveDay(s) => {
                let day_outcome: Result<Option<i32>, Error> = Ok(min_active_day(rows, s));
                match Latest::from_active_day(s, day_outcome) {
                    Resolution::Done(l) => l,
                    Resolution::NeedFallbackDay(s2) => {
                        let fallback_outcome: Result<Option<i32>, Error> = Ok(
                            max_day_in(rows, s2),
                        );
                        Latest::from_fallback_day(s2, fallback_outcome)
                    },
                    _ => {
                        proof {
                            assert(false);
                        }
                        Latest { season: 0, day: 0 }
                    },
                }
            },
            _ => {
                proof {
                    assert(false);
                }
                Latest { season: 0, day: 0 }
            },
        }
    }
}

} // verus!
