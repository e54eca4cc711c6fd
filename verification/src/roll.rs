//! The roll reader: fetch the single roll record filed under a
//! resolved (season, day) coordinate.

use vstd::prelude::*;

use crate::records::Error;
use crate::records::Roll;
use crate::records::RollRow;

verus! {

/// True when the stored row is filed under (`season`, `day`).
pub open spec fn roll_key_matches(row: RollRow, season: i32, day: i32) -> bool {
    row.season == season && row.day == day
}

/// The [`Roll`] served from a stored row: the row's fields, verbatim.
pub open spec fn roll_of(row: RollRow) -> Roll {
    Roll {
        startTime: row.startTime,
        endTime: row.endTime,
        chaosRerolls: row.chaosRerolls,
        chaosWeight: row.chaosWeight,
        territoryRolls: row.territoryRolls,
    }
}

impl Roll {
    /// Fetches the roll filed under (`season`, `day`) from the given
    /// rows. At most one such row is expected; should the store hold
    /// duplicates, the first match wins. The fields come back verbatim:
    /// in particular the per-territory payload is passed through
    /// unmodified. No match fails with [`Error::NotFound`].
    pub fn load(season: i32, day: i32, rows: Vec<RollRow>) -> (r: Result<Roll, Error>)
        ensures
            r matches Ok(roll) ==> exists|i: int|
                {
                    &&& 0 <= i < rows@.len()
                    &&& roll_key_matches(#[trigger] rows@[i], season, day)
                    &&& forall|j: int| 0 <= j < i ==> !roll_key_matches(#[trigger] rows@[j], season, day)
                    &&& roll == roll_of(rows@[i])
                },
            r matches Err(e) ==> {
                &&& e == Error::NotFound
                &&& forall|i: int|
                    0 <= i < rows@.len() ==> !roll_key_matches(#[trigger] rows@[i], season, day)
            },
            r is Ok <==> exists|i: int|
                0 <= i < rows@.len() && roll_key_matches(#[trigger] rows@[i], season, day),
    {
        let mut found: Option<usize> = None;
        let mut i: usize = 0;
        while i < rows.len()
            invariant
                i <= rows@.len(),
                match found {
                    None => forall|j: int|
                        0 <= j < i ==> !roll_key_matches(#[trigger] rows@[j], season, day),
                    Some(k) => {
                        &&& k < i
                        &&& roll_key_matches(rows@[k as int], season, day)
                        &&& forall|j: int|
                            0 <= j < k ==> !roll_key_matches(#[trigger] rows@[j], season, day)
                    },
                },
            decreases rows@.len() - i,
        {
            if found.is_none() && rows[i].season == season && rows[i].day == day {
                found = Some(i);
            }
            i += 1;
        }
        match found {
            Some(k) => {
                let mut remaining = rows;
                let row = remaining.remove(k);
                Ok(
                    Roll {
                        startTime: row.startTime,
                        endTime: row.endTime,
                        chaosRerolls: row.chaosRerolls,
                        chaosWeight: row.chaosWeight,
                        territoryRolls: row.territoryRolls,
                    },
                )
            },
            None => Err(Error::NotFound),
        }
    }
}

} // verus!
