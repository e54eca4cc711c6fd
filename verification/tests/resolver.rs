use turn_model::Error;
use turn_model::Latest;
use turn_model::Resolution;
use turn_model::TurnInfo;

fn turn(
    id: i32,
    season: Option<i32>,
    day: Option<i32>,
    complete: Option<bool>,
    active: Option<bool>,
) -> TurnInfo {
    TurnInfo {
        id,
        season,
        day,
        complete,
        active,
        finale: Some(false),
        rollTime: None,
    }
}

#[test]
fn empty_table_resolves_to_zero_zero() {
    let rows: Vec<TurnInfo> = Vec::new();
    assert_eq!(Latest::latest(&rows), Latest { season: 0, day: 0 });
}

#[test]
fn all_null_seasons_resolve_to_zero_zero() {
    let rows = vec![
        turn(1, None, Some(4), Some(false), Some(true)),
        turn(2, None, None, None, None),
    ];
    assert_eq!(Latest::latest(&rows), Latest { season: 0, day: 0 });
}

#[test]
fn active_incomplete_day_wins() {
    // A single active-incomplete row: the in-progress day is returned.
    let rows = vec![turn(1, Some(3), Some(2), Some(false), Some(true))];
    assert_eq!(Latest::latest(&rows), Latest { season: 3, day: 2 });
}

#[test]
fn max_season_wins_even_without_active_row_there() {
    // Season 2 has no active-incomplete row, so its greatest day is used.
    let rows = vec![
        turn(1, Some(1), Some(5), Some(true), Some(false)),
        turn(2, Some(1), Some(6), Some(false), Some(true)),
        turn(3, Some(2), Some(1), Some(false), Some(false)),
    ];
    assert_eq!(Latest::latest(&rows), Latest { season: 2, day: 1 });
}

#[test]
fn min_of_several_active_days() {
    let rows = vec![
        turn(1, Some(4), Some(9), Some(false), Some(true)),
        turn(2, Some(4), Some(7), Some(false), Some(true)),
        turn(3, Some(4), Some(8), Some(false), Some(true)),
        turn(4, Some(3), Some(1), Some(false), Some(true)),
    ];
    assert_eq!(Latest::latest(&rows), Latest { season: 4, day: 7 });
}

#[test]
fn season_with_only_null_days_resolves_to_day_zero() {
    let rows = vec![
        turn(1, Some(5), None, Some(false), Some(true)),
        turn(2, Some(5), None, None, None),
    ];
    assert_eq!(Latest::latest(&rows), Latest { season: 5, day: 0 });
}

#[test]
fn incomplete_but_inactive_day_is_not_in_progress() {
    // complete = false alone does not make a day current: active must be true.
    let rows = vec![
        turn(1, Some(2), Some(3), Some(false), Some(false)),
        turn(2, Some(2), Some(1), Some(true), Some(false)),
    ];
    assert_eq!(Latest::latest(&rows), Latest { season: 2, day: 3 });
}

#[test]
fn rows_of_lower_seasons_do_not_leak_into_the_day() {
    let rows = vec![
        turn(1, Some(1), Some(50), Some(true), Some(false)),
        turn(2, Some(2), Some(4), Some(true), Some(false)),
    ];
    assert_eq!(Latest::latest(&rows), Latest { season: 2, day: 4 });
}

#[test]
fn season_step_decides_each_outcome() {
    assert_eq!(
        Latest::from_season(Err(Error::StoreError)),
        Resolution::Failed(Error::StoreError)
    );
    assert_eq!(
        Latest::from_season(Ok(None)),
        Resolution::Done(Latest { season: 0, day: 0 })
    );
    assert_eq!(Latest::from_season(Ok(Some(7))), Resolution::NeedActiveDay(7));
}

#[test]
fn active_day_step_decides_each_outcome() {
    assert_eq!(
        Latest::from_active_day(7, Err(Error::StoreError)),
        Resolution::Failed(Error::StoreError)
    );
    assert_eq!(
        Latest::from_active_day(7, Ok(Some(3))),
        Resolution::Done(Latest { season: 7, day: 3 })
    );
    assert_eq!(
        Latest::from_active_day(7, Ok(None)),
        Resolution::NeedFallbackDay(7)
    );
}

#[test]
fn failed_fallback_query_coerces_day_to_zero() {
    // The one deliberate deviation: a failure in the fallback tier is
    // not propagated, the day defaults to zero instead.
    assert_eq!(
        Latest::from_fallback_day(6, Err(Error::StoreError)),
        Latest { season: 6, day: 0 }
    );
}

#[test]
fn fallback_step_takes_the_day_or_zero() {
    assert_eq!(
        Latest::from_fallback_day(6, Ok(Some(11))),
        Latest { season: 6, day: 11 }
    );
    assert_eq!(
        Latest::from_fallback_day(6, Ok(None)),
        Latest { season: 6, day: 0 }
    );
}

#[test]
fn aggregates_ignore_null_columns() {
    let rows = vec![
        turn(1, None, Some(99), Some(false), Some(true)),
        turn(2, Some(2), None, Some(false), Some(true)),
        turn(3, Some(2), Some(5), Some(false), Some(true)),
    ];
    assert_eq!(turn_model::max_season(&rows), Some(2));
    assert_eq!(turn_model::min_active_day(&rows, 2), Some(5));
    assert_eq!(turn_model::max_day_in(&rows, 2), Some(5));
    assert_eq!(turn_model::max_day_in(&rows, 1), None);
}
