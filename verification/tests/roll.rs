use turn_model::Error;
use turn_model::Roll;
use turn_model::RollRow;

fn row(season: i32, day: i32, start: &str, payload: serde_json::Value) -> RollRow {
    RollRow {
        season,
        day,
        startTime: start.to_string(),
        endTime: "2020-01-02T00:00:00".to_string(),
        chaosRerolls: 2,
        chaosWeight: 5,
        territoryRolls: payload,
    }
}

#[test]
fn no_matching_row_is_not_found() {
    let rows = vec![row(1, 1, "a", serde_json::Value::Null)];
    assert_eq!(Roll::load(2, 1, rows), Err(Error::NotFound));
    assert_eq!(Roll::load(1, 1, Vec::new()), Err(Error::NotFound));
}

#[test]
fn matching_row_comes_back_verbatim() {
    let payload: serde_json::Value =
        serde_json::from_str("{\"territory\":\"Alpha\",\"winner\":3}").unwrap();
    let rows = vec![
        row(1, 1, "first", serde_json::Value::Null),
        row(2, 7, "second", payload.clone()),
    ];
    let roll = Roll::load(2, 7, rows).unwrap();
    assert_eq!(roll.startTime, "second");
    assert_eq!(roll.endTime, "2020-01-02T00:00:00");
    assert_eq!(roll.chaosRerolls, 2);
    assert_eq!(roll.chaosWeight, 5);
    assert_eq!(roll.territoryRolls, payload);
}

#[test]
fn duplicate_keys_first_row_wins() {
    let rows = vec![
        row(3, 3, "early", serde_json::Value::Bool(true)),
        row(3, 3, "late", serde_json::Value::Bool(false)),
    ];
    let roll = Roll::load(3, 3, rows).unwrap();
    assert_eq!(roll.startTime, "early");
    assert_eq!(roll.territoryRolls, serde_json::Value::Bool(true));
}

#[test]
fn both_coordinates_must_match() {
    let rows = vec![
        row(4, 9, "a", serde_json::Value::Null),
        row(9, 4, "b", serde_json::Value::Null),
    ];
    assert_eq!(Roll::load(4, 4, rows), Err(Error::NotFound));
}
