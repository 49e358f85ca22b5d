use booty_hunt::db::Db;
use booty_hunt::error::AppError;
use booty_hunt::models::tide_calendar::TideContribution;
use booty_hunt::selector::{derive_omen_index, OMEN_COUNT};
use booty_hunt::services::tide_calendar::{
    contribute_tide, contribute_tide_at, get_tide_omen, get_tide_omen_for, modifiers_from,
    omen_at, omen_for_week, omen_from_row, settled_omen,
};
use booty_hunt::store::OmenRow;
use rusqlite::types::Value;
use std::collections::HashMap;

fn omens_stored(db: &Db) -> i64 {
    db.with_conn(|conn| conn.query_row("SELECT COUNT(*) FROM tide_omens", [], |row| row.get(0)))
        .unwrap()
}

#[test]
fn catalog_has_seven_omens_in_order() {
    assert_eq!(OMEN_COUNT, 7);
    let expected = [
        ("red_tide", "Red Tide", r#"{"armed_percent_bonus":0.10,"speed_multiplier":1.05}"#),
        ("dead_calm", "Dead Calm", r#"{"speed_multiplier":0.85,"gold_multiplier":1.15}"#),
        ("storm_season", "Storm Season", r#"{"force_weather":"stormy","damage_multiplier":1.10}"#),
        ("ghost_moon", "Ghost Moon", r#"{"force_weather":"night","ghost_chance":0.20}"#),
        ("golden_current", "Golden Current", r#"{"gold_multiplier":1.25,"health_multiplier":0.90}"#),
        ("fog_bank", "Fog Bank", r#"{"force_weather":"foggy","vision_multiplier":0.70}"#),
        ("fair_winds", "Fair Winds", r#"{"speed_multiplier":1.10,"health_multiplier":1.05}"#),
    ];
    for (i, (id, name, modifiers)) in expected.into_iter().enumerate() {
        let omen = omen_at(i).unwrap();
        assert_eq!(omen.id, id);
        assert_eq!(omen.name, name);
        assert_eq!(omen.modifiers, modifiers);
    }
    assert!(omen_at(7).is_none());
    assert!(omen_at(usize::MAX).is_none());
}

#[test]
fn every_catalog_entry_has_two_modifiers() {
    for i in 0..OMEN_COUNT {
        let omen = omen_at(i).unwrap();
        let parsed: HashMap<String, serde_json::Value> =
            serde_json::from_str(omen.modifiers).unwrap();
        assert_eq!(parsed.len(), 2);
    }
}

#[test]
fn omen_of_known_weeks() {
    assert_eq!(omen_for_week("2024-W01").id, "golden_current");
    assert_eq!(omen_for_week("2023-W52").id, "fog_bank");
    assert_eq!(omen_for_week("2020-W53").id, "red_tide");
    assert_eq!(omen_for_week("1970-W01").id, "dead_calm");
    assert_eq!(omen_for_week("2026-W44").name, "Golden Current");
}

#[test]
fn omen_is_the_catalog_entry_at_the_derived_place() {
    for year in 2020..2030 {
        for week in 1..=53 {
            let key = format!("{}-W{:02}", year, week);
            let index = derive_omen_index(&key);
            assert!(index < 7);
            assert_eq!(omen_for_week(&key).id, omen_at(index).unwrap().id);
            assert_eq!(omen_for_week(&key).id, omen_for_week(&key).id);
        }
    }
}

#[test]
fn omen_is_created_on_first_access_and_kept() {
    let mut db = Db::open_in_memory().unwrap();
    assert_eq!(omens_stored(&db), 0);
    let omen = get_tide_omen_for(&mut db, "2024-W01".into()).unwrap();
    assert_eq!(omen.week_key, "2024-W01");
    assert_eq!(omen.omen_id, "golden_current");
    assert_eq!(omen.omen_name, "Golden Current");
    assert_eq!(omen.modifiers.len(), 2);
    assert_eq!(omen.modifiers["gold_multiplier"], serde_json::Value::from(1.25));
    assert_eq!(omen.modifiers["health_multiplier"], serde_json::Value::from(0.90));
    assert_eq!(omens_stored(&db), 1);
    let again = get_tide_omen_for(&mut db, "2024-W01".into()).unwrap();
    assert_eq!(again.omen_id, omen.omen_id);
    assert_eq!(again.omen_name, omen.omen_name);
    assert_eq!(again.modifiers, omen.modifiers);
    assert_eq!(omens_stored(&db), 1);
    let other = get_tide_omen_for(&mut db, "2023-W52".into()).unwrap();
    assert_eq!(other.omen_id, "fog_bank");
    assert_eq!(other.modifiers["force_weather"], serde_json::Value::from("foggy"));
    assert_eq!(omens_stored(&db), 2);
}

#[test]
fn stored_omen_wins_over_the_derived_one() {
    let mut db = Db::open_in_memory().unwrap();
    db.with_conn(|conn| {
        conn.execute(
            "INSERT INTO tide_omens (week_key, omen_id, omen_name, modifiers) \
             VALUES ('2024-W01', 'red_tide', 'Red Tide', '{\"x\":\"y\"}')",
            (),
        )
    })
    .unwrap();
    let omen = get_tide_omen_for(&mut db, "2024-W01".into()).unwrap();
    assert_eq!(omen.omen_id, "red_tide");
    assert_eq!(omen.modifiers.len(), 1);
    assert_eq!(omen.modifiers["x"], serde_json::Value::from("y"));
    assert_eq!(omens_stored(&db), 1);
}

#[test]
fn current_omen_is_stable() {
    let mut db = Db::open_in_memory().unwrap();
    let a = get_tide_omen(&mut db).unwrap();
    let b = get_tide_omen(&mut db).unwrap();
    assert_eq!(a.week_key, b.week_key);
    assert_eq!(a.omen_id, b.omen_id);
    assert_eq!(a.omen_id, omen_for_week(&a.week_key).id);
    assert_eq!(omens_stored(&db), 1);
}

#[test]
fn modifiers_that_do_not_parse_are_empty() {
    let row = |text: &str| OmenRow {
        omen_id: "id".into(),
        omen_name: "name".into(),
        modifiers: text.into(),
    };
    let omen = omen_from_row("2024-W01".into(), row("not json"));
    assert_eq!(omen.week_key, "2024-W01");
    assert_eq!(omen.omen_id, "id");
    assert_eq!(omen.omen_name, "name");
    assert!(omen.modifiers.is_empty());
    assert!(omen_from_row("w".into(), row("[1,2]")).modifiers.is_empty());
    assert!(omen_from_row("w".into(), row("")).modifiers.is_empty());
    assert!(omen_from_row("w".into(), row("{}")).modifiers.is_empty());
    let omen = omen_from_row("w".into(), row(r#"{"a":1,"b":"two","c":null}"#));
    assert_eq!(omen.modifiers.len(), 3);
    assert_eq!(omen.modifiers["a"], serde_json::Value::from(1));
    assert_eq!(omen.modifiers["b"], serde_json::Value::from("two"));
    assert_eq!(omen.modifiers["c"], serde_json::Value::Null);
}

#[test]
fn modifiers_from_answers_for_every_reading() {
    let failure = serde_json::from_str::<HashMap<String, serde_json::Value>>("?").unwrap_err();
    assert!(modifiers_from(Err(failure)).is_empty());
    let mut members = HashMap::new();
    members.insert("k".to_string(), serde_json::Value::from(true));
    assert_eq!(modifiers_from(Ok(members.clone())), members);
}

#[test]
fn settled_omen_answers_for_every_reading() {
    let row = OmenRow {
        omen_id: "fog_bank".into(),
        omen_name: "Fog Bank".into(),
        modifiers: r#"{"force_weather":"foggy"}"#.into(),
    };
    let omen = settled_omen("2024-W05".into(), Some(row)).unwrap();
    assert_eq!(omen.week_key, "2024-W05");
    assert_eq!(omen.omen_id, "fog_bank");
    assert_eq!(omen.omen_name, "Fog Bank");
    assert_eq!(omen.modifiers.len(), 1);
    assert!(matches!(
        settled_omen("2024-W05".into(), None),
        Err(AppError::Internal(m)) if m == "Tide omen missing after insert"
    ));
}

#[test]
fn contributions_are_appended() {
    let mut db = Db::open_in_memory().unwrap();
    let sample = |metric: &str, value: Value| TideContribution { metric: metric.into(), value };
    assert!(contribute_tide(&mut db, sample("ships_destroyed", Value::Real(42.0))).unwrap().accepted);
    assert!(contribute_tide(&mut db, sample("ships_destroyed", Value::Real(42.0))).unwrap().accepted);
    assert!(contribute_tide(&mut db, sample("", Value::Real(-1.5))).unwrap().accepted);
    let res =
        contribute_tide_at(&mut db, sample("gold", Value::Real(7.25)), "c-1".into(), "2024-W01".into())
            .unwrap();
    assert!(res.accepted);
    let count: i64 = db
        .with_conn(|conn| {
            conn.query_row("SELECT COUNT(*) FROM tide_contributions", [], |row| row.get(0))
        })
        .unwrap();
    assert_eq!(count, 4);
    let stored: (String, String, f64) = db
        .with_conn(|conn| {
            conn.query_row(
                "SELECT week_key, metric, value FROM tide_contributions WHERE id = 'c-1'",
                [],
                |row| Ok((row.get(0)?, row.get(1)?, row.get(2)?)),
            )
        })
        .unwrap();
    assert_eq!(stored, ("2024-W01".to_string(), "gold".to_string(), 7.25));
}

#[test]
fn contribution_under_a_taken_identifier_is_a_storage_error() {
    let mut db = Db::open_in_memory().unwrap();
    let sample = || TideContribution { metric: "m".into(), value: Value::Real(1.0) };
    contribute_tide_at(&mut db, sample(), "c-1".into(), "2024-W01".into()).unwrap();
    let again = contribute_tide_at(&mut db, sample(), "c-1".into(), "2024-W01".into());
    assert!(matches!(again, Err(AppError::Db(_))));
}

#[test]
fn tide_store_failure_is_a_storage_error() {
    let mut db = Db::open_in_memory().unwrap();
    db.with_conn(|conn| conn.execute_batch("DROP TABLE tide_omens; DROP TABLE tide_contributions;"))
        .unwrap();
    assert!(matches!(get_tide_omen(&mut db), Err(AppError::Db(_))));
    let sample = TideContribution { metric: "m".into(), value: Value::Real(1.0) };
    assert!(matches!(contribute_tide(&mut db, sample), Err(AppError::Db(_))));
}
