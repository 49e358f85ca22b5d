//! The tide ledger: the omen of each week and the samples that players
//! contribute.

use vstd::prelude::*;
use std::collections::HashMap;
use crate::clock::{
    in_calendar, next_week_start, now, week_index, week_key_at, week_key_of, week_start,
};
use crate::db::Db;
use crate::error::AppError;
use crate::ids::new_id;
use crate::journal::{Exchange, OmenRecord, SampleRecord};
use crate::models::tide_calendar::{TideContributeResult, TideContribution, TideOmen};
use crate::selector::{derive_omen_index, omen_index, OMEN_COUNT};
use crate::store::OmenRow;

verus! {

/// One entry of the omen catalog.
#[derive(Clone, Copy, Debug)]
pub struct OmenDef {
    /// The identifier of the omen.
    pub id: &'static str,
    /// The name under which the omen is shown.
    pub name: &'static str,
    /// The modifier set of the omen, a JSON object from modifier name to
    /// effect value.
    pub modifiers: &'static str,
}

/// The characters of a catalog entry: identifier, name, modifier set.
pub open spec fn omen_text(omen: OmenDef) -> (Seq<char>, Seq<char>, Seq<char>) {
    (omen.id@, omen.name@, omen.modifiers@)
}

/// The omen catalog. Its order is part of the selection: entries may be
/// added at the end, and none may move or leave.
pub open spec fn omen_catalog() -> Seq<(Seq<char>, Seq<char>, Seq<char>)> {
    seq![
        ("red_tide"@, "Red Tide"@, r#"{"armed_percent_bonus":0.10,"speed_multiplier":1.05}"#@),
        ("dead_calm"@, "Dead Calm"@, r#"{"speed_multiplier":0.85,"gold_multiplier":1.15}"#@),
        (
            "storm_season"@,
            "Storm Season"@,
            r#"{"force_weather":"stormy","damage_multiplier":1.10}"#@,
        ),
        ("ghost_moon"@, "Ghost Moon"@, r#"{"force_weather":"night","ghost_chance":0.20}"#@),
        (
            "golden_current"@,
            "Golden Current"@,
            r#"{"gold_multiplier":1.25,"health_multiplier":0.90}"#@,
        ),
        ("fog_bank"@, "Fog Bank"@, r#"{"force_weather":"foggy","vision_multiplier":0.70}"#@),
        ("fair_winds"@, "Fair Winds"@, r#"{"speed_multiplier":1.10,"health_multiplier":1.05}"#@),
    ]
}

/// The catalog entry at a place, if the catalog reaches that far.
pub fn omen_at(index: usize) -> (entry: Option<OmenDef>)
    ensures
        omen_catalog().len() == OMEN_COUNT,
        index < OMEN_COUNT ==> entry is Some && omen_text(entry->Some_0) == omen_catalog()[index as int],
        index >= OMEN_COUNT ==> entry is None,
{
    if index >= OMEN_COUNT {
        return None;
    }
    Some(entry_at(index))
}

/// The catalog entry at a place of the catalog.
fn entry_at(index: usize) -> (omen: OmenDef)
    requires
        index < OMEN_COUNT,
    ensures
        omen_catalog().len() == OMEN_COUNT,
        omen_text(omen) == omen_catalog()[index as int],
{
    if index == 0 {
        OmenDef {
            id: "red_tide",
            name: "Red Tide",
            modifiers: r#"{"armed_percent_bonus":0.10,"speed_multiplier":1.05}"#,
        }
    } else if index == 1 {
        OmenDef {
            id: "dead_calm",
            name: "Dead Calm",
            modifiers: r#"{"speed_multiplier":0.85,"gold_multiplier":1.15}"#,
        }
    } else if index == 2 {
        OmenDef {
            id: "storm_season",
            name: "Storm Season",
            modifiers: r#"{"force_weather":"stormy","damage_multiplier":1.10}"#,
        }
    } else if index == 3 {
        OmenDef {
            id: "ghost_moon",
            name: "Ghost Moon",
            modifiers: r#"{"force_weather":"night","ghost_chance":0.20}"#,
        }
    } else if index == 4 {
        OmenDef {
            id: "golden_current",
            name: "Golden Current",
            modifiers: r#"{"gold_multiplier":1.25,"health_multiplier":0.90}"#,
        }
    } else if index == 5 {
        OmenDef {
            id: "fog_bank",
            name: "Fog Bank",
            modifiers: r#"{"force_weather":"foggy","vision_multiplier":0.70}"#,
        }
    } else {
        OmenDef {
            id: "fair_winds",
            name: "Fair Winds",
            modifiers: r#"{"speed_multiplier":1.10,"health_multiplier":1.05}"#,
        }
    }
}

/// The omen that a week key selects: the catalog entry at the place that the
/// week's digest picks.
pub fn omen_for_week(week_key: &str) -> (omen: OmenDef)
    ensures
        0 <= omen_index(week_key@) < omen_catalog().len(),
        omen_text(omen) == omen_catalog()[omen_index(week_key@)],
{
    entry_at(derive_omen_index(week_key))
}

/// The members of the JSON object that a text spells, as `serde_json` reads
/// them; `None` where it does not read the text as an object.
pub uninterp spec fn json_members(text: Seq<char>) -> Option<Map<String, serde_json::Value>>;

/// The members of a reading that succeeded.
pub open spec fn members_of(
    r: Result<HashMap<String, serde_json::Value>, serde_json::Error>,
) -> Option<Map<String, serde_json::Value>> {
    match r {
        Ok(members) => Some(members@),
        Err(_) => None,
    }
}

/// Reads a JSON object with `serde_json::from_str`. The members are named,
/// not described.
#[verifier::external_body]
fn parse_json_object(text: &str) -> (r: Result<
    HashMap<String, serde_json::Value>,
    serde_json::Error,
>)
    ensures
        members_of(r) == json_members(text@),
{
    serde_json::from_str(text)
}

/// The modifier set that a stored text stands for: the members of its JSON
/// object, and no modifiers where the text is not one.
pub open spec fn modifiers_of(text: Seq<char>) -> Map<String, serde_json::Value> {
    match json_members(text) {
        Some(members) => members,
        None => Map::empty(),
    }
}

/// Makes a modifier set of a reading: its members, and no modifiers where
/// the reading failed.
pub fn modifiers_from(
    reading: Result<HashMap<String, serde_json::Value>, serde_json::Error>,
) -> (modifiers: HashMap<String, serde_json::Value>)
    ensures
        modifiers@ == match members_of(reading) {
            Some(members) => members,
            None => Map::empty(),
        },
{
    match reading {
        Ok(members) => members,
        Err(_) => HashMap::new(),
    }
}

/// What is made of an omen that the store holds for a week: the week key,
/// the identifier and the name as they are stored, and the modifier set that
/// the stored text stands for.
pub open spec fn omen_read(week_key: Seq<char>, row: OmenRow, omen: TideOmen) -> bool {
    &&& omen.week_key@ == week_key
    &&& omen.omen_id == row.omen_id
    &&& omen.omen_name == row.omen_name
    &&& omen.modifiers@ == modifiers_of(row.modifiers@)
}

/// The omen that a stored row stands for in a week.
pub fn omen_from_row(week_key: String, row: OmenRow) -> (omen: TideOmen)
    ensures
        omen.week_key == week_key,
        omen_read(week_key@, row, omen),
{
    let modifiers = modifiers_from(parse_json_object(row.modifiers.as_str()));
    TideOmen { week_key, omen_id: row.omen_id, omen_name: row.omen_name, modifiers }
}

/// The omen of a week once the store was asked again after the offer: the
/// one read again. A week without an omen after its offer is an internal
/// error.
pub open spec fn omen_read_again(
    week_key: Seq<char>,
    read_again: Option<OmenRow>,
    r: Result<TideOmen, AppError>,
) -> bool {
    match read_again {
        Some(row) => r is Ok && omen_read(week_key, row, r->Ok_0),
        None => r is Err && r->Err_0.is_internal("Tide omen missing after insert"@),
    }
}

/// Answers the second reading of a tide omen.
pub fn settled_omen(week_key: String, read_again: Option<OmenRow>) -> (r: Result<
    TideOmen,
    AppError,
>)
    ensures
        omen_read_again(week_key@, read_again, r),
        r matches Ok(omen) ==> omen.week_key == week_key,
{
    match read_again {
        Some(row) => Ok(omen_from_row(week_key, row)),
        None => Err(AppError::internal("Tide omen missing after insert")),
    }
}

/// What the library offers the store for a week without an omen: the catalog
/// entry that the week key selects.
pub open spec fn omen_offer(week_key: Seq<char>) -> OmenRecord {
    OmenRecord {
        week_key,
        omen_id: omen_catalog()[omen_index(week_key)].0,
        omen_name: omen_catalog()[omen_index(week_key)].1,
        modifiers: omen_catalog()[omen_index(week_key)].2,
    }
}

/// What passes between library and store when the omen of a week is fetched,
/// and what comes of it. The store is asked for the omen of the week. Where
/// it has one, that is the omen. Where it has none, it is offered the omen
/// that the week key selects from the catalog, to keep unless another writer
/// came first, and asked again: whoever wrote first, every caller sees that
/// omen. A failure of the store at any step is the answer.
pub open spec fn omen_fetched(
    week_key: Seq<char>,
    exchanges: Seq<Exchange>,
    r: Result<TideOmen, AppError>,
) -> bool {
    &&& exchanges.len() >= 1
    &&& exchanges[0] matches Exchange::OmenRead { week_key: asked, answer: found }
    &&& asked == week_key
    &&& match found {
        Err(e) => exchanges.len() == 1 && r == Err::<TideOmen, AppError>(AppError::Db(e)),
        Ok(Some(row)) => exchanges.len() == 1 && r is Ok && omen_read(week_key, row, r->Ok_0),
        Ok(None) => {
            &&& exchanges.len() >= 2
            &&& exchanges[1] matches Exchange::OmenOffer { omen, answer: offered }
            &&& omen == omen_offer(week_key)
            &&& match offered {
                Err(e) => exchanges.len() == 2 && r == Err::<TideOmen, AppError>(AppError::Db(e)),
                Ok(_) => {
                    &&& exchanges.len() == 3
                    &&& exchanges[2] matches Exchange::OmenRead { week_key: again, answer: second }
                    &&& again == week_key
                    &&& match second {
                        Err(e) => r == Err::<TideOmen, AppError>(AppError::Db(e)),
                        Ok(read_again) => omen_read_again(week_key, read_again, r),
                    }
                },
            }
        },
    }
}

/// The omen of a week, created on first access.
pub fn get_tide_omen_for(db: &mut Db, week_key: String) -> (r: Result<TideOmen, AppError>)
    ensures
        final(db).extends(*old(db)),
        omen_fetched(week_key@, final(db).since(*old(db)), r),
        r matches Ok(omen) ==> omen.week_key == week_key,
{
    let found = db.select_tide_omen(week_key.as_str());
    let ghost first = Exchange::OmenRead { week_key: week_key@, answer: found };
    proof {
        assert(db.journal().take(old(db).journal().len() as int) =~= old(db).journal());
        assert(db.since(*old(db)) =~= seq![first]);
    }
    match found {
        Err(e) => {
            return Err(AppError::Db(e));
        },
        Ok(Some(row)) => {
            return Ok(omen_from_row(week_key, row));
        },
        Ok(None) => {},
    }
    let omen = omen_for_week(week_key.as_str());
    let offered = db.insert_tide_omen_if_absent(
        week_key.as_str(),
        omen.id,
        omen.name,
        omen.modifiers,
    );
    let ghost second = Exchange::OmenOffer { omen: omen_offer(week_key@), answer: offered };
    proof {
        assert(db.journal().take(old(db).journal().len() as int) =~= old(db).journal());
        assert(db.since(*old(db)) =~= seq![first, second]);
    }
    match offered {
        Ok(_) => {},
        Err(e) => {
            return Err(AppError::Db(e));
        },
    }
    let again = db.select_tide_omen(week_key.as_str());
    proof {
        let third = Exchange::OmenRead { week_key: week_key@, answer: again };
        assert(db.journal().take(old(db).journal().len() as int) =~= old(db).journal());
        assert(db.since(*old(db)) =~= seq![first, second, third]);
    }
    match again {
        Ok(read_again) => settled_omen(week_key, read_again),
        Err(e) => Err(AppError::Db(e)),
    }
}

/// What fetching the omen at an instant comes to. An instant that cannot be
/// dated is an internal error, and nothing is sent to the store. Otherwise
/// the omen of the week of the instant is fetched.
pub open spec fn omen_fetched_now(
    secs: int,
    exchanges: Seq<Exchange>,
    r: Result<TideOmen, AppError>,
) -> bool {
    if in_calendar(secs) && week_key_of(secs) is Some {
        omen_fetched(week_key_of(secs)->Some_0, exchanges, r)
    } else {
        exchanges.len() == 0 && r is Err && r->Err_0.is_internal("Clock out of range"@)
    }
}

/// The omen of the current week.
pub fn get_tide_omen(db: &mut Db) -> (r: Result<TideOmen, AppError>)
    ensures
        final(db).extends(*old(db)),
        exists|secs: int| #[trigger] omen_fetched_now(secs, final(db).since(*old(db)), r),
{
    let t = now();
    let week_key = match week_key_at(t.secs) {
        Ok(key) => key,
        Err(e) => {
            proof {
                assert(db.journal().take(db.journal().len() as int) =~= db.journal());
                assert(omen_fetched_now(t.secs as int, db.since(*old(db)), Err(e)));
            }
            return Err(e);
        },
    };
    let r = get_tide_omen_for(db, week_key);
    proof {
        assert(omen_fetched_now(t.secs as int, db.since(*old(db)), r));
    }
    r
}

/// The sample that the store is asked to append, under an identifier and a
/// week key: the metric and the value as they came.
pub open spec fn sample_to_store(
    req: TideContribution,
    id: Seq<char>,
    week_key: Seq<char>,
) -> SampleRecord {
    SampleRecord { id, week_key, metric: req.metric@, value: req.value }
}

/// What contributing a sample under an identifier and a week key comes to:
/// the store is asked once, to append the sample, and the answer is
/// acceptance, or the store's failure.
pub open spec fn sample_contributed(
    sample: SampleRecord,
    exchanges: Seq<Exchange>,
    r: Result<TideContributeResult, AppError>,
) -> bool {
    &&& exchanges.len() == 1
    &&& exchanges[0] matches Exchange::SampleInsert { sample: sent, answer }
    &&& sent == sample
    &&& match answer {
        Ok(_) => r matches Ok(res) && res.accepted,
        Err(e) => r == Err::<TideContributeResult, AppError>(AppError::Db(e)),
    }
}

/// Appends a sample to the tide ledger under a given identifier and week
/// key. The sample is taken as it is: the metric is any label, the value any
/// number.
pub fn contribute_tide_at(db: &mut Db, req: TideContribution, id: String, week_key: String) -> (r:
    Result<TideContributeResult, AppError>)
    ensures
        final(db).extends(*old(db)),
        sample_contributed(sample_to_store(req, id@, week_key@), final(db).since(*old(db)), r),
{
    let answer = db.insert_tide_contribution(
        id.as_str(),
        week_key.as_str(),
        req.metric.as_str(),
        &req.value,
    );
    proof {
        let sample = sample_to_store(req, id@, week_key@);
        assert(db.journal().take(old(db).journal().len() as int) =~= old(db).journal());
        assert(db.since(*old(db)) =~= seq![Exchange::SampleInsert { sample, answer }]);
    }
    match answer {
        Ok(_) => Ok(TideContributeResult { accepted: true }),
        Err(e) => Err(AppError::Db(e)),
    }
}

/// What contributing a sample at an instant comes to. An instant that cannot
/// be dated is an internal error, and nothing is sent to the store.
/// Otherwise the sample is contributed under the identifier, which has 36
/// characters, and the week key of the instant.
pub open spec fn sample_contributed_now(
    req: TideContribution,
    id: Seq<char>,
    secs: int,
    exchanges: Seq<Exchange>,
    r: Result<TideContributeResult, AppError>,
) -> bool {
    if in_calendar(secs) && week_key_of(secs) is Some {
        id.len() == 36 && sample_contributed(
            sample_to_store(req, id, week_key_of(secs)->Some_0),
            exchanges,
            r,
        )
    } else {
        exchanges.len() == 0 && r is Err && r->Err_0.is_internal("Clock out of range"@)
    }
}

/// Appends a sample to the tide ledger of the current week.
pub fn contribute_tide(db: &mut Db, req: TideContribution) -> (r: Result<
    TideContributeResult,
    AppError,
>)
    ensures
        final(db).extends(*old(db)),
        exists|id: Seq<char>, secs: int| #[trigger]
            sample_contributed_now(req, id, secs, final(db).since(*old(db)), r),
        r matches Ok(res) ==> res.accepted,
{
    let t = now();
    let week_key = match week_key_at(t.secs) {
        Ok(key) => key,
        Err(e) => {
            proof {
                assert(db.journal().take(db.journal().len() as int) =~= db.journal());
                assert(sample_contributed_now(
                    req,
                    Seq::empty(),
                    t.secs as int,
                    db.since(*old(db)),
                    Err(e),
                ));
            }
            return Err(e);
        },
    };
    let id = new_id();
    let ghost id_text = id@;
    let r = contribute_tide_at(db, req, id, week_key);
    proof {
        assert(sample_contributed_now(req, id_text, t.secs as int, db.since(*old(db)), r));
    }
    r
}

/// The omen selected at an instant: the catalog entry that the week key of
/// that instant picks.
pub open spec fn omen_selected_at(secs: int) -> Option<(Seq<char>, Seq<char>, Seq<char>)> {
    match week_key_of(secs) {
        Some(week_key) => Some(omen_catalog()[omen_index(week_key)]),
        None => None,
    }
}

/// Every week key picks a place within the catalog of seven omens.
pub proof fn lemma_omen_index_in_catalog(week_key: Seq<char>)
    ensures
        omen_catalog().len() == 7,
        0 <= omen_index(week_key) < omen_catalog().len(),
{
}

/// The omen is a function of the week alone: two instants of one week select
/// one omen.
pub proof fn lemma_omen_stable(a: int, b: int)
    requires
        week_start(week_index(a)) <= b < next_week_start(a),
    ensures
        omen_selected_at(a) == omen_selected_at(b),
{
}

} // verus!
