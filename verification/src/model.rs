//! The store as the library takes it to be, and what follows if it is.
//!
//! Nothing here is assumed by the operations: their contracts hold whatever
//! the store answers. This module says what a store answers that does as it
//! is asked, and proves, for journals that such a store would leave, what
//! the operations then come to across calls.

use vstd::prelude::*;
use crate::clock::{next_week_start, week_index, week_key_of, week_start, Instant};
use crate::error::AppError;
use crate::journal::{Exchange, OmenRecord, RunRecord};
use crate::models::ghost_fleet::{LeaderboardEntry, RegattaInfo, RunSubmissionResult};
use crate::models::signal_fire::SignalFireRedeemResult;
use crate::models::tide_calendar::TideOmen;
use crate::ranking::{
    count_above, lemma_rank_counts_others, lemma_unbeaten_ranks_first, rank_among,
};
use crate::selector::regatta_seed;
use crate::services::ghost_fleet::{
    ends_at_of, regatta_fetched, regatta_steps, run_persisted, seed_settled,
};
use crate::services::signal_fire::{fire_redeemed, in_time, normalized_code};
use crate::services::tide_calendar::{modifiers_of, omen_fetched, omen_offer};

verus! {

/// What the store knows of a signal fire, as far as redeeming goes.
pub struct FireState {
    pub expires_at: Seq<char>,
    pub redeemed: bool,
}

/// What the store holds, as far as the library's rules go: the score of
/// every run, the seed and the omen of every week that has one, and the
/// state of every signal fire.
pub struct Held {
    pub scores: Seq<int>,
    pub seeds: Map<Seq<char>, i64>,
    pub fires: Map<Seq<char>, FireState>,
    pub omens: Map<Seq<char>, OmenRecord>,
}

/// A store that holds nothing.
pub open spec fn nothing_held() -> Held {
    Held { scores: Seq::empty(), seeds: Map::empty(), fires: Map::empty(), omens: Map::empty() }
}

/// Whether the answer of an exchange is one that a store gives that holds
/// `held` and does as it is asked. A failure is always such an answer.
pub open spec fn answers(held: Held, exchange: Exchange) -> bool {
    match exchange {
        Exchange::RunInsert { answer: Ok(changed), .. } => changed == 1,
        Exchange::RunCount { score, answer: Ok(count) } => count == count_above(
            held.scores,
            score as int,
        ),
        Exchange::SeedRead { week_key, answer: Ok(found) } => found == if held.seeds.contains_key(
            week_key,
        ) {
            Some(held.seeds[week_key])
        } else {
            None
        },
        Exchange::SeedOffer { week_key, answer: Ok(changed), .. } => changed == if held.seeds.contains_key(
            week_key,
        ) {
            0usize
        } else {
            1usize
        },
        Exchange::FireInsert { fire, answer: Ok(changed) } => changed == 1
            && !held.fires.contains_key(fire.code),
        Exchange::FireRead { code, answer: Ok(None) } => !held.fires.contains_key(code),
        Exchange::FireRead { code, answer: Ok(Some(row)) } => held.fires.contains_key(code) && (
        row.redeemed != 0) == held.fires[code].redeemed && row.expires_at@
            == held.fires[code].expires_at,
        Exchange::FireRedeem { code, expires_at, answer: Ok(changed) } => changed == if marks(
            held,
            code,
            expires_at,
        ) {
            1usize
        } else {
            0usize
        },
        Exchange::OmenRead { week_key, answer: Ok(None) } => !held.omens.contains_key(week_key),
        Exchange::OmenRead { week_key, answer: Ok(Some(row)) } => held.omens.contains_key(
            week_key,
        ) && row.omen_id@ == held.omens[week_key].omen_id && row.omen_name@
            == held.omens[week_key].omen_name && row.modifiers@
            == held.omens[week_key].modifiers,
        Exchange::OmenOffer { omen, answer: Ok(changed) } => changed == if held.omens.contains_key(
            omen.week_key,
        ) {
            0usize
        } else {
            1usize
        },
        _ => true,
    }
}

/// Whether a store that holds `held` marks the signal fire of a code when it
/// is asked to on condition of an expiry: the fire is there, active, and
/// carries the expiry.
pub open spec fn marks(held: Held, code: Seq<char>, expires_at: Seq<char>) -> bool {
    held.fires.contains_key(code) && !held.fires[code].redeemed && held.fires[code].expires_at
        == expires_at
}

/// What a store holds after an exchange that it answered as `answers` says.
/// A write that failed changes nothing, and neither does a read.
pub open spec fn after(held: Held, exchange: Exchange) -> Held {
    match exchange {
        Exchange::RunInsert { run, answer: Ok(_) } => Held {
            scores: held.scores.push(run.score as int),
            ..held
        },
        Exchange::SeedOffer { week_key, seed, answer: Ok(_) } => if held.seeds.contains_key(
            week_key,
        ) {
            held
        } else {
            Held { seeds: held.seeds.insert(week_key, seed), ..held }
        },
        Exchange::FireInsert { fire, answer: Ok(_) } => Held {
            fires: held.fires.insert(
                fire.code,
                FireState { expires_at: fire.expires_at, redeemed: false },
            ),
            ..held
        },
        Exchange::FireRedeem { code, expires_at, answer: Ok(_) } => if marks(
            held,
            code,
            expires_at,
        ) {
            Held {
                fires: held.fires.insert(code, FireState { expires_at, redeemed: true }),
                ..held
            }
        } else {
            held
        },
        Exchange::OmenOffer { omen, answer: Ok(_) } => if held.omens.contains_key(omen.week_key) {
            held
        } else {
            Held { omens: held.omens.insert(omen.week_key, omen), ..held }
        },
        _ => held,
    }
}

/// What a store holds after a series of exchanges.
pub open spec fn after_all(held: Held, exchanges: Seq<Exchange>) -> Held
    decreases exchanges.len(),
{
    if exchanges.len() == 0 {
        held
    } else {
        after(after_all(held, exchanges.drop_last()), exchanges.last())
    }
}

/// Whether a series of exchanges is one that a store leaves that holds
/// `held` at first and does as it is asked throughout.
pub open spec fn faithful(held: Held, exchanges: Seq<Exchange>) -> bool
    decreases exchanges.len(),
{
    exchanges.len() == 0 || (faithful(held, exchanges.drop_last()) && answers(
        after_all(held, exchanges.drop_last()),
        exchanges.last(),
    ))
}

/// A series of exchanges is faithful exactly when its first part is, and its
/// second part is for what the store holds after the first.
pub proof fn lemma_faithful_split(held: Held, first: Seq<Exchange>, second: Seq<Exchange>)
    ensures
        after_all(held, first + second) == after_all(after_all(held, first), second),
        faithful(held, first + second) <==> faithful(held, first) && faithful(
            after_all(held, first),
            second,
        ),
    decreases second.len(),
{
    if second.len() == 0 {
        assert(first + second =~= first);
    } else {
        assert((first + second).drop_last() =~= first + second.drop_last());
        assert((first + second).last() == second.last());
        lemma_faithful_split(held, first, second.drop_last());
    }
}

/// One exchange, taken for itself.
pub proof fn lemma_faithful_one(held: Held, exchange: Exchange)
    ensures
        after_all(held, seq![exchange]) == after(held, exchange),
        faithful(held, seq![exchange]) <==> answers(held, exchange),
{
    let one = seq![exchange];
    assert(one.drop_last() =~= Seq::<Exchange>::empty());
    assert(one.last() == exchange);
    assert(after_all(held, one.drop_last()) == held);
    assert(faithful(held, one.drop_last()));
}

/// The seed that is held for a week stays: no exchange changes it.
pub proof fn lemma_seed_stays(held: Held, exchanges: Seq<Exchange>, week_key: Seq<char>)
    requires
        held.seeds.contains_key(week_key),
    ensures
        after_all(held, exchanges).seeds.contains_key(week_key),
        after_all(held, exchanges).seeds[week_key] == held.seeds[week_key],
    decreases exchanges.len(),
{
    if exchanges.len() > 0 {
        lemma_seed_stays(held, exchanges.drop_last(), week_key);
    }
}

/// The omen that is held for a week stays: no exchange changes it.
pub proof fn lemma_omen_stays(held: Held, exchanges: Seq<Exchange>, week_key: Seq<char>)
    requires
        held.omens.contains_key(week_key),
    ensures
        after_all(held, exchanges).omens.contains_key(week_key),
        after_all(held, exchanges).omens[week_key] == held.omens[week_key],
    decreases exchanges.len(),
{
    if exchanges.len() > 0 {
        lemma_omen_stays(held, exchanges.drop_last(), week_key);
    }
}

/// A signal fire that is held as redeemed stays redeemed: no exchange makes
/// it active again.
pub proof fn lemma_redeemed_stays(held: Held, exchanges: Seq<Exchange>, code: Seq<char>)
    requires
        faithful(held, exchanges),
        held.fires.contains_key(code),
        held.fires[code].redeemed,
    ensures
        after_all(held, exchanges).fires.contains_key(code),
        after_all(held, exchanges).fires[code].redeemed,
    decreases exchanges.len(),
{
    if exchanges.len() > 0 {
        lemma_redeemed_stays(held, exchanges.drop_last(), code);
    }
}

/// Two exchanges, taken one after the other.
pub proof fn lemma_faithful_two(held: Held, first: Exchange, second: Exchange)
    ensures
        after_all(held, seq![first, second]) == after(after(held, first), second),
        faithful(held, seq![first, second]) <==> answers(held, first) && answers(
            after(held, first),
            second,
        ),
{
    lemma_faithful_one(held, first);
    lemma_faithful_one(after(held, first), second);
    lemma_faithful_split(held, seq![first], seq![second]);
    assert(seq![first] + seq![second] =~= seq![first, second]);
}

/// Three exchanges, taken one after the other.
pub proof fn lemma_faithful_three(held: Held, first: Exchange, second: Exchange, third: Exchange)
    ensures
        after_all(held, seq![first, second, third]) == after(
            after(after(held, first), second),
            third,
        ),
        faithful(held, seq![first, second, third]) <==> answers(held, first) && answers(
            after(held, first),
            second,
        ) && answers(after(after(held, first), second), third),
{
    lemma_faithful_two(held, first, second);
    lemma_faithful_one(after(after(held, first), second), third);
    lemma_faithful_split(held, seq![first, second], seq![third]);
    assert(seq![first, second] + seq![third] =~= seq![first, second, third]);
}

/// With a store that does as it is asked, the rank that a submission is
/// answered is the rank of its score among all persisted runs, the new run
/// among them: one more than the number of runs that score strictly more.
pub proof fn lemma_rank_among_persisted(
    held: Held,
    run: RunRecord,
    exchanges: Seq<Exchange>,
    r: Result<RunSubmissionResult, AppError>,
)
    requires
        faithful(held, exchanges),
        run_persisted(run, exchanges, r),
        r is Ok,
    ensures
        after_all(held, exchanges).scores == held.scores.push(run.score as int),
        r->Ok_0.rank == rank_among(after_all(held, exchanges).scores, run.score as int),
{
    assert(exchanges =~= seq![exchanges[0], exchanges[1]]);
    lemma_faithful_two(held, exchanges[0], exchanges[1]);
    lemma_rank_counts_others(held.scores, run.score as int);
}

/// With a store that does as it is asked, a submission whose score none of
/// the persisted runs exceeds ranks first. Runs that are submitted one after
/// another with strictly rising scores therefore rank first, each at the
/// moment it is submitted.
pub proof fn lemma_unbeaten_submission_ranks_first(
    held: Held,
    run: RunRecord,
    exchanges: Seq<Exchange>,
    r: Result<RunSubmissionResult, AppError>,
)
    requires
        faithful(held, exchanges),
        run_persisted(run, exchanges, r),
        r is Ok,
        forall|i: int| 0 <= i < held.scores.len() ==> held.scores[i] <= run.score,
    ensures
        r->Ok_0.rank == 1,
{
    lemma_rank_among_persisted(held, run, exchanges, r);
    lemma_unbeaten_ranks_first(held.scores, run.score as int);
    lemma_rank_counts_others(held.scores, run.score as int);
}

/// With a store that does as it is asked and holds nothing yet, the first
/// run that is submitted ranks first.
pub proof fn lemma_first_submission_ranks_first(
    run: RunRecord,
    exchanges: Seq<Exchange>,
    r: Result<RunSubmissionResult, AppError>,
)
    requires
        faithful(nothing_held(), exchanges),
        run_persisted(run, exchanges, r),
        r is Ok,
    ensures
        r->Ok_0.rank == 1,
{
    lemma_unbeaten_submission_ranks_first(nothing_held(), run, exchanges, r);
}

/// With a store that does as it is asked, the seed that is settled for a
/// week is the seed that the store then holds for it: the one it held
/// before, or else the one derived from the week key.
pub proof fn lemma_settled_seed_is_held(
    held: Held,
    week_key: Seq<char>,
    exchanges: Seq<Exchange>,
    r: Result<i64, AppError>,
)
    requires
        faithful(held, exchanges),
        seed_settled(week_key, exchanges, r),
        r is Ok,
    ensures
        after_all(held, exchanges).seeds.contains_key(week_key),
        after_all(held, exchanges).seeds[week_key] == r->Ok_0,
        held.seeds.contains_key(week_key) ==> r->Ok_0 == held.seeds[week_key],
        !held.seeds.contains_key(week_key) ==> r->Ok_0 == regatta_seed(week_key),
{
    if exchanges.len() == 1 {
        assert(exchanges =~= seq![exchanges[0]]);
        lemma_faithful_one(held, exchanges[0]);
    } else {
        assert(exchanges =~= seq![exchanges[0], exchanges[1], exchanges[2]]);
        lemma_faithful_three(held, exchanges[0], exchanges[1], exchanges[2]);
    }
}

/// With a store that does as it is asked, whoever settles the seed of a week
/// later finds the seed that was settled first, whatever passed in between.
pub proof fn lemma_seed_settles_once(
    held: Held,
    week_key: Seq<char>,
    first: Seq<Exchange>,
    between: Seq<Exchange>,
    second: Seq<Exchange>,
    r1: Result<i64, AppError>,
    r2: Result<i64, AppError>,
)
    requires
        faithful(held, first + between + second),
        seed_settled(week_key, first, r1),
        seed_settled(week_key, second, r2),
        r1 is Ok,
        r2 is Ok,
    ensures
        r1->Ok_0 == r2->Ok_0,
{
    lemma_faithful_split(held, first + between, second);
    lemma_faithful_split(held, first, between);
    let then = after_all(held, first);
    let later = after_all(then, between);
    lemma_settled_seed_is_held(held, week_key, first, r1);
    lemma_seed_stays(then, between, week_key);
    lemma_settled_seed_is_held(later, week_key, second, r2);
}

/// With a store that does as it is asked, two regatta fetches within one
/// week answer the same week key and the same seed, whatever passed in
/// between.
pub proof fn lemma_regatta_seed_within_week(
    held: Held,
    a: int,
    b: int,
    first: Seq<Exchange>,
    between: Seq<Exchange>,
    second: Seq<Exchange>,
    r1: Result<RegattaInfo, AppError>,
    r2: Result<RegattaInfo, AppError>,
)
    requires
        faithful(held, first + between + second),
        regatta_fetched(a, first, r1),
        regatta_fetched(b, second, r2),
        week_start(week_index(a)) <= b < next_week_start(a),
        r1 is Ok,
        r2 is Ok,
    ensures
        r1->Ok_0.week_key@ == r2->Ok_0.week_key@,
        r1->Ok_0.seed == r2->Ok_0.seed,
{
    assert(week_index(a) == week_index(b));
    let (n1, s1, t1) = choose|n: int, s: Result<i64, AppError>, t: Result<Vec<LeaderboardEntry>, AppError>|
        #[trigger] regatta_steps(
            week_key_of(a)->Some_0,
            ends_at_of(a)->Some_0,
            first,
            n,
            s,
            t,
            r1,
        );
    let (n2, s2, t2) = choose|n: int, s: Result<i64, AppError>, t: Result<Vec<LeaderboardEntry>, AppError>|
        #[trigger] regatta_steps(
            week_key_of(b)->Some_0,
            ends_at_of(b)->Some_0,
            second,
            n,
            s,
            t,
            r2,
        );
    let week_key = week_key_of(a)->Some_0;
    let settle1 = first.take(n1);
    let list1 = first.skip(n1);
    let settle2 = second.take(n2);
    let list2 = second.skip(n2);
    assert(first =~= settle1 + list1);
    assert(second =~= settle2 + list2);
    assert(first + between + second =~= settle1 + (list1 + between) + (settle2 + list2));
    lemma_faithful_split(held, settle1 + (list1 + between), settle2 + list2);
    lemma_faithful_split(after_all(held, settle1 + (list1 + between)), settle2, list2);
    lemma_faithful_split(held, settle1 + (list1 + between) + settle2, list2);
    assert(settle1 + (list1 + between) + (settle2 + list2) =~= settle1 + (list1 + between)
        + settle2 + list2);
    lemma_seed_settles_once(held, week_key, settle1, list1 + between, settle2, s1, s2);
}

/// With a store that does as it is asked, a signal fire is redeemed at most
/// once: after an attempt on a code was granted, no later attempt on that
/// code is, whenever it comes and whatever passed in between. It is refused
/// as redeemed, a conflict, unless the store fails.
pub proof fn lemma_redeemed_at_most_once(
    held: Held,
    code1: Seq<char>,
    code2: Seq<char>,
    at1: Instant,
    at2: Instant,
    first: Seq<Exchange>,
    between: Seq<Exchange>,
    second: Seq<Exchange>,
    r1: Result<SignalFireRedeemResult, AppError>,
    r2: Result<SignalFireRedeemResult, AppError>,
)
    requires
        faithful(held, first + between + second),
        fire_redeemed(code1, at1, first, r1),
        fire_redeemed(code2, at2, second, r2),
        normalized_code(code1) == normalized_code(code2),
        r1 is Ok,
    ensures
        r2 is Err,
        r2->Err_0.is_conflict("Signal fire already redeemed"@) || r2->Err_0 is Db,
{
    let code = normalized_code(code1);
    lemma_faithful_split(held, first + between, second);
    lemma_faithful_split(held, first, between);
    let then = after_all(held, first);
    let later = after_all(then, between);
    assert(first =~= seq![first[0], first[1]]);
    lemma_faithful_two(held, first[0], first[1]);
    assert(then.fires.contains_key(code) && then.fires[code].redeemed);
    lemma_redeemed_stays(then, between, code);
    if second.len() == 1 {
        assert(second =~= seq![second[0]]);
        lemma_faithful_one(later, second[0]);
    } else {
        assert(second =~= seq![second[0], second[1]]);
        lemma_faithful_two(later, second[0], second[1]);
    }
}

/// With a store that does as it is asked and does not fail, an attempt on a
/// signal fire that the store holds active, at an instant that its expiry
/// leaves in time, is granted.
pub proof fn lemma_active_fire_is_granted(
    held: Held,
    code: Seq<char>,
    at: Instant,
    exchanges: Seq<Exchange>,
    r: Result<SignalFireRedeemResult, AppError>,
)
    requires
        faithful(held, exchanges),
        fire_redeemed(code, at, exchanges, r),
        forall|i: int| 0 <= i < exchanges.len() ==> !(#[trigger] exchanges[i]).failed(),
        held.fires.contains_key(normalized_code(code)),
        !held.fires[normalized_code(code)].redeemed,
        in_time(held.fires[normalized_code(code)].expires_at, at),
    ensures
        r is Ok,
        after_all(held, exchanges).fires[normalized_code(code)].redeemed,
{
    assert(!exchanges[0].failed());
    if exchanges.len() == 1 {
        assert(exchanges =~= seq![exchanges[0]]);
        lemma_faithful_one(held, exchanges[0]);
    } else {
        assert(!exchanges[1].failed());
        assert(exchanges =~= seq![exchanges[0], exchanges[1]]);
        lemma_faithful_two(held, exchanges[0], exchanges[1]);
    }
}

/// With a store that does as it is asked, the omen that is fetched for a
/// week is the omen that the store then holds for it: the one it held
/// before, or else the one that the week key selects from the catalog.
pub proof fn lemma_fetched_omen_is_held(
    held: Held,
    week_key: Seq<char>,
    exchanges: Seq<Exchange>,
    r: Result<TideOmen, AppError>,
)
    requires
        faithful(held, exchanges),
        omen_fetched(week_key, exchanges, r),
        r is Ok,
    ensures
        after_all(held, exchanges).omens.contains_key(week_key),
        r->Ok_0.omen_id@ == after_all(held, exchanges).omens[week_key].omen_id,
        r->Ok_0.omen_name@ == after_all(held, exchanges).omens[week_key].omen_name,
        r->Ok_0.modifiers@ == modifiers_of(after_all(held, exchanges).omens[week_key].modifiers),
        !held.omens.contains_key(week_key) ==> after_all(held, exchanges).omens[week_key]
            == omen_offer(week_key),
{
    if exchanges.len() == 1 {
        assert(exchanges =~= seq![exchanges[0]]);
        lemma_faithful_one(held, exchanges[0]);
    } else {
        assert(exchanges =~= seq![exchanges[0], exchanges[1], exchanges[2]]);
        lemma_faithful_three(held, exchanges[0], exchanges[1], exchanges[2]);
    }
}

/// With a store that does as it is asked, two fetches of the omen of one
/// week answer the same omen, whatever passed in between.
pub proof fn lemma_omen_settles_once(
    held: Held,
    week_key: Seq<char>,
    first: Seq<Exchange>,
    between: Seq<Exchange>,
    second: Seq<Exchange>,
    r1: Result<TideOmen, AppError>,
    r2: Result<TideOmen, AppError>,
)
    requires
        faithful(held, first + between + second),
        omen_fetched(week_key, first, r1),
        omen_fetched(week_key, second, r2),
        r1 is Ok,
        r2 is Ok,
    ensures
        r1->Ok_0.omen_id@ == r2->Ok_0.omen_id@,
        r1->Ok_0.omen_name@ == r2->Ok_0.omen_name@,
        r1->Ok_0.modifiers@ == r2->Ok_0.modifiers@,
{
    lemma_faithful_split(held, first + between, second);
    lemma_faithful_split(held, first, between);
    let then = after_all(held, first);
    let later = after_all(then, between);
    lemma_fetched_omen_is_held(held, week_key, first, r1);
    lemma_omen_stays(then, between, week_key);
    lemma_fetched_omen_is_held(later, week_key, second, r2);
    lemma_omen_stays(later, second, week_key);
}

} // verus!
