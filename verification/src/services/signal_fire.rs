//! The aid exchange: signal fires that are lit once and redeemed once.

use vstd::prelude::*;
use vstd::string::{StrSliceExecFns, StringExecFns};
use crate::clock::{
    in_calendar, now, parse_utc_text, parsed_utc_text, seconds_of, utc_text, utc_text_at,
    Instant, MAX_UNIX_SECONDS,
};
use crate::db::Db;
use crate::error::AppError;
use crate::journal::{Exchange, FireRecord};
use crate::models::signal_fire::{
    SignalFireCreateRequest, SignalFireCreateResult, SignalFireRedeemResult,
};
use crate::store::FireRow;
use crate::text::{trim, trimmed};
use crate::validation::{
    aid_type_known, validate_aid_amount, validate_aid_type, MAX_AID_AMOUNT, MIN_AID_AMOUNT,
};

verus! {

/// The symbols of a code: capital letters and digits without the ones that
/// look alike.
pub const CODE_ALPHABET: &'static str = "ABCDEFGHJKLMNPQRSTUVWXYZ23456789";

/// Symbols in the alphabet.
pub const CODE_ALPHABET_LEN: usize = 32;

/// Symbols in a code.
pub const CODE_LEN: usize = 8;

/// What redeeming a signal fire costs in heat, fixed when the fire is lit.
pub const HEAT_COST: i64 = 5;

/// How long a signal fire can be redeemed: 72 hours, in seconds.
pub const AID_LIFETIME_SECONDS: i64 = 259200;

/// A text with every character in upper case, as std's `str::to_uppercase`
/// writes it.
pub uninterp spec fn uppercased(text: Seq<char>) -> Seq<char>;

/// `str::to_uppercase` of std returns the upper-case equivalent of a string
/// as a new `String`; the library names that text and states no more.
pub assume_specification[ str::to_uppercase ](text: &str) -> (upper: String)
    ensures
        upper@ == uppercased(text@),
;

/// Draws a number below a bound with `rand::thread_rng` and
/// `rand::Rng::gen_range`, which panics on an empty range. Which number
/// comes is not promised, only that it is below the bound.
#[verifier::external_body]
fn random_below(bound: usize) -> (pick: usize)
    requires
        bound > 0,
    ensures
        pick < bound,
{
    rand::Rng::gen_range(&mut rand::thread_rng(), 0..bound)
}

/// A code: eight symbols of the alphabet.
pub open spec fn is_code(code: Seq<char>) -> bool {
    code.len() == CODE_LEN && forall|i: int|
        0 <= i < code.len() ==> CODE_ALPHABET@.contains(#[trigger] code[i])
}

/// Draws a fresh code, each symbol on its own.
pub fn generate_code() -> (code: String)
    ensures
        is_code(code@),
{
    proof {
        reveal_strlit("ABCDEFGHJKLMNPQRSTUVWXYZ23456789");
    }
    let mut code = String::new();
    let mut i: usize = 0;
    while i < CODE_LEN
        invariant
            i <= CODE_LEN,
            code@.len() == i,
            CODE_ALPHABET@.len() == CODE_ALPHABET_LEN,
            CODE_ALPHABET.is_ascii(),
            forall|k: int| 0 <= k < code@.len() ==> CODE_ALPHABET@.contains(#[trigger] code@[k]),
        decreases CODE_LEN - i,
    {
        let pick = random_below(CODE_ALPHABET_LEN);
        let symbol = CODE_ALPHABET.substring_ascii(pick, pick + 1);
        let ghost before = code@;
        code.append(symbol);
        proof {
            assert(symbol@[0] == CODE_ALPHABET@[pick as int]);
            assert forall|k: int| 0 <= k < code@.len() implies CODE_ALPHABET@.contains(
                #[trigger] code@[k],
            ) by {
                if k < before.len() {
                    assert(code@[k] == before[k]);
                } else {
                    assert(code@[k] == CODE_ALPHABET@[pick as int]);
                }
            }
        }
        i += 1;
    }
    code
}

/// The form in which a code is looked up: without the white space around it,
/// in upper case.
pub open spec fn normalized_code(code: Seq<char>) -> Seq<char> {
    uppercased(trimmed(code))
}

/// Trims a code and puts it in upper case.
pub fn normalize_code(code: &str) -> (normal: String)
    ensures
        normal@ == normalized_code(code@),
{
    trim(code).to_uppercase()
}

/// The message of the first rule that a request to light a signal fire
/// breaks, if it breaks one: the aid type, then the amount.
pub open spec fn create_fault(req: SignalFireCreateRequest) -> Option<Seq<char>> {
    if !aid_type_known(req.aid_type@) {
        Some("Invalid aid type: "@ + req.aid_type@)
    } else if !(MIN_AID_AMOUNT <= req.aid_amount <= MAX_AID_AMOUNT) {
        Some("Aid amount must be 1-100"@)
    } else {
        None
    }
}

/// Holds a request to light a signal fire to every rule, before the store is
/// touched.
pub fn check_create(req: &SignalFireCreateRequest) -> (r: Result<(), AppError>)
    ensures
        match create_fault(*req) {
            Some(msg) => r is Err && r->Err_0.is_bad_request(msg),
            None => r is Ok,
        },
{
    match validate_aid_type(req.aid_type.as_str()) {
        Ok(()) => validate_aid_amount(req.aid_amount),
        Err(e) => Err(e),
    }
}

/// The instant at which a signal fire lit at an instant expires: 72 hours on.
pub open spec fn expiry_of(lit: int) -> int {
    lit + AID_LIFETIME_SECONDS
}

/// The expiry of a signal fire lit at an instant, as the store writes times;
/// `None` where the instant lies outside the calendar or the expiry cannot
/// be dated.
pub open spec fn expiry_text_of(lit: int) -> Option<Seq<char>> {
    if in_calendar(lit) {
        utc_text(expiry_of(lit))
    } else {
        None
    }
}

/// The expiry of a signal fire lit at an instant, as the store writes times.
pub fn expiry_text(lit_secs: i64) -> (r: Result<String, AppError>)
    ensures
        match expiry_text_of(lit_secs as int) {
            Some(text) => r is Ok && r->Ok_0@ == text,
            None => r is Err && r->Err_0.is_internal("Clock out of range"@),
        },
        in_calendar(lit_secs as int) && in_calendar(expiry_of(lit_secs as int)) ==> r is Ok,
{
    if lit_secs < 0 || lit_secs > MAX_UNIX_SECONDS {
        return Err(AppError::internal("Clock out of range"));
    }
    match utc_text_at(lit_secs + AID_LIFETIME_SECONDS) {
        Some(text) => Ok(text),
        None => Err(AppError::internal("Clock out of range")),
    }
}

/// The signal fire that the store is asked to keep for a request that breaks
/// no rule, under a code, lit at an instant: with the heat cost in force and
/// an expiry 72 hours on. There is none where the instant or the expiry
/// cannot be dated.
pub open spec fn fire_to_store(req: SignalFireCreateRequest, code: Seq<char>, lit: int) -> Option<
    FireRecord,
> {
    match expiry_text_of(lit) {
        Some(expires_at) => Some(
            FireRecord {
                code,
                creator_run: req.creator_run@,
                aid_type: req.aid_type@,
                aid_amount: req.aid_amount,
                heat_cost: HEAT_COST,
                expires_at,
            },
        ),
        None => None,
    }
}

/// What lighting a signal fire under a code at an instant comes to. A
/// request that breaks a rule is refused with the rule's message, and an
/// instant that cannot be dated is an internal error: in both cases nothing
/// is sent to the store. Otherwise the store is asked once, to keep the
/// fire, and the answer is the code, or the store's failure. A code that the
/// store holds already makes the store fail: the caller may try again with
/// another code.
pub open spec fn fire_lit(
    req: SignalFireCreateRequest,
    code: Seq<char>,
    lit: int,
    exchanges: Seq<Exchange>,
    r: Result<SignalFireCreateResult, AppError>,
) -> bool {
    match create_fault(req) {
        Some(msg) => exchanges.len() == 0 && r is Err && r->Err_0.is_bad_request(msg),
        None => match fire_to_store(req, code, lit) {
            None => exchanges.len() == 0 && r is Err && r->Err_0.is_internal(
                "Clock out of range"@,
            ),
            Some(fire) => {
                &&& exchanges.len() == 1
                &&& exchanges[0] matches Exchange::FireInsert { fire: sent, answer }
                &&& sent == fire
                &&& match answer {
                    Ok(_) => r matches Ok(res) && res.code@ == code,
                    Err(e) => r == Err::<SignalFireCreateResult, AppError>(AppError::Db(e)),
                }
            },
        },
    }
}

/// Lights a signal fire under a given code at a given instant.
pub fn create_signal_fire_at(
    db: &mut Db,
    req: SignalFireCreateRequest,
    code: String,
    lit: Instant,
) -> (r: Result<SignalFireCreateResult, AppError>)
    ensures
        final(db).extends(*old(db)),
        fire_lit(req, code@, lit.secs as int, final(db).since(*old(db)), r),
        create_fault(req) is Some ==> *final(db) == *old(db),
        create_fault(req) is None && in_calendar(lit.secs as int) && in_calendar(
            expiry_of(lit.secs as int),
        ) ==> fire_to_store(req, code@, lit.secs as int) is Some,
        r matches Ok(res) ==> res.code == code,
{
    match check_create(&req) {
        Ok(()) => {},
        Err(e) => {
            proof {
                assert(db.journal().take(db.journal().len() as int) =~= db.journal());
            }
            return Err(e);
        },
    }
    let expires_at = match expiry_text(lit.secs) {
        Ok(text) => text,
        Err(e) => {
            proof {
                assert(db.journal().take(db.journal().len() as int) =~= db.journal());
            }
            return Err(e);
        },
    };
    let answer = db.insert_signal_fire(
        code.as_str(),
        req.creator_run.as_str(),
        req.aid_type.as_str(),
        req.aid_amount,
        HEAT_COST,
        expires_at.as_str(),
    );
    proof {
        let fire = fire_to_store(req, code@, lit.secs as int)->Some_0;
        assert(db.journal().take(old(db).journal().len() as int) =~= old(db).journal());
        assert(db.since(*old(db)) =~= seq![Exchange::FireInsert { fire, answer }]);
    }
    match answer {
        Ok(_) => Ok(SignalFireCreateResult { code }),
        Err(e) => Err(AppError::Db(e)),
    }
}

/// Lights a signal fire: validates the request, draws a code and hands the
/// store the fire with an expiry 72 hours from now.
pub fn create_signal_fire(db: &mut Db, req: SignalFireCreateRequest) -> (r: Result<
    SignalFireCreateResult,
    AppError,
>)
    ensures
        final(db).extends(*old(db)),
        exists|code: Seq<char>, lit: int|
            is_code(code) && #[trigger] fire_lit(req, code, lit, final(db).since(*old(db)), r),
        create_fault(req) is Some ==> *final(db) == *old(db),
        r matches Ok(res) ==> is_code(res.code@),
{
    let code = generate_code();
    let lit = now();
    let ghost code_text = code@;
    let r = create_signal_fire_at(db, req, code, lit);
    proof {
        assert(fire_lit(req, code_text, lit.secs as int, db.since(*old(db)), r));
    }
    r
}

/// What an attempt to redeem a signal fire comes to.
#[derive(Clone, Copy, Debug, PartialEq, Eq, Structural)]
pub enum Verdict {
    /// The fire is active and not past its expiry: the aid is granted.
    Grant,
    /// The fire was redeemed before.
    AlreadyRedeemed,
    /// The fire is past its expiry.
    Expired,
}

/// Whether an instant lies after the whole second of an expiry.
pub open spec fn is_past(at: Instant, expiry: int) -> bool {
    at.secs > expiry || (at.secs == expiry && at.nanos > 0)
}

/// The verdict on an attempt at an instant, for a fire with this redeemed
/// flag and this expiry. Redemption is looked at first. Expiry is not a
/// state of the fire: it is found at the attempt. A fire whose expiry cannot
/// be read does not expire.
pub open spec fn verdict_on(redeemed: bool, expiry: Option<int>, at: Instant) -> Verdict {
    if redeemed {
        Verdict::AlreadyRedeemed
    } else if expiry is Some && is_past(at, expiry->Some_0) {
        Verdict::Expired
    } else {
        Verdict::Grant
    }
}

/// Whether an expiry, as the store writes it, leaves an instant in time: the
/// instant is not past it. An expiry that cannot be read leaves every instant
/// in time.
pub open spec fn in_time(expires_at: Seq<char>, at: Instant) -> bool {
    verdict_on(false, parsed_utc_text(expires_at), at) == Verdict::Grant
}

/// Decides an attempt at an instant from the redeemed flag and the expiry
/// read out of the store.
pub fn verdict_from(redeemed: i64, expiry: Option<i64>, at: Instant) -> (v: Verdict)
    ensures
        v == verdict_on(redeemed != 0, seconds_of(expiry), at),
{
    if redeemed != 0 {
        return Verdict::AlreadyRedeemed;
    }
    match expiry {
        Some(e) => {
            if at.secs > e || (at.secs == e && at.nanos > 0) {
                Verdict::Expired
            } else {
                Verdict::Grant
            }
        },
        None => Verdict::Grant,
    }
}

/// Judges what the store holds under a code before the fire is redeemed: no
/// fire is not found; a fire redeemed before, or past its expiry, is a
/// conflict; in that order.
pub fn redeem_decision(row: &Option<FireRow>, expiry: Option<i64>, at: Instant) -> (r: Result<
    (),
    AppError,
>)
    ensures
        match *row {
            None => r is Err && r->Err_0.is_not_found("Invalid signal fire code"@),
            Some(fire) => match verdict_on(fire.redeemed != 0, seconds_of(expiry), at) {
                Verdict::Grant => r is Ok,
                Verdict::AlreadyRedeemed => r is Err && r->Err_0.is_conflict(
                    "Signal fire already redeemed"@,
                ),
                Verdict::Expired => r is Err && r->Err_0.is_conflict("Signal fire expired"@),
            },
        },
{
    match row {
        None => Err(AppError::not_found("Invalid signal fire code")),
        Some(fire) => match verdict_from(fire.redeemed, expiry, at) {
            Verdict::Grant => Ok(()),
            Verdict::AlreadyRedeemed => Err(AppError::conflict("Signal fire already redeemed")),
            Verdict::Expired => Err(AppError::conflict("Signal fire expired")),
        },
    }
}

/// The aid that a signal fire grants.
pub open spec fn aid_of(fire: FireRow) -> SignalFireRedeemResult {
    SignalFireRedeemResult {
        aid_type: fire.aid_type,
        aid_amount: fire.aid_amount,
        heat_cost: fire.heat_cost,
    }
}

/// What the conditional write of a redemption comes to. The store marks the
/// fire only if it is still active, and says how many fires it marked: one
/// grants the aid; none means that another redeemer came first, a conflict;
/// more than one is an internal error.
pub open spec fn granted(
    fire: FireRow,
    marked: usize,
    r: Result<SignalFireRedeemResult, AppError>,
) -> bool {
    if marked == 1 {
        r == Ok::<SignalFireRedeemResult, AppError>(aid_of(fire))
    } else if marked == 0 {
        r is Err && r->Err_0.is_conflict("Signal fire already redeemed"@)
    } else {
        r is Err && r->Err_0.is_internal("Store redeemed more than one signal fire"@)
    }
}

/// Answers the conditional write of a redemption.
pub fn grant_from(fire: FireRow, marked: usize) -> (r: Result<SignalFireRedeemResult, AppError>)
    ensures
        granted(fire, marked, r),
{
    if marked == 1 {
        Ok(
            SignalFireRedeemResult {
                aid_type: fire.aid_type,
                aid_amount: fire.aid_amount,
                heat_cost: fire.heat_cost,
            },
        )
    } else if marked == 0 {
        Err(AppError::conflict("Signal fire already redeemed"))
    } else {
        Err(AppError::internal("Store redeemed more than one signal fire"))
    }
}

/// What passes between library and store when a signal fire is redeemed at
/// an instant, and what comes of it. The store is asked for the fire of the
/// code, in the form in which codes are looked up. No fire is not found; a
/// fire redeemed before is a conflict, and so is a fire past its expiry: the
/// store is asked nothing more. Only for a fire that is active and in time
/// is the store asked to mark it, on condition that it is still active and
/// carries the expiry that was judged; the aid is granted if the store
/// marked one fire. A failure of the store at either step is the answer.
pub open spec fn fire_redeemed(
    code: Seq<char>,
    at: Instant,
    exchanges: Seq<Exchange>,
    r: Result<SignalFireRedeemResult, AppError>,
) -> bool {
    &&& exchanges.len() >= 1
    &&& exchanges[0] matches Exchange::FireRead { code: asked, answer: found }
    &&& asked == normalized_code(code)
    &&& match found {
        Err(e) => exchanges.len() == 1 && r == Err::<SignalFireRedeemResult, AppError>(
            AppError::Db(e),
        ),
        Ok(None) => exchanges.len() == 1 && r is Err && r->Err_0.is_not_found(
            "Invalid signal fire code"@,
        ),
        Ok(Some(fire)) => match verdict_on(
            fire.redeemed != 0,
            parsed_utc_text(fire.expires_at@),
            at,
        ) {
            Verdict::AlreadyRedeemed => exchanges.len() == 1 && r is Err && r->Err_0.is_conflict(
                "Signal fire already redeemed"@,
            ),
            Verdict::Expired => exchanges.len() == 1 && r is Err && r->Err_0.is_conflict(
                "Signal fire expired"@,
            ),
            Verdict::Grant => {
                &&& exchanges.len() == 2
                &&& exchanges[1] matches Exchange::FireRedeem { code: marked_code, expires_at, answer }
                &&& marked_code == normalized_code(code)
                &&& expires_at == fire.expires_at@
                &&& match answer {
                    Err(e) => r == Err::<SignalFireRedeemResult, AppError>(AppError::Db(e)),
                    Ok(marked) => granted(fire, marked, r),
                }
            },
        },
    }
}

/// Redeems the signal fire of a code at a given instant. The caller holds
/// the store for itself from the read to the write, and the write is
/// conditional, so of any number of attempts on one code at most one is
/// granted.
pub fn redeem_signal_fire_at(db: &mut Db, code: &str, at: Instant) -> (r: Result<
    SignalFireRedeemResult,
    AppError,
>)
    ensures
        final(db).extends(*old(db)),
        fire_redeemed(code@, at, final(db).since(*old(db)), r),
{
    let code = normalize_code(code);
    let found = db.select_signal_fire(code.as_str());
    let ghost first = Exchange::FireRead { code: code@, answer: found };
    proof {
        assert(db.journal().take(old(db).journal().len() as int) =~= old(db).journal());
        assert(db.since(*old(db)) =~= seq![first]);
    }
    let row = match found {
        Ok(row) => row,
        Err(e) => {
            return Err(AppError::Db(e));
        },
    };
    let expiry = match &row {
        Some(fire) => parse_utc_text(fire.expires_at.as_str()),
        None => None,
    };
    match redeem_decision(&row, expiry, at) {
        Ok(()) => {},
        Err(e) => {
            return Err(e);
        },
    }
    let fire = row.unwrap();
    let answer = db.mark_signal_fire_redeemed(code.as_str(), fire.expires_at.as_str());
    proof {
        let second = Exchange::FireRedeem {
            code: code@,
            expires_at: fire.expires_at@,
            answer,
        };
        assert(db.journal().take(old(db).journal().len() as int) =~= old(db).journal());
        assert(db.since(*old(db)) =~= seq![first, second]);
    }
    match answer {
        Ok(marked) => grant_from(fire, marked),
        Err(e) => Err(AppError::Db(e)),
    }
}

/// Redeems the signal fire of a code now.
pub fn redeem_signal_fire(db: &mut Db, code: &str) -> (r: Result<SignalFireRedeemResult, AppError>)
    ensures
        final(db).extends(*old(db)),
        exists|at: Instant| #[trigger] fire_redeemed(code@, at, final(db).since(*old(db)), r),
{
    let at = now();
    let r = redeem_signal_fire_at(db, code, at);
    proof {
        assert(fire_redeemed(code@, at, db.since(*old(db)), r));
    }
    r
}

/// A signal fire past its expiry is refused with a conflict even if it was
/// never redeemed, and the store is not asked to mark it.
pub proof fn lemma_expired_fire_is_refused(
    code: Seq<char>,
    at: Instant,
    exchanges: Seq<Exchange>,
    r: Result<SignalFireRedeemResult, AppError>,
)
    requires
        fire_redeemed(code, at, exchanges, r),
        exchanges[0] matches Exchange::FireRead { answer: Ok(Some(fire)), .. } && fire.redeemed
            == 0 && parsed_utc_text(fire.expires_at@) is Some && is_past(
            at,
            parsed_utc_text(fire.expires_at@)->Some_0,
        ),
    ensures
        r is Err && r->Err_0.is_conflict("Signal fire expired"@),
        exchanges.len() == 1,
{
}

/// A signal fire that the store holds as redeemed is refused with a
/// conflict, whenever the attempt comes, and the store is not asked to mark
/// it.
pub proof fn lemma_redeemed_fire_is_refused(
    code: Seq<char>,
    at: Instant,
    exchanges: Seq<Exchange>,
    r: Result<SignalFireRedeemResult, AppError>,
)
    requires
        fire_redeemed(code, at, exchanges, r),
        exchanges[0] matches Exchange::FireRead { answer: Ok(Some(fire)), .. } && fire.redeemed
            != 0,
    ensures
        r is Err && r->Err_0.is_conflict("Signal fire already redeemed"@),
        exchanges.len() == 1,
{
}

/// Aid is granted only where the store held the fire active and in time and
/// then marked exactly one fire on the condition that it was still active:
/// the grant rests on the store's own count, not on what was read before.
pub proof fn lemma_grant_rests_on_the_mark(
    code: Seq<char>,
    at: Instant,
    exchanges: Seq<Exchange>,
    r: Result<SignalFireRedeemResult, AppError>,
)
    requires
        fire_redeemed(code, at, exchanges, r),
        r is Ok,
    ensures
        exchanges.len() == 2,
        exchanges[0] matches Exchange::FireRead { answer: Ok(Some(fire)), .. } && fire.redeemed
            == 0 && in_time(fire.expires_at@, at) && r->Ok_0 == aid_of(fire),
        exchanges[1] matches Exchange::FireRedeem { answer: Ok(marked), .. } && marked == 1,
{
}

} // verus!
