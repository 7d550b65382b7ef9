//! Backend client model: the uniform error taxonomy and the retry policy
//! shared by both RPC dialects.
//!
//! The HTTP exchange itself is I/O and lives outside the library; every
//! decision around it — which statuses are transient, how long to back off,
//! when to stop — is here.

use vstd::prelude::*;
use vstd::string::StringExecFns;

use crate::json::{JVal, Json, jobj_lookup};
use crate::strutil::{dec_nat, u64_to_string};

verus! {

broadcast use {vstd::std_specs::vec::group_vec_axioms, vstd::seq::group_seq_axioms};

/// The structured body that the backend attaches to an error response.
#[derive(Debug)]
pub struct OdooErrorBody {
    pub name: Option<String>,
    pub message: Option<String>,
    pub arguments: Vec<Json>,
    pub context: Json,
    pub debug: Option<String>,
}

/// The error taxonomy of the backend client.
#[derive(Debug)]
pub enum OdooError {
    /// A transport-level failure, with the transport's own message.
    Http(String),
    /// An error response from the backend application.
    Api { status: u16, message: String, body: Option<OdooErrorBody> },
    /// A response that does not have the promised shape.
    InvalidResponse(String),
}

pub type OdooResult<T> = Result<T, OdooError>;

pub open spec fn error_text(e: OdooError) -> Seq<char> {
    match e {
        OdooError::Http(m) => "HTTP error: "@ + m@,
        OdooError::Api { status, message, .. } => "Odoo API error (status "@ + dec_nat(
            status as nat,
        ) + "): "@ + message@,
        OdooError::InvalidResponse(m) => "Invalid response: "@ + m@,
    }
}

impl OdooError {
    /// The human-readable one-line rendering of this error.
    pub fn message_text(&self) -> (r: String)
        ensures
            r@ == error_text(*self),
    {
        match self {
            OdooError::Http(m) => {
                let mut s = "HTTP error: ".to_owned();
                s.append(m.as_str());
                s
            },
            OdooError::Api { status, message, .. } => {
                let mut s = "Odoo API error (status ".to_owned();
                let d = u64_to_string(*status as u64);
                s.append(d.as_str());
                s.append("): ");
                s.append(message.as_str());
                s
            },
            OdooError::InvalidResponse(m) => {
                let mut s = "Invalid response: ".to_owned();
                s.append(m.as_str());
                s
            },
        }
    }
}

/// Statuses that the retry policy treats as transient: every 5xx, and 429.
pub open spec fn spec_retryable_status(status: u16) -> bool {
    (500 <= status && status < 600) || status == 429
}

pub fn retryable_status(status: u16) -> (r: bool)
    ensures
        r == spec_retryable_status(status),
{
    (500 <= status && status < 600) || status == 429
}

/// A success status: 2xx.
pub open spec fn spec_success_status(status: u16) -> bool {
    200 <= status && status < 300
}

pub fn success_status(status: u16) -> (r: bool)
    ensures
        r == spec_success_status(status),
{
    200 <= status && status < 300
}

/// The exponential backoff before retrying: 250 ms doubled per attempt
/// already made, saturating instead of overflowing.
pub open spec fn spec_backoff_ms(attempt: nat) -> u64
    decreases attempt,
{
    if attempt == 0 {
        250u64
    } else {
        let p = spec_backoff_ms((attempt - 1) as nat);
        if p > u64::MAX / 2 {
            u64::MAX
        } else {
            (p * 2) as u64
        }
    }
}

pub fn backoff_ms(attempt: u32) -> (r: u64)
    ensures
        r == spec_backoff_ms(attempt as nat),
{
    let mut ms: u64 = 250;
    let mut i: u32 = 0;
    while i < attempt
        invariant
            i <= attempt,
            ms == spec_backoff_ms(i as nat),
        decreases attempt - i,
    {
        ms = if ms > u64::MAX / 2 {
            u64::MAX
        } else {
            ms * 2
        };
        i += 1;
    }
    ms
}

/// What one attempt of a backend call came to, before the policy looks
/// at it.
#[derive(Debug)]
pub enum AttemptOutcome {
    /// The transport failed before any status was had.
    Transport(String),
    /// An HTTP status, with the response body text.
    Status(u16, String),
}

/// How the retry policy reads one attempt.
#[derive(Debug, PartialEq, Eq, Clone, Copy)]
pub enum AttemptClass {
    /// A 2xx answer: the call is done.
    Success,
    /// A caller fault — any other status outside the transient set; the
    /// call fails at once.
    Fatal,
    /// A transport failure, a 5xx or a 429: try again while attempts
    /// remain.
    Transient,
}

pub open spec fn spec_classify(o: AttemptOutcome) -> AttemptClass {
    match o {
        AttemptOutcome::Transport(_) => AttemptClass::Transient,
        AttemptOutcome::Status(s, _) => if spec_success_status(s) {
            AttemptClass::Success
        } else if spec_retryable_status(s) {
            AttemptClass::Transient
        } else {
            AttemptClass::Fatal
        },
    }
}

pub fn classify_attempt(o: &AttemptOutcome) -> (r: AttemptClass)
    ensures
        r == spec_classify(*o),
{
    match o {
        AttemptOutcome::Transport(_) => AttemptClass::Transient,
        AttemptOutcome::Status(s, _) => {
            if success_status(*s) {
                AttemptClass::Success
            } else if retryable_status(*s) {
                AttemptClass::Transient
            } else {
                AttemptClass::Fatal
            }
        },
    }
}

/// How many attempts the policy makes when the successive attempts come
/// to the given classes: it stops at the first non-transient attempt, and
/// never makes more than `max_retries + 1`.
pub open spec fn spec_attempts_used(cs: Seq<AttemptClass>, max_retries: nat) -> nat
    decreases cs.len(),
{
    if cs.len() == 0 {
        0
    } else if !(cs[0] is Transient) || max_retries == 0 {
        1
    } else {
        1 + spec_attempts_used(cs.drop_first(), (max_retries - 1) as nat)
    }
}

/// The policy makes at least one attempt, never more than
/// `max_retries + 1`, and every attempt before the delivered one was
/// transient — so a delivered success is the only successful attempt.
pub proof fn lemma_attempts_used_bounds(cs: Seq<AttemptClass>, max_retries: nat)
    requires
        cs.len() > 0,
    ensures
        1 <= spec_attempts_used(cs, max_retries) <= max_retries + 1,
        spec_attempts_used(cs, max_retries) <= cs.len(),
        forall|j: int|
            0 <= j < spec_attempts_used(cs, max_retries) - 1 ==> #[trigger] cs[j] is Transient,
    decreases cs.len(),
{
    if cs[0] is Transient && max_retries > 0 && cs.len() == 1 {
        assert(cs.drop_first().len() == 0);
        assert(spec_attempts_used(cs.drop_first(), (max_retries - 1) as nat) == 0);
    }
    if cs[0] is Transient && max_retries > 0 && cs.len() > 1 {
        lemma_attempts_used_bounds(cs.drop_first(), (max_retries - 1) as nat);
        assert forall|j: int|
            0 <= j < spec_attempts_used(cs, max_retries) - 1 implies #[trigger] cs[j]
            is Transient by {
            if j > 0 {
                assert(cs.drop_first()[j - 1] == cs[j]);
            }
        }
    }
}

/// A pure run of the retry policy against a fixed sequence of attempt
/// outcomes: how many attempts are made, and which outcome is delivered.
pub fn retry_run(cs: &Vec<AttemptClass>, max_retries: usize) -> (r: (usize, AttemptClass))
    requires
        cs@.len() > max_retries,
    ensures
        r.0 == spec_attempts_used(cs@, max_retries as nat),
        1 <= r.0 <= max_retries + 1,
        r.1 == cs@[r.0 - 1],
        forall|j: int| 0 <= j < r.0 - 1 ==> #[trigger] cs@[j] is Transient,
        !(r.1 is Transient) ==> forall|j: int|
            0 <= j < r.0 - 1 ==> !(#[trigger] cs@[j] == r.1),
{
    let n = cs.len();
    let mut attempt: usize = 0;
    proof {
        assert(cs@.skip(0) =~= cs@);
    }
    loop
        invariant
            attempt <= max_retries,
            max_retries < n,
            n == cs@.len(),
            forall|j: int| 0 <= j < attempt ==> #[trigger] cs@[j] is Transient,
            spec_attempts_used(cs@, max_retries as nat) == attempt + spec_attempts_used(
                cs@.skip(attempt as int),
                (max_retries - attempt) as nat,
            ),
        decreases max_retries - attempt,
    {
        let c = cs[attempt];
        proof {
            assert(cs@.skip(attempt as int)[0] == cs@[attempt as int]);
        }
        if !matches!(c, AttemptClass::Transient) || attempt == max_retries {
            proof {
                assert(spec_attempts_used(cs@.skip(attempt as int), (max_retries - attempt) as nat)
                    == 1);
            }
            return (attempt + 1, c);
        }
        proof {
            assert(cs@.skip(attempt as int).drop_first() =~= cs@.skip(attempt + 1));
        }
        attempt += 1;
    }
}

/// Two transient failures and then a success are delivered as exactly one
/// success on the third attempt, with no attempt made after it.
pub proof fn lemma_retry_settles_on_first_success(cs: Seq<AttemptClass>, max_retries: nat)
    requires
        cs.len() > max_retries,
        max_retries >= 2,
        cs.len() >= 3,
        cs[0] is Transient,
        cs[1] is Transient,
        cs[2] is Success,
    ensures
        spec_attempts_used(cs, max_retries) == 3,
        cs[spec_attempts_used(cs, max_retries) - 1] is Success,
{
    assert(cs.drop_first()[0] == cs[1]);
    assert(cs.drop_first().drop_first()[0] == cs[2]);
    assert(cs.drop_first().drop_first().len() > 0);
    assert(spec_attempts_used(cs.drop_first().drop_first(), (max_retries - 2) as nat) == 1);
    assert(spec_attempts_used(cs.drop_first(), (max_retries - 1) as nat) == 1
        + spec_attempts_used(cs.drop_first().drop_first(), (max_retries - 2) as nat));
    assert(spec_attempts_used(cs, max_retries) == 1 + spec_attempts_used(
        cs.drop_first(),
        (max_retries - 1) as nat,
    ));
}

/// A fatal first attempt — a 404, say — is delivered at once: one attempt,
/// zero retries.
pub proof fn lemma_retry_fatal_is_immediate(cs: Seq<AttemptClass>, max_retries: nat)
    requires
        cs.len() > 0,
        cs[0] is Fatal,
    ensures
        spec_attempts_used(cs, max_retries) == 1,
{
}

/// What the token dialect's raw POST does once an attempt's outcome is
/// known: either the call is settled, or the error is kept and the call
/// may be retried.
#[derive(Debug)]
pub enum AttemptResolution {
    Done(Result<Json, OdooError>),
    Retry(OdooError),
}

/// Reads the `message` member of a parsed error body, if it is a string.
pub open spec fn spec_body_message(parsed: Option<JVal>) -> Option<Seq<char>> {
    match parsed {
        Some(JVal::Obj(fs)) => match jobj_lookup(fs, "message"@) {
            Some(JVal::Str(m)) => Some(m),
            _ => None,
        },
        _ => None,
    }
}

/// The message that an error response carries outward: the structured
/// body's `message` where there is one, else the raw body text.
pub open spec fn spec_error_message(parsed: Option<JVal>, text: Seq<char>) -> Seq<char> {
    match spec_body_message(parsed) {
        Some(m) => m,
        None => text,
    }
}

/// Interpret one HTTP attempt of a backend call. `parsed` is the response
/// body as JSON where it parses, `None` where it does not.
pub fn resolve_attempt(status: u16, body_text: &str, parsed: Option<Json>) -> (r:
    AttemptResolution)
    ensures
        spec_success_status(status) ==> match r {
            AttemptResolution::Done(Ok(v)) => parsed matches Some(p) && v@ == p@,
            AttemptResolution::Done(Err(e)) => parsed is None && e is InvalidResponse,
            AttemptResolution::Retry(_) => false,
        },
        !spec_success_status(status) && spec_retryable_status(status) ==> match r {
            AttemptResolution::Retry(e) => e matches OdooError::Api { status: s, message, body: _ }
                && s == status && message@ == spec_error_message(
                match parsed {
                    Some(p) => Some(p@),
                    None => None,
                },
                body_text@,
            ),
            _ => false,
        },
        !spec_success_status(status) && !spec_retryable_status(status) ==> match r {
            AttemptResolution::Done(Err(e)) => e matches OdooError::Api {
                status: s,
                message,
                body: _,
            } && s == status && message@ == spec_error_message(
                match parsed {
                    Some(p) => Some(p@),
                    None => None,
                },
                body_text@,
            ),
            _ => false,
        },
{
    if success_status(status) {
        match parsed {
            Some(v) => AttemptResolution::Done(Ok(v)),
            None => {
                let mut m = "Failed to parse JSON response. Body: ".to_owned();
                m.append(body_text);
                AttemptResolution::Done(Err(OdooError::InvalidResponse(m)))
            },
        }
    } else {
        let message: String = match &parsed {
            Some(p) => {
                match p.get("message") {
                    Some(mv) => match mv.as_str() {
                        Some(s) => s.clone(),
                        None => body_text.to_owned(),
                    },
                    None => body_text.to_owned(),
                }
            },
            None => body_text.to_owned(),
        };
        let err = OdooError::Api { status, message, body: None };
        if retryable_status(status) {
            AttemptResolution::Retry(err)
        } else {
            AttemptResolution::Done(Err(err))
        }
    }
}

/// The base64 text of a byte string; it depends on the bytes alone.
pub uninterp spec fn b64_of(bytes: Seq<u8>) -> Seq<char>;

/// Relies on `base64`'s standard-alphabet engine: encodes the bytes as
/// padded base64 text, four characters for every three bytes.
#[verifier::external_body]
pub fn encode_base64(b: &Vec<u8>) -> (r: String)
    requires
        b@.len() <= 0x1000_0000_0000_0000,
    ensures
        r@ == b64_of(b@),
        b@.len() == 0 ==> r@.len() == 0,
{
    base64::Engine::encode(&base64::engine::general_purpose::STANDARD, b.as_slice())
}

/// An array of record ids, as `search` promises one.
pub fn expect_ids(v: &Json) -> (r: Result<Vec<i64>, OdooError>)
    ensures
        match r {
            Ok(ids) => v@ matches JVal::Arr(items) && crate::executor::ints_of(items, ids@),
            Err(e) => e is InvalidResponse && (!(v@ is Arr) || !crate::executor::all_ints(
                crate::executor::arr_items(v@),
            )),
        },
{
    match v.as_array() {
        Some(items) => {
            proof {
                crate::json::lemma_jvals_of_len(items@);
            }
            let n = items.len();
            let mut out: Vec<i64> = Vec::new();
            let mut i: usize = 0;
            while i < n
                invariant
                    i <= n,
                    n == items@.len(),
                    crate::json::jvals_of(items@).len() == n,
                    v@ == JVal::Arr(crate::json::jvals_of(items@)),
                    out@.len() == i,
                    forall|j: int|
                        0 <= j < i ==> crate::json::jvals_of(items@)[j] == JVal::Int(
                            #[trigger] out@[j],
                        ),
                decreases n - i,
            {
                proof {
                    crate::json::lemma_jvals_of_index(items@, i as int);
                }
                match items[i].as_i64() {
                    Some(x) => {
                        out.push(x);
                    },
                    None => {
                        return Err(
                            OdooError::InvalidResponse(
                                "Expected array of ids from search".to_owned(),
                            ),
                        );
                    },
                }
                i += 1;
            }
            Ok(out)
        },
        None => Err(OdooError::InvalidResponse("Expected array of ids from search".to_owned())),
    }
}

/// A boolean result, as `write` and `unlink` promise one.
pub fn expect_bool(v: &Json, what: &str) -> (r: Result<bool, OdooError>)
    ensures
        match r {
            Ok(b) => v@ == JVal::Bool(b),
            Err(e) => e is InvalidResponse && !(v@ is Bool),
        },
{
    match v.as_bool() {
        Some(b) => Ok(b),
        None => {
            let mut m = "Expected boolean from ".to_owned();
            m.append(what);
            Err(OdooError::InvalidResponse(m))
        },
    }
}

/// An integer result, as `search_count` promises one.
pub fn expect_i64(v: &Json, what: &str) -> (r: Result<i64, OdooError>)
    ensures
        match r {
            Ok(n) => v@ == JVal::Int(n),
            Err(e) => e is InvalidResponse && !(v@ is Int),
        },
{
    match v.as_i64() {
        Some(n) => Ok(n),
        None => {
            let mut m = "Expected number from ".to_owned();
            m.append(what);
            Err(OdooError::InvalidResponse(m))
        },
    }
}

/// The created id of a `create` or `copy` result: the first element of
/// the returned id array, or a bare integer; anything else — an empty
/// array included — is a shape fault.
pub fn decode_created_id(v: &Json) -> (r: Result<i64, OdooError>)
    ensures
        match r {
            Ok(id) => (v@ matches JVal::Arr(items) && items.len() > 0 && items[0] == JVal::Int(
                id,
            )) || v@ == JVal::Int(id),
            Err(e) => e is InvalidResponse && !(v@ is Int) && !(v@ matches JVal::Arr(items)
                && items.len() > 0 && items[0] is Int),
        },
{
    match v.as_array() {
        Some(items) => {
            proof {
                crate::json::lemma_jvals_of_len(items@);
            }
            if items.len() == 0 {
                return Err(OdooError::InvalidResponse("create returned empty array".to_owned()));
            }
            proof {
                crate::json::lemma_jvals_of_index(items@, 0);
            }
            match items[0].as_i64() {
                Some(id) => Ok(id),
                None => Err(
                    OdooError::InvalidResponse(
                        "Expected created id (number) in array from create".to_owned(),
                    ),
                ),
            }
        },
        None => match v.as_i64() {
            Some(id) => Ok(id),
            None => Err(
                OdooError::InvalidResponse(
                    "Expected created id (number or array) from create".to_owned(),
                ),
            ),
        },
    }
}

} // verus!
