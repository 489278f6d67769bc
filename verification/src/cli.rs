//! The duration parser and the option record.
//!
//! A duration string is either the case-insensitive keyword `max`,
//! meaning unbounded, or exactly two colon-separated fields: a
//! non-negative integer magnitude and a unit token.  Hours convert at
//! the standard 3600 seconds per hour.

use vstd::prelude::*;
use vstd::string::StringSliceAdditionalSpecFns;

use crate::error::ErrorModel;
use crate::error::JigglerError;

verus! {

/// A non-negative time span, or the distinguished unbounded span.
///
/// The unbounded span disables deadline checking entirely; it is a tag,
/// not a maximal finite magnitude, so it is never added to an instant.
#[derive(Clone, Copy, Debug, PartialEq, Eq, Structural)]
pub enum CustomDuration {
    /// Run forever: never compared against a deadline.
    Unbounded,
    /// A finite span, in nanoseconds.
    Finite { nanos: u128 },
}

pub const COLON: u8 = 58;

pub const NANOS_PER_HOUR: u64 = 3_600_000_000_000;

pub const NANOS_PER_MINUTE: u64 = 60_000_000_000;

pub const NANOS_PER_SECOND: u64 = 1_000_000_000;

pub const NANOS_PER_MILLI: u64 = 1_000_000;

pub const NANOS_PER_MICRO: u64 = 1_000;

/// ASCII lowercasing of one byte.
pub open spec fn lower_byte(b: u8) -> u8 {
    if 65 <= b && b <= 90 {
        (b + 32) as u8
    } else {
        b
    }
}

/// ASCII lowercasing of a byte sequence.
pub open spec fn lower_bytes(s: Seq<u8>) -> Seq<u8> {
    s.map_values(|b: u8| lower_byte(b))
}

/// An ASCII decimal digit.
pub open spec fn is_digit(b: u8) -> bool {
    48 <= b && b <= 57
}

pub open spec fn all_digits(s: Seq<u8>) -> bool {
    forall|i: int| 0 <= i < s.len() ==> is_digit(#[trigger] s[i])
}

/// The value of a digit string, most significant digit first.
pub open spec fn digits_val(s: Seq<u8>) -> int
    decreases s.len(),
{
    if s.len() == 0 {
        0
    } else {
        digits_val(s.drop_last()) * 10 + (s.last() - 48)
    }
}

/// A well-formed magnitude field: at least one digit, digits only, and
/// a value that fits in 64 bits.
pub open spec fn is_magnitude(s: Seq<u8>) -> bool {
    s.len() > 0 && all_digits(s) && digits_val(s) <= u64::MAX
}

/// The nanosecond multiplier of a (lowercased) unit token, or `None`
/// for an unrecognized unit.
pub open spec fn unit_nanos(u: Seq<u8>) -> Option<u64> {
    if u == "hours".spec_bytes() || u == "hour".spec_bytes() || u == "hr".spec_bytes() || u
        == "h".spec_bytes() {
        Some(NANOS_PER_HOUR)
    } else if u == "minutes".spec_bytes() || u == "minute".spec_bytes() || u == "min".spec_bytes()
        || u == "m".spec_bytes() {
        Some(NANOS_PER_MINUTE)
    } else if u == "seconds".spec_bytes() || u == "second".spec_bytes() || u == "sec".spec_bytes()
        || u == "s".spec_bytes() {
        Some(NANOS_PER_SECOND)
    } else if u == "milliseconds".spec_bytes() || u == "millisecond".spec_bytes() || u
        == "ms".spec_bytes() {
        Some(NANOS_PER_MILLI)
    } else if u == "microseconds".spec_bytes() || u == "microsecond".spec_bytes() || u
        == "us".spec_bytes() {
        Some(NANOS_PER_MICRO)
    } else if u == "nanoseconds".spec_bytes() || u == "nanosecond".spec_bytes() || u
        == "ns".spec_bytes() {
        Some(1u64)
    } else {
        None
    }
}

/// How many colons a byte sequence holds.
pub open spec fn colon_count(s: Seq<u8>) -> nat
    decreases s.len(),
{
    if s.len() == 0 {
        0
    } else {
        colon_count(s.drop_last()) + if s.last() == COLON {
            1nat
        } else {
            0nat
        }
    }
}

/// `i` is the position of the first colon of `s`.
pub open spec fn is_field_split(s: Seq<u8>, i: int) -> bool {
    &&& 0 <= i < s.len()
    &&& s[i] == COLON
    &&& forall|j: int| 0 <= j < i ==> s[j] != COLON
}

/// The two-field case: a magnitude and a unit.  The magnitude is
/// checked first, as a caller sees from the error it gets back.
pub open spec fn parse_two_fields(mag: Seq<u8>, unit: Seq<u8>) -> Result<
    CustomDuration,
    ErrorModel,
> {
    if !is_magnitude(mag) {
        Err(ErrorModel::InvalidMagnitude)
    } else {
        match unit_nanos(lower_bytes(unit)) {
            Some(m) => Ok(
                CustomDuration::Finite { nanos: (digits_val(mag) * m) as u128 },
            ),
            None => Err(ErrorModel::UnknownUnit { token: unit }),
        }
    }
}

/// What parsing a duration string returns, as a function of its bytes.
///
/// One field that lowercases to `max` is the unbounded span; exactly
/// two colon-separated fields are a magnitude and a unit; any other
/// field count is malformed.
pub open spec fn spec_parse(b: Seq<u8>) -> Result<CustomDuration, ErrorModel> {
    if colon_count(b) == 0 {
        if lower_bytes(b) == "max".spec_bytes() {
            Ok(CustomDuration::Unbounded)
        } else {
            Err(ErrorModel::MalformedInput)
        }
    } else if colon_count(b) == 1 {
        let i = choose|i: int| is_field_split(b, i);
        parse_two_fields(b.subrange(0, i), b.subrange(i + 1, b.len() as int))
    } else {
        Err(ErrorModel::MalformedInput)
    }
}

/// Unit-alias equivalence: two recognized unit tokens with the same
/// multiplier yield the identical span for every magnitude field.
pub proof fn unit_alias_equivalence(mag: Seq<u8>, u1: Seq<u8>, u2: Seq<u8>)
    requires
        unit_nanos(lower_bytes(u1)) == unit_nanos(lower_bytes(u2)),
        unit_nanos(lower_bytes(u1)) is Some,
    ensures
        parse_two_fields(mag, u1) == parse_two_fields(mag, u2),
{
}

proof fn lemma_field_split_unique(s: Seq<u8>, i: int, j: int)
    requires
        is_field_split(s, i),
        is_field_split(s, j),
    ensures
        i == j,
{
    if i < j {
        assert(s[i] == COLON);
    } else if j < i {
        assert(s[j] == COLON);
    }
}

proof fn lemma_digits_val_bounds(s: Seq<u8>)
    requires
        all_digits(s),
    ensures
        0 <= digits_val(s),
        forall|k: int| 0 <= k <= s.len() ==> digits_val(#[trigger] s.take(k)) <= digits_val(s),
    decreases s.len(),
{
    if s.len() == 0 {
        assert(s.take(0) =~= s);
    } else {
        let d = s.drop_last();
        assert(all_digits(d));
        lemma_digits_val_bounds(d);
        assert forall|k: int| 0 <= k <= s.len() implies digits_val(#[trigger] s.take(k))
            <= digits_val(s) by {
            if k <= s.len() - 1 {
                assert(s.take(k) =~= d.take(k));
                assert(digits_val(d.take(k)) <= digits_val(d));
                assert(digits_val(s) == digits_val(d) * 10 + (s.last() - 48));
                assert(digits_val(d) <= digits_val(d) * 10) by (nonlinear_arith)
                    requires
                        digits_val(d) >= 0,
                ;
            } else {
                assert(s.take(k) =~= s);
            }
        }
        assert(digits_val(d) * 10 >= 0) by (nonlinear_arith)
            requires
                digits_val(d) >= 0,
        ;
    }
}

/// Compare two byte slices for equality of their contents.
fn bytes_eq(a: &[u8], b: &[u8]) -> (r: bool)
    ensures
        r == (a@ == b@),
{
    if a.len() != b.len() {
        return false;
    }
    let n: usize = a.len();
    let mut i: usize = 0;
    while i < n
        invariant
            n == a@.len(),
            n == b@.len(),
            0 <= i <= n,
            forall|j: int| 0 <= j < i ==> a@[j] == b@[j],
        decreases n - i,
    {
        if a[i] != b[i] {
            return false;
        }
        i = i + 1;
    }
    proof {
        assert(a@ =~= b@);
    }
    true
}

/// Copy a byte slice into a fresh vector.
fn copy_bytes(b: &[u8]) -> (r: Vec<u8>)
    ensures
        r@ == b@,
{
    let n: usize = b.len();
    let mut v: Vec<u8> = Vec::new();
    let mut i: usize = 0;
    while i < n
        invariant
            n == b@.len(),
            0 <= i <= n,
            v@ =~= b@.take(i as int),
        decreases n - i,
    {
        v.push(b[i]);
        proof {
            assert(v@ =~= b@.take(i + 1));
        }
        i = i + 1;
    }
    proof {
        assert(b@.take(n as int) =~= b@);
    }
    v
}

/// ASCII-lowercase a byte slice into a fresh vector.
fn lower_vec(b: &[u8]) -> (r: Vec<u8>)
    ensures
        r@ == lower_bytes(b@),
{
    let n: usize = b.len();
    let mut v: Vec<u8> = Vec::new();
    let mut i: usize = 0;
    while i < n
        invariant
            n == b@.len(),
            0 <= i <= n,
            v@ =~= lower_bytes(b@.take(i as int)),
        decreases n - i,
    {
        let c: u8 = b[i];
        let lc: u8 = if 65 <= c && c <= 90 {
            c + 32
        } else {
            c
        };
        v.push(lc);
        proof {
            assert(v@ =~= lower_bytes(b@.take(i + 1)));
        }
        i = i + 1;
    }
    proof {
        assert(b@.take(n as int) =~= b@);
    }
    v
}

/// Parse a magnitude field: digits only, value fitting in 64 bits.
fn parse_magnitude(b: &[u8]) -> (r: Option<u64>)
    ensures
        match r {
            Some(v) => is_magnitude(b@) && v == digits_val(b@),
            None => !is_magnitude(b@),
        },
{
    let n: usize = b.len();
    if n == 0 {
        return None;
    }
    let mut val: u64 = 0;
    let mut i: usize = 0;
    while i < n
        invariant
            n == b@.len(),
            0 <= i <= n,
            all_digits(b@.take(i as int)),
            val == digits_val(b@.take(i as int)),
        decreases n - i,
    {
        let c: u8 = b[i];
        if !(48 <= c && c <= 57) {
            return None;
        }
        let d: u64 = (c - 48) as u64;
        proof {
            assert(b@.take(i + 1).drop_last() =~= b@.take(i as int));
            assert(b@.take(i + 1).last() == b@[i as int]);
        }
        if val > u64::MAX / 10 || (val == u64::MAX / 10 && d > u64::MAX % 10) {
            proof {
                let t = b@.take(i + 1);
                assert(all_digits(t));
                assert(digits_val(t) == val * 10 + d);
                assert(digits_val(t) > u64::MAX);
                if all_digits(b@) {
                    lemma_digits_val_bounds(b@);
                    assert(digits_val(b@) >= digits_val(t));
                }
            }
            return None;
        }
        val = val * 10 + d;
        i = i + 1;
    }
    proof {
        assert(b@.take(n as int) =~= b@);
    }
    Some(val)
}

/// Map a lowercased unit token to its nanosecond multiplier.
fn unit_lookup(low: &[u8]) -> (r: Option<u64>)
    ensures
        r == unit_nanos(low@),
{
    if bytes_eq(low, "hours".as_bytes()) || bytes_eq(low, "hour".as_bytes()) || bytes_eq(
        low,
        "hr".as_bytes(),
    ) || bytes_eq(low, "h".as_bytes()) {
        Some(NANOS_PER_HOUR)
    } else if bytes_eq(low, "minutes".as_bytes()) || bytes_eq(low, "minute".as_bytes())
        || bytes_eq(low, "min".as_bytes()) || bytes_eq(low, "m".as_bytes()) {
        Some(NANOS_PER_MINUTE)
    } else if bytes_eq(low, "seconds".as_bytes()) || bytes_eq(low, "second".as_bytes())
        || bytes_eq(low, "sec".as_bytes()) || bytes_eq(low, "s".as_bytes()) {
        Some(NANOS_PER_SECOND)
    } else if bytes_eq(low, "milliseconds".as_bytes()) || bytes_eq(low, "millisecond".as_bytes())
        || bytes_eq(low, "ms".as_bytes()) {
        Some(NANOS_PER_MILLI)
    } else if bytes_eq(low, "microseconds".as_bytes()) || bytes_eq(low, "microsecond".as_bytes())
        || bytes_eq(low, "us".as_bytes()) {
        Some(NANOS_PER_MICRO)
    } else if bytes_eq(low, "nanoseconds".as_bytes()) || bytes_eq(low, "nanosecond".as_bytes())
        || bytes_eq(low, "ns".as_bytes()) {
        Some(1)
    } else {
        None
    }
}

impl CustomDuration {
    /// True exactly on the unbounded span.
    pub fn is_unbounded(&self) -> (r: bool)
        ensures
            r == (*self is Unbounded),
    {
        match self {
            CustomDuration::Unbounded => true,
            CustomDuration::Finite { .. } => false,
        }
    }

    /// Parse a duration string: `max` (any case) for the unbounded
    /// span, else `magnitude:unit`.  Returns exactly what
    /// [`spec_parse`] says of the string's bytes.
    pub fn from_str(s: &str) -> (r: Result<CustomDuration, JigglerError>)
        ensures
            match (r, spec_parse(s.spec_bytes())) {
                (Ok(d), Ok(v)) => d == v,
                (Err(e), Err(w)) => e@ == w,
                _ => false,
            },
    {
        let b: &[u8] = s.as_bytes();
        let n: usize = b.len();
        let mut count: usize = 0;
        let mut first: usize = 0;
        let mut i: usize = 0;
        while i < n
            invariant
                n == b@.len(),
                0 <= i <= n,
                count <= i,
                count == colon_count(b@.take(i as int)),
                count > 0 ==> first < i && b@[first as int] == COLON && forall|j: int|
                    0 <= j < first ==> b@[j] != COLON,
                count == 0 ==> forall|j: int| 0 <= j < i ==> b@[j] != COLON,
            decreases n - i,
        {
            proof {
                assert(b@.take(i + 1).drop_last() =~= b@.take(i as int));
                assert(b@.take(i + 1).last() == b@[i as int]);
            }
            if b[i] == COLON {
                if count == 0 {
                    first = i;
                }
                count = count + 1;
            }
            i = i + 1;
        }
        proof {
            assert(b@.take(n as int) =~= b@);
        }
        if count == 0 {
            let low = lower_vec(b);
            if bytes_eq(low.as_slice(), "max".as_bytes()) {
                Ok(CustomDuration::Unbounded)
            } else {
                Err(JigglerError::MalformedInput)
            }
        } else if count == 1 {
            proof {
                assert(is_field_split(b@, first as int));
                let gi = choose|gi: int| is_field_split(b@, gi);
                lemma_field_split_unique(b@, gi, first as int);
            }
            let mag: &[u8] = &b[0..first];
            let unit: &[u8] = &b[first + 1..n];
            match parse_magnitude(mag) {
                None => Err(JigglerError::InvalidMagnitude),
                Some(v) => {
                    let low = lower_vec(unit);
                    match unit_lookup(low.as_slice()) {
                        None => Err(JigglerError::UnknownUnit { token: copy_bytes(unit) }),
                        Some(m) => {
                            proof {
                                assert((v as int) * (m as int) <= (u64::MAX as int) * (
                                NANOS_PER_HOUR as int)) by (nonlinear_arith)
                                    requires
                                        0 <= v <= u64::MAX,
                                        0 <= m <= NANOS_PER_HOUR,
                                ;
                            }
                            Ok(CustomDuration::Finite { nanos: (v as u128) * (m as u128) })
                        },
                    }
                },
            }
        } else {
            Err(JigglerError::MalformedInput)
        }
    }
}

/// The option record the scheduler is configured from, with the
/// documented defaults: no start delay, unbounded end, one minute
/// between jiggles, 70 milliseconds between repetitions, 3 repetitions
/// of 10 pixels each.
pub struct Args {
    /// Delay before the first jiggle.
    pub start: CustomDuration,
    /// How long to run, measured from the first jiggle.
    pub end: CustomDuration,
    /// The time to wait in between jiggles.
    pub wait: CustomDuration,
    /// The time to sleep in between repetitions of a single jiggle.
    pub jiggle_sleep: CustomDuration,
    /// The number of back-and-forths in a single jiggle.
    pub jiggle_reps: usize,
    /// The number of pixels to move in a single jiggle.
    pub jiggle_size: u16,
}

impl Default for Args {
    /// The documented defaults.
    fn default() -> (r: Args)
        ensures
            r.start == (CustomDuration::Finite { nanos: 0u128 }),
            r.end == CustomDuration::Unbounded,
            r.wait == (CustomDuration::Finite { nanos: 60_000_000_000u128 }),
            r.jiggle_sleep == (CustomDuration::Finite { nanos: 70_000_000u128 }),
            r.jiggle_reps == 3usize,
            r.jiggle_size == 10u16,
    {
        Args {
            start: CustomDuration::Finite { nanos: 0 },
            end: CustomDuration::Unbounded,
            wait: CustomDuration::Finite { nanos: 60_000_000_000 },
            jiggle_sleep: CustomDuration::Finite { nanos: 70_000_000 },
            jiggle_reps: 3,
            jiggle_size: 10,
        }
    }
}

} // verus!

