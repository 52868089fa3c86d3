//! The two field codecs with real edge-case policy: the Unix-epoch
//! timestamp codec and the "single value or set" audience codec.
//!
//! The wire shapes are modeled as enums: a collaborator that parses the
//! outer record hands each field's shape to the codec, and an unsupported
//! shape is rejected with a decoding error.

use vstd::prelude::*;
use crate::claims::audiences_opt_wf;
use crate::claims::contains_str;
use crate::claims::no_dup_views;
use crate::claims::Audiences;
use crate::error::DecodeError;
use crate::time::UnixTimeStamp;
use crate::time::TICKS_PER_SEC;

verus! {

/// The wire shapes a timestamp field may arrive in. A floating-point wire
/// value is truncated toward zero at the whole-second boundary by the
/// collaborator that parses the outer record, and arrives here as `Signed`.
#[derive(Clone, PartialEq, Eq, Debug)]
pub enum TimestampWire {
    /// A signed integer: seconds since the Unix epoch.
    Signed(i64),
    /// An unsigned integer: seconds since the Unix epoch.
    Unsigned(u64),
    /// Any other shape (a string, an object, ...).
    Unsupported,
}

/// What encoding an instant of `ticks` ticks puts on the wire: the whole
/// seconds since the epoch, the sub-second part lost.
pub open spec fn spec_encode_timestamp(ticks: int) -> int {
    ticks / (TICKS_PER_SEC as int)
}

/// The instant, in ticks, that a whole-second wire count decodes to:
/// clamped to the nearest whole-second instant the tick range can hold.
pub open spec fn spec_clamp_secs_ticks(secs: int) -> int {
    if secs < 0 {
        0
    } else if secs > 0xFFFF_FFFF {
        0xFFFF_FFFF * (TICKS_PER_SEC as int)
    } else {
        secs * (TICKS_PER_SEC as int)
    }
}

/// What decoding a timestamp wire value yields: the instant in ticks, or
/// the decoding error.
pub open spec fn spec_decode_timestamp(w: TimestampWire) -> Result<int, DecodeError> {
    match w {
        TimestampWire::Signed(v) => Ok(spec_clamp_secs_ticks(v as int)),
        TimestampWire::Unsigned(v) => Ok(spec_clamp_secs_ticks(v as int)),
        TimestampWire::Unsupported => Err(DecodeError::UnsupportedShape),
    }
}

/// Serialize an instant as a signed count of whole seconds since the Unix
/// epoch. Sub-second precision is an accepted, one-way loss here.
pub fn encode_unix_timestamp(time: &UnixTimeStamp) -> (r: i64)
    ensures
        r == spec_encode_timestamp(time@ as int),
        0 <= r <= 0xFFFF_FFFFi64,
{
    let ticks: u64 = time.as_ticks();
    (ticks / TICKS_PER_SEC) as i64
}

/// Deserialize an instant from a numeric wire value; any other shape fails
/// with a decoding error. A wire count outside the representable range
/// clamps to the nearest representable whole-second instant; every decoded
/// instant sits on a whole-second boundary.
pub fn decode_unix_timestamp(w: &TimestampWire) -> (r: Result<UnixTimeStamp, DecodeError>)
    ensures
        match spec_decode_timestamp(*w) {
            Ok(ticks) => r matches Ok(t) && t@ == ticks,
            Err(e) => r == Err::<UnixTimeStamp, DecodeError>(e),
        },
        r matches Ok(t) ==> t@ % TICKS_PER_SEC == 0,
{
    proof {
        assert forall|s: int| 0 <= s <= 0xFFFF_FFFF implies #[trigger] ((s * (TICKS_PER_SEC as int))
            % (TICKS_PER_SEC as int)) == 0 by {
            assert((s * (TICKS_PER_SEC as int)) % (TICKS_PER_SEC as int) == 0) by (nonlinear_arith);
        }
    }
    match w {
        TimestampWire::Signed(v) => {
            if *v < 0 {
                Ok(UnixTimeStamp::from_ticks(0))
            } else if *v > 0xFFFF_FFFFi64 {
                Ok(UnixTimeStamp::from_ticks(0xFFFF_FFFFu64 * TICKS_PER_SEC))
            } else {
                Ok(UnixTimeStamp::from_ticks((*v as u64) * TICKS_PER_SEC))
            }
        },
        TimestampWire::Unsigned(v) => {
            if *v > 0xFFFF_FFFFu64 {
                Ok(UnixTimeStamp::from_ticks(0xFFFF_FFFFu64 * TICKS_PER_SEC))
            } else {
                Ok(UnixTimeStamp::from_ticks(*v * TICKS_PER_SEC))
            }
        },
        TimestampWire::Unsupported => Err(DecodeError::UnsupportedShape),
    }
}

/// Law: encoding an instant and decoding the result yields the instant
/// rounded down to its whole second: the sub-second part, `ticks` modulo
/// one second, is not preserved.
pub proof fn lemma_timestamp_round_trip(ticks: int)
    requires
        0 <= ticks <= u64::MAX,
    ensures
        spec_decode_timestamp(TimestampWire::Signed(spec_encode_timestamp(ticks) as i64)) == Ok::<
            int,
            DecodeError,
        >(ticks - ticks % (TICKS_PER_SEC as int)),
{
    let t = TICKS_PER_SEC as int;
    assert(0 <= ticks / t <= 0xFFFF_FFFF) by (nonlinear_arith)
        requires
            0 <= ticks <= u64::MAX,
            t == 0x1_0000_0000,
    ;
    assert((ticks / t) * t == ticks - ticks % t) by (nonlinear_arith)
        requires
            t > 0,
    ;
}

/// The wire shapes an audience field may arrive in.
#[derive(Clone, PartialEq, Eq, Debug)]
pub enum AudiencesWire {
    /// A bare string: the single-audience shape.
    Scalar(String),
    /// A sequence of strings: the audience-set shape.
    Sequence(Vec<String>),
    /// Any other shape (a number, an object, ...).
    Unsupported,
}

/// The elements of `s` with every repeated reading dropped: each element
/// keeps its first occurrence and its order.
pub open spec fn spec_dedup(s: Seq<String>) -> Seq<String>
    decreases s.len(),
{
    if s.len() == 0 {
        Seq::empty()
    } else if contains_str(s.drop_last(), s.last()@) {
        spec_dedup(s.drop_last())
    } else {
        spec_dedup(s.drop_last()).push(s.last())
    }
}

/// How an audience value is put on the wire: absence as an empty sequence,
/// a single audience as a bare string, a set as a sequence.
pub open spec fn spec_encodes_audiences(aud: Option<Audiences>, w: AudiencesWire) -> bool {
    match aud {
        None => w matches AudiencesWire::Sequence(v) && v@.len() == 0,
        Some(Audiences::AsString(s)) => w matches AudiencesWire::Scalar(rs) && rs@ == s@,
        Some(Audiences::AsSet(vs)) => w matches AudiencesWire::Sequence(v) && v@ == vs@,
    }
}

/// How a wire value decodes: a bare string to a single audience, a sequence
/// to a set with duplicates collapsed, any other shape to the decoding
/// error.
pub open spec fn spec_decodes_audiences(
    w: AudiencesWire,
    r: Result<Option<Audiences>, DecodeError>,
) -> bool {
    match w {
        AudiencesWire::Scalar(s) => r matches Ok(Some(Audiences::AsString(x))) && x@ == s@,
        AudiencesWire::Sequence(items) => r matches Ok(Some(Audiences::AsSet(v))) && v@
            == spec_dedup(items@),
        AudiencesWire::Unsupported => r == Err::<Option<Audiences>, DecodeError>(
            DecodeError::UnsupportedShape,
        ),
    }
}

/// Law: appending an element to a sequence of strings adds exactly its
/// reading to what the sequence contains.
proof fn lemma_contains_push(t: Seq<String>, e: String, x: Seq<char>)
    ensures
        contains_str(t.push(e), x) == (contains_str(t, x) || e@ == x),
{
    let p = t.push(e);
    if contains_str(t, x) {
        let i = choose|i: int| 0 <= i < t.len() && t[i]@ == x;
        assert(p[i]@ == x);
    }
    if e@ == x {
        assert(p[t.len() as int]@ == x);
    }
    if contains_str(p, x) {
        let i = choose|i: int| 0 <= i < p.len() && p[i]@ == x;
        if i < t.len() {
            assert(t[i]@ == x);
        }
    }
}

/// Law: a non-empty sequence of strings contains a reading exactly when its
/// last element has it or the rest does.
proof fn lemma_contains_unlast(s: Seq<String>, x: Seq<char>)
    requires
        s.len() > 0,
    ensures
        contains_str(s, x) == (contains_str(s.drop_last(), x) || s.last()@ == x),
{
    if contains_str(s, x) {
        let i = choose|i: int| 0 <= i < s.len() && s[i]@ == x;
        if i < s.len() - 1 {
            assert(s.drop_last()[i]@ == x);
        }
    }
    if contains_str(s.drop_last(), x) {
        let i = choose|i: int| 0 <= i < s.drop_last().len() && s.drop_last()[i]@ == x;
        assert(s[i]@ == x);
    }
    if s.last()@ == x {
        assert(s[s.len() - 1]@ == x);
    }
}

/// Law: collapsing duplicates neither adds nor removes a reading.
pub proof fn lemma_dedup_contains(s: Seq<String>, x: Seq<char>)
    ensures
        contains_str(spec_dedup(s), x) == contains_str(s, x),
    decreases s.len(),
{
    if s.len() > 0 {
        lemma_dedup_contains(s.drop_last(), x);
        lemma_contains_unlast(s, x);
        if !contains_str(s.drop_last(), s.last()@) {
            lemma_contains_push(spec_dedup(s.drop_last()), s.last(), x);
        }
    }
}

/// Law: after duplicates are collapsed, no two elements read the same.
pub proof fn lemma_dedup_no_dup(s: Seq<String>)
    ensures
        no_dup_views(spec_dedup(s)),
    decreases s.len(),
{
    if s.len() > 0 {
        let dl = s.drop_last();
        let d = spec_dedup(dl);
        lemma_dedup_no_dup(dl);
        if !contains_str(dl, s.last()@) {
            lemma_dedup_contains(dl, s.last()@);
            let p = d.push(s.last());
            assert forall|i: int, j: int| 0 <= i < j < p.len() implies p[i]@ != p[j]@ by {
                if j == p.len() - 1 {
                    if p[i]@ == p[j]@ {
                        assert(d[i]@ == s.last()@);
                        assert(contains_str(d, s.last()@));
                    }
                } else {
                    assert(p[i] == d[i] && p[j] == d[j]);
                }
            }
        }
    }
}

/// Law: a sequence that already holds no two equal readings is left exactly
/// as it is by the collapse.
pub proof fn lemma_dedup_identity(s: Seq<String>)
    requires
        no_dup_views(s),
    ensures
        spec_dedup(s) == s,
    decreases s.len(),
{
    if s.len() == 0 {
        assert(spec_dedup(s) =~= s);
    } else {
        let dl = s.drop_last();
        assert forall|i: int, j: int| 0 <= i < j < dl.len() implies dl[i]@ != dl[j]@ by {
            assert(dl[i] == s[i] && dl[j] == s[j]);
        }
        lemma_dedup_identity(dl);
        if contains_str(dl, s.last()@) {
            let i = choose|i: int| 0 <= i < dl.len() && dl[i]@ == s.last()@;
            assert(s[i]@ == s[s.len() - 1]@);
            assert(false);
        }
        assert(dl.push(s.last()) =~= s);
    }
}

/// Whether some element of `set` reads as `value` does.
fn vec_contains_str(set: &Vec<String>, value: &String) -> (r: bool)
    ensures
        r == contains_str(set@, value@),
{
    let mut i: usize = 0;
    while i < set.len()
        invariant
            0 <= i <= set@.len(),
            forall|k: int| 0 <= k < i ==> set@[k]@ != value@,
        decreases set@.len() - i,
    {
        if set[i] == *value {
            assert(set@[i as int]@ == value@);
            return true;
        }
        i = i + 1;
    }
    false
}

/// The elements of `items` with duplicates silently collapsed: each element
/// keeps its first occurrence and its order, consistent with set semantics.
pub fn dedup_audiences(items: &Vec<String>) -> (r: Vec<String>)
    ensures
        r@ == spec_dedup(items@),
{
    let mut set: Vec<String> = Vec::new();
    let mut j: usize = 0;
    while j < items.len()
        invariant
            0 <= j <= items@.len(),
            set@ == spec_dedup(items@.take(j as int)),
        decreases items@.len() - j,
    {
        let v: String = items[j].clone();
        proof {
            let p = items@.take(j as int + 1);
            assert(p.drop_last() =~= items@.take(j as int));
            assert(p.last() == items@[j as int]);
            lemma_dedup_contains(items@.take(j as int), v@);
        }
        if !vec_contains_str(&set, &v) {
            set.push(v);
        }
        j = j + 1;
    }
    proof {
        assert(items@.take(items@.len() as int) =~= items@);
    }
    set
}

/// Serialize an audience value: absence as an empty sequence, a single
/// audience as a bare string, a set (already free of duplicates) as a
/// sequence of strings.
pub fn encode_audiences(audiences: &Option<Audiences>) -> (r: AudiencesWire)
    requires
        audiences_opt_wf(*audiences),
    ensures
        spec_encodes_audiences(*audiences, r),
{
    match audiences {
        None => AudiencesWire::Sequence(Vec::new()),
        Some(Audiences::AsString(audience)) => AudiencesWire::Scalar(audience.clone()),
        Some(Audiences::AsSet(set)) => {
            let copy = set.clone();
            proof {
                assert forall|i: int| 0 <= i < set@.len() implies copy@[i] == set@[i] by {
                    assert(cloned(set@[i], copy@[i]));
                }
                assert(copy@ =~= set@);
            }
            AudiencesWire::Sequence(copy)
        },
    }
}

/// Deserialize an audience value from its wire shape: a bare string yields
/// the single-audience variant, a sequence yields the set variant with
/// duplicates collapsed, and any other shape fails with a decoding error.
/// An empty sequence yields the empty set, whether it stood for an absent
/// audience or for an empty one.
pub fn decode_audiences(w: AudiencesWire) -> (r: Result<Option<Audiences>, DecodeError>)
    ensures
        spec_decodes_audiences(w, r),
        r matches Ok(Some(a)) ==> a.wf(),
{
    match w {
        AudiencesWire::Scalar(s) => Ok(Some(Audiences::AsString(s))),
        AudiencesWire::Sequence(items) => {
            let set = dedup_audiences(&items);
            proof {
                lemma_dedup_no_dup(items@);
            }
            Ok(Some(Audiences::AsSet(set)))
        },
        AudiencesWire::Unsupported => Err(DecodeError::UnsupportedShape),
    }
}

/// Law: encoding an audience value and decoding the result yields an equal
/// value, with one documented collapse: an absent audience and an empty set
/// share the empty-sequence wire form, and both decode to the empty set.
pub proof fn lemma_audiences_round_trip(
    aud: Option<Audiences>,
    w: AudiencesWire,
    r: Result<Option<Audiences>, DecodeError>,
)
    requires
        audiences_opt_wf(aud),
        spec_encodes_audiences(aud, w),
        spec_decodes_audiences(w, r),
    ensures
        match aud {
            None => r matches Ok(Some(Audiences::AsSet(v))) && v@.len() == 0,
            Some(Audiences::AsString(s)) => r matches Ok(Some(Audiences::AsString(x))) && x@ == s@,
            Some(Audiences::AsSet(vs)) => r matches Ok(Some(Audiences::AsSet(v))) && v@ == vs@,
        },
{
    match aud {
        None => {
            let items = w->Sequence_0;
            assert(items@ =~= Seq::<String>::empty());
            assert(spec_dedup(items@) =~= Seq::<String>::empty());
        },
        Some(Audiences::AsString(s)) => {
        },
        Some(Audiences::AsSet(vs)) => {
            let items = w->Sequence_0;
            lemma_dedup_identity(vs@);
            assert(spec_dedup(items@) == spec_dedup(vs@));
        },
    }
}

} // verus!
