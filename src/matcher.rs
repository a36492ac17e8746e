use vstd::prelude::*;

use crate::config::TrigByte;

verus! {

/// The index that `pos` designates in a payload of `len` bytes: itself when
/// non-negative, counted back from the end when negative. It may fall
/// outside the payload.
pub open spec fn resolve_index(len: int, pos: int) -> int {
    if pos < 0 {
        len + pos
    } else {
        pos
    }
}

/// The byte of `payload` at `pos`, or `None` when `pos` resolves outside it.
pub open spec fn byte_at(payload: Seq<u8>, pos: i32) -> Option<u8> {
    let i = resolve_index(payload.len() as int, pos as int);
    if 0 <= i < payload.len() {
        Some(payload[i])
    } else {
        None
    }
}

/// One trigger byte holds of a payload.
pub open spec fn byte_matches(payload: Seq<u8>, t: TrigByte) -> bool {
    byte_at(payload, t.pos) == Some(t.value)
}

/// Every trigger byte of the list holds of the payload.
pub open spec fn all_match(payload: Seq<u8>, trig: Seq<TrigByte>) -> bool {
    forall|j: int| 0 <= j < trig.len() ==> #[trigger] byte_matches(payload, trig[j])
}

/// The match outcome: `default` when no trigger bytes are configured, else
/// whether all of them hold.
pub open spec fn matches_spec(payload: Seq<u8>, trig: Option<Seq<TrigByte>>, default: bool) -> bool {
    match trig {
        None => default,
        Some(t) => if t.len() == 0 {
            default
        } else {
            all_match(payload, t)
        },
    }
}

/// Resolves `pos` against a payload of `len` bytes; `None` when the index
/// falls outside it.
pub fn resolve_position(len: usize, pos: i32) -> (r: Option<usize>)
    ensures
        match r {
            Some(i) => i == resolve_index(len as int, pos as int) && i < len,
            None => !(0 <= resolve_index(len as int, pos as int) < len),
        },
{
    if pos < 0 {
        let back: i64 = -(pos as i64);
        if (back as u64) <= (len as u64) {
            Some(len - back as usize)
        } else {
            None
        }
    } else if (pos as u64) < (len as u64) {
        Some(pos as usize)
    } else {
        None
    }
}

/// The byte of `data` at position `pos`, or `None` where the position falls
/// outside the data.
pub fn get_byte_at_position(data: &[u8], pos: i32) -> (r: Option<u8>)
    ensures
        r == byte_at(data@, pos),
{
    match resolve_position(data.len(), pos) {
        Some(i) => Some(data[i]),
        None => None,
    }
}

/// Tests a payload against the trigger bytes, in list order, stopping at the
/// first that does not hold. With no trigger bytes the outcome is `default`.
pub fn matches(payload: &[u8], trig_bytes: &Option<Vec<TrigByte>>, default: bool) -> (r: bool)
    ensures
        r == matches_spec(payload@, crate::config::trig_view(*trig_bytes), default),
{
    match trig_bytes {
        None => default,
        Some(list) => {
            if list.len() == 0 {
                return default;
            }
            let mut i: usize = 0;
            while i < list.len()
                invariant
                    0 <= i <= list@.len(),
                    list@.len() > 0,
                    crate::config::trig_view(*trig_bytes) == Some(list@),
                    forall|j: int| 0 <= j < i ==> #[trigger] byte_matches(payload@, list@[j]),
                decreases list@.len() - i,
            {
                let t = list[i];
                match get_byte_at_position(payload, t.pos) {
                    Some(b) => {
                        if b != t.value {
                            assert(!byte_matches(payload@, list@[i as int]));
                            return false;
                        }
                    },
                    None => {
                        assert(!byte_matches(payload@, list@[i as int]));
                        return false;
                    },
                }
                i += 1;
            }
            true
        },
    }
}

/// Matching depends on its inputs alone: equal inputs give equal outcomes.
pub proof fn lemma_matches_deterministic(
    p1: Seq<u8>,
    p2: Seq<u8>,
    t1: Option<Seq<TrigByte>>,
    t2: Option<Seq<TrigByte>>,
    d1: bool,
    d2: bool,
)
    requires
        p1 == p2,
        t1 == t2,
        d1 == d2,
    ensures
        matches_spec(p1, t1, d1) == matches_spec(p2, t2, d2),
{
}

/// With trigger bytes absent or empty, the outcome is the default, whatever
/// the payload.
pub proof fn lemma_no_trigger_bytes_gives_default(
    payload: Seq<u8>,
    trig: Option<Seq<TrigByte>>,
    default: bool,
)
    requires
        trig is None || trig->Some_0.len() == 0,
    ensures
        matches_spec(payload, trig, default) == default,
{
}

/// A non-empty list of trigger bytes matches exactly when each of its bytes
/// matches, and the list split anywhere matches exactly when both parts do.
pub proof fn lemma_matches_is_conjunction(
    payload: Seq<u8>,
    a: Seq<TrigByte>,
    b: Seq<TrigByte>,
    default: bool,
)
    requires
        a.len() > 0,
        b.len() > 0,
    ensures
        matches_spec(payload, Some(a), default) <==> (forall|j: int|
            0 <= j < a.len() ==> #[trigger] byte_matches(payload, a[j])),
        matches_spec(payload, Some(a + b), default) <==> (matches_spec(payload, Some(a), default)
            && matches_spec(payload, Some(b), default)),
{
    let ab = a + b;
    if matches_spec(payload, Some(ab), default) {
        assert forall|j: int| 0 <= j < a.len() implies #[trigger] byte_matches(payload, a[j]) by {
            assert(ab[j] == a[j]);
        }
        assert forall|j: int| 0 <= j < b.len() implies #[trigger] byte_matches(payload, b[j]) by {
            assert(ab[a.len() + j] == b[j]);
        }
    }
    if matches_spec(payload, Some(a), default) && matches_spec(payload, Some(b), default) {
        assert forall|j: int| 0 <= j < ab.len() implies #[trigger] byte_matches(payload, ab[j]) by {
            if j < a.len() {
                assert(ab[j] == a[j]);
            } else {
                assert(ab[j] == b[j - a.len()]);
            }
        }
    }
}

/// Position `-1` designates the last byte of a non-empty payload, and
/// position `0` its first.
pub proof fn lemma_end_positions(payload: Seq<u8>)
    requires
        payload.len() > 0,
    ensures
        byte_at(payload, -1i32) == Some(payload.last()),
        byte_at(payload, 0i32) == Some(payload[0]),
{
}

/// A trigger byte whose position falls outside the payload never matches,
/// and a list that holds it never matches either.
pub proof fn lemma_out_of_range_never_matches(
    payload: Seq<u8>,
    trig: Seq<TrigByte>,
    k: int,
    default: bool,
)
    requires
        0 <= k < trig.len(),
        !(0 <= resolve_index(payload.len() as int, trig[k].pos as int) < payload.len()),
    ensures
        !byte_matches(payload, trig[k]),
        !matches_spec(payload, Some(trig), default),
{
    assert(!byte_matches(payload, trig[k]));
}

} // verus!
