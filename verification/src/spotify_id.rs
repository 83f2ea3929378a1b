use vstd::prelude::*;

verus! {

/// Number of base62 characters in a Spotify id.
pub const BASE62_ID_LEN: usize = 22;

/// The value of one base62 digit: `0-9`, then `a-z`, then `A-Z`.
pub open spec fn base62_digit(c: char) -> Option<nat> {
    if '0' <= c && c <= '9' {
        Some((c as nat - '0' as nat) as nat)
    } else if 'a' <= c && c <= 'z' {
        Some((c as nat - 'a' as nat + 10) as nat)
    } else if 'A' <= c && c <= 'Z' {
        Some((c as nat - 'A' as nat + 36) as nat)
    } else {
        None
    }
}

/// Every character of `s` is a base62 digit.
pub open spec fn all_base62(s: Seq<char>) -> bool {
    forall|i: int| 0 <= i < s.len() ==> #[trigger] base62_digit(s[i]) is Some
}

/// The number that the base62 digits `s` spell, most significant digit first.
pub open spec fn base62_value(s: Seq<char>) -> nat
    decreases s.len(),
{
    if s.len() == 0 {
        0
    } else {
        base62_value(s.drop_last()) * 62 + base62_digit(s.last()).unwrap_or(0)
    }
}

/// The id that a base62 Spotify id spells: its value when `s` has exactly
/// 22 base62 digits and that value fits in a `u128`, else nothing.
pub open spec fn spotify_id_value(s: Seq<char>) -> Option<u128> {
    if s.len() == BASE62_ID_LEN && all_base62(s) && base62_value(s) <= u128::MAX {
        Some(base62_value(s) as u128)
    } else {
        None
    }
}

/// The 128-bit id of a track.
#[derive(Clone, Copy, Debug, PartialEq, Eq, Structural)]
pub struct TrackId {
    pub id: u128,
}

/// Appending digits never makes the value smaller.
proof fn lemma_base62_value_grows(s: Seq<char>, k: int)
    requires
        0 <= k <= s.len(),
    ensures
        base62_value(s.take(k)) <= base62_value(s),
    decreases s.len() - k,
{
    if k < s.len() {
        lemma_base62_value_grows(s, k + 1);
        assert(s.take(k + 1).drop_last() =~= s.take(k));
    } else {
        assert(s.take(k) =~= s);
    }
}

fn digit_value(c: char) -> (d: Option<u128>)
    ensures
        match base62_digit(c) {
            Some(v) => d == Some(v as u128),
            None => d is None,
        },
{
    if '0' <= c && c <= '9' {
        Some((c as u32 - '0' as u32) as u128)
    } else if 'a' <= c && c <= 'z' {
        Some((c as u32 - 'a' as u32 + 10) as u128)
    } else if 'A' <= c && c <= 'Z' {
        Some((c as u32 - 'A' as u32 + 36) as u128)
    } else {
        None
    }
}

/// Decodes a base62 Spotify id into a track id: exactly 22 base62 digits,
/// read most significant first, and no overflow of the 128-bit value.
pub fn track_id_from_base62(src: &str) -> (track: Option<TrackId>)
    ensures
        match spotify_id_value(src@) {
            Some(v) => track == Some(TrackId { id: v }),
            None => track is None,
        },
{
    if src.unicode_len() != BASE62_ID_LEN {
        return None;
    }
    let mut dst: u128 = 0;
    let mut i: usize = 0;
    while i < BASE62_ID_LEN
        invariant
            src@.len() == BASE62_ID_LEN,
            i <= BASE62_ID_LEN,
            all_base62(src@.take(i as int)),
            dst as nat == base62_value(src@.take(i as int)),
        decreases BASE62_ID_LEN - i,
    {
        let c = src.get_char(i);
        let ghost prefix = src@.take(i as int + 1);
        assert(prefix.drop_last() =~= src@.take(i as int));
        assert(prefix.last() == c);
        let p = match digit_value(c) {
            Some(p) => p,
            None => {
                assert(base62_digit(src@[i as int]) is None);
                return None;
            },
        };
        let next = match dst.checked_mul(62) {
            Some(m) => m.checked_add(p),
            None => None,
        };
        match next {
            Some(v) => {
                dst = v;
            },
            None => {
                proof {
                    assert(base62_value(prefix) > u128::MAX);
                    lemma_base62_value_grows(src@, i as int + 1);
                    if all_base62(src@) {
                    }
                }
                return None;
            },
        }
        assert(all_base62(prefix)) by {
            assert forall|k: int| 0 <= k < prefix.len() implies #[trigger] base62_digit(prefix[k]) is Some by {
                if k < i {
                    assert(prefix[k] == src@.take(i as int)[k]);
                }
            }
        }
        i = i + 1;
    }
    assert(src@.take(BASE62_ID_LEN as int) =~= src@);
    Some(TrackId { id: dst })
}

} // verus!
