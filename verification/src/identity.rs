//! Caller identities.
//!
//! An identity is the 128-bit value behind the canonical hyphenated textual
//! form of a unique id: 32 hexadecimal digits in five groups of 8-4-4-4-12,
//! separated by hyphens.  Two identities are the same caller exactly when
//! their 128-bit values are equal, so a mixed-case spelling names the same
//! identity as its lower-case form.

use vstd::prelude::*;
use vstd::arithmetic::power2::{
    pow2, lemma_pow2_adds, lemma_pow2_strictly_increases, lemma2_to64, lemma2_to64_rest,
};

verus! {

/// An opaque caller identifier: the 128-bit value of a unique id.
#[derive(Clone, Copy, PartialEq, Eq, Structural, Debug, Hash)]
pub struct Identity {
    pub value: u128,
}

/// The character is one of `0-9`, `a-f`, `A-F`.
pub open spec fn is_hex_digit(c: char) -> bool {
    (48 <= c as u32 && c as u32 <= 57) || (97 <= c as u32 && c as u32 <= 102) || (65 <= c as u32
        && c as u32 <= 70)
}

/// Numeric value of a hexadecimal digit character.
pub open spec fn hex_digit_value(c: char) -> int {
    if 48 <= c as u32 && c as u32 <= 57 {
        c as u32 - 48
    } else if 97 <= c as u32 && c as u32 <= 102 {
        c as u32 - 87
    } else {
        c as u32 - 55
    }
}

/// Value of a big-endian sequence of hexadecimal digit characters.
pub open spec fn hex_seq_value(s: Seq<char>) -> int
    decreases s.len(),
{
    if s.len() == 0 {
        0
    } else {
        hex_seq_value(s.drop_last()) * 16 + hex_digit_value(s.last())
    }
}

/// The four indices holding hyphens in the canonical 36-character form.
pub open spec fn is_dash_index(i: int) -> bool {
    i == 8 || i == 13 || i == 18 || i == 23
}

/// How many hyphen indices lie strictly below `n`.
pub open spec fn dash_count(n: int) -> int {
    if n <= 8 {
        0
    } else if n <= 13 {
        1
    } else if n <= 18 {
        2
    } else if n <= 23 {
        3
    } else {
        4
    }
}

/// The character at index `i` is what the canonical form asks for there.
pub open spec fn uuid_char_ok(s: Seq<char>, i: int) -> bool {
    if is_dash_index(i) {
        s[i] == '-'
    } else {
        is_hex_digit(s[i])
    }
}

/// The string is a well-shaped unique id: 36 characters, hyphens at the
/// four canonical places, hexadecimal digits everywhere else.
pub open spec fn is_uuid_string(s: Seq<char>) -> bool {
    s.len() == 36 && (forall|i: int| 0 <= i < 36 ==> uuid_char_ok(s, i))
}

/// The hexadecimal digits among the first `n` characters, in order.
pub open spec fn hex_prefix(s: Seq<char>, n: int) -> Seq<char>
    decreases n,
{
    if n <= 0 {
        Seq::empty()
    } else if is_dash_index(n - 1) {
        hex_prefix(s, n - 1)
    } else {
        hex_prefix(s, n - 1).push(s[n - 1])
    }
}

/// The 128-bit value written by a well-shaped unique id string.
pub open spec fn uuid_value(s: Seq<char>) -> int {
    hex_seq_value(hex_prefix(s, 36))
}

/// What parsing a subject string yields: its identity when the string is a
/// well-shaped unique id, nothing otherwise.
pub open spec fn spec_parse_identity(s: Seq<char>) -> Option<Identity> {
    if is_uuid_string(s) {
        Some(Identity { value: uuid_value(s) as u128 })
    } else {
        None
    }
}

proof fn lemma_hex_prefix_len(s: Seq<char>, n: int)
    requires
        0 <= n <= 36,
    ensures
        hex_prefix(s, n).len() == n - dash_count(n),
    decreases n,
{
    if n > 0 {
        lemma_hex_prefix_len(s, n - 1);
    }
}

proof fn lemma_pow2_128_fits()
    ensures
        pow2(128) == u128::MAX + 1,
{
    lemma2_to64();
    lemma2_to64_rest();
    lemma_pow2_adds(64, 64);
}

/// Parse a subject string into an identity.
///
/// Returns the identity exactly when the string is a well-shaped unique id,
/// and nothing on every other input.
pub fn parse_identity(s: &str) -> (r: Option<Identity>)
    ensures
        r == spec_parse_identity(s@),
{
    let n = s.unicode_len();
    if n != 36 {
        return None;
    }
    let mut acc: u128 = 0;
    let mut i: usize = 0;
    proof {
        lemma2_to64();
    }
    while i < 36
        invariant
            s@.len() == 36,
            i <= 36,
            forall|j: int| 0 <= j < i ==> uuid_char_ok(s@, j),
            acc == hex_seq_value(hex_prefix(s@, i as int)),
            acc < pow2((4 * hex_prefix(s@, i as int).len()) as nat),
        decreases 36 - i,
    {
        let ghost pre = hex_prefix(s@, i as int);
        let c = s.get_char(i);
        if i == 8 || i == 13 || i == 18 || i == 23 {
            if c != '-' {
                assert(!uuid_char_ok(s@, i as int));
                return None;
            }
            assert(hex_prefix(s@, i + 1 as int) == pre);
        } else {
            let u = c as u32;
            let v: u32 = if 48 <= u && u <= 57 {
                u - 48
            } else if 97 <= u && u <= 102 {
                u - 87
            } else if 65 <= u && u <= 70 {
                u - 55
            } else {
                assert(!uuid_char_ok(s@, i as int));
                return None;
            };
            proof {
                lemma_hex_prefix_len(s@, i as int);
                let k = pre.len();
                assert(k <= 31);
                lemma_pow2_adds((4 * k) as nat, 4);
                lemma2_to64();
                if 4 * k + 4 < 128 {
                    lemma_pow2_strictly_increases((4 * k + 4) as nat, 128);
                }
                lemma_pow2_128_fits();
                let post = hex_prefix(s@, i + 1 as int);
                assert(post == pre.push(s@[i as int]));
                assert(post.drop_last() =~= pre);
                assert(hex_seq_value(post) == hex_seq_value(pre) * 16 + hex_digit_value(
                    s@[i as int],
                ));
                assert(hex_digit_value(s@[i as int]) == v);
            }
            acc = acc * 16 + v as u128;
        }
        i += 1;
    }
    assert(is_uuid_string(s@));
    assert(uuid_value(s@) == acc as int);
    Some(Identity { value: acc })
}

} // verus!
