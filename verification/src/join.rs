//! The join handshake: the first inbound message of a new connection
//! selects a lobby.  It is either the literal `new`, which creates a lobby,
//! or a base-16 slot index (either letter case), which joins an existing
//! one.  Anything else leaves the connection unrouted.

use vstd::prelude::*;

verus! {

/// What the first inbound message of a connection selects.
#[derive(Clone, Copy)]
pub enum JoinTarget {
    /// The literal `new`: create a lobby and join it.
    New,
    /// A base-16 slot index: join the lobby in that slot.
    Slot(usize),
    /// A malformed selector: drop the connection.
    Invalid,
}

/// The bytes of the literal selector `new`.
pub open spec fn new_keyword() -> Seq<u8> {
    seq![110u8, 101u8, 119u8]
}

/// Whether `b` is an ASCII base-16 digit, of either letter case.
pub open spec fn is_hex_digit(b: u8) -> bool {
    (48 <= b <= 57) || (97 <= b <= 102) || (65 <= b <= 70)
}

/// The numeric value of the base-16 digit `b`.
pub open spec fn hex_digit_value(b: u8) -> nat {
    if 48 <= b <= 57 {
        (b - 48) as nat
    } else if 97 <= b <= 102 {
        (b - 87) as nat
    } else {
        (b - 55) as nat
    }
}

/// Whether `s` is a well-formed base-16 numeral: nonempty, digits only.
pub open spec fn is_hex_string(s: Seq<u8>) -> bool {
    s.len() > 0 && forall|i: int| 0 <= i < s.len() ==> is_hex_digit(#[trigger] s[i])
}

/// The value of the base-16 numeral `s`, most significant digit first.
pub open spec fn hex_value(s: Seq<u8>) -> nat
    decreases s.len(),
{
    if s.len() == 0 {
        0
    } else {
        hex_value(s.drop_last()) * 16 + hex_digit_value(s.last())
    }
}

/// A longer prefix of a numeral never has a smaller value.
proof fn lemma_hex_prefix_le(s: Seq<u8>, j: int, k: int)
    requires
        0 <= j <= k <= s.len(),
    ensures
        hex_value(s.subrange(0, j)) <= hex_value(s.subrange(0, k)),
    decreases k - j,
{
    if j < k {
        lemma_hex_prefix_le(s, j, k - 1);
        assert(s.subrange(0, k).drop_last() =~= s.subrange(0, k - 1));
    }
}

/// Parses the join selector: `new` creates a lobby; a base-16 numeral
/// whose value fits the platform's index type selects a slot; everything
/// else — empty, a stray character, or an index too large to exist — is
/// rejected, and the connection it came from is dropped.
pub fn parse_join_target(s: &[u8]) -> (t: JoinTarget)
    ensures
        s@ == new_keyword() ==> t is New,
        s@ != new_keyword() && is_hex_string(s@) && hex_value(s@) <= usize::MAX ==> t
            == JoinTarget::Slot(hex_value(s@) as usize),
        s@ != new_keyword() && !(is_hex_string(s@) && hex_value(s@) <= usize::MAX) ==> t
            is Invalid,
{
    if s.len() == 3 && s[0] == 110 && s[1] == 101 && s[2] == 119 {
        proof {
            assert(s@ =~= new_keyword());
        }
        return JoinTarget::New;
    }
    proof {
        assert(s@ != new_keyword()) by {
            if s@ == new_keyword() {
                assert(s@.len() == 3);
                assert(s@[0] == 110u8 && s@[1] == 101u8 && s@[2] == 119u8);
            }
        }
    }
    if s.len() == 0 {
        return JoinTarget::Invalid;
    }
    let n = s.len();
    let mut v: usize = 0;
    let mut i: usize = 0;
    proof {
        assert(s@.subrange(0, 0) =~= Seq::<u8>::empty());
    }
    while i < n
        invariant
            n == s@.len(),
            s@ != new_keyword(),
            i <= n,
            forall|j: int| 0 <= j < i ==> is_hex_digit(#[trigger] s@[j]),
            v == hex_value(s@.subrange(0, i as int)),
        decreases n - i,
    {
        let b = s[i];
        let d: usize = if 48 <= b && b <= 57 {
            (b - 48) as usize
        } else if 97 <= b && b <= 102 {
            (b - 87) as usize
        } else if 65 <= b && b <= 70 {
            (b - 55) as usize
        } else {
            proof {
                assert(!is_hex_digit(s@[i as int]));
            }
            return JoinTarget::Invalid;
        };
        proof {
            assert(s@.subrange(0, i + 1).drop_last() =~= s@.subrange(0, i as int));
            assert(s@.subrange(0, i + 1).last() == s@[i as int]);
            assert(d == hex_digit_value(s@[i as int]));
        }
        if v > usize::MAX / 16 || 16 * v > usize::MAX - d {
            proof {
                assert(hex_value(s@.subrange(0, i + 1)) > usize::MAX);
                lemma_hex_prefix_le(s@, i + 1, n as int);
                assert(s@.subrange(0, n as int) =~= s@);
            }
            return JoinTarget::Invalid;
        }
        v = 16 * v + d;
        i = i + 1;
    }
    proof {
        assert(s@.subrange(0, n as int) =~= s@);
    }
    JoinTarget::Slot(v)
}

} // verus!
