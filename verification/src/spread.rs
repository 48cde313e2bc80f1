//! The spreader's target handling: splitting a `host:port` argument
//! into the SSH host and a valid port number.
//!
//! The SSH session itself, the credential attempts against it (in
//! the order the wordlists fix), and the remote deployment are
//! transport work the unverified shell performs.

use vstd::prelude::*;
use crate::error::Error;

verus! {

/// ASCII decimal digit.
pub open spec fn spec_is_digit(b: u8) -> bool {
    48 <= b && b <= 57
}

/// Index of the first colon, or the length when there is none.
pub open spec fn first_colon(s: Seq<u8>) -> int
    decreases s.len(),
{
    if s.len() == 0 {
        0
    } else if s[0] == 58u8 {
        0
    } else {
        1 + first_colon(s.drop_first())
    }
}

/// The decimal value of a digit string.
pub open spec fn spec_decimal(s: Seq<u8>) -> int
    decreases s.len(),
{
    if s.len() == 0 {
        0
    } else {
        spec_decimal(s.drop_last()) * 10 + (s.last() - 48)
    }
}

/// Whether every byte is a decimal digit.
pub open spec fn all_digits(s: Seq<u8>) -> bool {
    forall|i: int| 0 <= i < s.len() ==> spec_is_digit(s[i])
}

/// A valid spread target: a nonempty host, a colon, and one to five
/// digits naming a port of at most 65535.
pub open spec fn valid_target(s: Seq<u8>) -> bool {
    let i = first_colon(s);
    let port = s.subrange(i + 1, s.len() as int);
    &&& 0 < i
    &&& i < s.len()
    &&& 1 <= port.len() <= 5
    &&& all_digits(port)
    &&& spec_decimal(port) <= 65535
}

/// The host half of a valid target.
pub open spec fn spec_target_host(s: Seq<u8>) -> Seq<u8> {
    s.subrange(0, first_colon(s))
}

/// The port half of a valid target.
pub open spec fn spec_target_port(s: Seq<u8>) -> int {
    spec_decimal(s.subrange(first_colon(s) + 1, s.len() as int))
}

/// Ten raised to `k` (one for any `k` at most zero).
pub open spec fn pow10(k: int) -> int
    decreases k,
{
    if k <= 0 {
        1
    } else {
        10 * pow10(k - 1)
    }
}

/// Splits a `host:port` spread target at its first colon, checking
/// the port; every malformed input is the one recoverable
/// invalid-target failure.
pub fn parse_target(s: &[u8]) -> (r: Result<(Vec<u8>, u16), Error>)
    ensures
        r is Ok <==> valid_target(s@),
        r matches Ok(hp) ==> hp.0@ == spec_target_host(s@) && hp.1 as int == spec_target_port(
            s@,
        ),
        r matches Err(e) ==> (e matches Error::Internal(m)
            && m@ == "Invalid SSH target: expected host:port"@),
{
    let n = s.len();
    let mut i: usize = 0;
    while i < n && s[i] != 58
        invariant
            n == s@.len(),
            0 <= i <= n,
            forall|j: int| 0 <= j < i ==> s@[j] != 58u8,
        decreases n - i,
    {
        i = i + 1;
    }
    proof {
        lemma_first_colon_at(s@, i as int);
    }
    if i == 0 || i >= n {
        return Err(Error::Internal(String::from_str("Invalid SSH target: expected host:port")));
    }
    let plen = n - (i + 1);
    if plen < 1 || plen > 5 {
        return Err(Error::Internal(String::from_str("Invalid SSH target: expected host:port")));
    }
    let mut val: u32 = 0;
    let mut j: usize = i + 1;
    proof {
        assert(s@.subrange(i + 1, i + 1) =~= Seq::<u8>::empty());
        assert(pow10(0) == 1);
        assert(pow10(1) == 10);
        assert(pow10(2) == 100);
        assert(pow10(3) == 1000);
        assert(pow10(4) == 10000);
        assert(pow10(5) == 100000);
    }
    while j < n
        invariant
            n == s@.len(),
            0 < i < n,
            n - (i + 1) <= 5,
            i + 1 <= j <= n,
            first_colon(s@) == i as int,
            all_digits(s@.subrange(i + 1, j as int)),
            val as int == spec_decimal(s@.subrange(i + 1, j as int)),
            (val as int) < pow10(j - i - 1),
        decreases n - j,
    {
        proof {
            assert(pow10(0) == 1);
            assert(pow10(1) == 10);
            assert(pow10(2) == 100);
            assert(pow10(3) == 1000);
            assert(pow10(4) == 10000);
            assert(pow10(5) == 100000);
        }
        let b = s[j];
        if b < 48 || b > 57 {
            proof {
                assert(!spec_is_digit(s@.subrange(i + 1, n as int)[j - (i + 1)]));
            }
            return Err(Error::Internal(String::from_str(
                "Invalid SSH target: expected host:port",
            )));
        }
        proof {
            assert(s@.subrange(i + 1, j + 1).drop_last() =~= s@.subrange(i + 1, j as int));
            assert(forall|k: int| 0 <= k < j + 1 - (i + 1) ==> spec_is_digit(
                #[trigger] s@.subrange(i + 1, j + 1)[k],
            ));
        }
        val = val * 10 + (b - 48) as u32;
        j = j + 1;
    }
    proof {
        assert(s@.subrange(i + 1, n as int) == s@.subrange(i + 1, j as int));
    }
    if val > 65535 {
        return Err(Error::Internal(String::from_str("Invalid SSH target: expected host:port")));
    }
    let mut host: Vec<u8> = Vec::new();
    let mut k: usize = 0;
    while k < i
        invariant
            n == s@.len(),
            i < n,
            0 <= k <= i,
            host@ == s@.subrange(0, k as int),
            first_colon(s@) == i as int,
            valid_target(s@),
            val as int == spec_target_port(s@),
        decreases i - k,
    {
        let b = s[k];
        host.push(b);
        proof {
            assert(host@ =~= s@.subrange(0, k + 1));
        }
        k = k + 1;
    }
    Ok((host, val as u16))
}

/// `first_colon` names the first colon: if the first `k` bytes are
/// not colons and byte `k` (when present) is one, the index is `k`.
proof fn lemma_first_colon_at(s: Seq<u8>, k: int)
    requires
        0 <= k <= s.len(),
        forall|j: int| 0 <= j < k ==> s[j] != 58u8,
        k == s.len() || s[k] == 58u8,
    ensures
        first_colon(s) == k,
    decreases k,
{
    if k == 0 {
    } else {
        let d = s.drop_first();
        assert(forall|j: int| 0 <= j < k - 1 ==> d[j] != 58u8);
        lemma_first_colon_at(d, k - 1);
    }
}

} // verus!
