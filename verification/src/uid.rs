//! The agent and job identifier: a 128-bit UUID, carried as 16 raw
//! bytes and persisted as canonical hyphenated text
//! (8-4-4-4-12 hex digits), the form the `agent_id` file holds.
//!
//! Parsing is newline-insensitive: surrounding ASCII whitespace is
//! ignored.  Formatting always emits lowercase hyphenated text, and
//! parsing inverts it exactly.

use vstd::prelude::*;

verus! {

/// ASCII whitespace ignored around persisted UUID text.
pub open spec fn is_uuid_ws(b: u8) -> bool {
    b == 32 || b == 9 || b == 10 || b == 13
}

/// The input with leading ASCII whitespace removed.
pub open spec fn trim_start(s: Seq<u8>) -> Seq<u8>
    decreases s.len(),
{
    if s.len() > 0 && is_uuid_ws(s[0]) {
        trim_start(s.drop_first())
    } else {
        s
    }
}

/// The input with trailing ASCII whitespace removed.
pub open spec fn trim_end(s: Seq<u8>) -> Seq<u8>
    decreases s.len(),
{
    if s.len() > 0 && is_uuid_ws(s[s.len() - 1]) {
        trim_end(s.drop_last())
    } else {
        s
    }
}

/// The input with surrounding ASCII whitespace removed.
pub open spec fn spec_trim(s: Seq<u8>) -> Seq<u8> {
    trim_end(trim_start(s))
}

/// ASCII hex digit, either case.
pub open spec fn is_hex_digit(b: u8) -> bool {
    (48 <= b && b <= 57) || (65 <= b && b <= 70) || (97 <= b && b <= 102)
}

/// ASCII hex digit, lowercase only: what formatting emits.
pub open spec fn is_lower_hex_digit(b: u8) -> bool {
    (48 <= b && b <= 57) || (97 <= b && b <= 102)
}

/// Numeric value of an ASCII hex digit.
pub open spec fn hex_val(b: u8) -> int {
    if 48 <= b && b <= 57 {
        b - 48
    } else if 65 <= b && b <= 70 {
        b - 55
    } else {
        b - 87
    }
}

/// The four hyphen positions of canonical 8-4-4-4-12 text.
pub open spec fn is_hyphen_pos(j: int) -> bool {
    j == 8 || j == 13 || j == 18 || j == 23
}

/// Canonical hyphenated UUID text: 36 bytes, hyphens exactly at their
/// four positions, hex digits everywhere else.
pub open spec fn valid_uuid_text(s: Seq<u8>) -> bool {
    s.len() == 36 && forall|j: int|
        0 <= j < 36 ==> (if is_hyphen_pos(j) {
            s[j] == 45u8
        } else {
            is_hex_digit(s[j])
        })
}

/// How many hyphens precede byte `i` of the value in the text.
pub open spec fn hyphens_before(i: int) -> int {
    if i < 4 {
        0
    } else if i < 6 {
        1
    } else if i < 8 {
        2
    } else if i < 10 {
        3
    } else {
        4
    }
}

/// Text position of the high nibble of value byte `i`.
pub open spec fn hi_pos(i: int) -> int {
    2 * i + hyphens_before(i)
}

/// The 16 bytes canonical text stands for.
pub open spec fn uuid_value_of(s: Seq<u8>) -> Seq<u8> {
    Seq::new(16, |i: int| (hex_val(s[hi_pos(i)]) * 16 + hex_val(s[hi_pos(i) + 1])) as u8)
}

/// A 128-bit identifier held as its 16 raw bytes.
#[derive(Debug, Clone)]
pub struct Uuid {
    bytes: Vec<u8>,
}

impl View for Uuid {
    type V = Seq<u8>;

    closed spec fn view(&self) -> Seq<u8> {
        self.bytes@
    }
}

impl Uuid {
    /// A well-formed identifier holds exactly 16 bytes.
    pub open spec fn wf(&self) -> bool {
        self@.len() == 16
    }

    /// Wraps 16 raw bytes; any other length is refused.
    pub fn from_bytes(bytes: Vec<u8>) -> (r: Option<Uuid>)
        ensures
            r is Some <==> bytes@.len() == 16,
            r matches Some(u) ==> u@ == bytes@ && u.wf(),
    {
        if bytes.len() == 16 {
            Some(Uuid { bytes })
        } else {
            None
        }
    }

    /// The 16 raw bytes.
    pub fn as_bytes(&self) -> (r: &Vec<u8>)
        ensures
            r@ == self@,
    {
        &self.bytes
    }

    /// Emits the canonical lowercase hyphenated text of this
    /// identifier; `parse` inverts it exactly.
    pub fn format_hyphenated(&self) -> (r: Vec<u8>)
        requires
            self.wf(),
        ensures
            valid_uuid_text(r@),
            uuid_value_of(r@) == self@,
            spec_trim(r@) == r@,
            forall|j: int| 0 <= j < 36 && !is_hyphen_pos(j) ==> is_lower_hex_digit(r@[j]),
    {
        let mut out: Vec<u8> = Vec::new();
        let mut i: usize = 0;
        while i < 16
            invariant
                self.wf(),
                0 <= i <= 16,
                out@.len() == hi_pos(i as int),
                forall|j: int| 0 <= j < out@.len() ==> (if is_hyphen_pos(j) {
                    out@[j] == 45u8
                } else {
                    is_lower_hex_digit(out@[j])
                }),
                forall|k: int| 0 <= k < i ==> hex_val(out@[hi_pos(k)]) * 16
                    + hex_val(out@[hi_pos(k) + 1]) == self@[k],
            decreases 16 - i,
        {
            let b = self.bytes[i];
            proof {
                assert(b as int == (b / 16) as int * 16 + (b % 16) as int);
            }
            out.push(hex_lower(b / 16));
            out.push(hex_lower(b % 16));
            if i == 3 || i == 5 || i == 7 || i == 9 {
                out.push(45);
            }
            i = i + 1;
        }
        proof {
            assert(valid_uuid_text(out@));
            assert(uuid_value_of(out@) =~= self@);
            assert(out@.subrange(0, 36) =~= out@);
            lemma_trim_start_at(out@, 0);
            lemma_trim_end_at(out@, 36);
        }
        out
    }

    /// Parses persisted UUID text: surrounding ASCII whitespace is
    /// ignored, and exactly the canonical hyphenated form (either hex
    /// case) is accepted.  The grammar is deliberately this narrow:
    /// the other textual UUID shapes (simple, braced, URN) are
    /// refused, since canonical hyphenated text is the only form this
    /// system ever writes to disk or carries on the wire.
    pub fn parse(s: &[u8]) -> (r: Option<Uuid>)
        ensures
            r is Some <==> valid_uuid_text(spec_trim(s@)),
            r matches Some(u) ==> u@ == uuid_value_of(spec_trim(s@)) && u.wf(),
    {
        let n = s.len();
        let mut start: usize = 0;
        while start < n && is_ws_exec(s[start])
            invariant
                n == s@.len(),
                0 <= start <= n,
                forall|j: int| 0 <= j < start ==> is_uuid_ws(s@[j]),
            decreases n - start,
        {
            start = start + 1;
        }
        let mut end: usize = n;
        while end > start && is_ws_exec(s[end - 1])
            invariant
                n == s@.len(),
                start <= end <= n,
                forall|j: int| end <= j < n ==> is_uuid_ws(s@[j]),
            decreases end,
        {
            end = end - 1;
        }
        proof {
            lemma_trim_start_at(s@, start as int);
            let t = s@.subrange(start as int, n as int);
            lemma_trim_end_at(t, end - start);
            assert(t.subrange(0, end - start) =~= s@.subrange(start as int, end as int));
            assert(spec_trim(s@) == s@.subrange(start as int, end as int));
        }
        if end - start != 36 {
            return None;
        }
        let ghost t = spec_trim(s@);
        let mut bytes: Vec<u8> = Vec::new();
        let mut i: usize = 0;
        while i < 16
            invariant
                n == s@.len(),
                start + 36 == end,
                end <= n,
                t == s@.subrange(start as int, end as int),
                t == spec_trim(s@),
                t.len() == 36,
                0 <= i <= 16,
                bytes@.len() == i,
                forall|j: int| 0 <= j < hi_pos(i as int) ==> (if is_hyphen_pos(j) {
                    t[j] == 45u8
                } else {
                    is_hex_digit(t[j])
                }),
                forall|k: int| 0 <= k < i ==> bytes@[k] as int == hex_val(t[hi_pos(k)]) * 16
                    + hex_val(t[hi_pos(k) + 1]),
            decreases 16 - i,
        {
            let p = start + hi_pos_exec(i);
            let hi = s[p];
            let lo = s[p + 1];
            if !is_hex_exec(hi) || !is_hex_exec(lo) {
                proof {
                    let j = hi_pos(i as int);
                    assert(!is_hyphen_pos(j) && !is_hyphen_pos(j + 1));
                    assert(t[j] == s@[start + j] && t[j + 1] == s@[start + j + 1]);
                    assert(!valid_uuid_text(t));
                }
                return None;
            }
            let b = hex_val_exec(hi) * 16 + hex_val_exec(lo);
            bytes.push(b);
            if i == 3 || i == 5 || i == 7 || i == 9 {
                if s[p + 2] != 45 {
                    proof {
                        let j = hi_pos(i as int) + 2;
                        assert(is_hyphen_pos(j));
                        assert(t[j] == s@[start + j]);
                        assert(!valid_uuid_text(t));
                    }
                    return None;
                }
            }
            i = i + 1;
        }
        proof {
            assert(valid_uuid_text(t)) by {
                assert(forall|j: int| 0 <= j < 36 ==> (if is_hyphen_pos(j) {
                    t[j] == 45u8
                } else {
                    is_hex_digit(t[j])
                }));
            }
            assert(bytes@ =~= uuid_value_of(t));
        }
        Some(Uuid { bytes })
    }
}

impl PartialEq for Uuid {
    /// Two identifiers are equal when their 16 bytes are.
    fn eq(&self, other: &Uuid) -> (r: bool) {
        let n = self.bytes.len();
        if n != other.bytes.len() {
            return false;
        }
        let mut i: usize = 0;
        while i < n
            invariant
                n == self.bytes@.len(),
                n == other.bytes@.len(),
                0 <= i <= n,
                forall|j: int| 0 <= j < i ==> self.bytes@[j] == other.bytes@[j],
            decreases n - i,
        {
            if self.bytes[i] != other.bytes[i] {
                return false;
            }
            i = i + 1;
        }
        proof {
            assert(self.bytes@ =~= other.bytes@);
        }
        true
    }
}

impl vstd::std_specs::cmp::PartialEqSpecImpl for Uuid {
    open spec fn obeys_eq_spec() -> bool {
        true
    }

    open spec fn eq_spec(&self, other: &Uuid) -> bool {
        self@ == other@
    }
}

impl Eq for Uuid {
}

/// Exec mirror of `hi_pos`.
fn hi_pos_exec(i: usize) -> (r: usize)
    requires
        i < 16,
    ensures
        r as int == hi_pos(i as int),
{
    let h: usize = if i < 4 {
        0
    } else if i < 6 {
        1
    } else if i < 8 {
        2
    } else if i < 10 {
        3
    } else {
        4
    };
    2 * i + h
}

/// Exec mirror of `is_uuid_ws`.
fn is_ws_exec(b: u8) -> (r: bool)
    ensures
        r == is_uuid_ws(b),
{
    b == 32 || b == 9 || b == 10 || b == 13
}

/// Exec mirror of `is_hex_digit`.
fn is_hex_exec(b: u8) -> (r: bool)
    ensures
        r == is_hex_digit(b),
{
    (48 <= b && b <= 57) || (65 <= b && b <= 70) || (97 <= b && b <= 102)
}

/// Exec mirror of `hex_val`.
fn hex_val_exec(b: u8) -> (r: u8)
    requires
        is_hex_digit(b),
    ensures
        r as int == hex_val(b),
        r < 16,
{
    if b <= 57 {
        b - 48
    } else if b <= 70 {
        b - 55
    } else {
        b - 87
    }
}

/// The lowercase hex digit of a nibble.
fn hex_lower(n: u8) -> (r: u8)
    requires
        n < 16,
    ensures
        is_lower_hex_digit(r),
        hex_val(r) == n as int,
        !is_uuid_ws(r),
        r != 45u8,
{
    if n < 10 {
        n + 48
    } else {
        n + 87
    }
}

/// Trimming the start removes exactly the leading whitespace run: if
/// the first `k` bytes are whitespace and byte `k` (when present) is
/// not, what remains is the suffix from `k`.
proof fn lemma_trim_start_at(s: Seq<u8>, k: int)
    requires
        0 <= k <= s.len(),
        forall|j: int| 0 <= j < k ==> is_uuid_ws(s[j]),
        k == s.len() || !is_uuid_ws(s[k]),
    ensures
        trim_start(s) == s.subrange(k, s.len() as int),
    decreases k,
{
    if k == 0 {
        assert(s.subrange(0, s.len() as int) =~= s);
    } else {
        let d = s.drop_first();
        assert(forall|j: int| 0 <= j < k - 1 ==> is_uuid_ws(d[j]));
        lemma_trim_start_at(d, k - 1);
        assert(d.subrange(k - 1, d.len() as int) =~= s.subrange(k, s.len() as int));
    }
}

/// Trimming the end removes exactly the trailing whitespace run: if
/// all bytes from `e` on are whitespace and byte `e - 1` (when present)
/// is not, what remains is the prefix up to `e`.
proof fn lemma_trim_end_at(s: Seq<u8>, e: int)
    requires
        0 <= e <= s.len(),
        forall|j: int| e <= j < s.len() ==> is_uuid_ws(s[j]),
        e == 0 || !is_uuid_ws(s[e - 1]),
    ensures
        trim_end(s) == s.subrange(0, e),
    decreases s.len() - e,
{
    if e == s.len() {
        if s.len() == 0 {
            assert(s.subrange(0, 0) =~= s);
        } else {
            assert(s.subrange(0, e) =~= s);
        }
    } else {
        let d = s.drop_last();
        assert(is_uuid_ws(s[s.len() - 1]));
        assert(forall|j: int| e <= j < d.len() ==> is_uuid_ws(d[j]));
        lemma_trim_end_at(d, e);
        assert(d.subrange(0, e) =~= s.subrange(0, e));
    }
}

} // verus!
