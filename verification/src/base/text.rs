//! Byte-level text handling: splitting on a separator and reading decimal numbers.
use vstd::prelude::*;

verus! {

/// Why a text could not be read as an unsigned integer.
#[derive(Debug, Clone, Copy, PartialEq, Eq, Hash, Structural)]
pub enum IntErrorKind {
    /// The text is empty.
    Empty,
    /// The text holds something other than a decimal digit.
    InvalidDigit,
    /// The number is too large for the integer type.
    PosOverflow,
}

/// Index of the first byte `b` in `s`, or `s.len()` when there is none.
pub open spec fn find_byte(s: Seq<u8>, b: u8) -> nat
    decreases s.len(),
{
    if s.len() == 0 {
        0
    } else if s[0] == b {
        0
    } else {
        1 + find_byte(s.drop_first(), b)
    }
}

/// The pieces of `s` between occurrences of `b`, in order; empty pieces
/// included; always at least one piece.
pub open spec fn split_on(s: Seq<u8>, b: u8) -> Seq<Seq<u8>>
    decreases s.len(),
{
    let k = find_byte(s, b);
    if k >= s.len() {
        seq![s]
    } else {
        seq![s.take(k as int)] + split_on(s.skip(k + 1 as int), b)
    }
}

/// Whether `s` holds no byte `b`.
pub open spec fn lacks_byte(s: Seq<u8>, b: u8) -> bool {
    forall|i: int| 0 <= i < s.len() ==> s[i] != b
}

proof fn lemma_find_byte_bound(s: Seq<u8>, b: u8)
    ensures
        find_byte(s, b) <= s.len(),
        find_byte(s, b) < s.len() ==> s[find_byte(s, b) as int] == b,
        forall|i: int| 0 <= i < find_byte(s, b) ==> s[i] != b,
    decreases s.len(),
{
    if s.len() > 0 && s[0] != b {
        lemma_find_byte_bound(s.drop_first(), b);
        assert forall|i: int| 0 <= i < find_byte(s, b) implies s[i] != b by {
            if i > 0 {
                assert(s[i] == s.drop_first()[i - 1]);
            }
        }
    }
}

proof fn lemma_find_byte_skip(c: Seq<u8>, rest: Seq<u8>, b: u8)
    requires
        lacks_byte(c, b),
    ensures
        find_byte(c + rest, b) == c.len() + find_byte(rest, b),
    decreases c.len(),
{
    if c.len() > 0 {
        assert((c + rest).drop_first() =~= c.drop_first() + rest);
        lemma_find_byte_skip(c.drop_first(), rest, b);
    } else {
        assert(c + rest =~= rest);
    }
}

/// Splits `s` at every byte `sep`, like `str::split` with a one-byte pattern.
pub fn split_bytes(s: &[u8], sep: u8) -> (out: Vec<Vec<u8>>)
    ensures
        out@.map_values(|v: Vec<u8>| v@) == split_on(s@, sep),
{
    let n = s.len();
    let mut out: Vec<Vec<u8>> = Vec::new();
    let mut cur: Vec<u8> = Vec::new();
    let mut i: usize = 0;
    proof {
        assert(cur@ + s@.skip(0) =~= s@);
        assert(out@.map_values(|v: Vec<u8>| v@) + split_on(s@, sep) =~= split_on(s@, sep));
    }
    while i < n
        invariant
            i <= n,
            n == s@.len(),
            lacks_byte(cur@, sep),
            out@.map_values(|v: Vec<u8>| v@) + split_on(cur@ + s@.skip(i as int), sep) == split_on(
                s@,
                sep,
            ),
        decreases n - i,
    {
        let ghost before = out@.map_values(|v: Vec<u8>| v@);
        let ghost old_cur = cur@;
        let ghost tail = s@.skip(i as int + 1);
        assert(before + split_on(old_cur + s@.skip(i as int), sep) == split_on(s@, sep));
        assert(s@.skip(i as int) =~= seq![s@[i as int]] + tail);
        if s[i] == sep {
            proof {
                let whole = cur@ + s@.skip(i as int);
                assert(whole =~= cur@ + (seq![sep] + tail));
                lemma_find_byte_skip(cur@, seq![sep] + tail, sep);
                assert(whole.take(cur@.len() as int) =~= cur@);
                assert(whole.skip(cur@.len() + 1 as int) =~= tail);
                assert(split_on(whole, sep) == seq![cur@] + split_on(tail, sep));
            }
            let piece = cur;
            out.push(piece);
            cur = Vec::new();
            proof {
                assert(out@.map_values(|v: Vec<u8>| v@) =~= before.push(piece@));
                assert(cur@ + tail =~= tail);
                assert(before.push(piece@) + split_on(tail, sep) =~= before + (seq![piece@]
                    + split_on(tail, sep)));
            }
        } else {
            let x = s[i];
            cur.push(x);
            proof {
                assert(cur@ =~= old_cur.push(x));
                assert(cur@ + tail =~= old_cur + s@.skip(i as int));
                assert forall|k: int| 0 <= k < cur@.len() implies cur@[k] != sep by {
                    if k < cur@.len() - 1 {
                        assert(cur@[k] == cur@.drop_last()[k]);
                    }
                }
            }
        }
        i = i + 1;
    }
    proof {
        assert(cur@ + s@.skip(n as int) =~= cur@);
        lemma_find_byte_skip(cur@, Seq::<u8>::empty(), sep);
        assert(cur@ + Seq::<u8>::empty() =~= cur@);
    }
    let last = cur;
    out.push(last);
    proof {
        let before = out@.drop_last().map_values(|v: Vec<u8>| v@);
        assert(out@.drop_last() =~= old_out_view(out@));
        assert(out@.map_values(|v: Vec<u8>| v@) =~= before.push(last@));
    }
    out
}

spec fn old_out_view(o: Seq<Vec<u8>>) -> Seq<Vec<u8>> {
    o.drop_last()
}

/// Whether `b` is an ASCII decimal digit.
pub open spec fn is_digit(b: u8) -> bool {
    48 <= b <= 57
}

/// Reads the digits `d` after an accumulated value `acc`, as `u32::from_str`
/// does: digit by digit, the first failure decides.
pub open spec fn scan_digits(d: Seq<u8>, acc: nat) -> Result<u32, IntErrorKind>
    decreases d.len(),
{
    if d.len() == 0 {
        if acc <= u32::MAX {
            Ok(acc as u32)
        } else {
            Err(IntErrorKind::PosOverflow)
        }
    } else if !is_digit(d[0]) {
        Err(IntErrorKind::InvalidDigit)
    } else if acc * 10 > u32::MAX {
        Err(IntErrorKind::PosOverflow)
    } else if acc * 10 + (d[0] - 48) > u32::MAX {
        Err(IntErrorKind::PosOverflow)
    } else {
        scan_digits(d.drop_first(), (acc * 10 + (d[0] - 48)) as nat)
    }
}

/// What `u32::from_str` gives for the bytes `s`: an optional leading `+`
/// followed by decimal digits.
pub open spec fn parse_u32_spec(s: Seq<u8>) -> Result<u32, IntErrorKind> {
    if s.len() == 0 {
        Err(IntErrorKind::Empty)
    } else if (s[0] == 43u8 || s[0] == 45u8) && s.len() == 1 {
        Err(IntErrorKind::InvalidDigit)
    } else if s[0] == 43u8 {
        scan_digits(s.drop_first(), 0)
    } else {
        scan_digits(s, 0)
    }
}

/// Reads the decimal number held by the bytes `s`, as `u32::from_str` does.
pub fn parse_u32(s: &[u8]) -> (r: Result<u32, IntErrorKind>)
    ensures
        r == parse_u32_spec(s@),
{
    let n = s.len();
    if n == 0 {
        return Err(IntErrorKind::Empty);
    }
    if (s[0] == 43u8 || s[0] == 45u8) && n == 1 {
        return Err(IntErrorKind::InvalidDigit);
    }
    let mut i: usize = if s[0] == 43u8 { 1 } else { 0 };
    let ghost digits = if s@[0] == 43u8 { s@.drop_first() } else { s@ };
    assert(digits =~= s@.skip(i as int));
    let mut acc: u32 = 0;
    while i < n
        invariant
            i <= n,
            n == s@.len(),
            parse_u32_spec(s@) == scan_digits(s@.skip(i as int), acc as nat),
        decreases n - i,
    {
        let c = s[i];
        assert(s@.skip(i as int)[0] == c);
        assert(s@.skip(i as int).drop_first() =~= s@.skip(i as int + 1));
        if c < 48u8 || c > 57u8 {
            return Err(IntErrorKind::InvalidDigit);
        }
        let mul = match acc.checked_mul(10) {
            Some(m) => m,
            None => return Err(IntErrorKind::PosOverflow),
        };
        acc = match mul.checked_add((c - 48u8) as u32) {
            Some(v) => v,
            None => return Err(IntErrorKind::PosOverflow),
        };
        i = i + 1;
    }
    assert(s@.skip(n as int).len() == 0);
    Ok(acc)
}

} // verus!
