//! Character-level text handling: whitespace-separated words, and lists
//! separated by a character with the whitespace around each item removed.
use vstd::prelude::*;

verus! {

broadcast use vstd::string::axiom_spec_iter;

/// The characters of `s`, in order.
pub fn chars_of(s: &str) -> (v: Vec<char>)
    ensures
        v@ == s@,
{
    let mut v: Vec<char> = Vec::new();
    for c in it: s.chars()
        invariant
            v@ == it.seq().take(it.index() as int),
    {
        v.push(c);
        proof {
            assert(v@ =~= it.seq().take(it.index() as int + 1));
        }
    }
    assert(v@ =~= s@);
    v
}


/// The string made of the characters `c`, in order.
///
/// Collects the characters through `String`'s `FromIterator<char>`, whose
/// documentation says that the string holds the characters in the order given.
#[verifier::external_body]
pub(crate) fn string_from_chars(c: &[char]) -> (s: String)
    ensures
        s@ == c@,
{
    c.iter().collect()
}

/// Whether `c` is whitespace in the sense of Unicode's `White_Space`
/// property, which `char::is_whitespace` follows.
pub open spec fn is_white(c: char) -> bool {
    let u = c as u32;
    ||| 0x9 <= u <= 0xd
    ||| u == 0x20
    ||| u == 0x85
    ||| u == 0xa0
    ||| u == 0x1680
    ||| 0x2000 <= u <= 0x200a
    ||| u == 0x2028
    ||| u == 0x2029
    ||| u == 0x202f
    ||| u == 0x205f
    ||| u == 0x3000
}

/// Whether `c` is whitespace, as `char::is_whitespace` decides it.
pub fn is_whitespace(c: char) -> (b: bool)
    ensures
        b == is_white(c),
{
    let u = c as u32;
    (0x9 <= u && u <= 0xd) || u == 0x20 || u == 0x85 || u == 0xa0 || u == 0x1680 || (0x2000 <= u
        && u <= 0x200a) || u == 0x2028 || u == 0x2029 || u == 0x202f || u == 0x205f || u == 0x3000
}

/// The word `cur` that is under way, as a list of at most one word.
pub open spec fn pending(cur: Seq<char>) -> Seq<Seq<char>> {
    if cur.len() == 0 {
        Seq::empty()
    } else {
        seq![cur]
    }
}

/// The words of `cur + s`, where `cur` holds no whitespace: a word ends at
/// whitespace or at the end of the text, and whitespace makes no word.
pub open spec fn words_after(cur: Seq<char>, s: Seq<char>) -> Seq<Seq<char>>
    decreases s.len(),
{
    if s.len() == 0 {
        pending(cur)
    } else if is_white(s[0]) {
        pending(cur) + words_after(Seq::empty(), s.drop_first())
    } else {
        words_after(cur.push(s[0]), s.drop_first())
    }
}

/// The words of `s`: its longest runs of characters that are not whitespace,
/// in order, as `str::split_whitespace` yields them.
pub open spec fn words(s: Seq<char>) -> Seq<Seq<char>> {
    words_after(Seq::empty(), s)
}

/// Whether `w` can be a word: not empty, and without whitespace.
pub open spec fn clean_word(w: Seq<char>) -> bool {
    w.len() > 0 && forall|k: int| 0 <= k < w.len() ==> !is_white(#[trigger] w[k])
}

proof fn lemma_words_after_clean(cur: Seq<char>, s: Seq<char>)
    requires
        forall|k: int| 0 <= k < cur.len() ==> !is_white(#[trigger] cur[k]),
    ensures
        forall|i: int| 0 <= i < words_after(cur, s).len() ==> clean_word(#[trigger] words_after(cur, s)[i]),
    decreases s.len(),
{
    if cur.len() > 0 {
        assert(clean_word(cur));
        assert(pending(cur)[0] == cur);
    }
    if s.len() == 0 {
        assert(words_after(cur, s) == pending(cur));
        assert forall|i: int| 0 <= i < pending(cur).len() implies clean_word(#[trigger] pending(cur)[i]) by {
            assert(pending(cur)[i] == cur);
        }
    } else if is_white(s[0]) {
        lemma_words_after_clean(Seq::empty(), s.drop_first());
        let a = pending(cur);
        let b = words_after(Seq::empty(), s.drop_first());
        assert(words_after(cur, s) == a + b);
        assert forall|i: int| 0 <= i < (a + b).len() implies clean_word(#[trigger] (a + b)[i]) by {
            if i >= a.len() {
                assert((a + b)[i] == b[i - a.len()]);
            } else {
                assert((a + b)[i] == a[i]);
            }
        }
    } else {
        let next = cur.push(s[0]);
        assert forall|k: int| 0 <= k < next.len() implies !is_white(#[trigger] next[k]) by {
            if k < cur.len() {
                assert(next[k] == cur[k]);
            }
        }
        lemma_words_after_clean(next, s.drop_first());
        assert(words_after(cur, s) == words_after(next, s.drop_first()));
    }
}

/// Every word is non-empty and holds no whitespace.
pub proof fn law_words_are_clean(s: Seq<char>)
    ensures
        forall|i: int| 0 <= i < words(s).len() ==> clean_word(#[trigger] words(s)[i]),
{
    lemma_words_after_clean(Seq::empty(), s);
}

/// The words of `s`, each as its characters.
fn word_chars(s: &str) -> (out: Vec<Vec<char>>)
    ensures
        out@.map_values(|w: Vec<char>| w@) == words(s@),
{
    let v = chars_of(s);
    let n = v.len();
    let mut out: Vec<Vec<char>> = Vec::new();
    let mut cur: Vec<char> = Vec::new();
    let mut i: usize = 0;
    proof {
        assert(v@.skip(0) =~= v@);
        assert(out@.map_values(|w: Vec<char>| w@) + words(v@) =~= words(v@));
    }
    while i < n
        invariant
            i <= n,
            n == v@.len(),
            v@ == s@,
            out@.map_values(|w: Vec<char>| w@) + words_after(cur@, v@.skip(i as int)) == words(s@),
        decreases n - i,
    {
        let ghost before = out@.map_values(|w: Vec<char>| w@);
        let ghost rest = v@.skip(i as int);
        assert(rest.drop_first() =~= v@.skip(i as int + 1));
        let c = v[i];
        if is_whitespace(c) {
            if cur.len() > 0 {
                let piece = cur;
                out.push(piece);
                cur = Vec::new();
                proof {
                    assert(out@.map_values(|w: Vec<char>| w@) =~= before.push(piece@));
                    assert(before.push(piece@) + words_after(Seq::empty(), rest.drop_first())
                        =~= before + (pending(piece@) + words_after(Seq::empty(), rest.drop_first())));
                }
            } else {
                proof {
                    assert(pending(cur@) =~= Seq::<Seq<char>>::empty());
                    assert(pending(cur@) + words_after(Seq::empty(), rest.drop_first())
                        =~= words_after(Seq::empty(), rest.drop_first()));
                    assert(cur@ =~= Seq::<char>::empty());
                }
            }
        } else {
            cur.push(c);
        }
        i = i + 1;
    }
    proof {
        assert(v@.skip(n as int) =~= Seq::<char>::empty());
        if cur@.len() > 0 {
            assert(out@.map_values(|w: Vec<char>| w@) + seq![cur@] == words(s@));
        }
    }
    if cur.len() > 0 {
        let ghost before = out@.map_values(|w: Vec<char>| w@);
        let piece = cur;
        out.push(piece);
        proof {
            assert(out@.map_values(|w: Vec<char>| w@) =~= before.push(piece@));
            assert(before.push(piece@) =~= before + seq![piece@]);
        }
    } else {
        proof {
            assert(out@.map_values(|w: Vec<char>| w@) + Seq::<Seq<char>>::empty() =~= out@.map_values(
                |w: Vec<char>| w@,
            ));
        }
    }
    out
}

/// The words of `s`, as `str::split_whitespace` splits it.
pub fn split_whitespace(s: &str) -> (out: Vec<String>)
    ensures
        out@.map_values(|w: String| w@) == words(s@),
{
    let ws = word_chars(s);
    let mut out: Vec<String> = Vec::new();
    let mut i: usize = 0;
    while i < ws.len()
        invariant
            i <= ws.len(),
            ws@.map_values(|w: Vec<char>| w@) == words(s@),
            out@.map_values(|w: String| w@) == ws@.map_values(|w: Vec<char>| w@).take(i as int),
        decreases ws.len() - i,
    {
        let w = string_from_chars(ws[i].as_slice());
        let ghost before = out@.map_values(|w: String| w@);
        out.push(w);
        proof {
            assert(out@.map_values(|w: String| w@) =~= before.push(w@));
            assert(ws@.map_values(|w: Vec<char>| w@).take(i as int + 1) =~= ws@.map_values(
                |w: Vec<char>| w@,
            ).take(i as int).push(ws@[i as int]@));
        }
        i = i + 1;
    }
    assert(ws@.map_values(|w: Vec<char>| w@).take(ws.len() as int) =~= ws@.map_values(
        |w: Vec<char>| w@,
    ));
    out
}

/// Whether two character slices hold the same characters.
fn same_chars(a: &[char], b: &[char]) -> (r: bool)
    ensures
        r == (a@ == b@),
{
    if a.len() != b.len() {
        return false;
    }
    let mut i: usize = 0;
    while i < a.len()
        invariant
            i <= a.len(),
            a.len() == b.len(),
            forall|k: int| 0 <= k < i ==> a@[k] == b@[k],
        decreases a.len() - i,
    {
        if a[i] != b[i] {
            return false;
        }
        i = i + 1;
    }
    assert(a@ =~= b@);
    true
}

/// Whether `word` is one of the words of `s`.
pub fn has_word(s: &str, word: &str) -> (r: bool)
    ensures
        r == words(s@).contains(word@),
{
    let ws = word_chars(s);
    let w = chars_of(word);
    let ghost all = ws@.map_values(|x: Vec<char>| x@);
    let mut i: usize = 0;
    while i < ws.len()
        invariant
            i <= ws.len(),
            all == ws@.map_values(|x: Vec<char>| x@),
            all == words(s@),
            w@ == word@,
            forall|k: int| 0 <= k < i ==> all[k] != word@,
        decreases ws.len() - i,
    {
        if same_chars(ws[i].as_slice(), w.as_slice()) {
            assert(all[i as int] == word@);
            return true;
        }
        i = i + 1;
    }
    false
}


/// The number of whitespace characters at the start of `s`.
pub open spec fn leading_white(s: Seq<char>) -> nat
    decreases s.len(),
{
    if s.len() == 0 || !is_white(s[0]) {
        0
    } else {
        1 + leading_white(s.drop_first())
    }
}

/// The number of whitespace characters at the end of `s`.
pub open spec fn trailing_white(s: Seq<char>) -> nat
    decreases s.len(),
{
    if s.len() == 0 || !is_white(s.last()) {
        0
    } else {
        1 + trailing_white(s.drop_last())
    }
}

/// `s` without the whitespace at its start and at its end, as `str::trim`
/// gives it.
pub open spec fn trimmed(s: Seq<char>) -> Seq<char> {
    let a = leading_white(s);
    if a == s.len() {
        Seq::empty()
    } else {
        s.subrange(a as int, s.len() - trailing_white(s))
    }
}

/// The pieces of `cur + s` between the characters `sep`, where `cur` holds
/// no `sep`: empty pieces included, always at least one.
pub open spec fn pieces_after(cur: Seq<char>, s: Seq<char>, sep: char) -> Seq<Seq<char>>
    decreases s.len(),
{
    if s.len() == 0 {
        seq![cur]
    } else if s[0] == sep {
        seq![cur] + pieces_after(Seq::empty(), s.drop_first(), sep)
    } else {
        pieces_after(cur.push(s[0]), s.drop_first(), sep)
    }
}

/// The pieces of `s` between the characters `sep`, as `str::split` with a
/// character pattern yields them.
pub open spec fn pieces(s: Seq<char>, sep: char) -> Seq<Seq<char>> {
    pieces_after(Seq::empty(), s, sep)
}

proof fn lemma_leading_white(s: Seq<char>, i: int)
    requires
        0 <= i <= s.len(),
        forall|k: int| 0 <= k < i ==> is_white(s[k]),
        i == s.len() || !is_white(s[i]),
    ensures
        leading_white(s) == i,
    decreases i,
{
    if i > 0 {
        let t = s.drop_first();
        assert forall|k: int| 0 <= k < i - 1 implies is_white(t[k]) by {
            assert(t[k] == s[k + 1]);
        }
        if i - 1 < t.len() {
            assert(t[i - 1] == s[i]);
        }
        lemma_leading_white(t, i - 1);
    }
}

proof fn lemma_trailing_white(s: Seq<char>, j: int)
    requires
        0 <= j <= s.len(),
        forall|k: int| j <= k < s.len() ==> is_white(s[k]),
        j == 0 || !is_white(s[j - 1]),
    ensures
        trailing_white(s) == s.len() - j,
    decreases s.len() - j,
{
    if j < s.len() {
        let t = s.drop_last();
        assert forall|k: int| j <= k < t.len() implies is_white(t[k]) by {
            assert(t[k] == s[k]);
        }
        if j > 0 {
            assert(t[j - 1] == s[j - 1]);
        }
        lemma_trailing_white(t, j);
    }
}

/// `v` without the whitespace at its start and at its end.
fn trim_chars(v: &[char]) -> (out: Vec<char>)
    ensures
        out@ == trimmed(v@),
{
    let n = v.len();
    let mut a: usize = 0;
    while a < n && is_whitespace(v[a])
        invariant
            a <= n,
            n == v@.len(),
            forall|k: int| 0 <= k < a ==> is_white(v@[k]),
        decreases n - a,
    {
        a = a + 1;
    }
    proof {
        lemma_leading_white(v@, a as int);
    }
    let mut out: Vec<char> = Vec::new();
    if a == n {
        return out;
    }
    let mut b: usize = n;
    while b > a && is_whitespace(v[b - 1])
        invariant
            a < b <= n || (a == b && b < n),
            a < n,
            n == v@.len(),
            !is_white(v@[a as int]),
            forall|k: int| b <= k < n ==> is_white(v@[k]),
        decreases b,
    {
        b = b - 1;
    }
    proof {
        lemma_trailing_white(v@, b as int);
    }
    let mut i: usize = a;
    while i < b
        invariant
            a <= i <= b <= n,
            n == v@.len(),
            out@ == v@.subrange(a as int, i as int),
        decreases b - i,
    {
        out.push(v[i]);
        proof {
            assert(out@ =~= v@.subrange(a as int, i as int + 1));
        }
        i = i + 1;
    }
    out
}

/// The pieces of `s` between the characters `sep`, each as its characters.
fn piece_chars(s: &[char], sep: char) -> (out: Vec<Vec<char>>)
    ensures
        out@.map_values(|w: Vec<char>| w@) == pieces(s@, sep),
{
    let n = s.len();
    let mut out: Vec<Vec<char>> = Vec::new();
    let mut cur: Vec<char> = Vec::new();
    let mut i: usize = 0;
    proof {
        assert(s@.skip(0) =~= s@);
        assert(out@.map_values(|w: Vec<char>| w@) + pieces(s@, sep) =~= pieces(s@, sep));
    }
    while i < n
        invariant
            i <= n,
            n == s@.len(),
            out@.map_values(|w: Vec<char>| w@) + pieces_after(cur@, s@.skip(i as int), sep)
                == pieces(s@, sep),
        decreases n - i,
    {
        let ghost before = out@.map_values(|w: Vec<char>| w@);
        let ghost rest = s@.skip(i as int);
        assert(rest.drop_first() =~= s@.skip(i as int + 1));
        let c = s[i];
        if c == sep {
            let piece = cur;
            out.push(piece);
            cur = Vec::new();
            proof {
                assert(out@.map_values(|w: Vec<char>| w@) =~= before.push(piece@));
                assert(before.push(piece@) + pieces_after(Seq::empty(), rest.drop_first(), sep)
                    =~= before + (seq![piece@] + pieces_after(Seq::empty(), rest.drop_first(), sep)));
                assert(cur@ =~= Seq::<char>::empty());
            }
        } else {
            cur.push(c);
        }
        i = i + 1;
    }
    let ghost before = out@.map_values(|w: Vec<char>| w@);
    proof {
        assert(s@.skip(n as int) =~= Seq::<char>::empty());
    }
    let piece = cur;
    out.push(piece);
    proof {
        assert(out@.map_values(|w: Vec<char>| w@) =~= before.push(piece@));
        assert(before.push(piece@) =~= before + seq![piece@]);
    }
    out
}

/// The items of a list written with `sep` between them, each without the
/// whitespace around it, as `s.split(sep).map(str::trim)` yields them.
pub fn split_trimmed(s: &str, sep: char) -> (out: Vec<String>)
    ensures
        out@.len() == pieces(s@, sep).len(),
        forall|i: int| 0 <= i < out@.len() ==> #[trigger] out@[i]@ == trimmed(pieces(s@, sep)[i]),
{
    let v = chars_of(s);
    let ps = piece_chars(v.as_slice(), sep);
    let ghost all = ps@.map_values(|w: Vec<char>| w@);
    let mut out: Vec<String> = Vec::new();
    let mut i: usize = 0;
    while i < ps.len()
        invariant
            i <= ps.len(),
            all == ps@.map_values(|w: Vec<char>| w@),
            all == pieces(s@, sep),
            out@.len() == i,
            forall|k: int| 0 <= k < i ==> #[trigger] out@[k]@ == trimmed(all[k]),
        decreases ps.len() - i,
    {
        let t = trim_chars(ps[i].as_slice());
        let w = string_from_chars(t.as_slice());
        out.push(w);
        i = i + 1;
    }
    out
}

} // verus!
