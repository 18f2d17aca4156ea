//! Character-level text utilities: whitespace, decimal numbers and
//! string building.

use vstd::prelude::*;

verus! {

/// Whether `c` has the Unicode `White_Space` property, as `char::is_whitespace` decides it.
pub open spec fn spec_is_whitespace(c: char) -> bool {
    ||| ('\u{9}' <= c && c <= '\u{d}')
    ||| c == ' '
    ||| c == '\u{85}'
    ||| c == '\u{a0}'
    ||| c == '\u{1680}'
    ||| ('\u{2000}' <= c && c <= '\u{200a}')
    ||| c == '\u{2028}'
    ||| c == '\u{2029}'
    ||| c == '\u{202f}'
    ||| c == '\u{205f}'
    ||| c == '\u{3000}'
}

/// Decides the Unicode `White_Space` property of a character.
pub fn is_whitespace(c: char) -> (r: bool)
    ensures
        r == spec_is_whitespace(c),
{
    ('\u{9}' <= c && c <= '\u{d}') || c == ' ' || c == '\u{85}' || c == '\u{a0}' || c == '\u{1680}'
        || ('\u{2000}' <= c && c <= '\u{200a}') || c == '\u{2028}' || c == '\u{2029}' || c
        == '\u{202f}' || c == '\u{205f}' || c == '\u{3000}'
}

} // verus!

verus! {

/// The character of a decimal digit `d < 10`.
pub open spec fn digit_char(d: nat) -> char {
    (48 + d) as char
}

/// Whether `c` is one of the ASCII digits `0`..=`9`.
pub open spec fn is_digit(c: char) -> bool {
    '0' <= c && c <= '9'
}

/// The value of an ASCII digit.
pub open spec fn digit_value(c: char) -> nat {
    ((c as int) - 48) as nat
}

/// The decimal digits of `n`, most significant first, without leading zeros.
pub open spec fn nat_digits(n: nat) -> Seq<char>
    decreases n,
{
    if n < 10 {
        seq![digit_char(n)]
    } else {
        nat_digits(n / 10).push(digit_char(n % 10))
    }
}

/// The decimal text of an integer, with a leading `-` when it is negative
/// (what `Display` writes for Rust's integer types).
pub open spec fn int_decimal(x: int) -> Seq<char> {
    if x < 0 {
        seq!['-'].add(nat_digits((-x) as nat))
    } else {
        nat_digits(x as nat)
    }
}

/// Whether every character of `s` is an ASCII digit.
pub open spec fn all_digits(s: Seq<char>) -> bool {
    forall|i: int| 0 <= i < s.len() ==> is_digit(#[trigger] s[i])
}

/// The value of a sequence of decimal digits, read most significant first.
pub open spec fn digits_value(s: Seq<char>) -> nat
    decreases s.len(),
{
    if s.len() == 0 {
        0
    } else {
        digits_value(s.drop_last()) * 10 + digit_value(s.last())
    }
}

/// What `i64::from_str` gives for the text `s`: an optional sign (`+` or `-`)
/// followed by at least one ASCII digit, whose value lies in the range of `i64`.
pub open spec fn spec_parse_i64(s: Seq<char>) -> Option<i64> {
    let neg = s.len() > 0 && s[0] == '-';
    let body = if s.len() > 0 && (s[0] == '-' || s[0] == '+') {
        s.drop_first()
    } else {
        s
    };
    if body.len() == 0 || !all_digits(body) {
        None
    } else {
        let v: int = if neg {
            -(digits_value(body) as int)
        } else {
            digits_value(body) as int
        };
        if i64::MIN <= v && v <= i64::MAX {
            Some(v as i64)
        } else {
            None
        }
    }
}

/// Appends one character to a string.
///
/// Trusted: `String::push` appends `c` at the end of the string, as its documentation says.
#[verifier::external_body]
pub(crate) fn push_char(s: &mut String, c: char)
    ensures
        final(s)@ == old(s)@.push(c),
{
    s.push(c);
}

fn push_digits(s: &mut String, n: u64)
    ensures
        final(s)@ == old(s)@ + nat_digits(n as nat),
    decreases n,
{
    if n >= 10 {
        push_digits(s, n / 10);
    }
    let d: u8 = (n % 10) as u8;
    let c: char = (48u8 + d) as char;
    push_char(s, c);
    proof {
        if n >= 10 {
            assert(nat_digits(n as nat) == nat_digits((n / 10) as nat).push(digit_char((n % 10) as nat)));
        }
    }
}

/// Appends the decimal text of `x` to `s`.
pub fn push_i64(s: &mut String, x: i64)
    ensures
        final(s)@ == old(s)@ + int_decimal(x as int),
{
    if x < 0 {
        push_char(s, '-');
        let m: u64 = (0i128 - (x as i128)) as u64;
        push_digits(s, m);
        assert(seq!['-'].add(nat_digits(m as nat)) == seq!['-'] + nat_digits(m as nat));
    } else {
        push_digits(s, x as u64);
    }
}

/// The decimal text of `x`, as `x.to_string()` writes it.
pub fn i64_to_string(x: i64) -> (r: String)
    ensures
        r@ == int_decimal(x as int),
{
    let mut s = String::new();
    push_i64(&mut s, x);
    s
}

} // verus!

verus! {

/// The characters of `s`, one per element.
pub fn str_chars(s: &str) -> (r: Vec<char>)
    ensures
        r@ == s@,
{
    broadcast use vstd::string::axiom_spec_iter;
    let mut v: Vec<char> = Vec::new();
    for c in it: s.chars()
        invariant
            it.seq() == s@,
            v@ == s@.take(it.index()),
    {
        assert(s@.take(it.index() + 1) == s@.take(it.index()).push(c));
        v.push(c);
    }
    assert(s@.take(s@.len() as int) == s@);
    v
}

/// Whether `v[lo..hi]` holds exactly the characters of `s`.
pub fn range_eq_str(v: &Vec<char>, lo: usize, hi: usize, s: &str) -> (r: bool)
    requires
        lo <= hi <= v@.len(),
    ensures
        r == (v@.subrange(lo as int, hi as int) == s@),
{
    let w = str_chars(s);
    if hi - lo != w.len() {
        return false;
    }
    let mut i: usize = 0;
    while i < w.len()
        invariant
            w@ == s@,
            lo <= hi <= v@.len(),
            hi - lo == w@.len(),
            0 <= i <= w@.len(),
            forall|j: int| 0 <= j < i ==> v@[lo + j] == w@[j],
        decreases w@.len() - i,
    {
        if v[lo + i] != w[i] {
            assert(v@.subrange(lo as int, hi as int)[i as int] != s@[i as int]);
            return false;
        }
        i = i + 1;
    }
    assert(v@.subrange(lo as int, hi as int) =~= s@);
    true
}

/// Appends `v[lo..hi]` to `s`.
pub fn push_range(s: &mut String, v: &Vec<char>, lo: usize, hi: usize)
    requires
        lo <= hi <= v@.len(),
    ensures
        final(s)@ == old(s)@ + v@.subrange(lo as int, hi as int),
{
    let ghost start = s@;
    let mut i = lo;
    while i < hi
        invariant
            lo <= i <= hi <= v@.len(),
            s@ == start + v@.subrange(lo as int, i as int),
        decreases hi - i,
    {
        assert(v@.subrange(lo as int, i + 1) == v@.subrange(lo as int, i as int).push(v@[i as int]));
        push_char(s, v[i]);
        i = i + 1;
    }
}

} // verus!

verus! {

proof fn lemma_nat_digits(n: nat)
    ensures
        nat_digits(n).len() >= 1,
        all_digits(nat_digits(n)),
        digits_value(nat_digits(n)) == n,
    decreases n,
{
    if n >= 10 {
        lemma_nat_digits(n / 10);
        let s = nat_digits(n / 10).push(digit_char(n % 10));
        assert(s.drop_last() =~= nat_digits(n / 10));
        assert(digit_value(digit_char(n % 10)) == n % 10);
        assert(digits_value(s) == digits_value(nat_digits(n / 10)) * 10 + n % 10);
        assert((n / 10) * 10 + n % 10 == n) by (nonlinear_arith);
        assert(nat_digits(n) == s);
        assert forall|i: int| 0 <= i < s.len() implies is_digit(#[trigger] s[i]) by {
            if i < s.len() - 1 {
                assert(s[i] == nat_digits(n / 10)[i]);
            }
        }
    } else {
        assert(seq![digit_char(n)].drop_last() =~= Seq::<char>::empty());
        assert(digit_value(digit_char(n)) == n);
        assert(digits_value(Seq::<char>::empty()) == 0);
    }
}

/// Reading back the decimal text of an `i64` gives the same number:
/// `x.to_string().parse::<i64>() == Ok(x)`.
pub proof fn law_decimal_round_trip(x: i64)
    ensures
        spec_parse_i64(int_decimal(x as int)) == Some(x),
{
    if x < 0 {
        let m = (-x) as nat;
        lemma_nat_digits(m);
        let s = int_decimal(x as int);
        assert(s.drop_first() =~= nat_digits(m));
    } else {
        lemma_nat_digits(x as nat);
        let s = nat_digits(x as nat);
        assert(is_digit(s[0]));
    }
}

proof fn lemma_digits_value_mono(s: Seq<char>, k: int)
    requires
        0 <= k <= s.len(),
        all_digits(s),
    ensures
        digits_value(s.take(k)) <= digits_value(s),
    decreases s.len() - k,
{
    if k < s.len() {
        lemma_digits_value_mono(s, k + 1);
        assert(s.take(k + 1).drop_last() =~= s.take(k));
    } else {
        assert(s.take(k) =~= s);
    }
}

/// Parses a decimal `i64` the way `i64::from_str` does.
pub fn parse_i64(t: &Vec<char>) -> (r: Option<i64>)
    ensures
        r == spec_parse_i64(t@),
{
    let n = t.len();
    if n == 0 {
        return None;
    }
    let neg = t[0] == '-';
    let start: usize = if t[0] == '-' || t[0] == '+' { 1 } else { 0 };
    let ghost body = if t@[0] == '-' || t@[0] == '+' { t@.drop_first() } else { t@ };
    assert(body =~= t@.skip(start as int));
    if start == n {
        return None;
    }
    let mut acc: u64 = 0;
    let mut i: usize = start;
    assert(body.take(0) =~= Seq::<char>::empty());
    while i < n
        invariant
            n == t@.len(),
            n > 0,
            neg == (t@[0] == '-'),
            body == (if t@[0] == '-' || t@[0] == '+' { t@.drop_first() } else { t@ }),
            start == (if t@[0] == '-' || t@[0] == '+' { 1usize } else { 0usize }),
            start <= i <= n,
            body == t@.skip(start as int),
            acc <= 9223372036854775808u64,
            acc == digits_value(body.take(i - start)),
            all_digits(body.take(i - start)),
        decreases n - i,
    {
        let c = t[i];
        let ghost k = i - start;
        assert(body[k] == c);
        if !('0' <= c && c <= '9') {
            proof {
                assert(!is_digit(body[k]));
            }
            return None;
        }
        let d: u64 = ((c as u32) - 48) as u64;
        assert(body.take(k + 1).drop_last() =~= body.take(k));
        assert(body.take(k + 1).last() == c);
        assert(digit_value(c) == d);
        assert(digits_value(body.take(k + 1)) == acc * 10 + d);
        if acc > 922337203685477580u64 {
            proof {
                if all_digits(body) {
                    lemma_digits_value_mono(body, k + 1);
                }
            }
            return None;
        }
        let next = acc * 10 + d;
        if next > 9223372036854775808u64 {
            proof {
                if all_digits(body) {
                    lemma_digits_value_mono(body, k + 1);
                }
            }
            return None;
        }
        acc = next;
        assert forall|j: int| 0 <= j < k + 1 implies is_digit(#[trigger] body.take(k + 1)[j]) by {
            if j < k {
                assert(body.take(k + 1)[j] == body.take(k)[j]);
            }
        }
        i = i + 1;
    }
    assert(body.take(n - start) =~= body);
    if neg {
        if acc == 9223372036854775808u64 {
            Some(i64::MIN)
        } else {
            Some(0i64 - (acc as i64))
        }
    } else {
        if acc > 9223372036854775807u64 {
            None
        } else {
            Some(acc as i64)
        }
    }
}

} // verus!

verus! {

/// The words of `s`: its maximal runs of non-whitespace characters, in order
/// (what `str::split_whitespace` yields).
pub open spec fn split_words(s: Seq<char>) -> Seq<Seq<char>>
    decreases s.len(),
{
    if s.len() == 0 {
        Seq::empty()
    } else {
        let prev = split_words(s.drop_last());
        let c = s.last();
        if spec_is_whitespace(c) {
            prev
        } else if s.len() >= 2 && !spec_is_whitespace(s[s.len() - 2]) {
            prev.drop_last().push(prev.last().push(c))
        } else {
            prev.push(seq![c])
        }
    }
}

/// Splits `s` at whitespace into its words, as `str::split_whitespace` does.
pub fn words(s: &str) -> (r: Vec<Vec<char>>)
    ensures
        r@.map_values(|w: Vec<char>| w@) == split_words(s@),
{
    let v = str_chars(s);
    let mut done: Vec<Vec<char>> = Vec::new();
    let mut cur: Vec<char> = Vec::new();
    let mut i: usize = 0;
    while i < v.len()
        invariant
            v@ == s@,
            0 <= i <= v@.len(),
            (cur@.len() > 0) == (i > 0 && !spec_is_whitespace(v@[i - 1])),
            split_words(v@.take(i as int)) == if cur@.len() > 0 {
                done@.map_values(|w: Vec<char>| w@).push(cur@)
            } else {
                done@.map_values(|w: Vec<char>| w@)
            },
        decreases v@.len() - i,
    {
        let c = v[i];
        let ghost old_done = done@.map_values(|w: Vec<char>| w@);
        let ghost old_cur = cur@;
        assert(v@.take(i + 1).drop_last() =~= v@.take(i as int));
        assert(v@.take(i + 1).last() == c);
        if is_whitespace(c) {
            if cur.len() > 0 {
                let w = cur;
                cur = Vec::new();
                done.push(w);
                assert(done@.map_values(|w: Vec<char>| w@) =~= old_done.push(old_cur));
            }
        } else {
            cur.push(c);
            proof {
                if old_cur.len() > 0 {
                    assert(v@.take(i + 1)[i - 1] == v@[i - 1]);
                    let prev = old_done.push(old_cur);
                    assert(prev.drop_last() =~= old_done);
                    assert(prev.last() == old_cur);
                } else {
                    assert(cur@ =~= seq![c]);
                    if i > 0 {
                        assert(v@.take(i + 1)[i - 1] == v@[i - 1]);
                    }
                }
                assert(done@.map_values(|w: Vec<char>| w@) == old_done);
            }
        }
        i = i + 1;
    }
    assert(v@.take(v@.len() as int) =~= v@);
    if cur.len() > 0 {
        let ghost old_done = done@.map_values(|w: Vec<char>| w@);
        let ghost old_cur = cur@;
        done.push(cur);
        assert(done@.map_values(|w: Vec<char>| w@) =~= old_done.push(old_cur));
    }
    done
}

} // verus!

verus! {

/// The characters of `v` from index `lo` on.
pub fn chars_from(v: &Vec<char>, lo: usize) -> (r: Vec<char>)
    requires
        lo <= v@.len(),
    ensures
        r@ == v@.skip(lo as int),
{
    let mut r: Vec<char> = Vec::new();
    let mut i = lo;
    while i < v.len()
        invariant
            lo <= i <= v@.len(),
            r@ == v@.subrange(lo as int, i as int),
        decreases v@.len() - i,
    {
        assert(v@.subrange(lo as int, i + 1) == v@.subrange(lo as int, i as int).push(v@[i as int]));
        r.push(v[i]);
        i = i + 1;
    }
    r
}

/// Whether the characters of `w` are exactly those of `s`.
pub fn chars_eq_str(w: &Vec<char>, s: &str) -> (r: bool)
    ensures
        r == (w@ == s@),
{
    assert(w@.subrange(0, w@.len() as int) == w@);
    range_eq_str(w, 0, w.len(), s)
}

} // verus!

verus! {

/// Whether two texts hold the same characters.
pub fn str_eq(a: &str, b: &str) -> (r: bool)
    ensures
        r == (a@ == b@),
{
    let v = str_chars(a);
    chars_eq_str(&v, b)
}

/// Whether an optional text is present and equal to `b`.
pub fn opt_str_eq(a: &Option<String>, b: &str) -> (r: bool)
    ensures
        r == (a matches Some(s) && s@ == b@),
{
    match a {
        Some(s) => str_eq(s.as_str(), b),
        None => false,
    }
}

} // verus!

verus! {

/// The words joined by single spaces.
pub open spec fn join_words(ws: Seq<Seq<char>>) -> Seq<char>
    decreases ws.len(),
{
    if ws.len() == 0 {
        Seq::empty()
    } else if ws.len() == 1 {
        ws[0]
    } else {
        join_words(ws.drop_last()).push(' ') + ws.last()
    }
}

/// `s` with its leading and trailing whitespace removed and each run of
/// whitespace inside it replaced by one space.
pub open spec fn normalize_whitespace(s: Seq<char>) -> Seq<char> {
    join_words(split_words(s))
}

/// Whether `w` is a word: not empty, and without whitespace.
pub open spec fn is_word(w: Seq<char>) -> bool {
    w.len() > 0 && forall|i: int| 0 <= i < w.len() ==> !spec_is_whitespace(#[trigger] w[i])
}

proof fn lemma_words_are_words(s: Seq<char>)
    ensures
        forall|i: int| 0 <= i < split_words(s).len() ==> is_word(#[trigger] split_words(s)[i]),
    decreases s.len(),
{
    if s.len() > 0 {
        lemma_words_are_words(s.drop_last());
        let prev = split_words(s.drop_last());
        let c = s.last();
        if !spec_is_whitespace(c) {
            if s.len() >= 2 && !spec_is_whitespace(s[s.len() - 2]) {
                if prev.len() > 0 {
                    let w = prev.last().push(c);
                    assert(is_word(prev[prev.len() - 1]));
                    assert forall|i: int| 0 <= i < w.len() implies !spec_is_whitespace(#[trigger] w[i]) by {
                        if i < w.len() - 1 {
                            assert(w[i] == prev[prev.len() - 1][i]);
                        }
                    }
                    let r = prev.drop_last().push(w);
                    assert forall|i: int| 0 <= i < r.len() implies is_word(#[trigger] r[i]) by {
                        if i < r.len() - 1 {
                            assert(r[i] == prev[i]);
                        }
                    }
                } else {
                    lemma_words_nonempty(s.drop_last());
                }
            } else {
                let r = prev.push(seq![c]);
                assert forall|i: int| 0 <= i < r.len() implies is_word(#[trigger] r[i]) by {
                    if i < r.len() - 1 {
                        assert(r[i] == prev[i]);
                    }
                }
            }
        }
    }
}

proof fn lemma_words_nonempty(s: Seq<char>)
    requires
        s.len() > 0,
        !spec_is_whitespace(s.last()),
    ensures
        split_words(s).len() > 0,
    decreases s.len(),
{
    if s.len() >= 2 && !spec_is_whitespace(s[s.len() - 2]) {
        lemma_words_nonempty(s.drop_last());
        assert(s.drop_last().last() == s[s.len() - 2]);
    }
}

proof fn lemma_append_word(q: Seq<char>, w: Seq<char>)
    requires
        q.len() == 0 || spec_is_whitespace(q.last()),
        is_word(w),
    ensures
        split_words(q + w) == split_words(q).push(w),
    decreases w.len(),
{
    let s = q + w;
    let c = w.last();
    assert(s.last() == c);
    assert(!spec_is_whitespace(w[w.len() - 1]));
    if w.len() == 1 {
        assert(s.drop_last() =~= q);
        if s.len() >= 2 {
            assert(s[s.len() - 2] == q.last());
        }
        assert(w =~= seq![c]);
    } else {
        let w2 = w.drop_last();
        assert forall|i: int| 0 <= i < w2.len() implies !spec_is_whitespace(#[trigger] w2[i]) by {
            assert(w2[i] == w[i]);
        }
        lemma_append_word(q, w2);
        assert(s.drop_last() =~= q + w2);
        assert(s[s.len() - 2] == w[w.len() - 2]);
        assert(!spec_is_whitespace(w[w.len() - 2]));
        let prev = split_words(q).push(w2);
        assert(prev.drop_last() =~= split_words(q));
        assert(w2.push(c) =~= w);
    }
}

pub(crate) proof fn lemma_split_join(ws: Seq<Seq<char>>)
    requires
        forall|i: int| 0 <= i < ws.len() ==> is_word(#[trigger] ws[i]),
    ensures
        split_words(join_words(ws)) == ws,
    decreases ws.len(),
{
    if ws.len() == 0 {
    } else if ws.len() == 1 {
        assert(is_word(ws[0]));
        lemma_append_word(Seq::empty(), ws[0]);
        assert(Seq::<char>::empty() + ws[0] =~= ws[0]);
        assert(Seq::<Seq<char>>::empty().push(ws[0]) =~= ws);
    } else {
        let prev = ws.drop_last();
        assert forall|i: int| 0 <= i < prev.len() implies is_word(#[trigger] prev[i]) by {
            assert(prev[i] == ws[i]);
        }
        lemma_split_join(prev);
        let q = join_words(prev).push(' ');
        assert(q.drop_last() =~= join_words(prev));
        assert(spec_is_whitespace(q.last()));
        assert(split_words(q) == split_words(join_words(prev)));
        assert(is_word(ws[ws.len() - 1]));
        lemma_append_word(q, ws.last());
        assert(prev.push(ws.last()) =~= ws);
    }
}

/// Normalising the whitespace of a text keeps its words.
pub proof fn law_normalize_keeps_words(s: Seq<char>)
    ensures
        split_words(normalize_whitespace(s)) == split_words(s),
{
    lemma_words_are_words(s);
    lemma_split_join(split_words(s));
}


/// The decimal text of an integer is a word: digits, after a `-` when the
/// integer is negative.
pub(crate) proof fn lemma_decimal_word(x: int)
    ensures
        is_word(int_decimal(x)),
        x >= 0 ==> is_digit(int_decimal(x)[0]),
        x < 0 ==> int_decimal(x).len() >= 2 && int_decimal(x)[0] == '-' && is_digit(int_decimal(x)[1]),
{
    if x < 0 {
        let d = nat_digits((-x) as nat);
        lemma_nat_digits((-x) as nat);
        let s = int_decimal(x);
        assert(s == seq!['-'] + d);
        assert forall|i: int| 0 <= i < s.len() implies !spec_is_whitespace(#[trigger] s[i]) by {
            if i > 0 {
                assert(s[i] == d[i - 1]);
                assert(is_digit(d[i - 1]));
            }
        }
        assert(s[1] == d[0]);
    } else {
        let d = nat_digits(x as nat);
        lemma_nat_digits(x as nat);
        assert forall|i: int| 0 <= i < d.len() implies !spec_is_whitespace(#[trigger] d[i]) by {
            assert(is_digit(d[i]));
        }
    }
}

} // verus!
