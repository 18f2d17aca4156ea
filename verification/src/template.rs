//! `{key}` placeholders in message templates.

use vstd::prelude::*;
use crate::text::{push_range, range_eq_str, str_chars};

verus! {

/// The replacement pairs of a template call, as (key, value) texts.
pub open spec fn pairs_view(map: Seq<(&str, &str)>) -> Seq<(Seq<char>, Seq<char>)> {
    map.map_values(|p: (&str, &str)| (p.0@, p.1@))
}

/// The value of the first pair whose key is `key`.
pub open spec fn lookup_key(map: Seq<(Seq<char>, Seq<char>)>, key: Seq<char>) -> Option<Seq<char>>
    decreases map.len(),
{
    if map.len() == 0 {
        None
    } else if map[0].0 == key {
        Some(map[0].1)
    } else {
        lookup_key(map.drop_first(), key)
    }
}

/// The text `text` with its placeholders replaced.
///
/// Each `}` closes the stretch of text since the previous `}` (or the start).
/// When that stretch holds a `{`, the characters after its last `{` name a key;
/// if `map` knows the key, `{key}` is replaced by its value. Everything else,
/// braces included, is kept as it stands.
pub open spec fn expand_placeholders(text: Seq<char>, map: Seq<(Seq<char>, Seq<char>)>) -> Seq<char>
    decreases text.len(),
{
    match text.index_of_first('}') {
        None => text,
        Some(j) => {
            proof {
                text.index_of_first_ensures('}');
            }
            let seg = text.take(j);
            let rest = text.skip(j + 1);
            match seg.index_of_last('{') {
                Some(k) => match lookup_key(map, seg.skip(k + 1)) {
                    Some(v) => seg.take(k) + v + expand_placeholders(rest, map),
                    None => seg.push('}') + expand_placeholders(rest, map),
                },
                None => seg.push('}') + expand_placeholders(rest, map),
            }
        },
    }
}

} // verus!

verus! {

proof fn lemma_lookup_skip(m: Seq<(Seq<char>, Seq<char>)>, key: Seq<char>, i: int)
    requires
        0 <= i <= m.len(),
        forall|j: int| 0 <= j < i ==> (#[trigger] m[j]).0 != key,
    ensures
        lookup_key(m, key) == lookup_key(m.skip(i), key),
    decreases i,
{
    if i > 0 {
        let d = m.drop_first();
        assert forall|j: int| 0 <= j < i - 1 implies (#[trigger] d[j]).0 != key by {
            assert(d[j] == m[j + 1]);
        }
        lemma_lookup_skip(d, key, i - 1);
        assert(d.skip(i - 1) =~= m.skip(i));
    } else {
        assert(m.skip(0) =~= m);
    }
}

/// The value that `map` gives the key `v[lo..hi]`, if any (the first pair wins).
fn find_value<'a>(map: &[(&'a str, &'a str)], v: &Vec<char>, lo: usize, hi: usize) -> (r: Option<&'a str>)
    requires
        lo <= hi <= v@.len(),
    ensures
        match lookup_key(pairs_view(map@), v@.subrange(lo as int, hi as int)) {
            Some(x) => r matches Some(s) && s@ == x,
            None => r is None,
        },
{
    let ghost mv = pairs_view(map@);
    let ghost key = v@.subrange(lo as int, hi as int);
    let mut i: usize = 0;
    while i < map.len()
        invariant
            lo <= hi <= v@.len(),
            mv == pairs_view(map@),
            key == v@.subrange(lo as int, hi as int),
            0 <= i <= map@.len(),
            forall|j: int| 0 <= j < i ==> (#[trigger] mv[j]).0 != key,
        decreases map@.len() - i,
    {
        let (k, val) = map[i];
        assert(mv[i as int] == (k@, val@));
        if range_eq_str(v, lo, hi, k) {
            proof {
                lemma_lookup_skip(mv, key, i as int);
                assert(mv.skip(i as int)[0] == mv[i as int]);
            }
            return Some(val);
        }
        i = i + 1;
    }
    proof {
        lemma_lookup_skip(mv, key, mv.len() as int);
    }
    None
}

} // verus!

verus! {

proof fn lemma_first_close(t: Seq<char>, c: char, at: int)
    requires
        0 <= at < t.len(),
        t[at] == c,
        forall|j: int| 0 <= j < at ==> t[j] != c,
    ensures
        t.index_of_first(c) == Some(at),
{
    t.index_of_first_ensures(c);
    assert(t.contains(c));
}

proof fn lemma_last_open(s: Seq<char>, c: char, at: Option<int>)
    requires
        at matches Some(k) ==> 0 <= k < s.len() && s[k] == c && forall|j: int| k < j < s.len() ==> s[j] != c,
        at is None ==> forall|j: int| 0 <= j < s.len() ==> s[j] != c,
    ensures
        s.index_of_last(c) == at,
{
    s.index_of_last_ensures(c);
    if let Some(k) = at {
        assert(s.contains(c));
    } else {
        if s.contains(c) {
            let j = choose|j: int| 0 <= j < s.len() && s[j] == c;
            assert(s[j] != c);
        }
    }
}

proof fn lemma_expand_plain(t: Seq<char>, m: Seq<(Seq<char>, Seq<char>)>)
    requires
        forall|j: int| 0 <= j < t.len() ==> t[j] != '}',
    ensures
        expand_placeholders(t, m) == t,
{
    t.index_of_first_ensures('}');
    if t.contains('}') {
        let j = choose|j: int| 0 <= j < t.len() && t[j] == '}';
        assert(t[j] != '}');
    }
}

/// Replaces each `{key}` placeholder of `text` whose key `map` knows by its value.
///
/// A `}` closes the stretch since the previous `}`; the key is what follows the
/// last `{` of that stretch. The first pair of `map` with that key gives the value.
/// Unknown keys and unmatched braces stay as they are.
pub fn replace_placeholders(text: &str, map: &[(&str, &str)]) -> (r: String)
    ensures
        r@ == expand_placeholders(text@, pairs_view(map@)),
{
    let v = str_chars(text);
    let ghost mv = pairs_view(map@);
    let mut result = String::new();
    let mut last_end: usize = 0;
    let mut placeholder_start: Option<usize> = None;
    let ghost mut p: int = 0;
    let mut i: usize = 0;
    assert(v@.skip(0) == v@);
    while i < v.len()
        invariant
            v@ == text@,
            mv == pairs_view(map@),
            0 <= last_end <= p <= i <= v@.len(),
            forall|j: int| p <= j < i ==> v@[j] != '}',
            placeholder_start matches Some(st) ==> p <= st < i && v@[st as int] == '{'
                && forall|j: int| st < j < i ==> v@[j] != '{',
            placeholder_start is None ==> forall|j: int| p <= j < i ==> v@[j] != '{',
            expand_placeholders(text@, mv) == result@ + v@.subrange(last_end as int, p)
                + expand_placeholders(v@.skip(p), mv),
        decreases v@.len() - i,
    {
        let c = v[i];
        if c == '{' {
            placeholder_start = Some(i);
        } else if c == '}' {
            let ghost t = v@.skip(p);
            let ghost rest = v@.skip(i + 1);
            proof {
                lemma_first_close(t, '}', i - p);
                assert(t.skip(i - p + 1) =~= rest);
                assert(t.take(i - p) =~= v@.subrange(p, i as int));
            }
            let ghost seg = v@.subrange(p, i as int);
            match placeholder_start {
                Some(start) => {
                    proof {
                        lemma_last_open(seg, '{', Some(start - p));
                        assert(seg.skip(start - p + 1) =~= v@.subrange(start + 1, i as int));
                        assert(seg.take(start - p) =~= v@.subrange(p, start as int));
                    }
                    match find_value(map, &v, start + 1, i) {
                        Some(value) => {
                            let ghost before = result@;
                            push_range(&mut result, &v, last_end, start);
                            result.append(value);
                            proof {
                                assert(v@.subrange(last_end as int, start as int) =~= v@.subrange(last_end as int, p) + v@.subrange(p, start as int));
                                assert(v@.subrange(i + 1, i + 1) =~= Seq::<char>::empty());
                            }
                            last_end = i + 1;
                        },
                        None => {
                            proof {
                                assert(v@.subrange(last_end as int, i + 1) =~= v@.subrange(last_end as int, p) + seg.push('}'));
                            }
                        },
                    }
                },
                None => {
                    proof {
                        lemma_last_open(seg, '{', None);
                        assert(v@.subrange(last_end as int, i + 1) =~= v@.subrange(last_end as int, p) + seg.push('}'));
                    }
                },
            }
            placeholder_start = None;
            proof {
                p = i + 1;
            }
        }
        i = i + 1;
    }
    proof {
        lemma_expand_plain(v@.skip(p), mv);
        assert(v@.subrange(last_end as int, v@.len() as int) =~= v@.subrange(last_end as int, p) + v@.skip(p));
    }
    push_range(&mut result, &v, last_end, v.len());
    result
}

} // verus!

verus! {

/// A text without any `}` has no placeholder: it is returned unchanged,
/// whatever the replacement pairs.
pub proof fn law_text_without_close_unchanged(text: Seq<char>, map: Seq<(Seq<char>, Seq<char>)>)
    requires
        !text.contains('}'),
    ensures
        expand_placeholders(text, map) == text,
{
    assert forall|j: int| 0 <= j < text.len() implies text[j] != '}' by {
        if text[j] == '}' {
            assert(text.contains('}'));
        }
    }
    lemma_expand_plain(text, map);
}

/// With no replacement pairs every text is returned unchanged.
pub proof fn law_no_pairs_unchanged(text: Seq<char>)
    ensures
        expand_placeholders(text, Seq::empty()) == text,
    decreases text.len(),
{
    let m = Seq::<(Seq<char>, Seq<char>)>::empty();
    text.index_of_first_ensures('}');
    match text.index_of_first('}') {
        None => {},
        Some(j) => {
            let seg = text.take(j);
            let rest = text.skip(j + 1);
            law_no_pairs_unchanged(rest);
            seg.index_of_last_ensures('{');
            match seg.index_of_last('{') {
                Some(k) => {
                    assert(lookup_key(m, seg.skip(k + 1)) is None);
                },
                None => {},
            }
            assert(seg.push('}') + rest =~= text);
        },
    }
}

} // verus!

verus! {

/// What a stretch closed by `}` turns into (see `expand_placeholders`).
pub open spec fn close_piece(seg: Seq<char>, map: Seq<(Seq<char>, Seq<char>)>) -> Seq<char> {
    match seg.index_of_last('{') {
        Some(k) => match lookup_key(map, seg.skip(k + 1)) {
            Some(v) => seg.take(k) + v,
            None => seg.push('}'),
        },
        None => seg.push('}'),
    }
}

/// Whether every `{` of `text` is followed, later in `text`, by a `}`: no
/// placeholder is still open at its end.
pub open spec fn no_open_placeholder(text: Seq<char>) -> bool {
    forall|i: int| 0 <= i < text.len() && text[i] == '{' ==> exists|j: int| i < j < text.len() && text[j] == '}'
}

proof fn lemma_expand_unfold(t: Seq<char>, m: Seq<(Seq<char>, Seq<char>)>, j: int)
    requires
        0 <= j < t.len(),
        t[j] == '}',
        forall|i: int| 0 <= i < j ==> t[i] != '}',
    ensures
        expand_placeholders(t, m) == close_piece(t.take(j), m) + expand_placeholders(t.skip(j + 1), m),
{
    lemma_first_close(t, '}', j);
}

proof fn lemma_piece_prefix(a: Seq<char>, seg: Seq<char>, m: Seq<(Seq<char>, Seq<char>)>)
    requires
        forall|i: int| 0 <= i < a.len() ==> a[i] != '{',
    ensures
        close_piece(a + seg, m) == a + close_piece(seg, m),
{
    let t = a + seg;
    seg.index_of_last_ensures('{');
    match seg.index_of_last('{') {
        Some(k) => {
            assert forall|j: int| a.len() + k < j < t.len() implies t[j] != '{' by {
                assert(t[j] == seg[j - a.len()]);
            }
            lemma_last_open(t, '{', Some(a.len() + k));
            assert(t.skip(a.len() + k + 1) =~= seg.skip(k + 1));
            assert(t.take(a.len() + k) =~= a + seg.take(k));
            match lookup_key(m, seg.skip(k + 1)) {
                Some(v) => {
                    assert(a + seg.take(k) + v =~= a + (seg.take(k) + v));
                },
                None => {
                    assert(t.push('}') =~= a + seg.push('}'));
                },
            }
        },
        None => {
            assert forall|j: int| 0 <= j < t.len() implies t[j] != '{' by {
                if j >= a.len() {
                    assert(t[j] == seg[j - a.len()]);
                    if seg[j - a.len()] == '{' {
                        assert(seg.contains('{'));
                    }
                }
            }
            lemma_last_open(t, '{', None);
            assert(t.push('}') =~= a + seg.push('}'));
        },
    }
}

/// Replacing placeholders in two texts one after the other is replacing them
/// in the joined text, when the first text leaves no placeholder open.
pub proof fn law_expand_concat(a: Seq<char>, b: Seq<char>, map: Seq<(Seq<char>, Seq<char>)>)
    requires
        no_open_placeholder(a),
    ensures
        expand_placeholders(a + b, map) == expand_placeholders(a, map) + expand_placeholders(b, map),
    decreases a.len(),
{
    let t = a + b;
    a.index_of_first_ensures('}');
    match a.index_of_first('}') {
        Some(j) => {
            lemma_expand_unfold(a, map, j);
            assert forall|i: int| 0 <= i < j implies t[i] != '}' by {
                assert(t[i] == a[i]);
            }
            lemma_expand_unfold(t, map, j);
            let a2 = a.skip(j + 1);
            assert forall|i: int| 0 <= i < a2.len() && a2[i] == '{' implies exists|k: int| i < k < a2.len() && a2[k] == '}' by {
                assert(a[i + j + 1] == '{');
                let k = choose|k: int| i + j + 1 < k < a.len() && a[k] == '}';
                assert(a2[k - j - 1] == '}');
            }
            law_expand_concat(a2, b, map);
            assert(t.take(j) =~= a.take(j));
            assert(t.skip(j + 1) =~= a2 + b);
            let p = close_piece(a.take(j), map);
            assert(p + (expand_placeholders(a2, map) + expand_placeholders(b, map)) =~= p + expand_placeholders(a2, map)
                + expand_placeholders(b, map));
        },
        None => {
            assert forall|i: int| 0 <= i < a.len() implies a[i] != '{' && a[i] != '}' by {
                if a[i] == '}' {
                    assert(a.contains('}'));
                }
                if a[i] == '{' {
                    let k = choose|k: int| i < k < a.len() && a[k] == '}';
                    assert(a.contains('}'));
                }
            }
            lemma_expand_plain(a, map);
            b.index_of_first_ensures('}');
            match b.index_of_first('}') {
                Some(j) => {
                    lemma_expand_unfold(b, map, j);
                    assert forall|i: int| 0 <= i < a.len() + j implies t[i] != '}' by {
                        if i >= a.len() {
                            assert(t[i] == b[i - a.len()]);
                        }
                    }
                    lemma_expand_unfold(t, map, a.len() + j);
                    assert(t.take(a.len() + j) =~= a + b.take(j));
                    assert(t.skip(a.len() + j + 1) =~= b.skip(j + 1));
                    lemma_piece_prefix(a, b.take(j), map);
                    let p = close_piece(b.take(j), map);
                    assert(a + p + expand_placeholders(b.skip(j + 1), map) =~= a + (p + expand_placeholders(b.skip(j + 1), map)));
                },
                None => {
                    assert forall|i: int| 0 <= i < t.len() implies t[i] != '}' by {
                        if i >= a.len() {
                            assert(t[i] == b[i - a.len()]);
                            if b[i - a.len()] == '}' {
                                assert(b.contains('}'));
                            }
                        }
                    }
                    assert forall|i: int| 0 <= i < b.len() implies b[i] != '}' by {
                        if b[i] == '}' {
                            assert(b.contains('}'));
                        }
                    }
                    lemma_expand_plain(t, map);
                    lemma_expand_plain(b, map);
                },
            }
        },
    }
}

} // verus!
