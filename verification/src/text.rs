//! Verified text primitives: substring matching, search, and replacement of
//! the body-template marker.

use vstd::prelude::*;

verus! {

/// The placeholder in a body template that is replaced with message text.
pub open spec fn spec_marker() -> Seq<char> {
    "{{MARKDOWN}}"@
}

/// The marker as an executable string.
pub fn marker_str() -> (s: &'static str)
    ensures
        s@ == spec_marker(),
{
    "{{MARKDOWN}}"
}

/// `n` occurs in `h` starting at position `i`.
pub open spec fn matches_at(h: Seq<char>, n: Seq<char>, i: int) -> bool {
    0 <= i && i + n.len() <= h.len() && h.subrange(i, i + n.len() as int) == n
}

/// `n` occurs somewhere in `h`.
pub open spec fn contains_seq(h: Seq<char>, n: Seq<char>) -> bool {
    exists|i: int| matches_at(h, n, i)
}

/// Left-to-right, non-overlapping replacement of every occurrence of `m`
/// in `t` by `r`. An empty pattern replaces nothing.
pub open spec fn replace_seq(t: Seq<char>, m: Seq<char>, r: Seq<char>) -> Seq<char>
    decreases t.len(),
{
    if m.len() == 0 || t.len() < m.len() {
        t
    } else if t.subrange(0, m.len() as int) == m {
        r + replace_seq(t.subrange(m.len() as int, t.len() as int), m, r)
    } else {
        seq![t[0]] + replace_seq(t.subrange(1, t.len() as int), m, r)
    }
}

/// Whether `n` occurs in `h` at position `i`, decided by comparing characters.
pub fn str_matches_at(h: &str, n: &str, i: usize) -> (b: bool)
    requires
        i + n@.len() <= h@.len(),
    ensures
        b == matches_at(h@, n@, i as int),
{
    let hlen = h.unicode_len();
    let nlen = n.unicode_len();
    let mut j: usize = 0;
    while j < nlen
        invariant
            j <= nlen,
            nlen == n@.len(),
            hlen == h@.len(),
            i + nlen <= hlen,
            forall|k: int| 0 <= k < j ==> h@[i + k] == n@[k],
        decreases nlen - j,
    {
        if h.get_char(i + j) != n.get_char(j) {
            proof {
                let ghost sub = h@.subrange(i as int, i as int + n@.len() as int);
                assert(sub[j as int] != n@[j as int]);
            }
            return false;
        }
        j = j + 1;
    }
    proof {
        assert(h@.subrange(i as int, i as int + n@.len() as int) =~= n@);
    }
    true
}

/// Whether `n` occurs anywhere in `h`.
pub fn str_contains(h: &str, n: &str) -> (b: bool)
    ensures
        b == contains_seq(h@, n@),
{
    let hlen = h.unicode_len();
    let nlen = n.unicode_len();
    if nlen > hlen {
        proof {
            assert(forall|k: int| !(#[trigger] matches_at(h@, n@, k)));
        }
        return false;
    }
    if nlen == 0 {
        proof {
            assert(h@.subrange(0, 0) =~= n@);
            assert(contains_seq(h@, n@)) by {
                assert(matches_at(h@, n@, 0));
            }
        }
        return true;
    }
    let mut i: usize = 0;
    while i <= hlen - nlen
        invariant
            nlen == n@.len(),
            hlen == h@.len(),
            1 <= nlen <= hlen,
            i <= hlen - nlen + 1,
            forall|k: int| 0 <= k < i ==> !(#[trigger] matches_at(h@, n@, k)),
        decreases hlen - i,
    {
        if str_matches_at(h, n, i) {
            proof {
                assert(contains_seq(h@, n@)) by {
                    assert(matches_at(h@, n@, i as int));
                }
            }
            return true;
        }
        i = i + 1;
    }
    proof {
        assert forall|k: int| !(#[trigger] matches_at(h@, n@, k)) by {
            if k >= i {
                assert(k + n@.len() > h@.len());
            }
        }
    }
    false
}

/// Replaces every occurrence of the marker in `template` by `markdown`,
/// scanning left to right without overlap.
pub fn build_body(template: &str, markdown: &str) -> (r: String)
    ensures
        r@ == replace_seq(template@, spec_marker(), markdown@),
{
    let marker = marker_str();
    proof {
        reveal_strlit("{{MARKDOWN}}");
    }
    let tlen = template.unicode_len();
    let mlen = marker.unicode_len();
    let mut out = String::new();
    let mut i: usize = 0;
    proof {
        assert(template@.subrange(0, tlen as int) =~= template@);
        assert(out@ + replace_seq(template@, spec_marker(), markdown@) =~= replace_seq(
            template@,
            spec_marker(),
            markdown@,
        ));
    }
    while i < tlen
        invariant
            i <= tlen,
            tlen == template@.len(),
            mlen == spec_marker().len(),
            mlen >= 1,
            marker@ == spec_marker(),
            out@ + replace_seq(
                template@.subrange(i as int, tlen as int),
                spec_marker(),
                markdown@,
            ) == replace_seq(template@, spec_marker(), markdown@),
        decreases tlen - i,
    {
        let ghost rest = template@.subrange(i as int, tlen as int);
        let ghost prev_out = out@;
        if mlen <= tlen && i <= tlen - mlen && str_matches_at(template, marker, i) {
            out.append(markdown);
            proof {
                let next = template@.subrange(i + mlen, tlen as int);
                assert(rest.subrange(0, mlen as int) =~= template@.subrange(i as int, i + mlen));
                assert(rest.subrange(mlen as int, rest.len() as int) =~= next);
                assert(replace_seq(rest, spec_marker(), markdown@) == markdown@ + replace_seq(
                    next,
                    spec_marker(),
                    markdown@,
                ));
                assert(out@ + replace_seq(next, spec_marker(), markdown@) =~= prev_out + (markdown@
                    + replace_seq(next, spec_marker(), markdown@)));
            }
            i = i + mlen;
        } else {
            let piece = template.substring_char(i, i + 1);
            out.append(piece);
            proof {
                let next = template@.subrange(i + 1, tlen as int);
                assert(rest.subrange(1, rest.len() as int) =~= next);
                assert(piece@ =~= seq![template@[i as int]]);
                assert(rest[0] == template@[i as int]);
                if rest.len() < mlen {
                    assert(replace_seq(rest, spec_marker(), markdown@) == rest);
                    assert(replace_seq(next, spec_marker(), markdown@) == next);
                    assert(rest =~= piece@ + next);
                } else {
                    assert(!matches_at(template@, marker@, i as int));
                    assert(rest.subrange(0, mlen as int) =~= template@.subrange(
                        i as int,
                        i + mlen,
                    ));
                    assert(rest.subrange(0, mlen as int) != spec_marker());
                    assert(replace_seq(rest, spec_marker(), markdown@) == seq![rest[0]]
                        + replace_seq(next, spec_marker(), markdown@));
                }
                assert(out@ + replace_seq(next, spec_marker(), markdown@) =~= prev_out + (piece@
                    + replace_seq(next, spec_marker(), markdown@)));
            }
            i = i + 1;
        }
    }
    proof {
        let ghost rest = template@.subrange(tlen as int, tlen as int);
        assert(rest =~= Seq::<char>::empty());
        assert(replace_seq(rest, spec_marker(), markdown@) == rest);
        assert(out@ + rest =~= out@);
    }
    out
}

/// Position of the first `c` in `s`, or -1 when `c` does not occur.
pub open spec fn find_char(s: Seq<char>, c: char) -> int
    decreases s.len(),
{
    if s.len() == 0 {
        -1
    } else if s[0] == c {
        0
    } else {
        let r = find_char(s.subrange(1, s.len() as int), c);
        if r < 0 {
            -1
        } else {
            r + 1
        }
    }
}

/// `find_char` stays in range: at least -1 and below the length, and a
/// non-negative answer points at `c`.
pub proof fn lemma_find_char_bounds(s: Seq<char>, c: char)
    ensures
        -1 <= find_char(s, c) < s.len(),
        find_char(s, c) >= 0 ==> s[find_char(s, c)] == c,
    decreases s.len(),
{
    if s.len() == 0 {
    } else if s[0] == c {
    } else {
        lemma_find_char_bounds(s.subrange(1, s.len() as int), c);
    }
}

/// `s` split at every `c`, the way std's splitter does it: empty pieces are
/// kept, and a trailing separator yields a trailing empty piece.
pub open spec fn split_char(s: Seq<char>, c: char) -> Seq<Seq<char>>
    decreases s.len(),
    via split_char_decreases
{
    let p = find_char(s, c);
    if p < 0 {
        seq![s]
    } else {
        seq![s.subrange(0, p)] + split_char(s.subrange(p + 1, s.len() as int), c)
    }
}

#[via_fn]
proof fn split_char_decreases(s: Seq<char>, c: char) {
    lemma_find_char_bounds(s, c);
}

/// The value of the first `key=` entry among `&`-separated parameters.
pub open spec fn param_value(parts: Seq<Seq<char>>, key: Seq<char>) -> Option<Seq<char>>
    decreases parts.len(),
{
    if parts.len() == 0 {
        None
    } else {
        let p = parts[0];
        let e = find_char(p, '=');
        if e >= 0 && p.subrange(0, e) == key {
            Some(p.subrange(e + 1, p.len() as int))
        } else {
            param_value(parts.subrange(1, parts.len() as int), key)
        }
    }
}

/// The query section of `url`: the text between the first and the second
/// `?`, or up to the end if there is only one; empty without any `?`.
pub open spec fn query_of(url: Seq<char>) -> Seq<char> {
    let parts = split_char(url, '?');
    if parts.len() >= 2 {
        parts[1]
    } else {
        Seq::<char>::empty()
    }
}

/// The raw (still encoded) value of the first `key=` parameter in the query
/// section of `url`, or `None` when no such parameter exists.
pub open spec fn query_param(url: Seq<char>, key: Seq<char>) -> Option<Seq<char>> {
    param_value(split_char(query_of(url), '&'), key)
}

/// Whether two strings hold the same characters.
pub fn str_eq(a: &str, b: &str) -> (r: bool)
    ensures
        r == (a@ == b@),
{
    let alen = a.unicode_len();
    let blen = b.unicode_len();
    if alen != blen {
        return false;
    }
    let eq = str_matches_at(a, b, 0);
    proof {
        assert(a@.subrange(0, b@.len() as int) =~= a@);
    }
    eq
}

/// Position of the first `c` in `s`, as `find_char` gives it.
pub fn find_char_str(s: &str, c: char) -> (r: Option<usize>)
    ensures
        r matches Some(i) ==> i as int == find_char(s@, c) && (i as int) < s@.len(),
        r is None ==> find_char(s@, c) == -1,
    decreases s@.len(),
{
    let len = s.unicode_len();
    if len == 0 {
        None
    } else if s.get_char(0) == c {
        Some(0)
    } else {
        let rest = s.substring_char(1, len);
        match find_char_str(rest, c) {
            Some(i) => Some(i + 1),
            None => None,
        }
    }
}

/// The value of the first `key=` entry among the `&`-separated parameters
/// of `segment`, as `param_value` over `split_char` gives it.
pub fn param_lookup(segment: &str, key: &str) -> (r: Option<String>)
    ensures
        match r {
            Some(v) => param_value(split_char(segment@, '&'), key@) matches Some(sv) && v@ == sv,
            None => param_value(split_char(segment@, '&'), key@) is None,
        },
    decreases segment@.len(),
{
    proof {
        lemma_find_char_bounds(segment@, '&');
    }
    let len = segment.unicode_len();
    let ghost parts = split_char(segment@, '&');
    match find_char_str(segment, '&') {
        None => {
            let r = check_part(segment, key);
            proof {
                assert(parts == seq![segment@]);
                assert(parts[0] == segment@);
                assert(parts.subrange(1, parts.len() as int) =~= Seq::<Seq<char>>::empty());
                let e = find_char(segment@, '=');
                if e >= 0 && segment@.subrange(0, e) == key@ {
                    assert(param_value(parts, key@) matches Some(sv) && sv == segment@.subrange(
                        e + 1,
                        segment@.len() as int,
                    ));
                } else {
                    assert(param_value(parts, key@) == param_value(
                        Seq::<Seq<char>>::empty(),
                        key@,
                    ));
                    assert(param_value(parts, key@) is None);
                }
            }
            r
        },
        Some(p) => {
            let head = segment.substring_char(0, p);
            proof {
                assert(parts[0] == head@);
                assert(parts.subrange(1, parts.len() as int) =~= split_char(
                    segment@.subrange(p + 1, segment@.len() as int),
                    '&',
                ));
            }
            match check_part(head, key) {
                Some(v) => {
                    proof {
                        let e = find_char(head@, '=');
                        assert(e >= 0 && head@.subrange(0, e) == key@);
                        assert(param_value(parts, key@) matches Some(sv) && sv == head@.subrange(
                            e + 1,
                            head@.len() as int,
                        ));
                    }
                    Some(v)
                },
                None => {
                    let rest = segment.substring_char(p + 1, len);
                    let r = param_lookup(rest, key);
                    proof {
                        let e = find_char(head@, '=');
                        assert(!(e >= 0 && head@.subrange(0, e) == key@));
                        assert(param_value(parts, key@) == param_value(
                            split_char(rest@, '&'),
                            key@,
                        ));
                    }
                    r
                },
            }
        },
    }
}

/// Splits one `name=value` parameter and hands out the value when the name
/// is `key`, mirroring one step of `param_value`.
fn check_part(part: &str, key: &str) -> (r: Option<String>)
    ensures
        ({
            let e = find_char(part@, '=');
            if e >= 0 && part@.subrange(0, e) == key@ {
                r matches Some(v) && v@ == part@.subrange(e + 1, part@.len() as int)
            } else {
                r is None
            }
        }),
{
    proof {
        lemma_find_char_bounds(part@, '=');
    }
    let len = part.unicode_len();
    match find_char_str(part, '=') {
        None => None,
        Some(e) => {
            let name = part.substring_char(0, e);
            if str_eq(name, key) {
                let value = part.substring_char(e + 1, len);
                Some(value.to_owned())
            } else {
                None
            }
        },
    }
}

/// A template without the marker comes back from replacement unchanged.
pub proof fn lemma_replace_absent(t: Seq<char>, m: Seq<char>, r: Seq<char>)
    requires
        m.len() > 0,
        !contains_seq(t, m),
    ensures
        replace_seq(t, m, r) == t,
    decreases t.len(),
{
    if t.len() < m.len() {
    } else if t.subrange(0, m.len() as int) == m {
        assert(matches_at(t, m, 0));
        assert(false);
    } else {
        let rest = t.subrange(1, t.len() as int);
        assert forall|k: int| !(#[trigger] matches_at(rest, m, k)) by {
            if matches_at(rest, m, k) {
                assert(t.subrange(k + 1, k + 1 + m.len() as int) =~= rest.subrange(
                    k,
                    k + m.len() as int,
                ));
                assert(matches_at(t, m, k + 1));
            }
        }
        lemma_replace_absent(rest, m, r);
        assert(seq![t[0]] + rest =~= t);
    }
}

/// A template with exactly one occurrence of the marker, at `i`, is replaced
/// by splicing `r` in at that position; the surrounding prefix and suffix are
/// kept unchanged and themselves hold no occurrence of the marker.
pub proof fn lemma_replace_unique(t: Seq<char>, m: Seq<char>, r: Seq<char>, i: int)
    requires
        m.len() > 0,
        matches_at(t, m, i),
        forall|k: int| #[trigger] matches_at(t, m, k) ==> k == i,
    ensures
        replace_seq(t, m, r) == t.subrange(0, i) + r + t.subrange(i + m.len() as int, t.len() as int),
        !contains_seq(t.subrange(0, i), m),
        !contains_seq(t.subrange(i + m.len() as int, t.len() as int), m),
    decreases t.len(),
{
    let prefix = t.subrange(0, i);
    let suffix = t.subrange(i + m.len() as int, t.len() as int);
    assert forall|k: int| !(#[trigger] matches_at(prefix, m, k)) by {
        if matches_at(prefix, m, k) {
            assert(t.subrange(k, k + m.len() as int) =~= prefix.subrange(k, k + m.len() as int));
            assert(matches_at(t, m, k));
        }
    }
    assert forall|k: int| !(#[trigger] matches_at(suffix, m, k)) by {
        if matches_at(suffix, m, k) {
            let j = i + m.len() as int + k;
            assert(t.subrange(j, j + m.len() as int) =~= suffix.subrange(k, k + m.len() as int));
            assert(matches_at(t, m, j));
        }
    }
    if i == 0 {
        assert(t.subrange(0, m.len() as int) =~= m);
        lemma_replace_absent(t.subrange(m.len() as int, t.len() as int), m, r);
        assert(replace_seq(t, m, r) =~= prefix + r + suffix);
    } else {
        assert(t.len() >= i + m.len());
        if t.subrange(0, m.len() as int) == m {
            assert(matches_at(t, m, 0));
            assert(false);
        }
        let rest = t.subrange(1, t.len() as int);
        assert(rest.subrange(i - 1, i - 1 + m.len() as int) =~= t.subrange(i, i + m.len() as int));
        assert(matches_at(rest, m, i - 1));
        assert forall|k: int| #[trigger] matches_at(rest, m, k) implies k == i - 1 by {
            assert(t.subrange(k + 1, k + 1 + m.len() as int) =~= rest.subrange(
                k,
                k + m.len() as int,
            ));
            assert(matches_at(t, m, k + 1));
        }
        lemma_replace_unique(rest, m, r, i - 1);
        assert(rest.subrange(0, i - 1) =~= t.subrange(1, i));
        assert(rest.subrange(i - 1 + m.len() as int, rest.len() as int) =~= suffix);
        assert(seq![t[0]] + (t.subrange(1, i) + r + suffix) =~= prefix + r + suffix);
    }
}

} // verus!
