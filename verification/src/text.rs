use vstd::prelude::*;

verus! {

/// The Unicode `White_Space` property, which `char::is_whitespace`,
/// `str::trim` and `str::split_whitespace` go by.
pub open spec fn is_white_space(c: char) -> bool {
    ||| ('\u{9}' <= c && c <= '\u{d}')
    ||| c == ' '
    ||| c == '\u{85}'
    ||| c == '\u{a0}'
    ||| c == '\u{1680}'
    ||| ('\u{2000}' <= c && c <= '\u{200a}')
    ||| c == '\u{2028}'
    ||| c == '\u{2029}'
    ||| c == '\u{202f}'
    ||| c == '\u{205f}'
    ||| c == '\u{3000}'
}

/// Whether `c` has the Unicode `White_Space` property.
pub fn is_white_space_char(c: char) -> (b: bool)
    ensures
        b == is_white_space(c),
{
    ('\u{9}' <= c && c <= '\u{d}') || c == ' ' || c == '\u{85}' || c == '\u{a0}' || c == '\u{1680}'
        || ('\u{2000}' <= c && c <= '\u{200a}') || c == '\u{2028}' || c == '\u{2029}' || c
        == '\u{202f}' || c == '\u{205f}' || c == '\u{3000}'
}

/// The characters of `s`, in order.
pub fn chars_of(s: &str) -> (v: Vec<char>)
    ensures
        v@ == s@,
{
    let mut v: Vec<char> = Vec::new();
    for c in it: s.chars()
        invariant
            v@ == it.history(),
    {
        v.push(c);
    }
    v
}

/// Appends one character to a string: calls `String::push`. The contract
/// claims what std documents, that the character is added at the end.
#[verifier::external_body]
fn push_char(s: &mut String, c: char)
    ensures
        final(s)@ == old(s)@.push(c),
{
    s.push(c);
}

/// The string made of the characters of `v`, in order.
pub fn string_of(v: &[char]) -> (s: String)
    ensures
        s@ == v@,
{
    let mut s = String::new();
    for i in 0..v.len()
        invariant
            s@ == v@.take(i as int),
    {
        push_char(&mut s, v[i]);
        assert(v@.take(i + 1) == v@.take(i as int).push(v@[i as int]));
    }
    assert(v@.take(v.len() as int) == v@);
    s
}


/// Whether `p` occurs in `s` as a contiguous run of characters.
pub open spec fn occurs_in(s: Seq<char>, p: Seq<char>) -> bool {
    exists|i: int| 0 <= i && i + p.len() <= s.len() && #[trigger] s.subrange(i, i + p.len()) == p
}

/// `s` with every leftmost, non-overlapping occurrence of `pat` replaced by
/// `rep`, scanning from the left (`str::replace`). An empty pattern matches
/// before every character and at the end.
pub open spec fn replaced(s: Seq<char>, pat: Seq<char>, rep: Seq<char>) -> Seq<char>
    decreases s.len(),
{
    if pat.len() == 0 {
        if s.len() == 0 {
            rep
        } else {
            rep + seq![s[0]] + replaced(s.drop_first(), pat, rep)
        }
    } else if s.len() < pat.len() {
        s
    } else if s.take(pat.len() as int) == pat {
        rep + replaced(s.skip(pat.len() as int), pat, rep)
    } else {
        seq![s[0]] + replaced(s.drop_first(), pat, rep)
    }
}

/// Whether `pat` occurs in `s` starting at position `i`.
fn matches_at(s: &Vec<char>, i: usize, pat: &Vec<char>) -> (b: bool)
    requires
        i + pat.len() <= s.len(),
    ensures
        b == (s@.subrange(i as int, i + pat.len()) == pat@),
{
    let mut k: usize = 0;
    while k < pat.len()
        invariant
            k <= pat.len(),
            i + pat.len() <= s.len(),
            forall|j: int| 0 <= j < k ==> s@[i + j] == pat@[j],
        decreases pat.len() - k,
    {
        if s[i + k] != pat[k] {
            assert(s@.subrange(i as int, i + pat.len())[k as int] != pat@[k as int]);
            return false;
        }
        k = k + 1;
    }
    assert(s@.subrange(i as int, i + pat.len()) =~= pat@);
    true
}

/// `s` with every occurrence of `pat` replaced by `rep` (`str::replace`).
pub fn replace_all(s: &Vec<char>, pat: &Vec<char>, rep: &Vec<char>) -> (out: Vec<char>)
    ensures
        out@ == replaced(s@, pat@, rep@),
{
    let mut out: Vec<char> = Vec::new();
    assert(s@.skip(0) =~= s@);
    assert(out@ + replaced(s@, pat@, rep@) =~= replaced(s@, pat@, rep@));
    if pat.len() == 0 {
        let mut i: usize = 0;
        while i < s.len()
            invariant
                i <= s.len(),
                pat@.len() == 0,
                out@ + replaced(s@.skip(i as int), pat@, rep@) == replaced(s@, pat@, rep@),
            decreases s.len() - i,
        {
            assert(s@.skip(i as int).drop_first() =~= s@.skip(i + 1));
            assert(out@ + rep@ + seq![s@[i as int]] + replaced(s@.skip(i + 1), pat@, rep@)
                =~= out@ + (rep@ + seq![s@[i as int]] + replaced(s@.skip(i + 1), pat@, rep@)));
            out.extend_from_slice(rep.as_slice());
            out.push(s[i]);
            i = i + 1;
        }
        assert(s@.skip(i as int).len() == 0);
        out.extend_from_slice(rep.as_slice());
        return out;
    }
    let mut i: usize = 0;
    while i < s.len()
        invariant
            i <= s.len(),
            pat@.len() > 0,
            out@ + replaced(s@.skip(i as int), pat@, rep@) == replaced(s@, pat@, rep@),
        decreases s.len() - i,
    {
        let ghost rest = s@.skip(i as int);
        if s.len() - i < pat.len() {
            while i < s.len()
                invariant
                    i <= s.len(),
                    out@ + s@.skip(i as int) == replaced(s@, pat@, rep@),
                decreases s.len() - i,
            {
                assert(s@.skip(i as int) =~= seq![s@[i as int]] + s@.skip(i + 1));
                out.push(s[i]);
                i = i + 1;
            }
            assert(s@.skip(i as int) =~= Seq::<char>::empty());
            assert(out@ + s@.skip(i as int) =~= out@);
            return out;
        }
        assert(rest.take(pat@.len() as int) =~= s@.subrange(i as int, i + pat.len()));
        if matches_at(s, i, pat) {
            assert(rest.skip(pat@.len() as int) =~= s@.skip(i + pat.len()));
            assert(out@ + rep@ + replaced(s@.skip(i + pat.len()), pat@, rep@)
                =~= out@ + (rep@ + replaced(s@.skip(i + pat.len()), pat@, rep@)));
            out.extend_from_slice(rep.as_slice());
            i = i + pat.len();
        } else {
            assert(rest.drop_first() =~= s@.skip(i + 1));
            assert(out@ + seq![s@[i as int]] + replaced(s@.skip(i + 1), pat@, rep@)
                =~= out@ + (seq![s@[i as int]] + replaced(s@.skip(i + 1), pat@, rep@)));
            out.push(s[i]);
            i = i + 1;
        }
    }
    assert(s@.skip(i as int) =~= Seq::<char>::empty());
    assert(out@ + Seq::<char>::empty() =~= out@);
    out
}


/// The words of `s` (the maximal runs of non-white-space characters), in
/// order, joined by single spaces: `s.split_whitespace().join(" ")`.
/// `started` records that a word has already been emitted and `pending`
/// that white space has been seen since then.
pub open spec fn compacted_from(s: Seq<char>, started: bool, pending: bool) -> Seq<char>
    decreases s.len(),
{
    if s.len() == 0 {
        Seq::empty()
    } else if is_white_space(s[0]) {
        compacted_from(s.drop_first(), started, started)
    } else {
        (if pending {
            seq![' ']
        } else {
            Seq::empty()
        }) + seq![s[0]] + compacted_from(s.drop_first(), true, false)
    }
}

/// The words of `s` joined by single spaces.
pub open spec fn compacted(s: Seq<char>) -> Seq<char> {
    compacted_from(s, false, false)
}

/// The words of `s` joined by single spaces (`split_whitespace` then
/// `join(" ")`).
pub fn compact_white_space(s: &Vec<char>) -> (out: Vec<char>)
    ensures
        out@ == compacted(s@),
{
    let mut out: Vec<char> = Vec::new();
    let mut started = false;
    let mut pending = false;
    let mut i: usize = 0;
    assert(s@.skip(0) =~= s@);
    assert(out@ + compacted(s@) =~= compacted(s@));
    while i < s.len()
        invariant
            i <= s.len(),
            out@ + compacted_from(s@.skip(i as int), started, pending) == compacted(s@),
        decreases s.len() - i,
    {
        let c = s[i];
        assert(s@.skip(i as int).drop_first() =~= s@.skip(i + 1));
        if is_white_space_char(c) {
            pending = started;
        } else {
            let ghost before = out@;
            if pending {
                out.push(' ');
            }
            out.push(c);
            assert(out@ + compacted_from(s@.skip(i + 1), true, false) =~= before + ((if pending {
                seq![' ']
            } else {
                Seq::empty()
            }) + seq![c] + compacted_from(s@.skip(i + 1), true, false)));
            started = true;
            pending = false;
        }
        i = i + 1;
    }
    assert(s@.skip(i as int) =~= Seq::<char>::empty());
    assert(out@ + Seq::<char>::empty() =~= out@);
    out
}

/// The text that replaces the API key in upstream error details.
pub open spec fn redaction_marker() -> Seq<char> {
    seq!['[', 'r', 'e', 'd', 'a', 'c', 't', 'e', 'd', ']']
}

/// The detail given when the upstream error body has no text.
pub open spec fn no_detail_text() -> Seq<char> {
    seq!['n', 'o', ' ', 'e', 'r', 'r', 'o', 'r', ' ', 'd', 'e', 't', 'a', 'i', 'l']
}

/// The most characters of upstream error detail that are passed on.
pub const MAX_DETAIL_CHARS: usize = 500;

/// An upstream error body made fit to show: every occurrence of the API key
/// replaced by `[redacted]`, white space collapsed to single spaces, cut to
/// its first 500 characters, and `no error detail` where nothing is left.
pub open spec fn sanitized(body: Seq<char>, api_key: Seq<char>) -> Seq<char> {
    let compact = compacted(replaced(body, api_key, redaction_marker()));
    if compact.len() == 0 {
        no_detail_text()
    } else if compact.len() <= MAX_DETAIL_CHARS {
        compact
    } else {
        compact.take(MAX_DETAIL_CHARS as int)
    }
}

/// Makes an upstream error body fit to pass on to the client: the API key
/// is redacted, white space collapsed, and the text cut to 500 characters.
pub fn sanitize_error(body: &str, api_key: &str) -> (detail: String)
    ensures
        detail@ == sanitized(body@, api_key@),
{
    let body_chars = chars_of(body);
    let key_chars = chars_of(api_key);
    let marker = "[redacted]";
    proof {
        reveal_strlit("[redacted]");
    }
    let marker_chars = chars_of(marker);
    assert(marker_chars@ =~= redaction_marker());
    let redacted = replace_all(&body_chars, &key_chars, &marker_chars);
    let compact = compact_white_space(&redacted);
    if compact.len() == 0 {
        let fallback = "no error detail";
        proof {
            reveal_strlit("no error detail");
        }
        let fallback_chars = chars_of(fallback);
        assert(fallback_chars@ =~= no_detail_text());
        string_of(fallback_chars.as_slice())
    } else if compact.len() <= MAX_DETAIL_CHARS {
        string_of(compact.as_slice())
    } else {
        let mut head: Vec<char> = Vec::new();
        for i in 0..MAX_DETAIL_CHARS
            invariant
                compact@.len() > MAX_DETAIL_CHARS,
                head@ == compact@.take(i as int),
        {
            head.push(compact[i]);
            assert(compact@.take(i + 1) =~= compact@.take(i as int).push(compact@[i as int]));
        }
        string_of(head.as_slice())
    }
}


/// Replacement markers start with `[`: as long as no `[` has been produced,
/// the output of `replaced` copies its input.
proof fn lemma_replaced_copies_prefix(t: Seq<char>, pat: Seq<char>, rep: Seq<char>, m: int)
    requires
        pat.len() > 0,
        rep.len() > 0,
        rep[0] == '[',
        0 <= m <= replaced(t, pat, rep).len(),
        forall|i: int| 0 <= i < m ==> replaced(t, pat, rep)[i] != '[',
    ensures
        m <= t.len(),
        replaced(t, pat, rep).take(m) == t.take(m),
    decreases t.len(),
{
    let out = replaced(t, pat, rep);
    if m == 0 {
        assert(out.take(0) =~= t.take(0));
    } else if t.len() < pat.len() {
    } else if t.take(pat.len() as int) == pat {
        assert(out[0] == rep[0]);
    } else {
        let rest = replaced(t.drop_first(), pat, rep);
        assert(out == seq![t[0]] + rest);
        assert forall|i: int| 0 <= i < m - 1 implies rest[i] != '[' by {
            assert(out[i + 1] == rest[i]);
        }
        lemma_replaced_copies_prefix(t.drop_first(), pat, rep, m - 1);
        assert(out.take(m) =~= seq![t[0]] + rest.take(m - 1));
        assert(t.take(m) =~= seq![t[0]] + t.drop_first().take(m - 1));
    }
}

/// Under the key conditions, the output of `replaced` never holds the
/// pattern.
proof fn lemma_replaced_removes(s: Seq<char>, pat: Seq<char>)
    requires
        pat.len() > 0,
        forall|i: int| 0 <= i < pat.len() ==> pat[i] != '[' && pat[i] != ']',
        !occurs_in(redaction_marker(), pat),
    ensures
        !occurs_in(replaced(s, pat, redaction_marker()), pat),
    decreases s.len(),
{
    let rep = redaction_marker();
    let out = replaced(s, pat, rep);
    let n = pat.len() as int;
    if occurs_in(out, pat) {
        let j = choose|j: int| 0 <= j && j + n <= out.len() && #[trigger] out.subrange(j, j + n) == pat;
        if s.len() < pat.len() {
            assert(out == s);
        } else if s.take(n) == pat {
            let tail = s.skip(n);
            let rest = replaced(tail, pat, rep);
            assert(out == rep + rest);
            if j + n <= rep.len() {
                assert(rep.subrange(j, j + n) =~= out.subrange(j, j + n));
                assert(occurs_in(rep, pat));
            } else if j < rep.len() {
                let k = rep.len() - 1 - j;
                assert(out.subrange(j, j + n)[k] == out[rep.len() - 1]);
                assert(pat[k] == ']');
            } else {
                let jj = j - rep.len();
                assert(rest.subrange(jj, jj + n) =~= out.subrange(j, j + n));
                lemma_replaced_removes(tail, pat);
                assert(occurs_in(rest, pat));
            }
        } else {
            let rest = replaced(s.drop_first(), pat, rep);
            assert(out == seq![s[0]] + rest);
            if j == 0 {
                assert forall|i: int| 0 <= i < n implies out[i] != '[' by {
                    assert(out.subrange(0, n)[i] == out[i]);
                }
                lemma_replaced_copies_prefix(s, pat, rep, n);
                assert(out.take(n) =~= out.subrange(0, n));
            } else {
                let jj = j - 1;
                assert(rest.subrange(jj, jj + n) =~= out.subrange(j, j + n));
                lemma_replaced_removes(s.drop_first(), pat);
                assert(occurs_in(rest, pat));
            }
        }
    }
}

/// Once a word has been emitted, the output of `compacted_from` with white
/// space pending is empty or starts with a space.
proof fn lemma_compacted_pending_space(t: Seq<char>)
    ensures
        compacted_from(t, true, true).len() > 0 ==> compacted_from(t, true, true)[0] == ' ',
    decreases t.len(),
{
    if t.len() > 0 && is_white_space(t[0]) {
        lemma_compacted_pending_space(t.drop_first());
    }
}

/// As long as no space has been produced, `compacted_from` (after a word,
/// with nothing pending) copies its input.
proof fn lemma_compacted_copies_prefix(t: Seq<char>, m: int)
    requires
        0 <= m <= compacted_from(t, true, false).len(),
        forall|i: int| 0 <= i < m ==> compacted_from(t, true, false)[i] != ' ',
    ensures
        m <= t.len(),
        compacted_from(t, true, false).take(m) == t.take(m),
    decreases t.len(),
{
    let out = compacted_from(t, true, false);
    if m == 0 {
        assert(out.take(0) =~= t.take(0));
    } else if is_white_space(t[0]) {
        lemma_compacted_pending_space(t.drop_first());
    } else {
        let rest = compacted_from(t.drop_first(), true, false);
        assert(out =~= seq![t[0]] + rest);
        assert forall|i: int| 0 <= i < m - 1 implies rest[i] != ' ' by {
            assert(out[i + 1] == rest[i]);
        }
        lemma_compacted_copies_prefix(t.drop_first(), m - 1);
        assert(out.take(m) =~= seq![t[0]] + rest.take(m - 1));
        assert(t.take(m) =~= seq![t[0]] + t.drop_first().take(m - 1));
    }
}

/// A run of non-white-space characters found in the compacted text was
/// already in the text it was made from.
proof fn lemma_compacted_keeps_no_new_runs(s: Seq<char>, started: bool, pending: bool, p: Seq<char>)
    requires
        p.len() > 0,
        forall|i: int| 0 <= i < p.len() ==> !is_white_space(#[trigger] p[i]),
        occurs_in(compacted_from(s, started, pending), p),
    ensures
        occurs_in(s, p),
    decreases s.len(),
{
    let out = compacted_from(s, started, pending);
    let n = p.len() as int;
    let j = choose|j: int| 0 <= j && j + n <= out.len() && #[trigger] out.subrange(j, j + n) == p;
    if s.len() == 0 {
    } else if is_white_space(s[0]) {
        lemma_compacted_keeps_no_new_runs(s.drop_first(), started, started, p);
        let i = choose|i: int| 0 <= i && i + n <= s.drop_first().len()
            && #[trigger] s.drop_first().subrange(i, i + n) == p;
        assert(s.subrange(i + 1, i + 1 + n) =~= s.drop_first().subrange(i, i + n));
        assert(occurs_in(s, p));
    } else {
        let pre: Seq<char> = if pending {
            seq![' ']
        } else {
            Seq::empty()
        };
        let rest = compacted_from(s.drop_first(), true, false);
        assert(out == pre + seq![s[0]] + rest);
        let off = pre.len() as int;
        if j < off {
            assert(out.subrange(j, j + n)[0] == ' ');
        } else if j == off {
            assert forall|i: int| 0 <= i < n - 1 implies rest[i] != ' ' by {
                assert(out.subrange(j, j + n)[i + 1] == rest[i]);
                assert(!is_white_space(p[i + 1]));
            }
            lemma_compacted_copies_prefix(s.drop_first(), n - 1);
            assert(s.subrange(0, n) =~= out.subrange(j, j + n)) by {
                assert forall|i: int| 0 <= i < n implies s.subrange(0, n)[i] == out.subrange(j, j + n)[i] by {
                    if i > 0 {
                        assert(rest.take(n - 1)[i - 1] == s.drop_first().take(n - 1)[i - 1]);
                    }
                }
            }
            assert(s.subrange(0, 0 + n) == p);
            assert(occurs_in(s, p));
        } else {
            let jj = j - off - 1;
            assert(rest.subrange(jj, jj + n) =~= out.subrange(j, j + n));
            lemma_compacted_keeps_no_new_runs(s.drop_first(), true, false, p);
            let i = choose|i: int| 0 <= i && i + n <= s.drop_first().len()
                && #[trigger] s.drop_first().subrange(i, i + n) == p;
            assert(s.subrange(i + 1, i + 1 + n) =~= s.drop_first().subrange(i, i + n));
            assert(occurs_in(s, p));
        }
    }
}

/// An upstream error detail never shows the API key. This holds for
/// every key that is not empty, has no white space and no square bracket,
/// and is not part of the texts `[redacted]` and `no error detail` that the
/// sanitizer itself writes.
pub proof fn law_sanitized_detail_hides_key(body: Seq<char>, api_key: Seq<char>)
    requires
        api_key.len() > 0,
        forall|i: int|
            0 <= i < api_key.len() ==> !is_white_space(#[trigger] api_key[i]) && api_key[i] != '['
                && api_key[i] != ']',
        !occurs_in(redaction_marker(), api_key),
        !occurs_in(no_detail_text(), api_key),
    ensures
        !occurs_in(sanitized(body, api_key), api_key),
{
    let redacted = replaced(body, api_key, redaction_marker());
    let compact = compacted(redacted);
    let n = api_key.len() as int;
    lemma_replaced_removes(body, api_key);
    if occurs_in(compact, api_key) {
        lemma_compacted_keeps_no_new_runs(redacted, false, false, api_key);
    }
    if compact.len() > MAX_DETAIL_CHARS && occurs_in(compact.take(MAX_DETAIL_CHARS as int), api_key) {
        let head = compact.take(MAX_DETAIL_CHARS as int);
        let j = choose|j: int| 0 <= j && j + n <= head.len() && #[trigger] head.subrange(j, j + n) == api_key;
        assert(compact.subrange(j, j + n) =~= head.subrange(j, j + n));
    }
}


/// White space in `t` is only ever a single plain space.
pub open spec fn spaced_by_single_spaces(t: Seq<char>) -> bool {
    &&& forall|i: int| 0 <= i < t.len() && is_white_space(#[trigger] t[i]) ==> t[i] == ' '
    &&& forall|i: int| 0 <= i < t.len() - 1 && #[trigger] t[i] == ' ' ==> t[i + 1] != ' '
}

proof fn lemma_compacted_shape(s: Seq<char>, started: bool, pending: bool)
    requires
        pending ==> started,
    ensures
        spaced_by_single_spaces(compacted_from(s, started, pending)),
        compacted_from(s, started, pending).len() > 0 ==> {
            &&& (compacted_from(s, started, pending)[0] == ' ' ==> started)
            &&& compacted_from(s, started, pending).last() != ' '
        },
    decreases s.len(),
{
    if s.len() == 0 {
    } else if is_white_space(s[0]) {
        lemma_compacted_shape(s.drop_first(), started, started);
    } else {
        lemma_compacted_shape(s.drop_first(), true, false);
        let rest = compacted_from(s.drop_first(), true, false);
        let pre: Seq<char> = if pending {
            seq![' ']
        } else {
            Seq::empty()
        };
        let out = compacted_from(s, started, pending);
        assert(out == pre + seq![s[0]] + rest);
        let off = pre.len() as int;
        assert forall|i: int| 0 <= i < out.len() && is_white_space(#[trigger] out[i]) implies out[i] == ' ' by {
            if i > off {
                assert(out[i] == rest[i - off - 1]);
            }
        }
        assert forall|i: int| 0 <= i < out.len() - 1 && #[trigger] out[i] == ' ' implies out[i + 1] != ' ' by {
            if i > off {
                assert(out[i] == rest[i - off - 1]);
                assert(out[i + 1] == rest[i - off]);
            }
        }
        if rest.len() > 0 {
            assert(out.last() == rest.last());
        }
    }
}

/// An upstream error detail is never empty, holds at most 500 characters,
/// starts with a non-space, and its only white space is single plain
/// spaces; it ends with a non-space unless it was cut to 500 characters.
pub proof fn law_sanitized_detail_is_compact(body: Seq<char>, api_key: Seq<char>)
    ensures
        0 < sanitized(body, api_key).len() <= MAX_DETAIL_CHARS,
        sanitized(body, api_key)[0] != ' ',
        spaced_by_single_spaces(sanitized(body, api_key)),
        compacted(replaced(body, api_key, redaction_marker())).len() <= MAX_DETAIL_CHARS
            ==> sanitized(body, api_key).last() != ' ',
{
    let compact = compacted(replaced(body, api_key, redaction_marker()));
    let r = sanitized(body, api_key);
    lemma_compacted_shape(replaced(body, api_key, redaction_marker()), false, false);
    if compact.len() == 0 {
        assert(r == no_detail_text());
        assert(spaced_by_single_spaces(r));
        assert(r.last() == 'l');
    } else if compact.len() > MAX_DETAIL_CHARS {
        let head = compact.take(MAX_DETAIL_CHARS as int);
        assert(r == head);
        assert forall|i: int| 0 <= i < head.len() && is_white_space(#[trigger] head[i]) implies head[i] == ' ' by {
            assert(head[i] == compact[i]);
        }
        assert forall|i: int| 0 <= i < head.len() - 1 && #[trigger] head[i] == ' ' implies head[i + 1] != ' ' by {
            assert(head[i] == compact[i]);
            assert(head[i + 1] == compact[i + 1]);
        }
    }
}


/// `s` without its leading white space.
pub open spec fn trimmed_start(s: Seq<char>) -> Seq<char>
    decreases s.len(),
{
    if s.len() > 0 && is_white_space(s[0]) {
        trimmed_start(s.drop_first())
    } else {
        s
    }
}

/// `s` without its trailing white space.
pub open spec fn trimmed_end(s: Seq<char>) -> Seq<char>
    decreases s.len(),
{
    if s.len() > 0 && is_white_space(s.last()) {
        trimmed_end(s.drop_last())
    } else {
        s
    }
}

/// `s` without leading and trailing white space (`str::trim`).
pub open spec fn trimmed(s: Seq<char>) -> Seq<char> {
    trimmed_end(trimmed_start(s))
}

/// The characters of `s` from `lo` up to `hi`.
fn copy_range(s: &Vec<char>, lo: usize, hi: usize) -> (out: Vec<char>)
    requires
        lo <= hi <= s.len(),
    ensures
        out@ == s@.subrange(lo as int, hi as int),
{
    let mut out: Vec<char> = Vec::new();
    let mut i = lo;
    while i < hi
        invariant
            lo <= i <= hi <= s.len(),
            out@ == s@.subrange(lo as int, i as int),
        decreases hi - i,
    {
        out.push(s[i]);
        assert(s@.subrange(lo as int, i + 1) =~= s@.subrange(lo as int, i as int).push(s@[i as int]));
        i = i + 1;
    }
    out
}

/// `s` without leading and trailing white space (`str::trim`).
pub fn trim_chars(s: &Vec<char>) -> (out: Vec<char>)
    ensures
        out@ == trimmed(s@),
{
    let mut lo: usize = 0;
    assert(s@.skip(0) =~= s@);
    while lo < s.len() && is_white_space_char(s[lo])
        invariant
            lo <= s.len(),
            trimmed_start(s@) == trimmed_start(s@.skip(lo as int)),
        decreases s.len() - lo,
    {
        assert(s@.skip(lo as int).drop_first() =~= s@.skip(lo + 1));
        lo = lo + 1;
    }
    let ghost start = s@.skip(lo as int);
    assert(trimmed_start(s@) == start);
    let mut hi: usize = s.len();
    assert(start =~= s@.subrange(lo as int, hi as int));
    while hi > lo && is_white_space_char(s[hi - 1])
        invariant
            lo <= hi <= s.len(),
            trimmed_end(start) == trimmed_end(s@.subrange(lo as int, hi as int)),
        decreases hi - lo,
    {
        assert(s@.subrange(lo as int, hi as int).drop_last() =~= s@.subrange(lo as int, hi - 1));
        hi = hi - 1;
    }
    copy_range(s, lo, hi)
}

/// `s` without leading and trailing white space (`str::trim`).
pub fn trim(s: &str) -> (out: String)
    ensures
        out@ == trimmed(s@),
{
    let chars = chars_of(s);
    let t = trim_chars(&chars);
    string_of(t.as_slice())
}

/// `c` with an ASCII capital letter turned into its small letter
/// (`char::to_ascii_lowercase`).
pub open spec fn ascii_lower(c: char) -> char {
    if 'A' <= c && c <= 'Z' {
        ((c as u32) + 32) as char
    } else {
        c
    }
}

/// The characters of `s` with ASCII capitals made small
/// (`str::to_ascii_lowercase`).
pub open spec fn ascii_lowered(s: Seq<char>) -> Seq<char> {
    s.map_values(|c: char| ascii_lower(c))
}

/// `s` with ASCII capitals made small.
pub fn to_ascii_lower(s: &Vec<char>) -> (out: Vec<char>)
    ensures
        out@ == ascii_lowered(s@),
{
    let mut out: Vec<char> = Vec::new();
    for i in 0..s.len()
        invariant
            out@ == ascii_lowered(s@.take(i as int)),
    {
        let c = s[i];
        let lower = if 'A' <= c && c <= 'Z' {
            ((c as u8) + 32) as char
        } else {
            c
        };
        assert(lower == ascii_lower(c));
        out.push(lower);
        assert(ascii_lowered(s@.take(i + 1)) =~= ascii_lowered(s@.take(i as int)).push(ascii_lower(c)));
    }
    assert(s@.take(s.len() as int) =~= s@);
    out
}

/// Whether two character sequences are equal.
pub fn same_chars(a: &Vec<char>, b: &Vec<char>) -> (eq: bool)
    ensures
        eq == (a@ == b@),
{
    if a.len() != b.len() {
        return false;
    }
    for i in 0..a.len()
        invariant
            a.len() == b.len(),
            forall|j: int| 0 <= j < i ==> a@[j] == b@[j],
    {
        if a[i] != b[i] {
            return false;
        }
    }
    assert(a@ =~= b@);
    true
}


/// `s` without the `/` characters at its end (`trim_end_matches('/')`).
pub open spec fn without_trailing_slashes(s: Seq<char>) -> Seq<char>
    decreases s.len(),
{
    if s.len() > 0 && s.last() == '/' {
        without_trailing_slashes(s.drop_last())
    } else {
        s
    }
}

/// Removing the trailing slashes leaves none.
pub proof fn lemma_no_trailing_slash_left(s: Seq<char>)
    ensures
        without_trailing_slashes(s).len() == 0 || without_trailing_slashes(s).last() != '/',
    decreases s.len(),
{
    if s.len() > 0 && s.last() == '/' {
        lemma_no_trailing_slash_left(s.drop_last());
    }
}

/// `s` without the `/` characters at its end (`trim_end_matches('/')`).
pub fn strip_trailing_slashes(s: &str) -> (out: String)
    ensures
        out@ == without_trailing_slashes(s@),
        out@.len() == 0 || out@.last() != '/',
{
    proof {
        lemma_no_trailing_slash_left(s@);
    }
    let chars = chars_of(s);
    let mut hi = chars.len();
    assert(chars@ =~= chars@.subrange(0, hi as int));
    while hi > 0 && chars[hi - 1] == '/'
        invariant
            hi <= chars@.len(),
            without_trailing_slashes(chars@) == without_trailing_slashes(chars@.subrange(0, hi as int)),
        decreases hi,
    {
        assert(chars@.subrange(0, hi as int).drop_last() =~= chars@.subrange(0, hi - 1));
        hi = hi - 1;
    }
    let kept = copy_range(&chars, 0, hi);
    string_of(kept.as_slice())
}


/// Without an occurrence of the pattern, `replaced` changes nothing.
proof fn lemma_replaced_without_match(s: Seq<char>, pat: Seq<char>, rep: Seq<char>)
    requires
        pat.len() > 0,
        !occurs_in(s, pat),
    ensures
        replaced(s, pat, rep) == s,
    decreases s.len(),
{
    let n = pat.len() as int;
    if s.len() >= pat.len() {
        assert(s.subrange(0, 0 + n) == s.take(n));
        let t = s.drop_first();
        assert forall|i: int| 0 <= i && i + n <= t.len() implies #[trigger] t.subrange(i, i + n) != pat by {
            assert(t.subrange(i, i + n) =~= s.subrange(i + 1, i + 1 + n));
        }
        lemma_replaced_without_match(t, pat, rep);
        assert(seq![s[0]] + t =~= s);
    }
}

/// Text already in compact form comes out of `compacted_from` unchanged.
proof fn lemma_compacted_keeps_compact(s: Seq<char>, started: bool)
    requires
        spaced_by_single_spaces(s),
        s.len() > 0 ==> s.last() != ' ',
        s.len() > 0 && s[0] == ' ' ==> started,
    ensures
        compacted_from(s, started, false) == s,
    decreases s.len(),
{
    if s.len() > 0 {
        let t = s.drop_first();
        if s[0] == ' ' {
            assert(s.len() >= 2);
            assert(s[1] != ' ');
            assert(!is_white_space(s[1]));
            let u = t.drop_first();
            assert(u == s.skip(2));
            assert forall|i: int| 0 <= i < u.len() && is_white_space(#[trigger] u[i]) implies u[i] == ' ' by {
                assert(u[i] == s[i + 2]);
            }
            assert forall|i: int| 0 <= i < u.len() - 1 && #[trigger] u[i] == ' ' implies u[i + 1] != ' ' by {
                assert(u[i] == s[i + 2]);
                assert(u[i + 1] == s[i + 3]);
            }
            if u.len() > 0 {
                assert(u.last() == s.last());
            }
            lemma_compacted_keeps_compact(u, true);
            assert(compacted_from(s, started, false) == compacted_from(t, true, true));
            assert(compacted_from(t, true, true) == seq![' '] + seq![t[0]] + compacted_from(u, true, false));
            assert(seq![' '] + seq![t[0]] + u =~= s);
        } else {
            assert(!is_white_space(s[0]));
            assert forall|i: int| 0 <= i < t.len() && is_white_space(#[trigger] t[i]) implies t[i] == ' ' by {
                assert(t[i] == s[i + 1]);
            }
            assert forall|i: int| 0 <= i < t.len() - 1 && #[trigger] t[i] == ' ' implies t[i + 1] != ' ' by {
                assert(t[i] == s[i + 1]);
                assert(t[i + 1] == s[i + 2]);
            }
            if t.len() > 0 {
                assert(t.last() == s.last());
            }
            lemma_compacted_keeps_compact(t, true);
            assert(Seq::<char>::empty() + seq![s[0]] + t =~= s);
        }
    }
}

/// An error body that is already compact, starts and ends with a
/// non-space, holds at most 500 characters and does not contain the (non
/// empty) API key is passed on exactly as it is.
pub proof fn law_clean_detail_passes_unchanged(body: Seq<char>, api_key: Seq<char>)
    requires
        api_key.len() > 0,
        !occurs_in(body, api_key),
        0 < body.len() <= MAX_DETAIL_CHARS,
        body[0] != ' ',
        body.last() != ' ',
        spaced_by_single_spaces(body),
    ensures
        sanitized(body, api_key) == body,
{
    lemma_replaced_without_match(body, api_key, redaction_marker());
    lemma_compacted_keeps_compact(body, false);
}

/// `trimmed_start` drops a prefix: what is left is a suffix of the input,
/// empty or starting with a non-white-space character.
proof fn lemma_trimmed_start_shape(s: Seq<char>)
    ensures
        exists|k: int| 0 <= k <= s.len() && trimmed_start(s) == s.skip(k),
        trimmed_start(s).len() == 0 || !is_white_space(trimmed_start(s)[0]),
    decreases s.len(),
{
    if s.len() > 0 && is_white_space(s[0]) {
        lemma_trimmed_start_shape(s.drop_first());
        let k = choose|k: int| 0 <= k <= s.drop_first().len() && trimmed_start(s.drop_first()) == s.drop_first().skip(k);
        assert(s.drop_first().skip(k) =~= s.skip(k + 1));
    } else {
        assert(s.skip(0) =~= s);
    }
}

/// `trimmed_end` drops a suffix: what is left is a prefix of the input,
/// empty or ending with a non-white-space character.
proof fn lemma_trimmed_end_shape(s: Seq<char>)
    ensures
        exists|k: int| 0 <= k <= s.len() && trimmed_end(s) == s.take(k),
        trimmed_end(s).len() == 0 || !is_white_space(trimmed_end(s).last()),
    decreases s.len(),
{
    if s.len() > 0 && is_white_space(s.last()) {
        lemma_trimmed_end_shape(s.drop_last());
        let k = choose|k: int| 0 <= k <= s.drop_last().len() && trimmed_end(s.drop_last()) == s.drop_last().take(k);
        assert(s.drop_last().take(k) =~= s.take(k));
    } else {
        assert(s.take(s.len() as int) =~= s);
    }
}

/// Trimming twice gives what trimming once gives.
pub proof fn law_trim_is_idempotent(s: Seq<char>)
    ensures
        trimmed(trimmed(s)) == trimmed(s),
{
    let t = trimmed_start(s);
    let e = trimmed_end(t);
    lemma_trimmed_start_shape(s);
    lemma_trimmed_end_shape(t);
    lemma_trimmed_end_shape(e);
    if e.len() > 0 {
        let k = choose|k: int| 0 <= k <= t.len() && e == t.take(k);
        assert(e[0] == t[0]);
    }
    assert(trimmed_start(e) == e);
    assert(trimmed_end(e) == e);
}

} // verus!
