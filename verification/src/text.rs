//! Character-level text utilities: substring search, trimming,
//! replacement and line splitting, with exact specifications over
//! `Seq<char>` views.

use vstd::prelude::*;

verus! {

/// The pattern `p` occurs in `s` starting at position `i`.
pub open spec fn matches_at(s: Seq<char>, p: Seq<char>, i: int) -> bool {
    0 <= i && i + p.len() <= s.len() && s.subrange(i, i + p.len()) == p
}

/// The position of the leftmost occurrence of `p` in `s` at or after `i`.
pub open spec fn find_from(s: Seq<char>, p: Seq<char>, i: int) -> Option<int>
    decreases s.len() - i,
{
    if i < 0 || i + p.len() > s.len() {
        None
    } else if p.len() == 0 {
        Some(i)
    } else if matches_at(s, p, i) {
        Some(i)
    } else {
        find_from(s, p, i + 1)
    }
}

/// `p` occurs somewhere in `s`.
pub open spec fn contains_seq(s: Seq<char>, p: Seq<char>) -> bool {
    find_from(s, p, 0) is Some
}

/// `s` begins with `p`.
pub open spec fn starts_with(s: Seq<char>, p: Seq<char>) -> bool {
    matches_at(s, p, 0)
}

/// `s` ends with `p`.
pub open spec fn ends_with(s: Seq<char>, p: Seq<char>) -> bool {
    p.len() <= s.len() && matches_at(s, p, s.len() - p.len())
}

/// A found position is a real occurrence, no earlier position (from `i` on)
/// matches, and `None` means no position from `i` on matches.
pub proof fn lemma_find_from(s: Seq<char>, p: Seq<char>, i: int)
    requires
        0 <= i,
    ensures
        match find_from(s, p, i) {
            Some(k) => i <= k && matches_at(s, p, k) && forall|j: int|
                i <= j < k ==> !matches_at(s, p, j),
            None => forall|j: int| i <= j ==> !matches_at(s, p, j),
        },
    decreases s.len() - i,
{
    if i + p.len() > s.len() {
        assert forall|j: int| i <= j implies !matches_at(s, p, j) by {}
    } else if p.len() == 0 {
        assert(s.subrange(i, i) =~= p);
    } else if matches_at(s, p, i) {
    } else {
        lemma_find_from(s, p, i + 1);
    }
}

/// Searching from an earlier position that is known not to match gives
/// the same result as searching one position later.
pub proof fn lemma_find_from_step(s: Seq<char>, p: Seq<char>, i: int)
    requires
        0 <= i,
        !matches_at(s, p, i),
    ensures
        find_from(s, p, i) == find_from(s, p, i + 1),
{
    if i + p.len() > s.len() {
        assert(i + 1 + p.len() > s.len());
    } else if p.len() == 0 {
        assert(s.subrange(i, i) =~= p);
    }
}

/// Two string slices hold the same characters.
pub fn str_eq(a: &str, b: &str) -> (r: bool)
    ensures
        r == (a@ == b@),
{
    let na = a.unicode_len();
    let nb = b.unicode_len();
    if na != nb {
        assert(a@.len() != b@.len());
        return false;
    }
    let mut i: usize = 0;
    while i < na
        invariant
            na == a@.len(),
            nb == b@.len(),
            na == nb,
            i <= na,
            forall|j: int| 0 <= j < i ==> a@[j] == b@[j],
        decreases na - i,
    {
        if a.get_char(i) != b.get_char(i) {
            assert(a@[i as int] != b@[i as int]);
            return false;
        }
        i = i + 1;
    }
    proof {
        assert(a@ =~= b@);
    }
    true
}

/// Whether `p` occurs in `s` at position `i`.
pub fn matches_at_exec(s: &str, p: &str, i: usize) -> (r: bool)
    ensures
        r == matches_at(s@, p@, i as int),
{
    let ns = s.unicode_len();
    let np = p.unicode_len();
    if i > ns || np > ns - i {
        return false;
    }
    let mut j: usize = 0;
    while j < np
        invariant
            ns == s@.len(),
            np == p@.len(),
            i + np <= ns,
            j <= np,
            forall|k: int| 0 <= k < j ==> s@[i + k] == p@[k],
        decreases np - j,
    {
        if s.get_char(i + j) != p.get_char(j) {
            assert(s@.subrange(i as int, i + np) != p@) by {
                assert(s@.subrange(i as int, i + np)[j as int] == s@[i + j]);
            }
            return false;
        }
        j = j + 1;
    }
    proof {
        assert(s@.subrange(i as int, i + np) =~= p@);
    }
    true
}

/// The position of the leftmost occurrence of `p` in `s`.
pub fn find_sub(s: &str, p: &str) -> (r: Option<usize>)
    ensures
        match r {
            Some(k) => find_from(s@, p@, 0) == Some(k as int),
            None => find_from(s@, p@, 0) is None,
        },
{
    let ns = s.unicode_len();
    let np = p.unicode_len();
    if np > ns {
        return None;
    }
    let mut i: usize = 0;
    loop
        invariant
            ns == s@.len(),
            np == p@.len(),
            np <= ns,
            i <= ns - np,
            find_from(s@, p@, 0) == find_from(s@, p@, i as int),
        decreases ns - np - i,
    {
        if matches_at_exec(s, p, i) {
            return Some(i);
        }
        proof {
            lemma_find_from_step(s@, p@, i as int);
        }
        if i == ns - np {
            proof {
                assert(find_from(s@, p@, i + 1) is None);
            }
            return None;
        }
        i = i + 1;
    }
}

/// Whether `p` occurs anywhere in `s`.
pub fn contains_sub(s: &str, p: &str) -> (r: bool)
    ensures
        r == contains_seq(s@, p@),
{
    find_sub(s, p).is_some()
}

/// Whether `s` begins with `p`.
pub fn starts_with_exec(s: &str, p: &str) -> (r: bool)
    ensures
        r == starts_with(s@, p@),
{
    matches_at_exec(s, p, 0)
}

/// Whether `s` ends with `p`.
pub fn ends_with_exec(s: &str, p: &str) -> (r: bool)
    ensures
        r == ends_with(s@, p@),
{
    let ns = s.unicode_len();
    let np = p.unicode_len();
    if np > ns {
        return false;
    }
    matches_at_exec(s, p, ns - np)
}

/// `c` is a Unicode whitespace character (the set `str::trim` and
/// `str::split_whitespace` go by).
pub open spec fn is_space_char(c: char) -> bool {
    c == ' ' || c == '\t' || c == '\n' || c == '\r' || c == '\u{000B}' || c == '\u{000C}'
        || c == '\u{0085}' || c == '\u{00A0}' || c == '\u{1680}'
        || ('\u{2000}' <= c && c <= '\u{200A}') || c == '\u{2028}' || c == '\u{2029}'
        || c == '\u{202F}' || c == '\u{205F}' || c == '\u{3000}'
}

/// Whether `c` is a Unicode whitespace character.
pub fn is_space(c: char) -> (r: bool)
    ensures
        r == is_space_char(c),
{
    c == ' ' || c == '\t' || c == '\n' || c == '\r' || c == '\u{000B}' || c == '\u{000C}'
        || c == '\u{0085}' || c == '\u{00A0}' || c == '\u{1680}'
        || ('\u{2000}' <= c && c <= '\u{200A}') || c == '\u{2028}' || c == '\u{2029}'
        || c == '\u{202F}' || c == '\u{205F}' || c == '\u{3000}'
}

/// The position of the first non-whitespace character at or after `i`
/// (`s.len()` if there is none).
pub open spec fn first_non_space(s: Seq<char>, i: int) -> int
    decreases s.len() - i,
{
    if i < 0 || i >= s.len() {
        i
    } else if is_space_char(s[i]) {
        first_non_space(s, i + 1)
    } else {
        i
    }
}

/// The length of `s` without its trailing whitespace.
pub open spec fn last_non_space(s: Seq<char>) -> int
    decreases s.len(),
{
    if s.len() == 0 {
        0
    } else if is_space_char(s.last()) {
        last_non_space(s.drop_last())
    } else {
        s.len() as int
    }
}

/// `s` without trailing whitespace.
pub open spec fn trim_end_spec(s: Seq<char>) -> Seq<char> {
    s.take(last_non_space(s))
}

/// `s` without leading whitespace.
pub open spec fn trim_start_spec(s: Seq<char>) -> Seq<char> {
    s.skip(first_non_space(s, 0))
}

/// `s` without leading and trailing whitespace.
pub open spec fn trim_spec(s: Seq<char>) -> Seq<char> {
    trim_start_spec(trim_end_spec(s))
}

/// `s` with leading and trailing whitespace removed.
pub fn trim_exec<'a>(s: &'a str) -> (r: &'a str)
    ensures
        r@ == trim_spec(s@),
{
    let n = s.unicode_len();
    let mut b: usize = n;
    proof {
        assert(s@.take(n as int) =~= s@);
    }
    while b > 0 && is_space(s.get_char(b - 1))
        invariant
            n == s@.len(),
            b <= n,
            last_non_space(s@) == last_non_space(s@.take(b as int)),
        decreases b,
    {
        proof {
            let t = s@.take(b as int);
            assert(t.last() == s@[b - 1]);
            assert(t.drop_last() =~= s@.take(b - 1));
        }
        b = b - 1;
    }
    proof {
        let t = s@.take(b as int);
        if b == 0 {
            assert(last_non_space(t) == 0);
        } else {
            assert(t.last() == s@[b - 1]);
            assert(last_non_space(t) == b);
        }
        assert(last_non_space(s@) == b);
    }
    let tt = s.substring_char(0, b);
    proof {
        assert(tt@ =~= trim_end_spec(s@));
    }
    let mut a: usize = 0;
    while a < b && is_space(tt.get_char(a))
        invariant
            b <= n,
            n == s@.len(),
            tt@ == trim_end_spec(s@),
            tt@.len() == b,
            a <= b,
            first_non_space(tt@, 0) == first_non_space(tt@, a as int),
        decreases b - a,
    {
        a = a + 1;
    }
    proof {
        assert(first_non_space(tt@, a as int) == a);
        assert(tt@.subrange(a as int, b as int) =~= trim_spec(s@));
    }
    tt.substring_char(a, b)
}

/// `s` with every leading copy of `p` removed.
pub open spec fn trim_start_matches_spec(s: Seq<char>, p: Seq<char>) -> Seq<char>
    decreases s.len(),
{
    if p.len() > 0 && starts_with(s, p) {
        trim_start_matches_spec(s.skip(p.len() as int), p)
    } else {
        s
    }
}

/// `s` with every leading copy of `p` removed.
pub fn trim_start_matches_exec<'a>(s: &'a str, p: &str) -> (r: &'a str)
    requires
        p@.len() > 0,
    ensures
        r@ == trim_start_matches_spec(s@, p@),
{
    let np = p.unicode_len();
    let mut cur: &str = s;
    loop
        invariant
            np == p@.len(),
            np > 0,
            trim_start_matches_spec(cur@, p@) == trim_start_matches_spec(s@, p@),
        decreases cur@.len(),
    {
        if matches_at_exec(cur, p, 0) {
            let next = cur.substring_char(np, cur.unicode_len());
            proof {
                assert(next@ =~= cur@.skip(np as int));
            }
            cur = next;
        } else {
            return cur;
        }
    }
}

/// `s` with every occurrence of `from` (leftmost first, non-overlapping)
/// replaced by `to`.
pub open spec fn replace_spec(s: Seq<char>, from: Seq<char>, to: Seq<char>) -> Seq<char>
    decreases s.len(),
    via replace_spec_dec
{
    if from.len() == 0 {
        s
    } else {
        match find_from(s, from, 0) {
            None => s,
            Some(i) => s.subrange(0, i) + to + replace_spec(
                s.skip(i + from.len()),
                from,
                to,
            ),
        }
    }
}

#[via_fn]
proof fn replace_spec_dec(s: Seq<char>, from: Seq<char>, to: Seq<char>) {
    if from.len() > 0 {
        match find_from(s, from, 0) {
            None => {},
            Some(i) => {
                lemma_find_from(s, from, 0);
            },
        }
    }
}

/// `s` with every occurrence of `from` replaced by `to`.
pub fn replace_all(s: &str, from: &str, to: &str) -> (r: String)
    ensures
        r@ == replace_spec(s@, from@, to@),
{
    let nf = from.unicode_len();
    if nf == 0 {
        return s.to_owned();
    }
    let mut out = String::new();
    let mut cur: &str = s;
    loop
        invariant
            nf == from@.len(),
            nf > 0,
            replace_spec(s@, from@, to@) == out@ + replace_spec(cur@, from@, to@),
        decreases cur@.len(),
    {
        match find_sub(cur, from) {
            None => {
                out.append(cur);
                return out;
            },
            Some(i) => {
                proof {
                    lemma_find_from(cur@, from@, 0);
                }
                let ncur = cur.unicode_len();
                let chunk = cur.substring_char(0, i);
                out.append(chunk);
                out.append(to);
                let next = cur.substring_char(i + nf, ncur);
                proof {
                    assert(next@ =~= cur@.skip(i + nf));
                    assert(chunk@ =~= cur@.subrange(0, i as int));
                }
                cur = next;
            },
        }
    }
}

/// The first `c` at or after `start` in `s`.
pub fn find_char_from(s: &str, c: char, start: usize) -> (r: Option<usize>)
    ensures
        match r {
            Option::Some(k) => find_from(s@, seq![c], start as int) == Option::Some(k as int),
            Option::None => find_from(s@, seq![c], start as int) is None,
        },
{
    let n = s.unicode_len();
    let mut k = start;
    loop
        invariant
            n == s@.len(),
            start <= k,
            find_from(s@, seq![c], start as int) == find_from(s@, seq![c], k as int),
        decreases n + 1 - k,
    {
        if k >= n {
            return Option::None;
        }
        if s.get_char(k) == c {
            proof {
                assert(s@.subrange(k as int, k + 1) =~= seq![c]);
            }
            return Option::Some(k);
        }
        proof {
            assert(!matches_at(s@, seq![c], k as int)) by {
                if matches_at(s@, seq![c], k as int) {
                    assert(s@.subrange(k as int, k + 1)[0] == s@[k as int]);
                }
            }
            lemma_find_from_step(s@, seq![c], k as int);
        }
        k = k + 1;
    }
}


/// `s` with one trailing carriage return removed, as `str::lines`
/// strips it.
pub open spec fn strip_cr(s: Seq<char>) -> Seq<char> {
    if s.len() > 0 && s.last() == '\r' {
        s.drop_last()
    } else {
        s
    }
}

/// The lines of `s`, as `str::lines` splits them: pieces between
/// newlines, each without a trailing carriage return, and no final
/// empty piece when the text ends with a newline.
pub open spec fn lines_spec(s: Seq<char>) -> Seq<Seq<char>>
    decreases s.len(),
    via lines_spec_dec
{
    if s.len() == 0 {
        Seq::empty()
    } else {
        match find_from(s, seq!['\n'], 0) {
            None => seq![strip_cr(s)],
            Some(i) => seq![strip_cr(s.take(i))] + lines_spec(s.skip(i + 1)),
        }
    }
}

#[via_fn]
proof fn lines_spec_dec(s: Seq<char>) {
    if s.len() > 0 {
        match find_from(s, seq!['\n'], 0) {
            None => {},
            Some(i) => {
                lemma_find_from(s, seq!['\n'], 0);
            },
        }
    }
}

/// Trimmed non-empty lines joined with single newlines, folded left to
/// right onto `acc`.
pub open spec fn norm_cat(acc: Seq<char>, ls: Seq<Seq<char>>) -> Seq<char>
    decreases ls.len(),
{
    if ls.len() == 0 {
        acc
    } else {
        let t = trim_spec(ls[0]);
        norm_cat(
            if t.len() == 0 {
                acc
            } else if acc.len() == 0 {
                t
            } else {
                acc + seq!['\n'] + t
            },
            ls.drop_first(),
        )
    }
}

/// The whitespace-normalized form of `s`: each line trimmed, empty
/// lines dropped, the rest joined with single newlines.
pub open spec fn normalize_lines_spec(s: Seq<char>) -> Seq<char> {
    norm_cat(Seq::empty(), lines_spec(s))
}

/// Normalize whitespace: trim every line, drop empty lines, join the
/// rest with single newlines.
pub fn normalize_lines(s: &str) -> (r: String)
    ensures
        r@ == normalize_lines_spec(s@),
{
    let mut out = String::new();
    let mut rem: &str = s;
    loop
        invariant
            norm_cat(out@, lines_spec(rem@)) == normalize_lines_spec(s@),
        decreases rem@.len(),
    {
        let nrem = rem.unicode_len();
        if nrem == 0 {
            return out;
        }
        let ghost old_rem = rem@;
        let ghost old_out = out@;
        let (line, next): (&str, &str) = match find_char_from(rem, '\n', 0) {
            Some(i) => {
                proof {
                    lemma_find_from(rem@, seq!['\n'], 0);
                }
                (rem.substring_char(0, i), rem.substring_char(i + 1, nrem))
            },
            None => (rem, rem.substring_char(nrem, nrem)),
        };
        let nline = line.unicode_len();
        let stripped: &str = if nline > 0 && line.get_char(nline - 1) == '\r' {
            line.substring_char(0, nline - 1)
        } else {
            line
        };
        let t = trim_exec(stripped);
        if t.unicode_len() > 0 {
            if !out.as_str().is_empty() {
                out.append("\n");
                proof {
                    reveal_strlit("\n");
                    assert("\n"@ =~= seq!['\n']);
                }
            }
            out.append(t);
        }
        proof {
            match find_from(old_rem, seq!['\n'], 0) {
                Some(i) => {
                    assert(line@ =~= old_rem.take(i));
                    assert(next@ =~= old_rem.skip(i + 1));
                    assert(stripped@ == strip_cr(line@));
                    assert(lines_spec(old_rem) == seq![strip_cr(old_rem.take(i))] + lines_spec(
                        next@,
                    ));
                    let ls = lines_spec(old_rem);
                    assert(ls[0] == strip_cr(line@));
                    assert(ls.drop_first() =~= lines_spec(next@));
                    if t@.len() == 0 {
                        assert(out@ == old_out);
                    } else if old_out.len() == 0 {
                        assert(out@ =~= t@);
                    } else {
                        assert(out@ =~= old_out + seq!['\n'] + t@);
                    }
                },
                None => {
                    assert(line == rem);
                    assert(next@ =~= Seq::<char>::empty());
                    assert(stripped@ == strip_cr(old_rem));
                    let ls = lines_spec(old_rem);
                    assert(ls == seq![strip_cr(old_rem)]);
                    assert(ls[0] == strip_cr(old_rem));
                    assert(ls.drop_first() =~= lines_spec(next@));
                    if t@.len() == 0 {
                        assert(out@ == old_out);
                    } else if old_out.len() == 0 {
                        assert(out@ =~= t@);
                    } else {
                        assert(out@ =~= old_out + seq!['\n'] + t@);
                    }
                },
            }
        }
        rem = next;
    }
}


/// The end of the whitespace-delimited token that begins at `i`: the
/// first position at or after `i` holding whitespace.
pub open spec fn token_end(s: Seq<char>, i: int) -> int
    decreases s.len() - i,
{
    if i < 0 || i >= s.len() {
        i
    } else if !is_space_char(s[i]) {
        token_end(s, i + 1)
    } else {
        i
    }
}

pub proof fn lemma_token_end_bounds(s: Seq<char>, i: int)
    requires
        0 <= i <= s.len(),
    ensures
        i <= token_end(s, i) <= s.len(),
    decreases s.len() - i,
{
    if i < s.len() && !is_space_char(s[i]) {
        lemma_token_end_bounds(s, i + 1);
    }
}

/// The whitespace-delimited tokens of `s` at or after `i`, in order.
pub open spec fn split_ws_from(s: Seq<char>, i: int) -> Seq<Seq<char>>
    decreases s.len() - i,
    via split_ws_from_dec
{
    if i < 0 || i >= s.len() {
        Seq::empty()
    } else if is_space_char(s[i]) {
        split_ws_from(s, i + 1)
    } else {
        seq![s.subrange(i, token_end(s, i))] + split_ws_from(s, token_end(s, i))
    }
}

#[via_fn]
proof fn split_ws_from_dec(s: Seq<char>, i: int) {
    if 0 <= i < s.len() && !is_space_char(s[i]) {
        lemma_token_end_bounds(s, i + 1);
    }
}

/// The whitespace-delimited tokens of `s`, as `str::split_whitespace`
/// yields them.
pub open spec fn split_ws(s: Seq<char>) -> Seq<Seq<char>> {
    split_ws_from(s, 0)
}

/// The whitespace-delimited tokens of `s`, per `split_ws`.
pub fn split_ws_exec(s: &str) -> (r: Vec<String>)
    ensures
        r.deep_view() == split_ws(s@),
{
    let n = s.unicode_len();
    let mut out: Vec<String> = Vec::new();
    let mut i: usize = 0;
    proof {
        assert(out.deep_view() + split_ws_from(s@, 0) =~= split_ws_from(s@, 0));
    }
    while i < n
        invariant
            n == s@.len(),
            i <= n,
            split_ws(s@) == out.deep_view() + split_ws_from(s@, i as int),
        decreases n - i,
    {
        if is_space(s.get_char(i)) {
            i = i + 1;
        } else {
            let mut e: usize = i;
            while e < n && !is_space(s.get_char(e))
                invariant
                    n == s@.len(),
                    i <= e <= n,
                    token_end(s@, i as int) == token_end(s@, e as int),
                decreases n - e,
            {
                e = e + 1;
            }
            proof {
                assert(token_end(s@, e as int) == e);
            }
            let ghost old_out = out.deep_view();
            let tok = s.substring_char(i, e);
            out.push(tok.to_owned());
            proof {
                assert(tok@ =~= s@.subrange(i as int, e as int));
                assert(out.deep_view() =~= old_out + seq![s@.subrange(i as int, e as int)]);
                assert(split_ws_from(s@, i as int) == seq![s@.subrange(i as int, e as int)]
                    + split_ws_from(s@, e as int));
                assert(out.deep_view() + split_ws_from(s@, e as int) =~= old_out + split_ws_from(
                    s@,
                    i as int,
                ));
            }
            i = e;
        }
    }
    proof {
        assert(out.deep_view() + split_ws_from(s@, n as int) =~= out.deep_view());
    }
    out
}

/// `s` without trailing whitespace, per `trim_end_spec`.
pub fn trim_end_exec<'a>(s: &'a str) -> (r: &'a str)
    ensures
        r@ == trim_end_spec(s@),
{
    let n = s.unicode_len();
    let mut b: usize = n;
    proof {
        assert(s@.take(n as int) =~= s@);
    }
    while b > 0 && is_space(s.get_char(b - 1))
        invariant
            n == s@.len(),
            b <= n,
            last_non_space(s@) == last_non_space(s@.take(b as int)),
        decreases b,
    {
        proof {
            let t = s@.take(b as int);
            assert(t.last() == s@[b - 1]);
            assert(t.drop_last() =~= s@.take(b - 1));
        }
        b = b - 1;
    }
    proof {
        let t = s@.take(b as int);
        if b == 0 {
            assert(last_non_space(t) == 0);
        } else {
            assert(t.last() == s@[b - 1]);
            assert(last_non_space(t) == b);
        }
        assert(last_non_space(s@) == b);
    }
    let r = s.substring_char(0, b);
    proof {
        assert(r@ =~= trim_end_spec(s@));
    }
    r
}

/// The byte length of the UTF-8 encoding of `s` (what `str::len`
/// returns).
pub open spec fn blen(s: Seq<char>) -> int {
    (vstd::utf8::encode_utf8(s).len() as usize) as int
}

/// One greedy word-wrap fold over the tokens of a line, from token
/// `i`, carrying the wrapped output and the line being built: a token
/// that would push the current line past `width` bytes first flushes
/// it (unless it holds only whitespace), and tokens on a non-blank
/// line are separated by single spaces.  The result is the pair of the
/// wrapped output and the unfinished line.
pub open spec fn wrap_words(
    ws: Seq<Seq<char>>,
    i: int,
    width: int,
    prefix: Seq<char>,
    acc: Seq<char>,
    current: Seq<char>,
) -> (Seq<char>, Seq<char>)
    decreases ws.len() - i,
{
    if i < 0 || i >= ws.len() {
        (acc, current)
    } else {
        let w = ws[i];
        let flush = blen(current) + blen(w) + 1 > width && trim_end_spec(current).len() > 0;
        let acc1 = if flush {
            acc + current + seq!['\n']
        } else {
            acc
        };
        let cur1 = if flush {
            prefix
        } else {
            current
        };
        let cur2 = if trim_end_spec(cur1).len() > 0 {
            cur1 + seq![' '] + w
        } else {
            cur1 + w
        };
        wrap_words(ws, i + 1, width, prefix, acc1, cur2)
    }
}

/// One line folded onto the wrapped output: a line holding only
/// whitespace becomes a bare newline; any other line is word-wrapped
/// and its unfinished remainder flushed unless blank.
pub open spec fn wrap_one_line(
    line: Seq<char>,
    width: int,
    prefix: Seq<char>,
    acc: Seq<char>,
) -> Seq<char> {
    if trim_spec(line).len() == 0 {
        acc + seq!['\n']
    } else {
        let r = wrap_words(split_ws(line), 0, width, prefix, acc, prefix);
        if trim_spec(r.1).len() > 0 {
            r.0 + r.1 + seq!['\n']
        } else {
            r.0
        }
    }
}

/// All lines folded onto the wrapped output, in order.
pub open spec fn wrap_lines(
    ls: Seq<Seq<char>>,
    width: int,
    prefix: Seq<char>,
    acc: Seq<char>,
) -> Seq<char>
    decreases ls.len(),
{
    if ls.len() == 0 {
        acc
    } else {
        wrap_lines(ls.drop_first(), width, prefix, wrap_one_line(ls[0], width, prefix, acc))
    }
}

/// `text` wrapped greedily to `width` bytes per line, each output line
/// beginning with `prefix`, blank input lines kept as blank lines, and
/// trailing whitespace trimmed from the whole result.
pub open spec fn wrap_text_spec(text: Seq<char>, width: int, prefix: Seq<char>) -> Seq<char> {
    trim_end_spec(wrap_lines(lines_spec(text), width, prefix, Seq::empty()))
}

/// Wrap `text` to `width` bytes per line, per `wrap_text_spec`.
pub fn wrap_text(text: &str, width: usize, prefix: &str) -> (r: String)
    ensures
        r@ == wrap_text_spec(text@, width as int, prefix@),
{
    let mut wrapped = String::new();
    let mut rem: &str = text;
    loop
        invariant
            wrap_lines(lines_spec(rem@), width as int, prefix@, wrapped@) == wrap_lines(
                lines_spec(text@),
                width as int,
                prefix@,
                Seq::empty(),
            ),
        decreases rem@.len(),
    {
        let nrem = rem.unicode_len();
        if nrem == 0 {
            return trim_end_exec(wrapped.as_str()).to_owned();
        }
        let ghost old_rem = rem@;
        let ghost old_wrapped = wrapped@;
        let (line, next): (&str, &str) = match find_char_from(rem, '\n', 0) {
            Some(i) => {
                proof {
                    lemma_find_from(rem@, seq!['\n'], 0);
                }
                (rem.substring_char(0, i), rem.substring_char(i + 1, nrem))
            },
            None => (rem, rem.substring_char(nrem, nrem)),
        };
        let nline = line.unicode_len();
        let stripped: &str = if nline > 0 && line.get_char(nline - 1) == '\r' {
            line.substring_char(0, nline - 1)
        } else {
            line
        };
        proof {
            match find_from(old_rem, seq!['\n'], 0) {
                Some(i) => {
                    assert(line@ =~= old_rem.take(i));
                    assert(next@ =~= old_rem.skip(i + 1));
                    assert(stripped@ == strip_cr(line@));
                    let ls = lines_spec(old_rem);
                    assert(ls == seq![strip_cr(old_rem.take(i))] + lines_spec(next@));
                    assert(ls[0] == stripped@);
                    assert(ls.drop_first() =~= lines_spec(next@));
                },
                None => {
                    assert(next@ =~= Seq::<char>::empty());
                    assert(stripped@ == strip_cr(old_rem));
                    let ls = lines_spec(old_rem);
                    assert(ls == seq![strip_cr(old_rem)]);
                    assert(ls[0] == stripped@);
                    assert(ls.drop_first() =~= lines_spec(next@));
                },
            }
        }
        let t = trim_exec(stripped);
        if t.unicode_len() == 0 {
            wrapped.append("\n");
            proof {
                reveal_strlit("\n");
                assert("\n"@ =~= seq!['\n']);
                assert(wrapped@ == wrap_one_line(stripped@, width as int, prefix@, old_wrapped));
            }
        } else {
            let words = split_ws_exec(stripped);
            let nw = words.len();
            let mut current = prefix.to_owned();
            let mut j: usize = 0;
            while j < nw
                invariant
                    nw == words@.len(),
                    j <= nw,
                    words.deep_view() == split_ws(stripped@),
                    wrap_words(
                        words.deep_view(),
                        j as int,
                        width as int,
                        prefix@,
                        wrapped@,
                        current@,
                    ) == wrap_words(
                        words.deep_view(),
                        0,
                        width as int,
                        prefix@,
                        old_wrapped,
                        prefix@,
                    ),
                decreases nw - j,
            {
                let ghost ws_g = words.deep_view();
                let ghost acc0 = wrapped@;
                let ghost cur0 = current@;
                let word = &words[j];
                proof {
                    assert(ws_g[j as int] == words@[j as int]@);
                }
                let cl: u128 = current.as_str().len() as u128;
                let wl: u128 = word.as_str().len() as u128;
                let over = cl + wl + 1 > width as u128;
                let cur_trimmed_end = trim_end_exec(current.as_str());
                let flush = over && cur_trimmed_end.unicode_len() > 0;
                proof {
                    reveal_strlit("\n");
                    reveal_strlit(" ");
                    assert("\n"@ =~= seq!['\n']);
                    assert(" "@ =~= seq![' ']);
                    assert(flush == (blen(cur0) + blen(ws_g[j as int]) + 1 > width
                        && trim_end_spec(cur0).len() > 0));
                }
                if flush {
                    wrapped.append(current.as_str());
                    wrapped.append("\n");
                    current = prefix.to_owned();
                }
                let ghost acc1 = wrapped@;
                let ghost cur1 = current@;
                proof {
                    assert(acc1 == if flush { acc0 + cur0 + seq!['\n'] } else { acc0 });
                    assert(cur1 == if flush { prefix@ } else { cur0 });
                }
                let cur_trimmed_end2 = trim_end_exec(current.as_str());
                if cur_trimmed_end2.unicode_len() > 0 {
                    current.append(" ");
                }
                current.append(word.as_str());
                proof {
                    let w = ws_g[j as int];
                    assert(current@ == if trim_end_spec(cur1).len() > 0 {
                        cur1 + seq![' '] + w
                    } else {
                        cur1 + w
                    });
                    assert(wrap_words(ws_g, j as int, width as int, prefix@, acc0, cur0)
                        == wrap_words(ws_g, j + 1, width as int, prefix@, acc1, current@));
                }
                j = j + 1;
            }
            if trim_exec(current.as_str()).unicode_len() > 0 {
                wrapped.append(current.as_str());
                wrapped.append("\n");
                proof {
                    reveal_strlit("\n");
                    assert("\n"@ =~= seq!['\n']);
                }
            }
            proof {
                assert(wrapped@ == wrap_one_line(stripped@, width as int, prefix@, old_wrapped));
            }
        }
        rem = next;
    }
}

/// The first `n` characters of `s` (all of `s` if it is shorter).
pub fn take_chars<'a>(s: &'a str, n: usize) -> (r: &'a str)
    ensures
        r@ == if n <= s@.len() {
            s@.take(n as int)
        } else {
            s@
        },
{
    let len = s.unicode_len();
    if n <= len {
        let r = s.substring_char(0, n);
        proof {
            assert(r@ =~= s@.take(n as int));
        }
        r
    } else {
        s
    }
}

} // verus!
