//! Character-level text primitives: substring search, trimming, line
//! splitting. The executable functions work on `&str` and are specified
//! against recursive functions over the `Seq<char>` view.

use vstd::prelude::*;

verus! {

/// The pattern `pat` occurs in `s` at position `i`.
pub open spec fn is_match_at(s: Seq<char>, pat: Seq<char>, i: int) -> bool {
    0 <= i && i + pat.len() <= s.len() && s.subrange(i, i + pat.len()) == pat
}

/// The pattern occurs somewhere in `s`.
pub open spec fn contains_pat(s: Seq<char>, pat: Seq<char>) -> bool {
    exists|i: int| is_match_at(s, pat, i)
}

/// `s` begins with `pat`.
pub open spec fn starts_with(s: Seq<char>, pat: Seq<char>) -> bool {
    pat.len() <= s.len() && s.subrange(0, pat.len() as int) == pat
}

/// Position of the first occurrence of `pat` in `s` at or after `i`.
pub open spec fn find_from(s: Seq<char>, pat: Seq<char>, i: int) -> Option<int>
    decreases s.len() - i when 0 <= i
{
    if i < 0 || i + pat.len() > s.len() {
        None
    } else if pat.len() == 0 {
        Some(i)
    } else if s.subrange(i, i + pat.len()) == pat {
        Some(i)
    } else {
        find_from(s, pat, i + 1)
    }
}

/// Position of the first occurrence of `pat` in `s`, if any.
pub open spec fn find_pat(s: Seq<char>, pat: Seq<char>) -> Option<int> {
    find_from(s, pat, 0)
}

/// `find_from` returns the first match at or after `i`, or `None` when
/// there is none.
pub proof fn lemma_find_from_props(s: Seq<char>, pat: Seq<char>, i: int)
    requires
        0 <= i <= s.len(),
    ensures
        match find_from(s, pat, i) {
            Some(j) => i <= j && is_match_at(s, pat, j) && (forall|k: int|
                i <= k < j ==> !is_match_at(s, pat, k)),
            None => forall|k: int| k >= i ==> !is_match_at(s, pat, k),
        },
    decreases s.len() - i,
{
    if i + pat.len() > s.len() {
        assert forall|k: int| k >= i implies !is_match_at(s, pat, k) by {
            assert(k + pat.len() > s.len());
        }
    } else if pat.len() == 0 {
        assert(s.subrange(i, i + pat.len()) =~= pat);
    } else if s.subrange(i, i + pat.len()) == pat {
    } else {
        lemma_find_from_props(s, pat, i + 1);
        assert(!is_match_at(s, pat, i));
    }
}

/// If `pat` matches at `i` and nowhere earlier, the search finds `i`.
pub proof fn lemma_find_pat_exact(s: Seq<char>, pat: Seq<char>, i: int)
    requires
        is_match_at(s, pat, i),
        forall|k: int| 0 <= k < i ==> !is_match_at(s, pat, k),
    ensures
        find_pat(s, pat) == Some(i),
{
    lemma_find_from_props(s, pat, 0);
    match find_from(s, pat, 0) {
        Some(j) => {
            if j < i {
                assert(is_match_at(s, pat, j));
            } else if j > i {
                assert(!is_match_at(s, pat, i));
            }
        },
        None => {
            assert(!is_match_at(s, pat, i));
        },
    }
}

/// Whether `pat` occurs in `s` at position `i`, by characters.
fn match_at(s: &str, pat: &str, i: usize) -> (r: bool)
    requires
        i + pat@.len() <= s@.len(),
    ensures
        r == is_match_at(s@, pat@, i as int),
{
    let plen = pat.unicode_len();
    let slen = s.unicode_len();
    let mut j: usize = 0;
    while j < plen
        invariant
            0 <= j <= plen,
            plen == pat@.len(),
            slen == s@.len(),
            i + plen <= s@.len(),
            forall|t: int| 0 <= t < j ==> s@[i + t] == pat@[t],
        decreases plen - j,
    {
        if s.get_char(i + j) != pat.get_char(j) {
            proof {
                let sub = s@.subrange(i as int, i + plen);
                assert(sub.len() == plen);
                assert(sub[j as int] == s@[i + j]);
            }
            return false;
        }
        j = j + 1;
    }
    proof {
        assert(s@.subrange(i as int, i + plen) =~= pat@);
    }
    true
}

/// `s` begins with `pat`, by characters.
pub fn starts_with_str(s: &str, pat: &str) -> (r: bool)
    ensures
        r == starts_with(s@, pat@),
{
    let plen = pat.unicode_len();
    let slen = s.unicode_len();
    if plen > slen {
        return false;
    }
    let r = match_at(s, pat, 0);
    proof {
        assert(is_match_at(s@, pat@, 0) == starts_with(s@, pat@));
    }
    r
}

/// Position of the first occurrence of `pat` in `s`, by characters.
pub fn find_str(s: &str, pat: &str) -> (r: Option<usize>)
    ensures
        match r {
            Some(i) => find_pat(s@, pat@) == Some(i as int),
            None => find_pat(s@, pat@) is None,
        },
{
    let plen = pat.unicode_len();
    let slen = s.unicode_len();
    if plen > slen {
        proof {
            lemma_find_from_props(s@, pat@, 0);
            if let Some(j) = find_pat(s@, pat@) {
                assert(is_match_at(s@, pat@, j));
            }
        }
        return None;
    }
    if plen == 0 {
        proof {
            assert(s@.subrange(0, 0) =~= pat@);
            assert(is_match_at(s@, pat@, 0));
            lemma_find_pat_exact(s@, pat@, 0);
        }
        return Some(0);
    }
    let mut i: usize = 0;
    while i <= slen - plen
        invariant
            0 <= i <= slen - plen + 1,
            plen == pat@.len(),
            slen == s@.len(),
            1 <= plen <= slen,
            forall|k: int| 0 <= k < i ==> !is_match_at(s@, pat@, k),
        decreases slen - i,
    {
        if match_at(s, pat, i) {
            proof {
                lemma_find_pat_exact(s@, pat@, i as int);
            }
            return Some(i);
        }
        i = i + 1;
    }
    proof {
        lemma_find_from_props(s@, pat@, 0);
        if let Some(j) = find_pat(s@, pat@) {
            assert(is_match_at(s@, pat@, j));
        }
    }
    None
}

/// Whether `pat` occurs anywhere in `s`, by characters.
pub fn contains_str(s: &str, pat: &str) -> (r: bool)
    ensures
        r == contains_pat(s@, pat@),
{
    let r = find_str(s, pat);
    proof {
        lemma_find_from_props(s@, pat@, 0);
        match find_pat(s@, pat@) {
            Some(j) => {
                assert(is_match_at(s@, pat@, j));
            },
            None => {},
        }
    }
    r.is_some()
}

/// Equality test of two string slices, by characters.
pub fn str_eq(a: &str, b: &str) -> (r: bool)
    ensures
        r == (a@ == b@),
{
    let alen = a.unicode_len();
    let blen = b.unicode_len();
    if alen != blen {
        return false;
    }
    let mut i: usize = 0;
    while i < alen
        invariant
            0 <= i <= alen,
            alen == a@.len(),
            alen == b@.len(),
            forall|j: int| 0 <= j < i ==> a@[j] == b@[j],
        decreases alen - i,
    {
        if a.get_char(i) != b.get_char(i) {
            assert(a@ != b@);
            return false;
        }
        i = i + 1;
    }
    proof {
        assert(a@ =~= b@);
    }
    true
}

/// Whitespace for the purpose of trimming log lines.
pub open spec fn is_space(c: char) -> bool {
    c == ' ' || c == '\t' || c == '\r' || c == '\n'
}

/// First position at or after `i` holding a non-space, or the length.
pub open spec fn trim_start_ix(s: Seq<char>, i: int) -> int
    decreases s.len() - i when 0 <= i
{
    if i < 0 || i >= s.len() {
        s.len() as int
    } else if !is_space(s[i]) {
        i
    } else {
        trim_start_ix(s, i + 1)
    }
}

/// Position after the last non-space of `s`, or zero.
pub open spec fn trim_end_ix(s: Seq<char>) -> int
    decreases s.len()
{
    if s.len() == 0 {
        0
    } else if !is_space(s[s.len() - 1]) {
        s.len() as int
    } else {
        trim_end_ix(s.drop_last())
    }
}

/// `s` without leading and trailing whitespace.
pub open spec fn trim_of(s: Seq<char>) -> Seq<char> {
    let a = trim_start_ix(s, 0);
    let b = trim_end_ix(s);
    if a < b {
        s.subrange(a, b)
    } else {
        Seq::empty()
    }
}

pub proof fn lemma_trim_start_ix(s: Seq<char>, i: int)
    requires
        0 <= i <= s.len(),
    ensures
        i <= trim_start_ix(s, i) <= s.len(),
        forall|k: int| i <= k < trim_start_ix(s, i) ==> is_space(s[k]),
        trim_start_ix(s, i) < s.len() ==> !is_space(s[trim_start_ix(s, i)]),
    decreases s.len() - i,
{
    if i < s.len() && is_space(s[i]) {
        lemma_trim_start_ix(s, i + 1);
    }
}

pub proof fn lemma_trim_end_ix(s: Seq<char>)
    ensures
        0 <= trim_end_ix(s) <= s.len(),
        forall|k: int| trim_end_ix(s) <= k < s.len() ==> is_space(s[k]),
        trim_end_ix(s) > 0 ==> !is_space(s[trim_end_ix(s) - 1]),
    decreases s.len(),
{
    if s.len() > 0 && is_space(s[s.len() - 1]) {
        lemma_trim_end_ix(s.drop_last());
        assert forall|k: int| trim_end_ix(s) <= k < s.len() implies is_space(s[k]) by {
            if k < s.len() - 1 {
                assert(s.drop_last()[k] == s[k]);
            }
        }
        if trim_end_ix(s) > 0 {
            assert(s.drop_last()[trim_end_ix(s) - 1] == s[trim_end_ix(s) - 1]);
        }
    }
}

/// `s` with leading and trailing whitespace removed, by characters.
pub fn trim_str<'a>(s: &'a str) -> (r: &'a str)
    ensures
        r@ == trim_of(s@),
{
    let slen = s.unicode_len();
    proof {
        lemma_trim_start_ix(s@, 0);
        lemma_trim_end_ix(s@);
    }
    let mut a: usize = 0;
    while a < slen && is_space_char(s.get_char(a))
        invariant
            0 <= a <= slen,
            slen == s@.len(),
            forall|k: int| 0 <= k < a ==> is_space(s@[k]),
        decreases slen - a,
    {
        a = a + 1;
    }
    assert(a == trim_start_ix(s@, 0)) by {
        lemma_trim_start_ix(s@, 0);
    }
    let mut b: usize = slen;
    while b > 0 && is_space_char(s.get_char(b - 1))
        invariant
            0 <= b <= slen,
            slen == s@.len(),
            forall|k: int| b <= k < slen ==> is_space(s@[k]),
        decreases b,
    {
        b = b - 1;
    }
    assert(b == trim_end_ix(s@)) by {
        lemma_trim_end_ix(s@);
    }
    if a < b {
        s.substring_char(a, b)
    } else {
        proof {
            reveal_strlit("");
            assert(""@ =~= trim_of(s@));
        }
        ""
    }
}

/// Whitespace test on one character.
pub fn is_space_char(c: char) -> (r: bool)
    ensures
        r == is_space(c),
{
    c == ' ' || c == '\t' || c == '\r' || c == '\n'
}

/// `s` with every leading repetition of `pat` removed.
pub open spec fn strip_prefix_reps(s: Seq<char>, pat: Seq<char>) -> Seq<char>
    decreases s.len() when pat.len() > 0
{
    if pat.len() > 0 && starts_with(s, pat) {
        strip_prefix_reps(s.subrange(pat.len() as int, s.len() as int), pat)
    } else {
        s
    }
}

/// `s` with every leading repetition of `pat` removed, by characters.
pub fn strip_prefix_reps_str<'a>(s: &'a str, pat: &str) -> (r: &'a str)
    requires
        pat@.len() > 0,
    ensures
        r@ == strip_prefix_reps(s@, pat@),
{
    let plen = pat.unicode_len();
    let mut cur: &str = s;
    loop
        invariant
            plen == pat@.len(),
            plen > 0,
            strip_prefix_reps(cur@, pat@) == strip_prefix_reps(s@, pat@),
        decreases cur@.len(),
    {
        if starts_with_str(cur, pat) {
            let clen = cur.unicode_len();
            cur = cur.substring_char(plen, clen);
        } else {
            return cur;
        }
    }
}

/// Position of the first occurrence of `c` in `s` at or after `i`.
pub open spec fn char_find(s: Seq<char>, c: char, i: int) -> Option<int>
    decreases s.len() - i when 0 <= i
{
    if i < 0 || i >= s.len() {
        None
    } else if s[i] == c {
        Some(i)
    } else {
        char_find(s, c, i + 1)
    }
}

pub proof fn lemma_char_find_props(s: Seq<char>, c: char, i: int)
    requires
        0 <= i,
    ensures
        match char_find(s, c, i) {
            Some(j) => i <= j < s.len() && s[j] == c && (forall|k: int|
                i <= k < j ==> s[k] != c),
            None => forall|k: int| i <= k < s.len() ==> s[k] != c,
        },
    decreases s.len() - i,
{
    if i < s.len() && s[i] != c {
        lemma_char_find_props(s, c, i + 1);
    }
}

/// Position of the last occurrence of `c` in `s`.
pub open spec fn char_rfind(s: Seq<char>, c: char) -> Option<int>
    decreases s.len()
{
    if s.len() == 0 {
        None
    } else if s[s.len() - 1] == c {
        Some(s.len() - 1)
    } else {
        char_rfind(s.drop_last(), c)
    }
}

pub proof fn lemma_char_rfind_props(s: Seq<char>, c: char)
    ensures
        match char_rfind(s, c) {
            Some(j) => 0 <= j < s.len() && s[j] == c && (forall|k: int|
                j < k < s.len() ==> s[k] != c),
            None => forall|k: int| 0 <= k < s.len() ==> s[k] != c,
        },
    decreases s.len(),
{
    if s.len() > 0 && s[s.len() - 1] != c {
        lemma_char_rfind_props(s.drop_last(), c);
        assert(forall|k: int| 0 <= k < s.len() - 1 ==> s.drop_last()[k] == s[k]);
    }
}

/// Position of the last occurrence of `c` in `s`, by characters.
pub fn rfind_char(s: &str, c: char) -> (r: Option<usize>)
    ensures
        match r {
            Some(i) => char_rfind(s@, c) == Some(i as int),
            None => char_rfind(s@, c) is None,
        },
{
    let slen = s.unicode_len();
    proof {
        lemma_char_rfind_props(s@, c);
    }
    let mut b: usize = slen;
    while b > 0
        invariant
            0 <= b <= slen,
            slen == s@.len(),
            forall|k: int| b <= k < slen ==> s@[k] != c,
        decreases b,
    {
        if s.get_char(b - 1) == c {
            proof {
                lemma_char_rfind_props(s@, c);
                match char_rfind(s@, c) {
                    Some(j) => {
                        if j < b - 1 {
                            assert(s@[b - 1] != c);
                        }
                    },
                    None => {
                        assert(s@[b - 1] != c);
                    },
                }
            }
            return Some(b - 1);
        }
        b = b - 1;
    }
    proof {
        lemma_char_rfind_props(s@, c);
        if let Some(j) = char_rfind(s@, c) {
            assert(s@[j] != c);
        }
    }
    None
}

/// A line with a trailing carriage return removed.
pub open spec fn strip_cr(l: Seq<char>) -> Seq<char> {
    if l.len() > 0 && l[l.len() - 1] == '\r' {
        l.drop_last()
    } else {
        l
    }
}

/// The lines of `s`: split at every newline, each line stripped of one
/// trailing carriage return; a trailing newline opens no further line.
pub open spec fn lines_of(s: Seq<char>) -> Seq<Seq<char>>
    decreases s.len()
{
    if s.len() == 0 {
        Seq::empty()
    } else {
        match char_find(s, '\n', 0) {
            Some(i) => if 0 <= i < s.len() {
                seq![strip_cr(s.subrange(0, i))] + lines_of(
                    s.subrange(i + 1, s.len() as int),
                )
            } else {
                seq![strip_cr(s)]
            },
            None => seq![strip_cr(s)],
        }
    }
}

/// Split `s` into its lines, by characters.
pub fn split_lines(s: &str) -> (r: Vec<String>)
    ensures
        r@.map_values(|l: String| l@) == lines_of(s@),
{
    let slen = s.unicode_len();
    let mut res: Vec<String> = Vec::new();
    let mut start: usize = 0;
    let mut i: usize = 0;
    proof {
        assert(res@.map_values(|l: String| l@) =~= Seq::<Seq<char>>::empty());
        assert(s@.subrange(0, slen as int) =~= s@);
    }
    while i < slen
        invariant
            0 <= start <= i <= slen,
            slen == s@.len(),
            forall|j: int| start <= j < i ==> s@[j] != '\n',
            lines_of(s@) =~= res@.map_values(|l: String| l@) + lines_of(
                s@.subrange(start as int, slen as int),
            ),
        decreases slen - i,
    {
        if s.get_char(i) == '\n' {
            let line_end: usize = if i > start && s.get_char(i - 1) == '\r' {
                i - 1
            } else {
                i
            };
            let line = s.substring_char(start, line_end).to_owned();
            proof {
                let suffix = s@.subrange(start as int, slen as int);
                lemma_char_find_props(suffix, '\n', 0);
                match char_find(suffix, '\n', 0) {
                    Some(j) => {
                        if j < i - start {
                            assert(suffix[j] == s@[start + j]);
                        } else if j > i - start {
                            assert(suffix[i - start] == s@[i as int]);
                        }
                        assert(j == i - start);
                    },
                    None => {
                        assert(suffix[i - start] == s@[i as int]);
                    },
                }
                assert(suffix.subrange(0, i - start) =~= s@.subrange(
                    start as int,
                    i as int,
                ));
                assert(suffix.subrange(i - start + 1, suffix.len() as int) =~= s@.subrange(
                    i + 1,
                    slen as int,
                ));
                assert(line@ == strip_cr(s@.subrange(start as int, i as int)));
                assert((res@.push(line)).map_values(|l: String| l@) =~= res@.map_values(
                    |l: String| l@,
                ).push(line@));
            }
            res.push(line);
            start = i + 1;
        }
        i = i + 1;
    }
    if start < slen {
        let line_end: usize = if s.get_char(slen - 1) == '\r' {
            slen - 1
        } else {
            slen
        };
        let line = s.substring_char(start, line_end).to_owned();
        proof {
            let suffix = s@.subrange(start as int, slen as int);
            lemma_char_find_props(suffix, '\n', 0);
            if let Some(j) = char_find(suffix, '\n', 0) {
                assert(suffix[j] == s@[start + j]);
            }
            assert(line@ == strip_cr(suffix));
            assert((res@.push(line)).map_values(|l: String| l@) =~= res@.map_values(
                |l: String| l@,
            ).push(line@));
        }
        res.push(line);
    } else {
        proof {
            assert(s@.subrange(start as int, slen as int).len() == 0);
        }
    }
    proof {
        assert(res@.map_values(|l: String| l@) =~= lines_of(s@));
    }
    res
}

/// ASCII lower-casing of one character; anything outside `A`..`Z` is kept.
pub open spec fn ascii_lower(c: char) -> char {
    if 'A' <= c && c <= 'Z' {
        (((c as u8) + 32) as u8) as char
    } else {
        c
    }
}

/// `s` mapped to ASCII lower case.
pub open spec fn lower_seq(s: Seq<char>) -> Seq<char> {
    s.map_values(|c: char| ascii_lower(c))
}

/// ASCII lower-casing of one character, by cases.
pub fn ascii_lower_char(c: char) -> (r: char)
    ensures
        r == ascii_lower(c),
{
    if 'A' <= c && c <= 'Z' {
        ((c as u8) + 32) as char
    } else {
        c
    }
}

/// Whether `pat` occurs in `s` when `s` is taken in ASCII lower case
/// (`pat` is given already lower-cased), by characters.
pub fn contains_str_ci(s: &str, pat: &str) -> (r: bool)
    ensures
        r == contains_pat(lower_seq(s@), pat@),
{
    let plen = pat.unicode_len();
    let slen = s.unicode_len();
    proof {
        assert(lower_seq(s@).len() == s@.len());
    }
    if plen > slen {
        proof {
            assert forall|k: int| !is_match_at(lower_seq(s@), pat@, k) by {}
        }
        return false;
    }
    if plen == 0 {
        proof {
            assert(lower_seq(s@).subrange(0, 0) =~= pat@);
            assert(is_match_at(lower_seq(s@), pat@, 0));
        }
        return true;
    }
    let mut i: usize = 0;
    while i <= slen - plen
        invariant
            0 <= i <= slen - plen + 1,
            plen == pat@.len(),
            slen == s@.len(),
            1 <= plen <= slen,
            lower_seq(s@).len() == slen,
            forall|k: int| 0 <= k < i ==> !is_match_at(lower_seq(s@), pat@, k),
        decreases slen - i,
    {
        let mut j: usize = 0;
        let mut all_eq = true;
        while j < plen
            invariant
                0 <= j <= plen,
                i + plen <= slen,
                plen == pat@.len(),
                slen == s@.len(),
                lower_seq(s@).len() == slen,
                all_eq == (forall|t: int| 0 <= t < j ==> lower_seq(s@)[i + t] == pat@[t]),
            decreases plen - j,
        {
            if ascii_lower_char(s.get_char(i + j)) != pat.get_char(j) {
                proof {
                    assert(lower_seq(s@)[i + j] == ascii_lower(s@[i + j]));
                }
                all_eq = false;
                j = plen;
            } else {
                proof {
                    assert(lower_seq(s@)[i + j] == ascii_lower(s@[i + j]));
                }
                j = j + 1;
            }
        }
        if all_eq {
            proof {
                assert(lower_seq(s@).subrange(i as int, i + plen) =~= pat@);
                assert(is_match_at(lower_seq(s@), pat@, i as int));
            }
            return true;
        }
        proof {
            let ls = lower_seq(s@);
            if is_match_at(ls, pat@, i as int) {
                assert(forall|t: int| 0 <= t < plen ==> #[trigger] ls.subrange(
                    i as int,
                    i + plen,
                )[t] == ls[i + t]);
                assert(forall|t: int| 0 <= t < plen ==> #[trigger] ls[i + t] == pat@[t]);
            }
        }
        i = i + 1;
    }
    proof {
        assert forall|k: int| !is_match_at(lower_seq(s@), pat@, k) by {
            if 0 <= k < i {
            } else {
                assert(k < 0 || k + plen > slen);
            }
        }
    }
    false
}

/// The elements of `list` joined with `sep` between neighbours.
pub open spec fn joined(list: Seq<Seq<char>>, sep: Seq<char>) -> Seq<char>
    decreases list.len()
{
    if list.len() == 0 {
        Seq::empty()
    } else if list.len() == 1 {
        list[0]
    } else {
        joined(list.drop_last(), sep) + sep + list.last()
    }
}

/// Join owned strings with a separator, by characters.
pub fn join_with(list: &Vec<String>, sep: &str) -> (r: String)
    ensures
        r@ == joined(list@.map_values(|v: String| v@), sep@),
{
    let ghost model = list@.map_values(|v: String| v@);
    let mut r = String::new();
    proof {
        assert(r@ =~= joined(model.take(0), sep@));
    }
    let mut i: usize = 0;
    while i < list.len()
        invariant
            0 <= i <= list.len(),
            model == list@.map_values(|v: String| v@),
            model.len() == list@.len(),
            r@ == joined(model.take(i as int), sep@),
        decreases list.len() - i,
    {
        if i > 0 {
            r.append(sep);
        }
        r.append(list[i].as_str());
        proof {
            assert(model.take(i + 1).drop_last() =~= model.take(i as int));
            assert(model.take(i + 1).last() == model[i as int]);
            if i == 0 {
                assert(joined(model.take(1), sep@) == model[0]);
                assert(r@ =~= model[0]);
            }
        }
        i = i + 1;
    }
    proof {
        assert(model.take(list@.len() as int) =~= model);
    }
    r
}

} // verus!
