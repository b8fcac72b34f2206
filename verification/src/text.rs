//! Text primitives of the command line: whitespace, trimming, tokens,
//! separators and decimal numbers, each defined over sequences of
//! characters.

use vstd::prelude::*;
use vstd::string::*;

verus! {

/// Whether `c` is whitespace as Unicode defines it (`White_Space`).
pub open spec fn is_whitespace(c: char) -> bool {
    let u = c as u32;
    ||| 0x09 <= u <= 0x0D
    ||| u == 0x20
    ||| u == 0x85
    ||| u == 0xA0
    ||| u == 0x1680
    ||| 0x2000 <= u <= 0x200A
    ||| u == 0x2028
    ||| u == 0x2029
    ||| u == 0x202F
    ||| u == 0x205F
    ||| u == 0x3000
}

/// Decides `is_whitespace`.
pub fn char_is_whitespace(c: char) -> (r: bool)
    ensures
        r == is_whitespace(c),
{
    let u: u32 = c as u32;
    (0x09 <= u && u <= 0x0D) || u == 0x20 || u == 0x85 || u == 0xA0 || u == 0x1680 || (0x2000 <= u
        && u <= 0x200A) || u == 0x2028 || u == 0x2029 || u == 0x202F || u == 0x205F || u == 0x3000
}

/// The characters of `s`, in order.
pub fn chars_of(s: &str) -> (v: Vec<char>)
    ensures
        v@ == s@,
{
    let mut v: Vec<char> = Vec::new();
    for c in it: s.chars()
        invariant
            it.seq() == s@,
            v@ == s@.take(it.index() as int),
    {
        v.push(c);
    }
    v
}

/// The views of a vector of strings, in order.
pub open spec fn texts(v: Seq<String>) -> Seq<Seq<char>> {
    Seq::new(v.len(), |i: int| v[i]@)
}

/// `s` without its leading whitespace.
pub open spec fn trim_start(s: Seq<char>) -> Seq<char>
    decreases s.len(),
{
    if s.len() > 0 && is_whitespace(s[0]) {
        trim_start(s.drop_first())
    } else {
        s
    }
}

/// `s` without its trailing whitespace.
pub open spec fn trim_end(s: Seq<char>) -> Seq<char>
    decreases s.len(),
{
    if s.len() > 0 && is_whitespace(s.last()) {
        trim_end(s.drop_last())
    } else {
        s
    }
}

/// `s` without leading and trailing whitespace.
pub open spec fn trimmed(s: Seq<char>) -> Seq<char> {
    trim_end(trim_start(s))
}

/// The part of `input` between its leading and its trailing whitespace.
pub fn trim<'a>(input: &'a str) -> (out: &'a str)
    ensures
        out@ == trimmed(input@),
{
    let chars = chars_of(input);
    let n: usize = chars.len();
    let mut from: usize = 0;
    assert(input@.skip(0) =~= input@);
    while from < n && char_is_whitespace(chars[from])
        invariant
            from <= n,
            n == chars@.len(),
            chars@ == input@,
            trim_start(input@) == trim_start(input@.skip(from as int)),
        decreases n - from,
    {
        assert(input@.skip(from as int).drop_first() =~= input@.skip(from as int + 1));
        from += 1;
    }
    let ghost rest = input@.skip(from as int);
    assert(trim_start(input@) == rest);
    let mut to: usize = n;
    assert(input@.subrange(from as int, n as int) =~= rest);
    while to > from && char_is_whitespace(chars[to - 1])
        invariant
            from <= to <= n,
            n == chars@.len(),
            chars@ == input@,
            trim_end(rest) == trim_end(input@.subrange(from as int, to as int)),
        decreases to,
    {
        assert(input@.subrange(from as int, to as int).drop_last() =~= input@.subrange(
            from as int,
            to as int - 1,
        ));
        to -= 1;
    }
    input.substring_char(from, to)
}

/// The words of `s[start..]`, where `s[start..at]` is the word being read
/// (none when `start == at`) and `at` is the next character to look at.
pub open spec fn scan_tokens(s: Seq<char>, start: int, at: int) -> Seq<Seq<char>>
    decreases s.len() - at,
{
    let pending = if start < at {
        seq![s.subrange(start, at)]
    } else {
        Seq::empty()
    };
    if at >= s.len() {
        pending
    } else if is_whitespace(s[at]) {
        pending + scan_tokens(s, at + 1, at + 1)
    } else {
        scan_tokens(s, start, at + 1)
    }
}

/// The maximal runs of non-whitespace characters of `s`, left to right.
pub open spec fn tokens(s: Seq<char>) -> Seq<Seq<char>> {
    scan_tokens(s, 0, 0)
}

/// Whether `word` is a non-empty run of characters that are not
/// whitespace.
pub open spec fn is_word(word: Seq<char>) -> bool {
    &&& word.len() > 0
    &&& forall|k: int| 0 <= k < word.len() ==> !is_whitespace(#[trigger] word[k])
}

/// Whether `s` holds nothing but whitespace.
pub open spec fn is_blank(s: Seq<char>) -> bool {
    forall|k: int| 0 <= k < s.len() ==> is_whitespace(#[trigger] s[k])
}

proof fn lemma_scan_tokens(s: Seq<char>, start: int, at: int)
    requires
        0 <= start <= at <= s.len(),
        forall|k: int| start <= k < at ==> !is_whitespace(#[trigger] s[k]),
    ensures
        forall|i: int|
            0 <= i < scan_tokens(s, start, at).len() ==> is_word(
                #[trigger] scan_tokens(s, start, at)[i],
            ),
        scan_tokens(s, start, at).len() == 0 <==> start == at && is_blank(s.skip(at)),
    decreases s.len() - at,
{
    let pending = if start < at {
        seq![s.subrange(start, at)]
    } else {
        Seq::empty()
    };
    if start < at {
        assert(is_word(s.subrange(start, at)));
    }
    if at >= s.len() {
    } else if is_whitespace(s[at]) {
        lemma_scan_tokens(s, at + 1, at + 1);
        let rest = scan_tokens(s, at + 1, at + 1);
        assert forall|i: int| 0 <= i < (pending + rest).len() implies is_word(
            #[trigger] (pending + rest)[i],
        ) by {
            if i >= pending.len() {
                assert((pending + rest)[i] == rest[i - pending.len()]);
            }
        }
        if is_blank(s.skip(at + 1)) {
            assert forall|k: int| 0 <= k < s.skip(at).len() implies is_whitespace(
                #[trigger] s.skip(at)[k],
            ) by {
                if k > 0 {
                    assert(s.skip(at)[k] == s.skip(at + 1)[k - 1]);
                }
            }
        }
        if is_blank(s.skip(at)) {
            assert forall|k: int| 0 <= k < s.skip(at + 1).len() implies is_whitespace(
                #[trigger] s.skip(at + 1)[k],
            ) by {
                assert(s.skip(at + 1)[k] == s.skip(at)[k + 1]);
            }
        }
    } else {
        lemma_scan_tokens(s, start, at + 1);
        assert(s.skip(at)[0] == s[at]);
    }
}

/// Every token is a word: it is not empty and holds no whitespace.
pub proof fn lemma_tokens_are_words(s: Seq<char>)
    ensures
        forall|i: int| 0 <= i < tokens(s).len() ==> is_word(#[trigger] tokens(s)[i]),
{
    lemma_scan_tokens(s, 0, 0);
}

proof fn lemma_trim_start(s: Seq<char>)
    ensures
        trim_start(s).len() == 0 <==> is_blank(s),
        trim_start(s).len() > 0 ==> !is_whitespace(trim_start(s)[0]),
    decreases s.len(),
{
    if s.len() > 0 && is_whitespace(s[0]) {
        lemma_trim_start(s.drop_first());
        if is_blank(s.drop_first()) {
            assert forall|k: int| 0 <= k < s.len() implies is_whitespace(#[trigger] s[k]) by {
                if k > 0 {
                    assert(s[k] == s.drop_first()[k - 1]);
                }
            }
        }
        if is_blank(s) {
            assert forall|k: int| 0 <= k < s.drop_first().len() implies is_whitespace(
                #[trigger] s.drop_first()[k],
            ) by {
                assert(s.drop_first()[k] == s[k + 1]);
            }
        }
    }
}

proof fn lemma_trim_end(s: Seq<char>)
    ensures
        trim_end(s).len() == 0 <==> is_blank(s),
        trim_end(s).len() > 0 ==> !is_whitespace(trim_end(s).last()),
    decreases s.len(),
{
    if s.len() > 0 && is_whitespace(s.last()) {
        lemma_trim_end(s.drop_last());
        if is_blank(s.drop_last()) {
            assert forall|k: int| 0 <= k < s.len() implies is_whitespace(#[trigger] s[k]) by {
                if k < s.len() - 1 {
                    assert(s[k] == s.drop_last()[k]);
                }
            }
        }
        if is_blank(s) {
            assert forall|k: int| 0 <= k < s.drop_last().len() implies is_whitespace(
                #[trigger] s.drop_last()[k],
            ) by {
                assert(s.drop_last()[k] == s[k]);
            }
        }
    }
}

/// A text has no token exactly when it is blank, and exactly then nothing
/// is left of it after trimming.
pub proof fn lemma_blank_has_no_tokens(s: Seq<char>)
    ensures
        tokens(s).len() == 0 <==> is_blank(s),
        trimmed(s).len() == 0 <==> is_blank(s),
        is_blank(trimmed(s)) <==> is_blank(s),
{
    lemma_scan_tokens(s, 0, 0);
    assert(s.skip(0) =~= s);
    lemma_trim_start(s);
    lemma_trim_end(trim_start(s));
    if trimmed(s).len() > 0 {
        assert(!is_whitespace(trimmed(s)[trimmed(s).len() - 1]));
    }
}

/// Splits `input` on whitespace into its words.
pub fn split_whitespace(input: &str) -> (out: Vec<String>)
    ensures
        texts(out@) == tokens(input@),
{
    let chars = chars_of(input);
    let n: usize = chars.len();
    let mut out: Vec<String> = Vec::new();
    let mut start: usize = 0;
    let mut at: usize = 0;
    assert(texts(out@) + tokens(input@) =~= tokens(input@));
    while at < n
        invariant
            start <= at <= n,
            n == chars@.len(),
            chars@ == input@,
            tokens(input@) == texts(out@) + scan_tokens(input@, start as int, at as int),
        decreases n - at,
    {
        if char_is_whitespace(chars[at]) {
            if start < at {
                let ghost before = out@;
                let word = input.substring_char(start, at).to_owned();
                out.push(word);
                assert(texts(out@) =~= texts(before).push(input@.subrange(start as int, at as int)));
                assert(texts(out@) + scan_tokens(input@, at as int + 1, at as int + 1) =~= texts(
                    before,
                ) + scan_tokens(input@, start as int, at as int));
            }
            at += 1;
            start = at;
        } else {
            at += 1;
        }
    }
    if start < at {
        let ghost before = out@;
        let word = input.substring_char(start, at).to_owned();
        out.push(word);
        assert(texts(out@) =~= texts(before).push(input@.subrange(start as int, at as int)));
    }
    assert(texts(out@) =~= tokens(input@));
    out
}

/// Whether `pat` stands in `s` at position `at`.
pub open spec fn matches_at(s: Seq<char>, pat: Seq<char>, at: int) -> bool {
    0 <= at && at + pat.len() <= s.len() && s.subrange(at, at + pat.len()) == pat
}

/// Whether `pat` stands somewhere in `s`.
pub open spec fn occurs(s: Seq<char>, pat: Seq<char>) -> bool {
    exists|at: int| matches_at(s, pat, at)
}

/// The pieces of `s[start..]` between the occurrences of `sep`, found left
/// to right without overlap, where `s[start..at]` holds no occurrence.
pub open spec fn scan_pieces(s: Seq<char>, sep: Seq<char>, start: int, at: int) -> Seq<Seq<char>>
    decreases s.len() - at,
{
    if sep.len() == 0 || at + sep.len() > s.len() {
        seq![s.subrange(start, s.len() as int)]
    } else if matches_at(s, sep, at) {
        seq![s.subrange(start, at)] + scan_pieces(s, sep, at + sep.len(), at + sep.len())
    } else {
        scan_pieces(s, sep, start, at + 1)
    }
}

/// The pieces of `s` between the occurrences of the separator `sep`. There
/// is always at least one piece; an empty separator cuts nothing.
pub open spec fn pieces(s: Seq<char>, sep: Seq<char>) -> Seq<Seq<char>> {
    scan_pieces(s, sep, 0, 0)
}

fn match_here(chars: &Vec<char>, pat: &Vec<char>, at: usize) -> (r: bool)
    requires
        at + pat@.len() <= chars@.len(),
    ensures
        r == matches_at(chars@, pat@, at as int),
{
    let m: usize = pat.len();
    let n: usize = chars.len();
    let mut k: usize = 0;
    while k < m
        invariant
            k <= m,
            m == pat@.len(),
            n == chars@.len(),
            at + m <= n,
            forall|j: int| 0 <= j < k ==> chars@[at + j] == pat@[j],
        decreases m - k,
    {
        if chars[at + k] != pat[k] {
            assert(chars@.subrange(at as int, at + m)[k as int] != pat@[k as int]);
            return false;
        }
        k += 1;
    }
    assert(chars@.subrange(at as int, at + m) =~= pat@);
    true
}

/// Whether `a` and `b` hold the same characters.
pub fn same_text(a: &str, b: &str) -> (r: bool)
    ensures
        r == (a@ == b@),
{
    let left = chars_of(a);
    let right = chars_of(b);
    if left.len() != right.len() {
        return false;
    }
    let r = match_here(&left, &right, 0);
    assert(left@.subrange(0, right@.len() as int) =~= left@);
    r
}

/// Whether `pat` occurs in `input`.
pub fn contains(input: &str, pat: &str) -> (r: bool)
    ensures
        r == occurs(input@, pat@),
{
    let chars = chars_of(input);
    let pattern = chars_of(pat);
    let n: usize = chars.len();
    let m: usize = pattern.len();
    if m == 0 {
        assert(input@.subrange(0, 0) =~= pat@);
        assert(matches_at(input@, pat@, 0));
        return true;
    }
    if m > n {
        return false;
    }
    let mut at: usize = 0;
    while at <= n - m
        invariant
            0 < m <= n,
            at <= n - m + 1,
            n == chars@.len(),
            m == pattern@.len(),
            chars@ == input@,
            pattern@ == pat@,
            forall|j: int| 0 <= j < at ==> !matches_at(input@, pat@, j),
        decreases n - m + 1 - at,
    {
        if match_here(&chars, &pattern, at) {
            return true;
        }
        at += 1;
    }
    false
}

/// Whether `input` begins with the character `c`.
pub fn starts_with(input: &str, c: char) -> (r: bool)
    ensures
        r == (input@.len() > 0 && input@[0] == c),
{
    let chars = chars_of(input);
    chars.len() > 0 && chars[0] == c
}

/// Whether `input` ends with the character `c`.
pub fn ends_with(input: &str, c: char) -> (r: bool)
    ensures
        r == (input@.len() > 0 && input@.last() == c),
{
    let chars = chars_of(input);
    chars.len() > 0 && chars[chars.len() - 1] == c
}

/// Cuts `input` at every occurrence of `sep`.
pub fn split(input: &str, sep: &str) -> (out: Vec<String>)
    ensures
        texts(out@) == pieces(input@, sep@),
{
    let chars = chars_of(input);
    let pattern = chars_of(sep);
    let n: usize = chars.len();
    let m: usize = pattern.len();
    let mut out: Vec<String> = Vec::new();
    let mut start: usize = 0;
    let mut at: usize = 0;
    assert(texts(out@) + pieces(input@, sep@) =~= pieces(input@, sep@));
    if m > 0 && m <= n {
        while at <= n - m
            invariant
                0 < m <= n,
                start <= at <= n,
                n == chars@.len(),
                m == pattern@.len(),
                chars@ == input@,
                pattern@ == sep@,
                pieces(input@, sep@) == texts(out@) + scan_pieces(
                    input@,
                    sep@,
                    start as int,
                    at as int,
                ),
            decreases n - at,
        {
            if match_here(&chars, &pattern, at) {
                let ghost before = out@;
                let piece = input.substring_char(start, at).to_owned();
                out.push(piece);
                assert(texts(out@) =~= texts(before).push(
                    input@.subrange(start as int, at as int),
                ));
                assert(texts(out@) + scan_pieces(input@, sep@, at + m, at + m) =~= texts(before)
                    + scan_pieces(input@, sep@, start as int, at as int));
                at += m;
                start = at;
            } else {
                at += 1;
            }
        }
    }
    let ghost before = out@;
    let piece = input.substring_char(start, n).to_owned();
    out.push(piece);
    assert(texts(out@) =~= texts(before).push(input@.subrange(start as int, n as int)));
    assert(texts(out@) =~= pieces(input@, sep@));
    out
}

/// `parts` written one after the other with a single space between
/// neighbours.
pub open spec fn joined(parts: Seq<Seq<char>>) -> Seq<char>
    decreases parts.len(),
{
    if parts.len() == 0 {
        Seq::empty()
    } else if parts.len() == 1 {
        parts[0]
    } else {
        joined(parts.drop_last()) + seq![' '] + parts.last()
    }
}

/// Joins `parts[from..]` with single spaces.
pub fn join_from(parts: &Vec<String>, from: usize) -> (out: String)
    requires
        from <= parts@.len(),
    ensures
        out@ == joined(texts(parts@).skip(from as int)),
{
    let n: usize = parts.len();
    let mut out = String::new();
    let mut at: usize = from;
    let ghost all = texts(parts@).skip(from as int);
    assert(all.take(0) =~= Seq::<Seq<char>>::empty());
    while at < n
        invariant
            from <= at <= n,
            n == parts@.len(),
            all == texts(parts@).skip(from as int),
            out@ == joined(all.take(at - from)),
        decreases n - at,
    {
        proof {
            reveal_strlit(" ");
            assert(all.take(at - from + 1).drop_last() =~= all.take(at - from));
            assert(all.take(at - from + 1).last() == parts@[at as int]@);
        }
        if at > from {
            out.append(" ");
            assert(out@ =~= joined(all.take(at - from)) + seq![' ']);
        } else {
            assert(out@.len() == 0);
            assert(out@ + parts@[at as int]@ =~= parts@[at as int]@);
        }
        out.append(parts[at].as_str());
        at += 1;
    }
    assert(all.take(n - from) =~= all);
    out
}

} // verus!
