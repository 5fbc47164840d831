//! Text primitives for script lines: comment stripping, whitespace splitting,
//! case folding and decimal integer parsing.
use vstd::prelude::*;
use vstd::string::*;

verus! {

/// The Unicode `White_Space` property, which `char::is_whitespace` reports.
pub open spec fn is_white_space(c: char) -> bool {
    let u = c as u32;
    (0x09 <= u && u <= 0x0d) || u == 0x20 || u == 0x85 || u == 0xa0 || u == 0x1680 || (0x2000 <= u
        && u <= 0x200a) || u == 0x2028 || u == 0x2029 || u == 0x202f || u == 0x205f || u == 0x3000
}

/// Characters that open a comment running to the end of the line.
pub open spec fn is_comment_mark(c: char) -> bool {
    c == ';' || c == '#'
}

/// Index of the first comment mark, or the length when there is none.
pub open spec fn comment_start(s: Seq<char>) -> nat
    decreases s.len(),
{
    if s.len() == 0 {
        0
    } else if is_comment_mark(s[0]) {
        0
    } else {
        1 + comment_start(s.subrange(1, s.len() as int))
    }
}

/// The line without its comment.
pub open spec fn uncommented(s: Seq<char>) -> Seq<char> {
    s.subrange(0, comment_start(s) as int)
}

/// Words finished so far, and the word in progress, after reading `s` left to right.
pub open spec fn split_words(s: Seq<char>) -> (Seq<Seq<char>>, Seq<char>)
    decreases s.len(),
{
    if s.len() == 0 {
        (Seq::empty(), Seq::empty())
    } else {
        let prev = split_words(s.drop_last());
        let c = s.last();
        if is_white_space(c) {
            if prev.1.len() > 0 {
                (prev.0.push(prev.1), Seq::empty())
            } else {
                (prev.0, Seq::empty())
            }
        } else {
            (prev.0, prev.1.push(c))
        }
    }
}

/// The maximal runs of non-whitespace characters of `s`, in order.
pub open spec fn words(s: Seq<char>) -> Seq<Seq<char>> {
    let r = split_words(s);
    if r.1.len() > 0 {
        r.0.push(r.1)
    } else {
        r.0
    }
}

/// The words of a script line once its comment is removed.
pub open spec fn line_words(s: Seq<char>) -> Seq<Seq<char>> {
    words(uncommented(s))
}

proof fn lemma_comment_start(s: Seq<char>, k: int)
    requires
        0 <= k <= s.len(),
        forall|j: int| 0 <= j < k ==> !is_comment_mark(#[trigger] s[j]),
        k == s.len() || is_comment_mark(s[k]),
    ensures
        comment_start(s) == k,
    decreases k,
{
    if k > 0 {
        let t = s.subrange(1, s.len() as int);
        assert forall|j: int| 0 <= j < k - 1 implies !is_comment_mark(#[trigger] t[j]) by {
            assert(t[j] == s[j + 1]);
        }
        if k < s.len() {
            assert(t[k - 1] == s[k]);
        }
        lemma_comment_start(t, k - 1);
    }
}

pub fn is_white_space_char(c: char) -> (r: bool)
    ensures
        r == is_white_space(c),
{
    let u = c as u32;
    (0x09 <= u && u <= 0x0d) || u == 0x20 || u == 0x85 || u == 0xa0 || u == 0x1680 || (0x2000 <= u
        && u <= 0x200a) || u == 0x2028 || u == 0x2029 || u == 0x202f || u == 0x205f || u == 0x3000
}

/// Splits a script line into its words, dropping everything from the first `;` or `#` on.
pub fn split_line(s: &str) -> (r: Vec<String>)
    ensures
        r.deep_view() == line_words(s@),
{
    let n = s.unicode_len();
    let mut out: Vec<String> = Vec::new();
    let mut start: usize = 0;
    let mut i: usize = 0;
    let mut done = false;
    while i < n && !done
        invariant
            n == s@.len(),
            start <= i <= n,
            forall|j: int| 0 <= j < i ==> !is_comment_mark(#[trigger] s@[j]),
            done ==> i < n && is_comment_mark(s@[i as int]),
            out.deep_view() == split_words(s@.subrange(0, i as int)).0,
            s@.subrange(start as int, i as int) == split_words(s@.subrange(0, i as int)).1,
        decreases n - i + if done { 0int } else { 1int },
    {
        let c = s.get_char(i);
        if c == ';' || c == '#' {
            done = true;
        } else {
            let ghost pre = s@.subrange(0, i as int);
            let ghost prev = split_words(pre);
            assert(s@.subrange(0, i + 1).drop_last() =~= pre);
            assert(s@.subrange(0, i + 1).last() == c);
            if is_white_space_char(c) {
                if start < i {
                    let w = s.substring_char(start, i).to_owned();
                    let ghost before = out.deep_view();
                    out.push(w);
                    assert(out.deep_view() =~= before.push(w@));
                }
                start = i + 1;
                assert(s@.subrange(start as int, i + 1) =~= Seq::<char>::empty());
            } else {
                assert(s@.subrange(start as int, i + 1) =~= s@.subrange(start as int, i as int).push(
                    c,
                ));
            }
            i += 1;
        }
    }
    proof {
        lemma_comment_start(s@, i as int);
        assert(uncommented(s@) =~= s@.subrange(0, i as int));
    }
    if start < i {
        let w = s.substring_char(start, i).to_owned();
        let ghost before = out.deep_view();
        out.push(w);
        assert(out.deep_view() =~= before.push(w@));
    }
    out
}

/// Exact comparison of two strings, character by character.
pub fn str_eq(a: &str, b: &str) -> (r: bool)
    ensures
        r == (a@ == b@),
{
    let n = a.unicode_len();
    if n != b.unicode_len() {
        return false;
    }
    let mut i: usize = 0;
    while i < n
        invariant
            n == a@.len(),
            n == b@.len(),
            i <= n,
            forall|j: int| 0 <= j < i ==> a@[j] == b@[j],
        decreases n - i,
    {
        if a.get_char(i) != b.get_char(i) {
            return false;
        }
        i += 1;
    }
    assert(a@ =~= b@);
    true
}

/// What `str::to_lowercase` makes of a character sequence.
pub uninterp spec fn lower_of(s: Seq<char>) -> Seq<char>;

/// Relies on `str::to_lowercase`: the Unicode lowercase mapping, which
/// depends on the characters alone.
#[verifier::external_body]
pub(crate) fn lowercase(s: &str) -> (r: String)
    ensures
        r@ == lower_of(s@),
{
    s.to_lowercase()
}

pub open spec fn is_ascii_digit(c: char) -> bool {
    48 <= (c as u32) && (c as u32) <= 57
}

/// The value of a run of decimal digits.
pub open spec fn digits_value(s: Seq<char>) -> nat
    decreases s.len(),
{
    if s.len() == 0 {
        0
    } else {
        digits_value(s.drop_last()) * 10 + ((s.last() as u32) - 48) as nat
    }
}

/// The value of a non-empty run of ASCII digits; `None` for anything else.
pub open spec fn magnitude(s: Seq<char>) -> Option<nat> {
    if s.len() > 0 && (forall|i: int| 0 <= i < s.len() ==> is_ascii_digit(#[trigger] s[i])) {
        Some(digits_value(s))
    } else {
        None
    }
}

/// Decimal text with an optional leading `+`.
pub open spec fn unsigned_value(s: Seq<char>) -> Option<nat> {
    if s.len() > 0 && s[0] == '+' {
        magnitude(s.drop_first())
    } else {
        magnitude(s)
    }
}

/// Decimal text with an optional leading `+` or `-`.
pub open spec fn signed_value(s: Seq<char>) -> Option<int> {
    if s.len() > 0 && s[0] == '-' {
        match magnitude(s.drop_first()) {
            Some(m) => Some(-(m as int)),
            None => None,
        }
    } else {
        match unsigned_value(s) {
            Some(m) => Some(m as int),
            None => None,
        }
    }
}

pub open spec fn u32_of_text(s: Seq<char>) -> Option<u32> {
    match unsigned_value(s) {
        Some(v) => if v <= u32::MAX {
            Some(v as u32)
        } else {
            None
        },
        None => None,
    }
}

pub open spec fn u64_of_text(s: Seq<char>) -> Option<u64> {
    match unsigned_value(s) {
        Some(v) => if v <= u64::MAX {
            Some(v as u64)
        } else {
            None
        },
        None => None,
    }
}

pub open spec fn i32_of_text(s: Seq<char>) -> Option<i32> {
    match signed_value(s) {
        Some(v) => if i32::MIN <= v && v <= i32::MAX {
            Some(v as i32)
        } else {
            None
        },
        None => None,
    }
}

/// Relies on `<u32 as FromStr>::from_str`: an optional `+` followed by one or
/// more ASCII digits whose value fits, and nothing else, parses.
#[verifier::external_body]
pub(crate) fn parse_u32(s: &str) -> (r: Option<u32>)
    ensures
        r == u32_of_text(s@),
{
    s.parse::<u32>().ok()
}

/// Relies on `<u64 as FromStr>::from_str`: an optional `+` followed by one or
/// more ASCII digits whose value fits, and nothing else, parses.
#[verifier::external_body]
pub(crate) fn parse_u64(s: &str) -> (r: Option<u64>)
    ensures
        r == u64_of_text(s@),
{
    s.parse::<u64>().ok()
}

/// Relies on `<i32 as FromStr>::from_str`: an optional `+` or `-` followed by
/// one or more ASCII digits whose value fits, and nothing else, parses.
#[verifier::external_body]
pub(crate) fn parse_i32(s: &str) -> (r: Option<i32>)
    ensures
        r == i32_of_text(s@),
{
    s.parse::<i32>().ok()
}

} // verus!
