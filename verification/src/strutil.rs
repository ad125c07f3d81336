//! Verified string primitives: equality, prefix and substring tests, the
//! "second piece of a split" used for redirect-wrapped links, and decimal
//! rendering of pagination offsets.

use vstd::prelude::*;
use vstd::string::StrSliceExecFns;
use vstd::string::StringExecFns;

verus! {

/// `pat` occurs in `s` starting at index `i`.
pub open spec fn match_at(s: Seq<char>, pat: Seq<char>, i: int) -> bool {
    0 <= i && i + pat.len() <= s.len() && s.subrange(i, i + pat.len()) == pat
}

/// `pat` occurs somewhere in `s`.
pub open spec fn has_match(s: Seq<char>, pat: Seq<char>) -> bool {
    exists|i: int| match_at(s, pat, i)
}

/// Index of the first occurrence of `pat` in `s` at or after `from`.
pub open spec fn first_match_from(s: Seq<char>, pat: Seq<char>, from: int) -> Option<int>
    decreases s.len() - from + 1,
{
    if from + pat.len() > s.len() {
        None
    } else if match_at(s, pat, from) {
        Some(from)
    } else {
        first_match_from(s, pat, from + 1)
    }
}

/// What `first_match_from` returns is the least match index at or after
/// `from`; `None` means there is none.
pub proof fn lemma_first_match_from(s: Seq<char>, pat: Seq<char>, from: int)
    ensures
        match first_match_from(s, pat, from) {
            Some(i) => from <= i && match_at(s, pat, i) && (forall|j: int|
                from <= j < i ==> !match_at(s, pat, j)),
            None => forall|j: int| from <= j ==> !match_at(s, pat, j),
        },
    decreases s.len() - from + 1,
{
    if from + pat.len() > s.len() {
    } else if match_at(s, pat, from) {
    } else {
        lemma_first_match_from(s, pat, from + 1);
    }
}

/// There is a match exactly when the search from the start finds one.
pub proof fn lemma_has_match_iff_found(s: Seq<char>, pat: Seq<char>)
    ensures
        has_match(s, pat) <==> first_match_from(s, pat, 0) is Some,
{
    lemma_first_match_from(s, pat, 0);
    if first_match_from(s, pat, 0) is Some {
        let i = first_match_from(s, pat, 0)->0;
        assert(match_at(s, pat, i));
    }
}

/// Character-for-character equality of two string slices.
pub fn str_eq(a: &str, b: &str) -> (r: bool)
    ensures
        r == (a@ == b@),
{
    let alen = a.unicode_len();
    let blen = b.unicode_len();
    if alen != blen {
        return false;
    }
    let mut i: usize = 0;
    while i < alen
        invariant
            i <= alen,
            alen == a@.len(),
            alen == b@.len(),
            forall|j: int| 0 <= j < i ==> a@[j] == b@[j],
        decreases alen - i,
    {
        if a.get_char(i) != b.get_char(i) {
            return false;
        }
        i = i + 1;
    }
    proof {
        assert(a@ =~= b@);
    }
    true
}

/// `pat` stands in `s` at position `i`, checked character by character.
fn is_match_at(s: &str, pat: &str, i: usize) -> (r: bool)
    requires
        i + pat@.len() <= s@.len(),
        s@.len() <= usize::MAX,
    ensures
        r == match_at(s@, pat@, i as int),
{
    let plen = pat.unicode_len();
    let mut j: usize = 0;
    while j < plen
        invariant
            j <= plen,
            plen == pat@.len(),
            i + plen <= s@.len(),
            s@.len() <= usize::MAX,
            forall|k: int| 0 <= k < j ==> s@[i + k] == pat@[k],
        decreases plen - j,
    {
        if s.get_char(i + j) != pat.get_char(j) {
            proof {
                assert(s@.subrange(i as int, i + plen) != pat@) by {
                    assert(s@.subrange(i as int, i + plen)[j as int] == s@[i + j]);
                }
            }
            return false;
        }
        j = j + 1;
    }
    proof {
        assert(s@.subrange(i as int, i + plen) =~= pat@);
    }
    true
}

/// Index of the first occurrence of `pat` in `s` at or after `from`.
pub fn find_from(s: &str, pat: &str, from: usize) -> (r: Option<usize>)
    ensures
        match r {
            Some(i) => first_match_from(s@, pat@, from as int) == Some(i as int),
            None => first_match_from(s@, pat@, from as int) is None,
        },
{
    let slen = s.unicode_len();
    let plen = pat.unicode_len();
    if plen > slen || from > slen - plen {
        proof {
            lemma_first_match_from(s@, pat@, from as int);
            if first_match_from(s@, pat@, from as int) is Some {
                let i = first_match_from(s@, pat@, from as int)->0;
                assert(match_at(s@, pat@, i));
            }
        }
        return None;
    }
    if plen == 0 {
        proof {
            assert(s@.subrange(from as int, from as int) =~= pat@);
        }
        return Some(from);
    }
    let mut i: usize = from;
    while i <= slen - plen
        invariant
            from <= i,
            0 < plen <= slen,
            i <= slen - plen + 1,
            slen == s@.len(),
            plen == pat@.len(),
            first_match_from(s@, pat@, from as int) == first_match_from(s@, pat@, i as int),
        decreases slen - i,
    {
        if is_match_at(s, pat, i) {
            proof {
                assert(first_match_from(s@, pat@, i as int) == Some(i as int));
            }
            return Some(i);
        }
        proof {
            assert(first_match_from(s@, pat@, i as int) == first_match_from(
                s@,
                pat@,
                i as int + 1,
            ));
        }
        i = i + 1;
    }
    proof {
        assert(first_match_from(s@, pat@, i as int) is None);
    }
    None
}

/// `prefix` stands at the start of `s`.
pub fn str_starts_with(s: &str, prefix: &str) -> (r: bool)
    ensures
        r == prefix@.is_prefix_of(s@),
{
    let slen = s.unicode_len();
    let plen = prefix.unicode_len();
    if plen > slen {
        return false;
    }
    let r = is_match_at(s, prefix, 0);
    proof {
        if match_at(s@, prefix@, 0) {
            assert(prefix@ =~= s@.subrange(0, plen as int));
        }
        if prefix@.is_prefix_of(s@) {
            assert(s@.subrange(0, plen as int) =~= prefix@);
        }
    }
    r
}

/// `pat` occurs somewhere in `s`.
pub fn contains_substr(s: &str, pat: &str) -> (r: bool)
    ensures
        r == has_match(s@, pat@),
{
    let r = find_from(s, pat, 0);
    proof {
        lemma_has_match_iff_found(s@, pat@);
    }
    r.is_some()
}

/// The piece of `s` between the first occurrence of `pat` and the next
/// occurrence after it (or the end of `s`): the second item that splitting
/// `s` on `pat` yields, `None` when `pat` does not occur.
pub open spec fn split_second_piece(s: Seq<char>, pat: Seq<char>) -> Option<Seq<char>> {
    match first_match_from(s, pat, 0) {
        None => None,
        Some(i) => match first_match_from(s, pat, i + pat.len()) {
            None => Some(s.subrange(i + pat.len(), s.len() as int)),
            Some(j) => Some(s.subrange(i + pat.len(), j)),
        },
    }
}

/// The second item of splitting `s` on `pat`, or `None` when `pat` does not
/// occur in `s`.
pub fn segment_after_first(s: &str, pat: &str) -> (r: Option<String>)
    requires
        pat@.len() > 0,
    ensures
        match r {
            Some(t) => split_second_piece(s@, pat@) == Some(t@),
            None => split_second_piece(s@, pat@) is None,
        },
{
    let slen = s.unicode_len();
    let plen = pat.unicode_len();
    match find_from(s, pat, 0) {
        None => None,
        Some(i) => {
            proof {
                lemma_first_match_from(s@, pat@, 0);
            }
            let start = i + plen;
            let end = match find_from(s, pat, start) {
                None => slen,
                Some(j) => {
                    proof {
                        lemma_first_match_from(s@, pat@, start as int);
                    }
                    j
                },
            };
            Some(String::from_str(s.substring_char(start, end)))
        },
    }
}

/// The decimal digit character for `n` in `0 ..= 9`.
pub open spec fn dec_digit(n: int) -> char {
    if n == 0 {
        '0'
    } else if n == 1 {
        '1'
    } else if n == 2 {
        '2'
    } else if n == 3 {
        '3'
    } else if n == 4 {
        '4'
    } else if n == 5 {
        '5'
    } else if n == 6 {
        '6'
    } else if n == 7 {
        '7'
    } else if n == 8 {
        '8'
    } else {
        '9'
    }
}

/// The usual decimal rendering of a non-negative integer, no leading zeros.
pub open spec fn dec_rep(n: int) -> Seq<char>
    decreases n,
{
    if n < 10 {
        seq![dec_digit(n)]
    } else {
        dec_rep(n / 10).push(dec_digit(n % 10))
    }
}

/// One decimal digit as a string slice.
fn dec_digit_str(n: u16) -> (r: &'static str)
    requires
        n < 10,
    ensures
        r@ == seq![dec_digit(n as int)],
{
    proof {
        reveal_strlit("0");
        reveal_strlit("1");
        reveal_strlit("2");
        reveal_strlit("3");
        reveal_strlit("4");
        reveal_strlit("5");
        reveal_strlit("6");
        reveal_strlit("7");
        reveal_strlit("8");
        reveal_strlit("9");
    }
    let r = match n {
        0 => "0",
        1 => "1",
        2 => "2",
        3 => "3",
        4 => "4",
        5 => "5",
        6 => "6",
        7 => "7",
        8 => "8",
        _ => "9",
    };
    proof {
        assert(r@ =~= seq![dec_digit(n as int)]);
    }
    r
}

/// Decimal rendering of a pagination offset.
pub fn u16_to_dec(n: u16) -> (r: String)
    ensures
        r@ == dec_rep(n as int),
    decreases n,
{
    if n < 10 {
        String::from_str(dec_digit_str(n))
    } else {
        let pre = u16_to_dec(n / 10);
        let r = pre.concat(dec_digit_str(n % 10));
        proof {
            assert(r@ =~= dec_rep((n / 10) as int).push(dec_digit((n % 10) as int)));
        }
        r
    }
}

} // verus!
