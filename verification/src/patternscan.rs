//! Byte-signature scanning.
//!
//! A pattern is an ordered sequence of tokens, each either one literal byte
//! or a wildcard that matches any byte. The textual form is a run of
//! whitespace-separated tokens: one or two hex digits for a literal byte,
//! `?` or `??` for a wildcard. [`parse_pattern`] turns the text into tokens
//! — rejecting anything else as [`Error::MalformedInput`] — and
//! [`find_first`] reports the offset of the first match in a byte image,
//! where "no match" is a normal absent answer, never an error.

use vstd::prelude::*;
use vstd::string::StringSliceAdditionalSpecFns;

use crate::errors::Error;

verus! {

/// One token of a pattern: an exact byte, or a wildcard matching any byte.
#[derive(Clone, Copy, Debug, PartialEq, Eq, Structural)]
pub enum PatternToken {
    /// Matches exactly this byte.
    Byte(u8),
    /// Matches any byte.
    Any,
}

/// Whether one token accepts one byte.
pub open spec fn token_matches(t: PatternToken, b: u8) -> bool {
    match t {
        PatternToken::Byte(x) => x == b,
        PatternToken::Any => true,
    }
}

/// Whether the whole pattern matches `data` starting at offset `k`.
pub open spec fn pattern_matches_at(data: Seq<u8>, pat: Seq<PatternToken>, k: int) -> bool {
    &&& 0 <= k
    &&& k + pat.len() <= data.len()
    &&& forall|j: int| 0 <= j < pat.len() ==> token_matches(pat[j], data[k + j])
}

/// Whether the pattern matches `data` anywhere.
pub open spec fn has_match(data: Seq<u8>, pat: Seq<PatternToken>) -> bool {
    exists|i: int| pattern_matches_at(data, pat, i)
}

/// Whether `k` is the first offset at which the pattern matches `data`.
pub open spec fn is_first_match(data: Seq<u8>, pat: Seq<PatternToken>, k: int) -> bool {
    &&& pattern_matches_at(data, pat, k)
    &&& forall|i: int| 0 <= i < k ==> !pattern_matches_at(data, pat, i)
}

/// Whether a byte is ASCII whitespace, the token separator of pattern text.
pub open spec fn is_space(b: u8) -> bool {
    b == 32 || b == 9 || b == 10 || b == 12 || b == 13
}

/// Whether a byte is an ASCII hex digit.
pub open spec fn is_hex_digit(b: u8) -> bool {
    (48 <= b <= 57) || (65 <= b <= 70) || (97 <= b <= 102)
}

/// The value of an ASCII hex digit.
pub open spec fn hex_value(b: u8) -> u8
    recommends
        is_hex_digit(b),
{
    if 48 <= b <= 57 {
        (b - 48) as u8
    } else if 65 <= b <= 70 {
        (b - 55) as u8
    } else {
        (b - 87) as u8
    }
}

/// The token one whitespace-free segment of pattern text denotes: `?` or
/// `??` is the wildcard, one or two hex digits are a literal byte, anything
/// else is malformed.
pub open spec fn spec_token(seg: Seq<u8>) -> Option<PatternToken> {
    if seg.len() == 1 && seg[0] == 63 {
        Some(PatternToken::Any)
    } else if seg.len() == 2 && seg[0] == 63 && seg[1] == 63 {
        Some(PatternToken::Any)
    } else if seg.len() == 1 && is_hex_digit(seg[0]) {
        Some(PatternToken::Byte(hex_value(seg[0])))
    } else if seg.len() == 2 && is_hex_digit(seg[0]) && is_hex_digit(seg[1]) {
        Some(PatternToken::Byte(((16 * hex_value(seg[0]) + hex_value(seg[1])) as u8)))
    } else {
        None
    }
}

/// Length of the maximal whitespace-free prefix of `s`: the next segment of
/// pattern text.
pub open spec fn seg_len(s: Seq<u8>) -> int
    decreases s.len(),
{
    if s.len() == 0 || is_space(s[0]) {
        0
    } else {
        1 + seg_len(s.drop_first())
    }
}

/// A segment never runs past the end of the text, and starts with at least
/// one byte when the text starts with none of the separators.
pub proof fn lemma_seg_len_bounds(s: Seq<u8>)
    ensures
        0 <= seg_len(s) <= s.len(),
        s.len() > 0 && !is_space(s[0]) ==> 1 <= seg_len(s),
    decreases s.len(),
{
    if s.len() > 0 && !is_space(s[0]) {
        lemma_seg_len_bounds(s.drop_first());
    }
}

/// The token sequence the pattern text denotes: segments separated by runs
/// of whitespace, each a token, or nothing when any segment is malformed.
pub open spec fn spec_parse(s: Seq<u8>) -> Option<Seq<PatternToken>>
    decreases s.len() via spec_parse_decreases
{
    if s.len() == 0 {
        Some(Seq::empty())
    } else if is_space(s[0]) {
        spec_parse(s.drop_first())
    } else {
        let j = seg_len(s);
        match spec_token(s.subrange(0, j)) {
            Option::None => None,
            Option::Some(t) => match spec_parse(s.subrange(j, s.len() as int)) {
                Option::None => None,
                Option::Some(rest) => Some(seq![t] + rest),
            },
        }
    }
}

#[via_fn]
proof fn spec_parse_decreases(s: Seq<u8>) {
    if s.len() > 0 && !is_space(s[0]) {
        lemma_seg_len_bounds(s);
    }
}

/// The maximal whitespace-free prefix is at least the first byte when that
/// byte is not whitespace.
proof fn lemma_seg_len_from_scan(s: Seq<u8>, j: int)
    requires
        0 <= j <= s.len(),
        forall|k: int| 0 <= k < j ==> !is_space(#[trigger] s[k]),
        j == s.len() || is_space(s[j]),
    ensures
        seg_len(s) == j,
    decreases j,
{
    if j == 0 {
    } else {
        assert(!is_space(s[0]));
        let t = s.drop_first();
        assert forall|k: int| 0 <= k < j - 1 implies !is_space(#[trigger] t[k]) by {
            assert(t[k] == s[k + 1]);
        }
        if j - 1 < t.len() {
            assert(t[j - 1] == s[j]);
        }
        lemma_seg_len_from_scan(t, j - 1);
    }
}

/// Whether a byte is ASCII whitespace.
fn is_space_byte(b: u8) -> (r: bool)
    ensures
        r == is_space(b),
{
    b == 32 || b == 9 || b == 10 || b == 12 || b == 13
}

/// Parse one whitespace-free segment into its token.
fn parse_token(seg: &[u8]) -> (r: Option<PatternToken>)
    ensures
        r == spec_token(seg@),
{
    if seg.len() == 1 && *vstd::slice::slice_index_get(seg, 0) == 63 {
        Some(PatternToken::Any)
    } else if seg.len() == 2 && *vstd::slice::slice_index_get(seg, 0) == 63
        && *vstd::slice::slice_index_get(seg, 1) == 63 {
        Some(PatternToken::Any)
    } else if seg.len() == 1 && hex_digit_value(*vstd::slice::slice_index_get(seg, 0)).is_some() {
        match hex_digit_value(*vstd::slice::slice_index_get(seg, 0)) {
            Option::Some(v) => Some(PatternToken::Byte(v)),
            Option::None => None,
        }
    } else if seg.len() == 2 {
        let hi = hex_digit_value(*vstd::slice::slice_index_get(seg, 0));
        let lo = hex_digit_value(*vstd::slice::slice_index_get(seg, 1));
        match (hi, lo) {
            (Option::Some(h), Option::Some(l)) => Some(PatternToken::Byte(16 * h + l)),
            _ => None,
        }
    } else {
        None
    }
}

/// The value of a hex digit, or nothing for any other byte.
fn hex_digit_value(b: u8) -> (r: Option<u8>)
    ensures
        is_hex_digit(b) ==> r == Some(hex_value(b)),
        !is_hex_digit(b) ==> r is None,
{
    if 48 <= b && b <= 57 {
        Some(b - 48)
    } else if 65 <= b && b <= 70 {
        Some(b - 55)
    } else if 97 <= b && b <= 102 {
        Some(b - 87)
    } else {
        None
    }
}

/// `prefix` prepended to a parse result that may have failed.
pub open spec fn opt_concat(prefix: Seq<PatternToken>, rest: Option<Seq<PatternToken>>) -> Option<
    Seq<PatternToken>,
> {
    match rest {
        Option::None => None,
        Option::Some(r) => Some(prefix + r),
    }
}

/// Parse pattern text into its token sequence.
///
/// Returns exactly the tokens the text denotes, and
/// [`Error::MalformedInput`] exactly when some segment of the text is
/// neither a wildcard nor one or two hex digits.
pub fn parse_pattern(text: &str) -> (r: Result<Vec<PatternToken>, Error>)
    ensures
        r matches Ok(v) ==> spec_parse(text.spec_bytes()) == Some(v@),
        r is Err ==> spec_parse(text.spec_bytes()) is None && r == Err::<
            Vec<PatternToken>,
            Error,
        >(Error::MalformedInput),
{
    let bytes = text.as_bytes();
    let ghost s = text.spec_bytes();
    let n = bytes.len();
    let mut toks: Vec<PatternToken> = Vec::new();
    let mut i: usize = 0;
    proof {
        assert(s.subrange(0, n as int) =~= s);
        match spec_parse(s) {
            Option::Some(r0) => {
                assert(Seq::<PatternToken>::empty() + r0 =~= r0);
            },
            Option::None => {},
        }
    }
    while i < n
        invariant
            0 <= i <= n,
            s == text.spec_bytes(),
            n == s.len(),
            bytes@ == s,
            spec_parse(s) == opt_concat(toks@, spec_parse(s.subrange(i as int, n as int))),
        decreases n - i,
    {
        let ghost rem = s.subrange(i as int, n as int);
        let b = *vstd::slice::slice_index_get(bytes, i);
        if is_space_byte(b) {
            proof {
                assert(rem[0] == s[i as int]);
                assert(rem.drop_first() =~= s.subrange(i + 1, n as int));
            }
            i = i + 1;
        } else {
            let mut j = i + 1;
            while j < n && !is_space_byte(*vstd::slice::slice_index_get(bytes, j))
                invariant
                    i < j <= n,
                    n == s.len(),
                    bytes@ == s,
                    forall|k: int| i <= k < j ==> !is_space(#[trigger] s[k]),
                decreases n - j,
            {
                j = j + 1;
            }
            proof {
                assert(rem[0] == s[i as int]);
                assert forall|k: int| 0 <= k < j - i implies !is_space(#[trigger] rem[k]) by {
                    assert(rem[k] == s[i + k]);
                }
                if j < n {
                    assert(rem[j - i] == s[j as int]);
                }
                lemma_seg_len_from_scan(rem, j - i);
            }
            let seg = vstd::slice::slice_subrange(bytes, i, j);
            proof {
                assert(seg@ =~= rem.subrange(0, j - i));
            }
            match parse_token(seg) {
                Option::None => {
                    proof {
                        assert(spec_parse(rem) is None);
                    }
                    return Err(Error::MalformedInput);
                },
                Option::Some(t) => {
                    proof {
                        assert(rem.subrange(j - i, rem.len() as int) =~= s.subrange(
                            j as int,
                            n as int,
                        ));
                        assert(spec_parse(rem) == opt_concat(
                            seq![t],
                            spec_parse(s.subrange(j as int, n as int)),
                        ));
                    }
                    toks.push(t);
                    proof {
                        assert(spec_parse(s) == opt_concat(
                            toks@,
                            spec_parse(s.subrange(j as int, n as int)),
                        )) by {
                            assert(toks@ =~= toks@.drop_last() + seq![t]);
                            match spec_parse(s.subrange(j as int, n as int)) {
                                Option::Some(rest) => {
                                    assert(toks@.drop_last() + (seq![t] + rest) =~= toks@ + rest);
                                },
                                Option::None => {},
                            }
                        }
                    }
                    i = j;
                },
            }
        }
    }
    proof {
        assert(s.subrange(n as int, n as int) =~= Seq::<u8>::empty());
        assert(spec_parse(s.subrange(n as int, n as int)) == Some(Seq::<PatternToken>::empty()));
        assert(toks@ + Seq::<PatternToken>::empty() =~= toks@);
    }
    Ok(toks)
}

/// Whether the pattern matches the image at offset `k`.
fn matches_at(image: &[u8], pattern: &Vec<PatternToken>, k: usize) -> (b: bool)
    requires
        k + pattern@.len() <= image@.len(),
    ensures
        b == pattern_matches_at(image@, pattern@, k as int),
{
    let n = image.len();
    let mut j: usize = 0;
    while j < pattern.len()
        invariant
            0 <= j <= pattern@.len(),
            n == image@.len(),
            k + pattern@.len() <= n,
            forall|jj: int| 0 <= jj < j ==> token_matches(pattern@[jj], image@[k + jj]),
        decreases pattern@.len() - j,
    {
        let ok = match pattern[j] {
            PatternToken::Byte(x) => x == *vstd::slice::slice_index_get(image, k + j),
            PatternToken::Any => true,
        };
        if !ok {
            proof {
                assert(!token_matches(pattern@[j as int], image@[k + j]));
            }
            return false;
        }
        j = j + 1;
    }
    true
}

/// Slide the pattern over the image and report the offset of the first
/// match: `Some` of exactly the first matching offset, `None` exactly when
/// no offset matches. A wildcard token matches any byte; an empty pattern
/// matches immediately at offset zero.
pub fn find_first(image: &[u8], pattern: &Vec<PatternToken>) -> (r: Option<usize>)
    ensures
        r matches Some(k) ==> is_first_match(image@, pattern@, k as int),
        r is None ==> !has_match(image@, pattern@),
{
    let ilen = image.len();
    let plen = pattern.len();
    if plen == 0 {
        return Some(0);
    }
    if plen > ilen {
        return None;
    }
    let last = ilen - plen;
    let mut k: usize = 0;
    while k <= last
        invariant
            0 <= k <= last + 1,
            1 <= plen,
            ilen == image@.len(),
            plen == pattern@.len(),
            last == ilen - plen,
            forall|i: int| 0 <= i < k ==> !pattern_matches_at(image@, pattern@, i),
        decreases last + 1 - k,
    {
        if matches_at(image, pattern, k) {
            return Some(k);
        }
        k = k + 1;
    }
    None
}

/// Scan a byte image for the first occurrence of textual `pattern`:
/// the parsed tokens' first match, or [`Error::MalformedInput`] exactly when
/// the text cannot be tokenized.
pub fn scan_data_for_pattern(data: &Vec<u8>, pattern: &str) -> (r: Result<Option<usize>, Error>)
    ensures
        r is Err ==> spec_parse(pattern.spec_bytes()) is None && r == Err::<
            Option<usize>,
            Error,
        >(Error::MalformedInput),
        r matches Ok(m) ==> spec_parse(pattern.spec_bytes()) matches Some(toks) && (m matches Some(
            k,
        ) ==> is_first_match(data@, toks, k as int)) && (m is None ==> !has_match(data@, toks)),
{
    match parse_pattern(pattern) {
        Err(e) => Err(e),
        Ok(toks) => Ok(find_first(data.as_slice(), &toks)),
    }
}

} // verus!
