//! Swap routes, swap records and swap identifiers.

use vstd::prelude::*;
use vstd::string::StrSliceExecFns;
use vstd::string::StringExecFns;
use crate::error::ContractError;
use crate::token::Token;
use crate::token::TokenWithDenom;

verus! {

/// One leg of a route as the caller names it: from one token to another.
#[derive(Debug, PartialEq, Eq)]
pub struct NextSwapPair {
    pub token_in: Token,
    pub token_out: Token,
    /// Set to make the hop fail when failures are rehearsed. Carried along,
    /// never acted on here.
    pub test_fail: Option<bool>,
}

impl Clone for NextSwapPair {
    fn clone(&self) -> (r: NextSwapPair)
        ensures
            r == *self,
    {
        NextSwapPair {
            token_in: self.token_in.clone(),
            token_out: self.token_out.clone(),
            test_fail: self.test_fail,
        }
    }
}

/// One leg of a route after its pool has been resolved.
#[derive(Debug, PartialEq, Eq)]
pub struct NextSwapVlp {
    pub vlp_address: String,
    pub test_fail: Option<bool>,
}

impl Clone for NextSwapVlp {
    fn clone(&self) -> (r: NextSwapVlp)
        ensures
            r == *self,
    {
        NextSwapVlp { vlp_address: self.vlp_address.clone(), test_fail: self.test_fail }
    }
}

/// A swap as a pool keeps it.
#[derive(Debug, PartialEq, Eq)]
pub struct SwapInfo {
    pub asset_in: TokenWithDenom,
    pub asset_out: TokenWithDenom,
    pub amount_in: u128,
    pub min_amount_out: u128,
    pub swaps: Vec<NextSwap>,
    /// When the swap expires, in nanoseconds.
    pub timeout: u64,
    pub swap_id: String,
}

/// The pool of the next leg of a swap.
#[derive(Debug, PartialEq, Eq)]
pub struct NextSwap {
    pub vlp_address: String,
}

impl Default for NextSwap {
    fn default() -> (r: NextSwap)
        ensures
            r.vlp_address@ == Seq::<char>::empty(),
    {
        NextSwap { vlp_address: String::new() }
    }
}

/// What a pool answers when a swap is done.
#[derive(Debug, PartialEq, Eq)]
pub struct SwapResponse {
    pub asset_in: Token,
    pub asset_out: Token,
    pub amount_in: u128,
    pub amount_out: u128,
    pub swap_id: String,
}

/// The two parts of a swap identifier.
#[derive(Debug, PartialEq, Eq)]
pub struct SwapExtractedId {
    pub sender: String,
    pub index: u128,
}

/// Where the segment that starts at `from` ends: at the next dash, or at the
/// end of the text.
pub open spec fn segment_end(text: Seq<char>, from: int) -> int
    decreases text.len() - from,
{
    if from < 0 || from >= text.len() {
        text.len() as int
    } else if text[from] == '-' {
        from
    } else {
        segment_end(text, from + 1)
    }
}

/// The text before the first dash.
pub open spec fn first_segment(text: Seq<char>) -> Seq<char> {
    text.subrange(0, segment_end(text, 0))
}

/// The text between the first dash and the second, or the end.
pub open spec fn second_segment(text: Seq<char>) -> Seq<char>
    recommends
        segment_end(text, 0) < text.len(),
{
    text.subrange(segment_end(text, 0) + 1, segment_end(text, segment_end(text, 0) + 1))
}

/// Whether a character is one of `0` to `9`.
pub open spec fn is_digit(c: char) -> bool {
    '0' <= c && c <= '9'
}

/// The number that a run of digits writes, most significant digit first.
pub open spec fn digits_value(digits: Seq<char>) -> nat
    decreases digits.len(),
{
    if digits.len() == 0 {
        0
    } else {
        digits_value(digits.drop_last()) * 10 + (digits.last() as u32 - '0' as u32) as nat
    }
}

/// The digits of a number's text: the text without a leading plus sign.
pub open spec fn unsigned_part(text: Seq<char>) -> Seq<char> {
    if text.len() > 0 && text[0] == '+' {
        text.drop_first()
    } else {
        text
    }
}

/// The number that a text writes in decimal: an optional plus sign, then one
/// digit or more, and a value of at most 128 bits. Any other text writes none.
pub open spec fn parse_u128(text: Seq<char>) -> Option<u128> {
    let digits = unsigned_part(text);
    if digits.len() > 0 && (forall|i: int| 0 <= i < digits.len() ==> is_digit(#[trigger] digits[i]))
        && digits_value(digits) <= u128::MAX {
        Some(digits_value(digits) as u128)
    } else {
        None
    }
}

proof fn lemma_segment_end_bounds(text: Seq<char>, from: int)
    requires
        0 <= from <= text.len(),
    ensures
        from <= segment_end(text, from) <= text.len(),
        forall|j: int| from <= j < segment_end(text, from) ==> text[j] != '-',
        segment_end(text, from) < text.len() ==> text[segment_end(text, from)] == '-',
    decreases text.len() - from,
{
    if from < text.len() && text[from] != '-' {
        lemma_segment_end_bounds(text, from + 1);
    }
}

proof fn lemma_segment_end_step(text: Seq<char>, from: int, at: int)
    requires
        0 <= from <= at <= text.len(),
        forall|j: int| from <= j < at ==> text[j] != '-',
    ensures
        segment_end(text, from) == segment_end(text, at),
    decreases at - from,
{
    if from < at {
        lemma_segment_end_step(text, from + 1, at);
    }
}

fn find_segment_end(text: &str, len: usize, from: usize) -> (r: usize)
    requires
        len == text@.len(),
        from <= len,
    ensures
        r == segment_end(text@, from as int),
        from <= r <= len,
{
    let mut i: usize = from;
    while i < len
        invariant
            len == text@.len(),
            from <= i <= len,
            forall|j: int| from <= j < i ==> text@[j] != '-',
        decreases len - i,
    {
        if text.get_char(i) == '-' {
            proof {
                lemma_segment_end_step(text@, from as int, i as int);
            }
            return i;
        }
        i += 1;
    }
    proof {
        lemma_segment_end_step(text@, from as int, i as int);
    }
    i
}

proof fn lemma_digits_value_grows(digits: Seq<char>, n: int)
    requires
        0 <= n <= digits.len(),
    ensures
        digits_value(digits.take(n)) <= digits_value(digits),
    decreases digits.len() - n,
{
    if n < digits.len() {
        lemma_digits_value_grows(digits, n + 1);
        assert(digits.take(n + 1).drop_last() =~= digits.take(n));
    } else {
        assert(digits.take(n) =~= digits);
    }
}

/// The number written in decimal by the characters of `text` from `from` up
/// to `to`.
fn parse_number(text: &str, from: usize, to: usize) -> (r: Option<u128>)
    requires
        from <= to <= text@.len(),
    ensures
        r == parse_u128(text@.subrange(from as int, to as int)),
{
    let ghost whole = text@.subrange(from as int, to as int);
    let mut start: usize = from;
    if from < to && text.get_char(from) == '+' {
        start = from + 1;
    }
    let ghost digits = unsigned_part(whole);
    proof {
        assert(digits =~= text@.subrange(start as int, to as int));
    }
    if start == to {
        return None;
    }
    let mut value: u128 = 0;
    let mut i: usize = start;
    while i < to
        invariant
            from <= start <= i <= to <= text@.len(),
            start < to,
            digits == text@.subrange(start as int, to as int),
            digits == unsigned_part(text@.subrange(from as int, to as int)),
            forall|j: int| 0 <= j < i - start ==> is_digit(#[trigger] digits[j]),
            value == digits_value(digits.take(i - start)),
        decreases to - i,
    {
        let c = text.get_char(i);
        proof {
            assert(digits[i - start] == c);
        }
        if c < '0' || c > '9' {
            proof {
                assert(!is_digit(digits[i - start]));
            }
            return None;
        }
        let digit: u128 = (c as u32 - '0' as u32) as u128;
        proof {
            assert(digits.take(i - start + 1).drop_last() =~= digits.take(i - start));
            lemma_digits_value_grows(digits, i - start + 1);
            assert(digits.take(i - start + 1).last() == c);
            assert(digits_value(digits.take(i - start + 1)) == value * 10 + digit);
        }
        let scaled: u128 = match value.checked_mul(10) {
            Some(v) => v,
            None => {
                return None;
            },
        };
        value = match scaled.checked_add(digit) {
            Some(v) => v,
            None => {
                return None;
            },
        };
        i += 1;
    }
    proof {
        assert(digits.take(to - start) =~= digits);
    }
    Some(value)
}

/// Splits a swap identifier of the form `sender-counter` into its parts.
///
/// The identifier holds a dash. What stands before the first dash is the
/// sender, and may be empty. What stands between the first dash and the
/// second, or the end, is the counter, and is a decimal number.
pub fn parse_swap_id(id: &str) -> (r: Result<SwapExtractedId, ContractError>)
    requires
        segment_end(id@, 0) < id@.len(),
    ensures
        match parse_u128(second_segment(id@)) {
            Some(n) => r matches Ok(parts) && parts.sender@ == first_segment(id@) && parts.index == n,
            None => r == Err::<SwapExtractedId, ContractError>(ContractError::InvalidSwapId),
        },
{
    let len: usize = id.unicode_len();
    let dash: usize = find_segment_end(id, len, 0);
    let end: usize = find_segment_end(id, len, dash + 1);
    match parse_number(id, dash + 1, end) {
        Some(index) => {
            let sender = String::from_str(id.substring_char(0, dash));
            Ok(SwapExtractedId { sender, index })
        },
        None => Err(ContractError::InvalidSwapId),
    }
}

} // verus!
