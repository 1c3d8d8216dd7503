//! Reading the parallelism that a stored hash string claims.
//!
//! A PHC string names its parameters as `name=value` pairs. Argon2 takes a
//! parallelism of at most 16 777 215 lanes; a stored string that claims more
//! is not handed to it.

use vstd::prelude::*;
use vstd::std_specs::iter::IteratorSpec;

verus! {

broadcast use vstd::string::group_string_axioms;

/// The greatest parallelism that Argon2 takes.
pub const MAX_PARALLELISM: u32 = 16_777_215;

/// Whether a character is a decimal digit.
pub open spec fn is_digit(c: char) -> bool {
    '0' <= c <= '9'
}

/// The number that a decimal digit stands for.
pub open spec fn digit_value(c: char) -> nat {
    (c as int - '0' as int) as nat
}

/// The number written by `acc` followed by the digits at the front of
/// `text`, as far as digits go.
pub open spec fn number_from(acc: nat, text: Seq<char>) -> nat
    decreases text.len(),
{
    if text.len() > 0 && is_digit(text[0]) {
        number_from(acc * 10 + digit_value(text[0]), text.drop_first())
    } else {
        acc
    }
}

/// The number written by the digits at the front of `text`; zero where there
/// is none.
pub open spec fn leading_number(text: Seq<char>) -> nat {
    number_from(0, text)
}

/// Whether `p=` stands at index `i` of `text` and the digits after it write
/// a number above the greatest parallelism.
pub open spec fn wide_at(text: Seq<char>, i: int) -> bool {
    &&& 0 <= i
    &&& i + 1 < text.len()
    &&& text[i] == 'p'
    &&& text[i + 1] == '='
    &&& leading_number(text.skip(i + 2)) > MAX_PARALLELISM
}

/// Whether `text` claims, anywhere, a parallelism above the greatest that
/// Argon2 takes.
pub open spec fn claims_wide_parallelism(text: Seq<char>) -> bool {
    exists|i: int| wide_at(text, i)
}

/// More digits never make the number smaller.
pub proof fn lemma_number_grows(acc: nat, text: Seq<char>)
    ensures
        number_from(acc, text) >= acc,
    decreases text.len(),
{
    if text.len() > 0 && is_digit(text[0]) {
        lemma_number_grows(acc * 10 + digit_value(text[0]), text.drop_first());
    }
}

/// The characters of a text.
pub fn chars_of(text: &str) -> (v: Vec<char>)
    ensures
        v@ == text@,
{
    let mut v: Vec<char> = Vec::new();
    let mut it = text.chars();
    loop
        invariant
            v@ + it.remaining() == text@,
            it.decrease() is Some,
        decreases it.decrease()->0,
    {
        let ghost before = it.remaining();
        match it.next() {
            Some(c) => {
                assert(before == seq![c] + it.remaining());
                let ghost had = v@;
                v.push(c);
                assert(v@ + it.remaining() =~= had + before);
            },
            None => {
                assert(v@ + it.remaining() =~= v@);
                return v;
            },
        }
    }
}

/// Whether the digits that start at `start` write a number above the
/// greatest parallelism.
pub fn number_is_wide(text: &Vec<char>, start: usize) -> (r: bool)
    requires
        start <= text.len(),
    ensures
        r == (leading_number(text@.skip(start as int)) > MAX_PARALLELISM),
{
    let mut acc: u32 = 0;
    let mut k: usize = start;
    while k < text.len() && '0' <= text[k] && text[k] <= '9'
        invariant
            start <= k <= text.len(),
            acc <= MAX_PARALLELISM,
            leading_number(text@.skip(start as int)) == number_from(
                acc as nat,
                text@.skip(k as int),
            ),
        decreases text.len() - k,
    {
        let c = text[k];
        let digit: u32 = c as u32 - '0' as u32;
        let ghost rest = text@.skip(k as int);
        assert(rest[0] == c);
        assert(rest.drop_first() =~= text@.skip(k + 1));
        assert(digit as nat == digit_value(c));
        let next: u32 = acc * 10 + digit;
        if next > MAX_PARALLELISM {
            proof {
                lemma_number_grows(next as nat, text@.skip(k + 1));
            }
            return true;
        }
        acc = next;
        k += 1;
    }
    proof {
        let rest = text@.skip(k as int);
        if k < text.len() {
            assert(rest[0] == text[k as int]);
        }
    }
    false
}

/// Whether a stored hash string claims no parallelism above the greatest
/// that Argon2 takes.
pub fn parallelism_in_range(text: &str) -> (r: bool)
    ensures
        r == !claims_wide_parallelism(text@),
{
    let v = chars_of(text);
    let mut i: usize = 0;
    while i < v.len() && v.len() - i > 1
        invariant
            v@ == text@,
            forall|j: int| 0 <= j < i ==> !wide_at(text@, j),
        decreases v.len() - i,
    {
        if v[i] == 'p' && v[i + 1] == '=' {
            if number_is_wide(&v, i + 2) {
                assert(wide_at(text@, i as int));
                return false;
            }
        }
        i += 1;
    }
    true
}

} // verus!
