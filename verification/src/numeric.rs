//! Big-endian numbers and their decimal text, as mathematical functions.

use vstd::prelude::*;

verus! {

/// The number that a sequence of bytes denotes when read most significant
/// byte first.
pub open spec fn be_value(bytes: Seq<u8>) -> nat
    decreases bytes.len(),
{
    if bytes.len() == 0 {
        0
    } else {
        be_value(bytes.drop_last()) * 256 + bytes.last() as nat
    }
}

/// The `len` bytes that denote `n` when read most significant byte first: the
/// digits of `n` to the base 256, the lowest `len` of them.
pub open spec fn be_word(n: nat, len: nat) -> Seq<u8>
    decreases len,
{
    if len == 0 {
        Seq::empty()
    } else {
        be_word(n / 256, (len - 1) as nat).push((n % 256) as u8)
    }
}

/// A number has one big-endian form of a given length: bytes that denote `n`
/// are `be_word(n, ..)` of their length.
pub proof fn lemma_be_value_unique(bytes: Seq<u8>, n: nat)
    requires
        be_value(bytes) == n,
    ensures
        bytes == be_word(n, bytes.len()),
    decreases bytes.len(),
{
    if bytes.len() > 0 {
        let front = bytes.drop_last();
        lemma_be_value_unique(front, be_value(front));
        assert(n / 256 == be_value(front));
        assert(n % 256 == bytes.last());
        assert(bytes == front.push(bytes.last()));
    } else {
        assert(bytes == Seq::<u8>::empty());
    }
}

/// Reading one more byte multiplies by 256 and adds the byte.
pub proof fn lemma_be_value_step(bytes: Seq<u8>, k: int)
    requires
        0 <= k < bytes.len(),
    ensures
        be_value(bytes.take(k + 1)) == be_value(bytes.take(k)) * 256 + bytes[k] as nat,
{
    assert(bytes.take(k + 1).drop_last() == bytes.take(k));
}

/// Of two byte strings of one length, the one with the lower byte at the
/// first place where they differ denotes the lower number.
pub proof fn lemma_be_value_order(a: Seq<u8>, b: Seq<u8>, at: int)
    requires
        a.len() == b.len(),
        0 <= at < a.len(),
        a.take(at) == b.take(at),
        a[at] < b[at],
    ensures
        be_value(a) < be_value(b),
    decreases a.len(),
{
    if at == a.len() - 1 {
        assert(a.drop_last() == a.take(at));
        assert(b.drop_last() == b.take(at));
    } else {
        assert(a.drop_last().take(at) == a.take(at));
        assert(b.drop_last().take(at) == b.take(at));
        lemma_be_value_order(a.drop_last(), b.drop_last(), at);
    }
}

/// The character of one decimal digit.
pub open spec fn digit_char(d: nat) -> char {
    if d == 0 {
        '0'
    } else if d == 1 {
        '1'
    } else if d == 2 {
        '2'
    } else if d == 3 {
        '3'
    } else if d == 4 {
        '4'
    } else if d == 5 {
        '5'
    } else if d == 6 {
        '6'
    } else if d == 7 {
        '7'
    } else if d == 8 {
        '8'
    } else {
        '9'
    }
}

/// The decimal text of a number: no sign, no leading zero, `"0"` for zero.
pub open spec fn decimal_text(n: nat) -> Seq<char>
    decreases n,
{
    if n < 10 {
        seq![digit_char(n)]
    } else {
        decimal_text(n / 10).push(digit_char(n % 10))
    }
}

/// Decimal text is never empty.
pub proof fn lemma_decimal_text_nonempty(n: nat)
    ensures
        decimal_text(n).len() >= 1,
    decreases n,
{
    if n >= 10 {
        lemma_decimal_text_nonempty(n / 10);
    }
}

/// Two numbers with the same decimal text are the same number.
pub proof fn lemma_decimal_text_injective(a: nat, b: nat)
    requires
        decimal_text(a) == decimal_text(b),
    ensures
        a == b,
    decreases a,
{
    lemma_decimal_text_nonempty(a / 10);
    lemma_decimal_text_nonempty(b / 10);
    if a < 10 && b < 10 {
        assert(decimal_text(a)[0] == digit_char(a));
        assert(decimal_text(b)[0] == digit_char(b));
    } else if a >= 10 && b >= 10 {
        let ta = decimal_text(a / 10);
        let tb = decimal_text(b / 10);
        assert(decimal_text(a) == ta.push(digit_char(a % 10)));
        assert(decimal_text(b) == tb.push(digit_char(b % 10)));
        assert(ta.push(digit_char(a % 10)).drop_last() == ta);
        assert(tb.push(digit_char(b % 10)).drop_last() == tb);
        assert(ta.push(digit_char(a % 10)).last() == digit_char(a % 10));
        assert(tb.push(digit_char(b % 10)).last() == digit_char(b % 10));
        lemma_decimal_text_injective(a / 10, b / 10);
    } else if a < 10 {
        assert(decimal_text(a).len() == 1);
        assert(decimal_text(b) == decimal_text(b / 10).push(digit_char(b % 10)));
        assert(decimal_text(b).len() >= 2);
    } else {
        assert(decimal_text(b).len() == 1);
        assert(decimal_text(a) == decimal_text(a / 10).push(digit_char(a % 10)));
        assert(decimal_text(a).len() >= 2);
    }
}

} // verus!
