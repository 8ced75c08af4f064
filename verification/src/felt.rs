//! Elements of the StarkNet prime field, held as 32 big-endian bytes.

use crate::numeric::{be_value, decimal_text, lemma_be_value_order, lemma_be_value_step};
use vstd::prelude::*;

verus! {

/// The modulus of the StarkNet field: `2^251 + 17 * 2^192 + 1`.
pub open spec fn stark_prime() -> nat {
    0x800000000000011000000000000000000000000000000000000000000000001nat
}

/// The byte of the modulus at a position, most significant first.
pub open spec fn prime_byte(at: int) -> u8 {
    if at == 0 {
        0x08
    } else if at == 7 {
        0x11
    } else if at == 31 {
        0x01
    } else {
        0
    }
}

/// The 32 bytes of the modulus, most significant first.
pub open spec fn prime_bytes() -> Seq<u8> {
    Seq::new(32, |at: int| prime_byte(at))
}

/// The bytes of the modulus denote the modulus.
pub proof fn lemma_prime_bytes_value()
    ensures
        be_value(prime_bytes()) == stark_prime(),
{
    let p = prime_bytes();
    assert(be_value(p.take(0)) == 0);
    lemma_be_value_step(p, 0);
    assert(be_value(p.take(1)) == 0x8nat);
    lemma_be_value_step(p, 1);
    assert(be_value(p.take(2)) == 0x800nat);
    lemma_be_value_step(p, 2);
    assert(be_value(p.take(3)) == 0x80000nat);
    lemma_be_value_step(p, 3);
    assert(be_value(p.take(4)) == 0x8000000nat);
    lemma_be_value_step(p, 4);
    assert(be_value(p.take(5)) == 0x800000000nat);
    lemma_be_value_step(p, 5);
    assert(be_value(p.take(6)) == 0x80000000000nat);
    lemma_be_value_step(p, 6);
    assert(be_value(p.take(7)) == 0x8000000000000nat);
    lemma_be_value_step(p, 7);
    assert(be_value(p.take(8)) == 0x800000000000011nat);
    lemma_be_value_step(p, 8);
    assert(be_value(p.take(9)) == 0x80000000000001100nat);
    lemma_be_value_step(p, 9);
    assert(be_value(p.take(10)) == 0x8000000000000110000nat);
    lemma_be_value_step(p, 10);
    assert(be_value(p.take(11)) == 0x800000000000011000000nat);
    lemma_be_value_step(p, 11);
    assert(be_value(p.take(12)) == 0x80000000000001100000000nat);
    lemma_be_value_step(p, 12);
    assert(be_value(p.take(13)) == 0x8000000000000110000000000nat);
    lemma_be_value_step(p, 13);
    assert(be_value(p.take(14)) == 0x800000000000011000000000000nat);
    lemma_be_value_step(p, 14);
    assert(be_value(p.take(15)) == 0x80000000000001100000000000000nat);
    lemma_be_value_step(p, 15);
    assert(be_value(p.take(16)) == 0x8000000000000110000000000000000nat);
    lemma_be_value_step(p, 16);
    assert(be_value(p.take(17)) == 0x800000000000011000000000000000000nat);
    lemma_be_value_step(p, 17);
    assert(be_value(p.take(18)) == 0x80000000000001100000000000000000000nat);
    lemma_be_value_step(p, 18);
    assert(be_value(p.take(19)) == 0x8000000000000110000000000000000000000nat);
    lemma_be_value_step(p, 19);
    assert(be_value(p.take(20)) == 0x800000000000011000000000000000000000000nat);
    lemma_be_value_step(p, 20);
    assert(be_value(p.take(21)) == 0x80000000000001100000000000000000000000000nat);
    lemma_be_value_step(p, 21);
    assert(be_value(p.take(22)) == 0x8000000000000110000000000000000000000000000nat);
    lemma_be_value_step(p, 22);
    assert(be_value(p.take(23)) == 0x800000000000011000000000000000000000000000000nat);
    lemma_be_value_step(p, 23);
    assert(be_value(p.take(24)) == 0x80000000000001100000000000000000000000000000000nat);
    lemma_be_value_step(p, 24);
    assert(be_value(p.take(25)) == 0x8000000000000110000000000000000000000000000000000nat);
    lemma_be_value_step(p, 25);
    assert(be_value(p.take(26)) == 0x800000000000011000000000000000000000000000000000000nat);
    lemma_be_value_step(p, 26);
    assert(be_value(p.take(27)) == 0x80000000000001100000000000000000000000000000000000000nat);
    lemma_be_value_step(p, 27);
    assert(be_value(p.take(28)) == 0x8000000000000110000000000000000000000000000000000000000nat);
    lemma_be_value_step(p, 28);
    assert(be_value(p.take(29)) == 0x800000000000011000000000000000000000000000000000000000000nat);
    lemma_be_value_step(p, 29);
    assert(be_value(p.take(30)) == 0x80000000000001100000000000000000000000000000000000000000000nat);
    lemma_be_value_step(p, 30);
    assert(be_value(p.take(31)) == 0x8000000000000110000000000000000000000000000000000000000000000nat);
    lemma_be_value_step(p, 31);
    assert(be_value(p.take(32)) == 0x800000000000011000000000000000000000000000000000000000000000001nat);
    assert(p.take(32) == p);
}

/// Why a text is not a field element.
#[derive(Clone, Copy, Debug, PartialEq, Eq, Structural)]
pub enum FromStrError {
    /// The text holds a character that is no digit of the expected base.
    InvalidCharacter,
    /// The number is not below the field modulus.
    OutOfRange,
}

/// What `starknet::core::types::FieldElement::from_hex_be` makes of a text:
/// the 32 big-endian bytes of the element, or the reason for refusing.
pub uninterp spec fn hex_field_element(text: Seq<char>) -> Result<Seq<u8>, FromStrError>;

/// What the `FromStr` impl of `starknet::core::types::FieldElement` makes of a
/// text: the 32 big-endian bytes of the element, or the reason for refusing.
pub uninterp spec fn parsed_field_element(text: Seq<char>) -> Result<Seq<u8>, FromStrError>;

/// A field element: a number below [`stark_prime`].
#[derive(Clone, Copy, Debug)]
pub struct FieldElement {
    bytes: [u8; 32],
}

impl PartialEq for FieldElement {
    fn eq(&self, other: &FieldElement) -> (same: bool) {
        let mut i: usize = 0;
        while i < 32
            invariant
                i <= 32,
                forall|j: int| 0 <= j < i ==> self.bytes@[j] == other.bytes@[j],
            decreases 32 - i,
        {
            if self.bytes[i] != other.bytes[i] {
                return false;
            }
            i += 1;
        }
        assert(self.bytes =~= other.bytes);
        true
    }
}

impl Eq for FieldElement {

}

impl vstd::std_specs::cmp::PartialEqSpecImpl for FieldElement {
    open spec fn obeys_eq_spec() -> bool {
        true
    }

    open spec fn eq_spec(&self, other: &FieldElement) -> bool {
        *self == *other
    }
}

impl View for FieldElement {
    type V = Seq<u8>;

    /// The 32 bytes of the element, most significant first.
    closed spec fn view(&self) -> Seq<u8> {
        self.bytes@
    }
}

/// Hands the text to `starknet::core::types::FieldElement::from_hex_be` and
/// returns the bytes of the element it yields, as its `to_bytes_be` writes
/// them, or its error. The contract names that outcome, and says of the bytes
/// only that they denote a number below the modulus, as those of every
/// element do.
#[verifier::external_body]
fn parse_hex_be(value: &str) -> (r: Result<FieldElement, FromStrError>)
    ensures
        r matches Ok(f) ==> f.value() < stark_prime(),
        match r {
            Ok(f) => hex_field_element(value@) == Ok::<Seq<u8>, FromStrError>(f@),
            Err(e) => hex_field_element(value@) == Err::<Seq<u8>, FromStrError>(e),
        },
{
    match starknet::core::types::FieldElement::from_hex_be(value) {
        Ok(f) => Ok(FieldElement { bytes: f.to_bytes_be() }),
        Err(starknet::core::types::FromStrError::InvalidCharacter) => Err(
            FromStrError::InvalidCharacter,
        ),
        Err(starknet::core::types::FromStrError::OutOfRange) => Err(FromStrError::OutOfRange),
    }
}

/// Hands the text to the `FromStr` impl of
/// `starknet::core::types::FieldElement` and returns the bytes of the element
/// it yields, as its `to_bytes_be` writes them, or its error. The contract
/// names that outcome, and says of the bytes only that they denote a number
/// below the modulus, as those of every element do.
#[verifier::external_body]
fn parse_text(value: &str) -> (r: Result<FieldElement, FromStrError>)
    ensures
        r matches Ok(f) ==> f.value() < stark_prime(),
        match r {
            Ok(f) => parsed_field_element(value@) == Ok::<Seq<u8>, FromStrError>(f@),
            Err(e) => parsed_field_element(value@) == Err::<Seq<u8>, FromStrError>(e),
        },
{
    match value.parse::<starknet::core::types::FieldElement>() {
        Ok(f) => Ok(FieldElement { bytes: f.to_bytes_be() }),
        Err(starknet::core::types::FromStrError::InvalidCharacter) => Err(
            FromStrError::InvalidCharacter,
        ),
        Err(starknet::core::types::FromStrError::OutOfRange) => Err(FromStrError::OutOfRange),
    }
}

/// The byte of the modulus at a position, most significant first.
fn prime_byte_at(at: usize) -> (byte: u8)
    requires
        at < 32,
    ensures
        byte == prime_byte(at as int),
{
    if at == 0 {
        0x08
    } else if at == 7 {
        0x11
    } else if at == 31 {
        0x01
    } else {
        0
    }
}

/// Rebuilds the element with `starknet::core::types::FieldElement::from_bytes_be`
/// and renders it with its `Display` impl, which writes the plain decimal
/// digits of the number. Bytes that denote no element give `None`.
#[verifier::external_body]
fn decimal_of_bytes(bytes: &[u8; 32]) -> (text: Option<String>)
    ensures
        be_value(bytes@) < stark_prime() ==> text is Some && text->0@ == decimal_text(
            be_value(bytes@),
        ),
        be_value(bytes@) >= stark_prime() ==> text is None,
{
    starknet::core::types::FieldElement::from_bytes_be(bytes).ok().map(|f| f.to_string())
}

impl FieldElement {
    #[verifier::type_invariant]
    spec fn canonical(&self) -> bool {
        be_value(self.bytes@) < stark_prime()
    }

    /// The number that the element stands for.
    pub open spec fn value(&self) -> nat {
        be_value(self@)
    }

    /// The element with the given big-endian bytes, if they denote a number
    /// below the modulus.
    pub fn from_bytes_be(bytes: &[u8; 32]) -> (r: Option<FieldElement>)
        ensures
            r is Some == (be_value(bytes@) < stark_prime()),
            r matches Some(f) ==> f@ == bytes@,
    {
        proof {
            lemma_prime_bytes_value();
        }
        let mut at: usize = 0;
        while at < 32
            invariant
                at <= 32,
                bytes@.take(at as int) == prime_bytes().take(at as int),
                be_value(prime_bytes()) == stark_prime(),
            decreases 32 - at,
        {
            let limit = prime_byte_at(at);
            if bytes[at] < limit {
                proof {
                    lemma_be_value_order(bytes@, prime_bytes(), at as int);
                }
                return Some(FieldElement { bytes: *bytes });
            }
            if bytes[at] > limit {
                proof {
                    lemma_be_value_order(prime_bytes(), bytes@, at as int);
                }
                return None;
            }
            assert(bytes@.take(at + 1) == bytes@.take(at as int).push(bytes@[at as int]));
            assert(prime_bytes().take(at + 1) == prime_bytes().take(at as int).push(
                prime_bytes()[at as int],
            ));
            at += 1;
        }
        assert(bytes@.take(32) == bytes@);
        assert(prime_bytes().take(32) == prime_bytes());
        None
    }

    /// The 32 bytes of the element, most significant first.
    pub fn to_bytes_be(&self) -> (bytes: [u8; 32])
        ensures
            bytes@ == self@,
            be_value(bytes@) < stark_prime(),
    {
        proof {
            use_type_invariant(self);
        }
        self.bytes
    }

    /// Parses a decimal text, or a hexadecimal one that starts with `0x`.
    pub fn from_str(value: &str) -> (r: Result<FieldElement, FromStrError>)
        ensures
            r matches Ok(f) ==> f.value() < stark_prime(),
            match r {
                Ok(f) => parsed_field_element(value@) == Ok::<Seq<u8>, FromStrError>(f@),
                Err(e) => parsed_field_element(value@) == Err::<Seq<u8>, FromStrError>(e),
            },
    {
        parse_text(value)
    }

    /// Parses a hexadecimal text, with or without a leading `0x`.
    pub fn from_hex_be(value: &str) -> (r: Result<FieldElement, FromStrError>)
        ensures
            r matches Ok(f) ==> f.value() < stark_prime(),
            match r {
                Ok(f) => hex_field_element(value@) == Ok::<Seq<u8>, FromStrError>(f@),
                Err(e) => hex_field_element(value@) == Err::<Seq<u8>, FromStrError>(e),
            },
    {
        parse_hex_be(value)
    }

    /// The decimal text of the element.
    pub fn to_string(&self) -> (text: String)
        ensures
            text@ == decimal_text(self.value()),
    {
        proof {
            use_type_invariant(self);
        }
        match decimal_of_bytes(&self.bytes) {
            Some(text) => text,
            None => String::new(),
        }
    }
}

} // verus!
