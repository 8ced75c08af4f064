//! 256-bit unsigned integers and 160-bit addresses of the Ethereum side.

use crate::numeric::{be_value, be_word, decimal_text, lemma_be_value_unique};
use vstd::prelude::*;

verus! {

/// The number that four 64-bit limbs denote, least significant limb first.
pub open spec fn limbs_value(limbs: Seq<u64>) -> nat {
    (limbs[0] as nat) + (limbs[1] as nat) * 0x1_0000_0000_0000_0000nat + (limbs[2] as nat)
        * 0x1_0000_0000_0000_0000_0000_0000_0000_0000nat + (limbs[3] as nat)
        * 0x1_0000_0000_0000_0000_0000_0000_0000_0000_0000_0000_0000_0000nat
}

/// A number below `2^64` plus a multiple of `2^64` fixes both parts.
proof fn lemma_low_limb_unique(x: nat, q: nat, y: nat, r: nat)
    requires
        x < 0x1_0000_0000_0000_0000nat,
        y < 0x1_0000_0000_0000_0000nat,
        x + q * 0x1_0000_0000_0000_0000nat == y + r * 0x1_0000_0000_0000_0000nat,
    ensures
        x == y,
        q == r,
{
    if q < r {
        assert((r - q) * 0x1_0000_0000_0000_0000nat >= 0x1_0000_0000_0000_0000nat);
    } else if r < q {
        assert((q - r) * 0x1_0000_0000_0000_0000nat >= 0x1_0000_0000_0000_0000nat);
    }
}

/// An Ethereum address: 20 bytes, carried as they are.
#[derive(Clone, Copy, Debug)]
pub struct H160(pub [u8; 20]);

/// A 256-bit unsigned integer, as four 64-bit limbs, least significant first.
#[derive(Clone, Copy, Debug)]
pub struct U256(pub [u64; 4]);

impl PartialEq for U256 {
    fn eq(&self, other: &U256) -> (same: bool) {
        let same = self.0[0] == other.0[0] && self.0[1] == other.0[1] && self.0[2] == other.0[2]
            && self.0[3] == other.0[3];
        assert(same ==> self.0 =~= other.0);
        same
    }
}

impl Eq for U256 {

}

impl vstd::std_specs::cmp::PartialEqSpecImpl for U256 {
    open spec fn obeys_eq_spec() -> bool {
        true
    }

    open spec fn eq_spec(&self, other: &U256) -> bool {
        *self == *other
    }
}

/// Reads the bytes with `ethers::types::U256::from_big_endian`, which pads
/// them on the left to 32 bytes and reads four big-endian words; it panics on
/// more than 32 bytes.
#[verifier::external_body]
fn read_big_endian(slice: &[u8]) -> (r: U256)
    requires
        slice@.len() <= 32,
    ensures
        r.value() == be_value(slice@),
{
    U256(ethers::types::U256::from_big_endian(slice).0)
}

/// Writes the number with `ethers::types::U256::to_big_endian` into 32 bytes,
/// most significant byte first.
#[verifier::external_body]
fn write_big_endian(n: &U256) -> (bytes: [u8; 32])
    ensures
        be_value(bytes@) == n.value(),
{
    let mut bytes = [0u8; 32];
    ethers::types::U256(n.0).to_big_endian(&mut bytes);
    bytes
}

/// Renders the number with the `Display` impl of `ethers::types::U256`, which
/// writes its plain decimal digits.
#[verifier::external_body]
fn decimal_of_limbs(n: &U256) -> (text: String)
    ensures
        text@ == decimal_text(n.value()),
{
    ethers::types::U256(n.0).to_string()
}

impl U256 {
    /// The number that the value stands for.
    pub open spec fn value(&self) -> nat {
        limbs_value(self.0@)
    }

    /// Two values that denote the same number are the same value.
    pub proof fn lemma_value_injective(a: U256, b: U256)
        ensures
            (a.value() == b.value()) == (a == b),
    {
        if a.value() == b.value() {
            let base = 0x1_0000_0000_0000_0000nat;
            let a2 = (a.0[2] as nat) + (a.0[3] as nat) * base;
            let b2 = (b.0[2] as nat) + (b.0[3] as nat) * base;
            let a1 = (a.0[1] as nat) + a2 * base;
            let b1 = (b.0[1] as nat) + b2 * base;
            assert(a.value() == (a.0[0] as nat) + a1 * base);
            assert(b.value() == (b.0[0] as nat) + b1 * base);
            lemma_low_limb_unique(a.0[0] as nat, a1, b.0[0] as nat, b1);
            lemma_low_limb_unique(a.0[1] as nat, a2, b.0[1] as nat, b2);
            lemma_low_limb_unique(a.0[2] as nat, a.0[3] as nat, b.0[2] as nat, b.0[3] as nat);
            assert(forall|i: int| 0 <= i < 4 ==> a.0[i] == b.0@[i]);
            assert(a.0 =~= b.0);
        }
    }

    /// Zero.
    pub fn zero() -> (r: U256)
        ensures
            r.value() == 0,
    {
        U256([0, 0, 0, 0])
    }

    /// The value of a 64-bit number.
    pub fn from_u64(n: u64) -> (r: U256)
        ensures
            r.value() == n,
    {
        U256([n, 0, 0, 0])
    }

    /// The number that at most 32 bytes denote, most significant byte first.
    pub fn from_big_endian(slice: &[u8]) -> (r: U256)
        requires
            slice@.len() <= 32,
        ensures
            r.value() == be_value(slice@),
    {
        read_big_endian(slice)
    }

    /// The 32 bytes of the number, most significant first.
    pub fn to_big_endian(&self) -> (bytes: [u8; 32])
        ensures
            bytes@ == be_word(self.value(), 32),
            be_value(bytes@) == self.value(),
    {
        let bytes = write_big_endian(self);
        proof {
            lemma_be_value_unique(bytes@, self.value());
        }
        bytes
    }

    /// The decimal text of the number.
    pub fn to_string(&self) -> (text: String)
        ensures
            text@ == decimal_text(self.value()),
    {
        decimal_of_limbs(self)
    }
}

} // verus!
