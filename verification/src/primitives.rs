//! Addresses and 256 bit unsigned integers as plain values.
use vstd::prelude::*;

verus! {

/// A 20 byte account address.
#[derive(Clone, Copy, Debug, PartialEq, Eq, Hash)]
pub struct Address {
    pub bytes: [u8; 20],
}

impl View for Address {
    type V = Seq<u8>;

    open spec fn view(&self) -> Seq<u8> {
        self.bytes@
    }
}

/// The bytes of the zero address.
pub open spec fn zero_address_bytes() -> Seq<u8> {
    Seq::new(20, |i: int| 0u8)
}

/// The zero address is twenty bytes, and each of them is zero.
pub proof fn law_zero_address_is_all_zeros(i: int)
    ensures
        zero_address_bytes().len() == 20,
        0 <= i < 20 ==> zero_address_bytes()[i] == 0,
{
}

impl Address {
    /// The address with the given bytes.
    pub fn new(bytes: [u8; 20]) -> (r: Address)
        ensures
            r.bytes == bytes,
    {
        Address { bytes }
    }

    /// The zero address.
    pub fn zero() -> (r: Address)
        ensures
            r@ == zero_address_bytes(),
            forall|i: int| 0 <= i < 20 ==> r.bytes@[i] == 0,
    {
        let r = Address { bytes: [0u8; 20] };
        assert(r@ =~= zero_address_bytes());
        r
    }

    /// Whether this is the zero address.
    pub fn is_zero(&self) -> (r: bool)
        ensures
            r == (self@ == zero_address_bytes()),
            r == (forall|i: int| 0 <= i < 20 ==> self.bytes@[i] == 0),
    {
        let mut i: usize = 0;
        while i < 20
            invariant
                i <= 20,
                forall|j: int| 0 <= j < i ==> self@[j] == 0,
            decreases 20 - i,
        {
            if self.bytes[i] != 0 {
                assert(zero_address_bytes()[i as int] == 0);
                return false;
            }
            i = i + 1;
        }
        assert(self@ =~= zero_address_bytes());
        true
    }
}

impl Default for Address {
    fn default() -> (r: Address)
        ensures
            r@ == zero_address_bytes(),
            forall|i: int| 0 <= i < 20 ==> r.bytes@[i] == 0,
    {
        Address::zero()
    }
}

/// A 256 bit unsigned integer: four 64 bit limbs, least significant first.
#[derive(Clone, Copy, Debug, PartialEq, Eq, Hash)]
pub struct U256 {
    pub limbs: [u64; 4],
}

/// Two to the power of 64, the weight of one limb.
pub open spec fn limb_base() -> nat {
    0x1_0000_0000_0000_0000
}

/// Two to the power of 256.
pub open spec fn u256_modulus() -> nat {
    limb_base() * limb_base() * limb_base() * limb_base()
}

/// The number that four limbs stand for, least significant limb first.
pub open spec fn limbs_value(limbs: Seq<u64>) -> nat {
    limbs[0] as nat + limb_base() * (limbs[1] as nat + limb_base() * (limbs[2] as nat + limb_base()
        * (limbs[3] as nat)))
}

/// Each limb counts two to the power of 64 times as much as the one before it, and a number
/// stays below two to the power of 256.
pub proof fn law_limbs_are_digits(limbs: Seq<u64>)
    requires
        limbs.len() == 4,
    ensures
        limbs_value(limbs) == limbs[0] + 0x1_0000_0000_0000_0000 * limbs[1]
            + 0x1_0000_0000_0000_0000_0000_0000_0000_0000 * limbs[2]
            + 0x1_0000_0000_0000_0000_0000_0000_0000_0000_0000_0000_0000_0000 * limbs[3],
        limbs_value(limbs) < u256_modulus(),
        u256_modulus()
            == 0x1_0000_0000_0000_0000_0000_0000_0000_0000_0000_0000_0000_0000_0000_0000_0000_0000,
{
}

/// Two numbers with the same value have the same limbs.
pub proof fn law_value_decides_the_limbs(a: Seq<u64>, b: Seq<u64>)
    requires
        a.len() == 4,
        b.len() == 4,
        limbs_value(a) == limbs_value(b),
    ensures
        a == b,
{
    assert(a =~= b);
}

impl View for U256 {
    type V = nat;

    open spec fn view(&self) -> nat {
        limbs_value(self.limbs@)
    }
}

/// The value of a number is that of its limbs.
pub proof fn law_number_is_its_limbs(number: U256)
    ensures
        number@ == number.limbs@[0] + 0x1_0000_0000_0000_0000 * number.limbs@[1]
            + 0x1_0000_0000_0000_0000_0000_0000_0000_0000 * number.limbs@[2]
            + 0x1_0000_0000_0000_0000_0000_0000_0000_0000_0000_0000_0000_0000 * number.limbs@[3],
{
}

impl U256 {
    /// Zero.
    pub fn zero() -> (r: U256)
        ensures
            r@ == 0,
    {
        U256 { limbs: [0u64; 4] }
    }

    /// The number of the given value.
    ///
    /// Calls `alloy::primitives::U256::from::<usize>`, which keeps the value: a 256 bit
    /// number holds every `usize`.
    #[verifier::external_body]
    pub(crate) fn from_usize(value: usize) -> (r: U256)
        ensures
            r@ == value,
    {
        U256 { limbs: alloy::primitives::U256::from(value).into_limbs() }
    }

    /// The number as a `usize`.
    ///
    /// Calls `alloy::primitives::U256::to::<usize>`, which gives back the value when a
    /// `usize` holds it and panics when it does not.
    #[verifier::external_body]
    pub(crate) fn to_usize(self) -> (r: usize)
        requires
            self@ <= usize::MAX,
        ensures
            r == self@,
    {
        alloy::primitives::U256::from_limbs(self.limbs).to::<usize>()
    }

    /// The sum, reduced modulo two to the power of 256.
    ///
    /// Calls the `+` of `alloy::primitives::U256`, which is its `wrapping_add`.
    #[verifier::external_body]
    pub(crate) fn plus(self, other: U256) -> (r: U256)
        ensures
            r@ == (self@ + other@) % u256_modulus(),
    {
        let a = alloy::primitives::U256::from_limbs(self.limbs);
        let b = alloy::primitives::U256::from_limbs(other.limbs);
        U256 { limbs: (a + b).into_limbs() }
    }

    /// The difference, reduced modulo two to the power of 256.
    ///
    /// Calls the `-` of `alloy::primitives::U256`, which is its `wrapping_sub`.
    #[verifier::external_body]
    pub(crate) fn minus(self, other: U256) -> (r: U256)
        ensures
            r@ == (self@ - other@) % (u256_modulus() as int),
    {
        let a = alloy::primitives::U256::from_limbs(self.limbs);
        let b = alloy::primitives::U256::from_limbs(other.limbs);
        U256 { limbs: (a - b).into_limbs() }
    }

    /// Whether this number is the larger one.
    ///
    /// Calls the `>` of `alloy::primitives::U256`, which orders by value.
    #[verifier::external_body]
    pub(crate) fn exceeds(self, other: U256) -> (r: bool)
        ensures
            r == (self@ > other@),
    {
        alloy::primitives::U256::from_limbs(self.limbs) > alloy::primitives::U256::from_limbs(
            other.limbs,
        )
    }
}

impl Default for U256 {
    fn default() -> (r: U256)
        ensures
            r@ == 0,
    {
        U256::zero()
    }
}

} // verus!
