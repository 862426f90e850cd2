//! Properties of a GATT characteristic, one bit each, as the Bluetooth Core
//! specification numbers them (bit 0 = broadcast ... bit 7 = extended
//! properties).

use vstd::prelude::*;

verus! {

/// One property that a characteristic may support.
///
/// The bit of a property in the properties byte is given by `mask()`; a cast with `as u8`
/// gives the property's position (0 to 7), not its bit.
#[derive(Debug, Clone, Copy, PartialEq, Eq)]
pub enum CharProps {
    Broadcast,
    Read,
    WriteWithoutResponse,
    Write,
    Notify,
    Indicate,
    AuthenticatedSignedWrites,
    ExtendedProperties,
}

/// The mask of a property in the properties byte.
pub open spec fn prop_mask(p: CharProps) -> u8 {
    match p {
        CharProps::Broadcast => 0x01,
        CharProps::Read => 0x02,
        CharProps::WriteWithoutResponse => 0x04,
        CharProps::Write => 0x08,
        CharProps::Notify => 0x10,
        CharProps::Indicate => 0x20,
        CharProps::AuthenticatedSignedWrites => 0x40,
        CharProps::ExtendedProperties => 0x80,
    }
}

/// A byte with exactly one bit set: one named property flag.
pub open spec fn is_single_flag(flag: u8) -> bool {
    flag == 0x01 || flag == 0x02 || flag == 0x04 || flag == 0x08 || flag == 0x10 || flag == 0x20
        || flag == 0x40 || flag == 0x80
}

impl CharProps {
    /// The mask of this property in the properties byte.
    pub fn mask(&self) -> (m: u8)
        ensures
            m == prop_mask(*self),
    {
        match self {
            CharProps::Broadcast => 0x01,
            CharProps::Read => 0x02,
            CharProps::WriteWithoutResponse => 0x04,
            CharProps::Write => 0x08,
            CharProps::Notify => 0x10,
            CharProps::Indicate => 0x20,
            CharProps::AuthenticatedSignedWrites => 0x40,
            CharProps::ExtendedProperties => 0x80,
        }
    }

    /// The property that a single flag of the properties byte stands for.
    pub fn from_flag(flag: u8) -> (p: CharProps)
        requires
            is_single_flag(flag),
        ensures
            prop_mask(p) == flag,
    {
        if flag == 0x01 {
            CharProps::Broadcast
        } else if flag == 0x02 {
            CharProps::Read
        } else if flag == 0x04 {
            CharProps::WriteWithoutResponse
        } else if flag == 0x08 {
            CharProps::Write
        } else if flag == 0x10 {
            CharProps::Notify
        } else if flag == 0x20 {
            CharProps::Indicate
        } else if flag == 0x40 {
            CharProps::AuthenticatedSignedWrites
        } else {
            CharProps::ExtendedProperties
        }
    }
}

/// A set of characteristic properties, kept as the properties byte.
#[derive(Debug, Clone, Copy)]
pub struct CharPropSet {
    bits: u8,
}

impl View for CharPropSet {
    type V = Set<CharProps>;

    open spec fn view(&self) -> Set<CharProps> {
        Set::new(|p: CharProps| self.spec_bits() & prop_mask(p) != 0)
    }
}

impl CharPropSet {
    /// The properties byte.
    pub closed spec fn spec_bits(&self) -> u8 {
        self.bits
    }

    /// The set with no property.
    pub fn empty() -> (s: CharPropSet)
        ensures
            s@ == Set::<CharProps>::empty(),
            s.spec_bits() == 0,
    {
        let s = CharPropSet { bits: 0 };
        assert forall|p: CharProps| !s@.contains(p) by {
            let m = prop_mask(p);
            assert(0u8 & m == 0) by (bit_vector);
        }
        assert(s@ =~= Set::<CharProps>::empty());
        s
    }

    /// Adds a property to the set.
    pub fn insert(&mut self, p: CharProps)
        ensures
            final(self)@ == old(self)@.insert(p),
            final(self).spec_bits() == old(self).spec_bits() | prop_mask(p),
    {
        let m = p.mask();
        let old_bits = self.bits;
        self.bits = self.bits | m;
        assert forall|q: CharProps| #[trigger] self@.contains(q) == old(self)@.insert(p).contains(q) by {
            lemma_mask_distinct(p, q);
            let mq = prop_mask(q);
            if q == p {
                assert((old_bits | m) & m != 0) by (bit_vector)
                    requires m == 1 || m == 2 || m == 4 || m == 8 || m == 16 || m == 32 || m == 64 || m == 128;
            } else {
                assert((old_bits | m) & mq == old_bits & mq) by (bit_vector)
                    requires
                        m == 1 || m == 2 || m == 4 || m == 8 || m == 16 || m == 32 || m == 64 || m == 128,
                        mq == 1 || mq == 2 || mq == 4 || mq == 8 || mq == 16 || mq == 32 || mq == 64 || mq == 128,
                        m != mq;
            }
        }
        assert(self@ =~= old(self)@.insert(p));
    }

    /// The properties byte.
    pub fn bits(&self) -> (b: u8)
        ensures
            b == self.spec_bits(),
    {
        self.bits
    }
}

/// The properties byte with only its lowest `i` bits kept.
pub open spec fn low_bits(x: u8, i: u8) -> u8 {
    if i >= 8 {
        x
    } else {
        x & (((1u8 << i) as int - 1) as u8)
    }
}

proof fn lemma_low_bits_step(x: u8, i: u8)
    requires
        i < 8,
    ensures
        low_bits(x, 0) == 0,
        is_single_flag(1u8 << i),
        x & (1u8 << i) != 0 ==> low_bits(x, (i + 1) as u8) == low_bits(x, i) | (1u8 << i),
        x & (1u8 << i) == 0 ==> low_bits(x, (i + 1) as u8) == low_bits(x, i),
{
    assert(x & ((1u8 << 0u8) as int - 1) as u8 == 0) by (bit_vector);
    assert(i < 8 ==> (1u8 << i == 1 || 1u8 << i == 2 || 1u8 << i == 4 || 1u8 << i == 8 || 1u8
        << i == 16 || 1u8 << i == 32 || 1u8 << i == 64 || 1u8 << i == 128)) by (bit_vector);
    if i < 7 {
        let j = (i + 1) as u8;
        assert(x & (1u8 << i) != 0 ==> x & ((1u8 << j) as int - 1) as u8 == (x & ((1u8 << i) as int
            - 1) as u8) | (1u8 << i)) by (bit_vector)
            requires
                i < 7,
                j == i + 1,
        ;
        assert(x & (1u8 << i) == 0 ==> x & ((1u8 << j) as int - 1) as u8 == x & ((1u8 << i) as int
            - 1) as u8) by (bit_vector)
            requires
                i < 7,
                j == i + 1,
        ;
    } else {
        assert(x & (1u8 << 7u8) != 0 ==> x == (x & ((1u8 << 7u8) as int - 1) as u8) | (1u8 << 7u8))
            by (bit_vector);
        assert(x & (1u8 << 7u8) == 0 ==> x == x & ((1u8 << 7u8) as int - 1) as u8) by (bit_vector);
    }
}

/// The set of properties whose bits are set in a properties byte; every bit of the byte names
/// a property, so the set keeps the byte as it is.
pub fn get_flags(properties: u8) -> (flags: CharPropSet)
    ensures
        flags@ == Set::new(|p: CharProps| properties & prop_mask(p) != 0),
        flags.spec_bits() == properties,
{
    let mut flags = CharPropSet::empty();
    let mut i: u8 = 0;
    proof {
        lemma_low_bits_step(properties, 0);
    }
    while i < 8
        invariant
            i <= 8,
            flags.spec_bits() == low_bits(properties, i),
        decreases 8 - i,
    {
        let flag: u8 = 1u8 << i;
        proof {
            lemma_low_bits_step(properties, i);
        }
        if properties & flag != 0 {
            let p = CharProps::from_flag(flag);
            flags.insert(p);
        }
        i = i + 1;
    }
    assert(flags@ =~= Set::new(|p: CharProps| properties & prop_mask(p) != 0));
    flags
}

proof fn lemma_mask_distinct(p: CharProps, q: CharProps)
    ensures
        p != q ==> prop_mask(p) != prop_mask(q),
        is_single_flag(prop_mask(p)),
{
}

/// Each property has a flag of its own with a single bit set, so that turning the flag of a
/// property back into a property (`CharProps::from_flag`) gives the same property.
pub proof fn law_flag_roundtrip(p: CharProps)
    ensures
        is_single_flag(prop_mask(p)),
        forall|q: CharProps| prop_mask(q) == prop_mask(p) ==> q == p,
{
}

/// The properties have the bits of the Bluetooth Core specification's characteristic
/// properties byte, in order: broadcast 0x01, read 0x02, write without response 0x04, write
/// 0x08, notify 0x10, indicate 0x20, authenticated signed writes 0x40, extended properties
/// 0x80.
pub proof fn law_masks_are_gatt_bits()
    ensures
        prop_mask(CharProps::Broadcast) == 0x01,
        prop_mask(CharProps::Read) == 0x02,
        prop_mask(CharProps::WriteWithoutResponse) == 0x04,
        prop_mask(CharProps::Write) == 0x08,
        prop_mask(CharProps::Notify) == 0x10,
        prop_mask(CharProps::Indicate) == 0x20,
        prop_mask(CharProps::AuthenticatedSignedWrites) == 0x40,
        prop_mask(CharProps::ExtendedProperties) == 0x80,
{
}

} // verus!
