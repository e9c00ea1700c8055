//! The capability mask: which compressed texture families a device can
//! sample, in the bit layout the backend reads.

use vstd::prelude::*;

verus! {

/// Request bit for ASTC with low dynamic range.
pub const ASTC_LDR_BIT: u8 = 1;

/// Request bit for ASTC with high dynamic range.
pub const ASTC_HDR_BIT: u8 = 2;

/// Request bit for the BC (DXT) family.
pub const BC_BIT: u8 = 4;

/// Request bit for ETC2 and EAC.
pub const ETC2_BIT: u8 = 8;

/// A family of compressed texture formats that a device either samples or
/// does not.
#[derive(Clone, Copy, Debug, PartialEq, Eq, Hash, Structural)]
pub enum CompressionFamily {
    AstcLdr,
    AstcHdr,
    Bc,
    Etc2,
}

impl CompressionFamily {
    /// The request bit that stands for this family.
    pub open spec fn spec_bit(self) -> u8 {
        match self {
            CompressionFamily::AstcLdr => ASTC_LDR_BIT,
            CompressionFamily::AstcHdr => ASTC_HDR_BIT,
            CompressionFamily::Bc => BC_BIT,
            CompressionFamily::Etc2 => ETC2_BIT,
        }
    }

    /// The request bit that stands for this family.
    #[verifier::when_used_as_spec(spec_bit)]
    pub fn bit(self) -> (r: u8)
        ensures
            r == self.spec_bit(),
    {
        match self {
            CompressionFamily::AstcLdr => ASTC_LDR_BIT,
            CompressionFamily::AstcHdr => ASTC_HDR_BIT,
            CompressionFamily::Bc => BC_BIT,
            CompressionFamily::Etc2 => ETC2_BIT,
        }
    }
}

/// The request mask of a set of families: one bit for each family in the
/// set, nothing for the others, zero for the empty set.
pub open spec fn mask_bits(families: Set<CompressionFamily>) -> u8 {
    ((if families.contains(CompressionFamily::AstcLdr) { 1int } else { 0int })
        + (if families.contains(CompressionFamily::AstcHdr) { 2int } else { 0int })
        + (if families.contains(CompressionFamily::Bc) { 4int } else { 0int })
        + (if families.contains(CompressionFamily::Etc2) { 8int } else { 0int })) as u8
}

/// The families whose request bit is set in `bits`.
pub open spec fn families_of(bits: u8) -> Set<CompressionFamily> {
    Set::new(|family: CompressionFamily| bits & family.spec_bit() != 0)
}

/// A set of compressed texture families, as the backend's request mask.
///
/// The mask is built once for a device and handed by value into every
/// transcode call.  It never holds a bit that stands for no family.
#[derive(Clone, Copy, Debug, PartialEq, Eq, Hash, Structural)]
pub struct TextureCompressionMethod {
    bits: u8,
}

impl View for TextureCompressionMethod {
    type V = Set<CompressionFamily>;

    open spec fn view(&self) -> Set<CompressionFamily> {
        families_of(self.spec_bits())
    }
}

impl TextureCompressionMethod {
    #[verifier::type_invariant]
    spec fn only_family_bits(self) -> bool {
        self.bits < 16
    }

    /// The mask as the backend reads it.
    pub closed spec fn spec_bits(&self) -> u8 {
        self.bits
    }

    /// The mask as the backend reads it.
    #[verifier::when_used_as_spec(spec_bits)]
    pub fn bits(&self) -> (r: u8)
        ensures
            r == self.spec_bits(),
            r == mask_bits(self@),
    {
        proof {
            use_type_invariant(self);
            lemma_bits_of_families(self.bits);
        }
        self.bits
    }

    /// The mask of a device without compressed texture support.
    pub fn none() -> (r: Self)
        ensures
            r@ == Set::<CompressionFamily>::empty(),
            r.spec_bits() == 0,
            r.spec_bits() == mask_bits(r@),
    {
        let r = TextureCompressionMethod { bits: 0 };
        proof {
            lemma_families_of_zero();
        }
        r
    }

    /// The mask that requests exactly one family.
    pub fn only(family: CompressionFamily) -> (r: Self)
        ensures
            r@ == set![family],
            r.spec_bits() == family.spec_bit(),
            r.spec_bits() == mask_bits(r@),
    {
        let r = TextureCompressionMethod { bits: family.bit() };
        proof {
            lemma_bits_of_families(r.bits);
        }
        r
    }

    /// The mask with the given request bits, unless one of them stands for
    /// no family.
    pub fn from_bits(bits: u8) -> (r: Option<Self>)
        ensures
            r is Some <==> bits < 16,
            r matches Some(mask) ==> mask.spec_bits() == bits && mask@ == families_of(bits)
                && bits == mask_bits(mask@),
    {
        if bits < 16 {
            proof {
                lemma_bits_of_families(bits);
            }
            Some(TextureCompressionMethod { bits })
        } else {
            None
        }
    }

    /// Whether no family is requested.
    pub fn is_none(&self) -> (r: bool)
        ensures
            r == (self@ == Set::<CompressionFamily>::empty()),
            r == (self.spec_bits() == 0),
    {
        proof {
            use_type_invariant(self);
            lemma_bits_of_families(self.bits);
            lemma_families_of_zero();
        }
        self.bits == 0
    }

    /// Whether `family` is requested.
    pub fn contains(&self, family: CompressionFamily) -> (r: bool)
        ensures
            r == self@.contains(family),
    {
        self.bits & family.bit() != 0
    }

    /// The mask that requests what either mask requests.
    pub fn union(self, other: Self) -> (r: Self)
        ensures
            r@ == self@.union(other@),
            r.spec_bits() == self.spec_bits() | other.spec_bits(),
            r.spec_bits() == mask_bits(r@),
    {
        proof {
            use_type_invariant(&self);
            use_type_invariant(&other);
            lemma_families_of_or(self.bits, other.bits);
            lemma_bits_of_families(self.bits | other.bits);
        }
        TextureCompressionMethod { bits: self.bits | other.bits }
    }

    /// Adds `family` to the request.
    pub fn insert(&mut self, family: CompressionFamily)
        ensures
            final(self)@ == old(self)@.insert(family),
            final(self).spec_bits() == old(self).spec_bits() | family.spec_bit(),
            final(self).spec_bits() == mask_bits(final(self)@),
    {
        let added = TextureCompressionMethod::only(family);
        let merged = self.union(added);
        *self = merged;
    }
}

/// No family has its bit set in zero.
pub proof fn lemma_families_of_zero()
    ensures
        families_of(0) == Set::<CompressionFamily>::empty(),
{
    assert(forall|bit: u8| 0u8 & bit == 0) by (bit_vector);
}

/// The families of a bitwise or are the families of either side, and the or
/// of two masks holds no stray bit.
pub proof fn lemma_families_of_or(a: u8, b: u8)
    ensures
        families_of(a | b) == families_of(a).union(families_of(b)),
        a < 16 && b < 16 ==> (a | b) < 16,
{
    assert(a < 16 && b < 16 ==> (a | b) < 16) by (bit_vector);
    assert forall|family: CompressionFamily|
        families_of(a | b).contains(family) <==> families_of(a).contains(family) || families_of(
            b,
        ).contains(family) by {
        let bit = family.spec_bit();
        assert(((a | b) & bit != 0) <==> (a & bit != 0 || b & bit != 0)) by (bit_vector);
    }
}

/// A mask without stray bits is the request mask of its own families.
pub proof fn lemma_bits_of_families(bits: u8)
    requires
        bits < 16,
    ensures
        mask_bits(families_of(bits)) == bits,
{
    assert(bits < 16 ==> bits == (if bits & 1 != 0 { 1u8 } else { 0u8 }) + (if bits & 2 != 0 {
        2u8
    } else {
        0u8
    }) + (if bits & 4 != 0 { 4u8 } else { 0u8 }) + (if bits & 8 != 0 { 8u8 } else { 0u8 }))
        by (bit_vector);
}

/// The request mask of a set of families holds exactly the bits of those
/// families.
pub proof fn lemma_families_of_mask_bits(families: Set<CompressionFamily>)
    ensures
        families_of(mask_bits(families)) == families,
        mask_bits(families) < 16,
{
    let a: u8 = if families.contains(CompressionFamily::AstcLdr) { 1 } else { 0 };
    let b: u8 = if families.contains(CompressionFamily::AstcHdr) { 1 } else { 0 };
    let c: u8 = if families.contains(CompressionFamily::Bc) { 1 } else { 0 };
    let d: u8 = if families.contains(CompressionFamily::Etc2) { 1 } else { 0 };
    let m: u8 = mask_bits(families);
    assert(a <= 1 && b <= 1 && c <= 1 && d <= 1 && m == a + 2 * b + 4 * c + 8 * d ==> ((m & 1 != 0)
        == (a == 1)) && ((m & 2 != 0) == (b == 1)) && ((m & 4 != 0) == (c == 1)) && ((m & 8 != 0)
        == (d == 1))) by (bit_vector);
}

/// Enabling families in any order and in any grouping requests the same
/// mask, which is the bitwise or of the masks of the parts; enabling none
/// requests nothing.
pub proof fn lemma_negotiation_ignores_order(
    a: Set<CompressionFamily>,
    b: Set<CompressionFamily>,
    c: Set<CompressionFamily>,
)
    ensures
        mask_bits(a.union(b)) == mask_bits(a) | mask_bits(b),
        mask_bits(a.union(b)) == mask_bits(b.union(a)),
        mask_bits(a.union(b).union(c)) == mask_bits(a.union(b.union(c))),
        mask_bits(a) | mask_bits(b) == mask_bits(b) | mask_bits(a),
        (mask_bits(a) | mask_bits(b)) | mask_bits(c) == mask_bits(a) | (mask_bits(b) | mask_bits(
            c,
        )),
        mask_bits(Set::<CompressionFamily>::empty()) == 0,
{
    let x = mask_bits(a);
    let y = mask_bits(b);
    let z = mask_bits(c);
    lemma_families_of_mask_bits(a);
    lemma_families_of_mask_bits(b);
    lemma_families_of_or(x, y);
    lemma_bits_of_families(x | y);
    assert(x | y == y | x) by (bit_vector);
    assert((x | y) | z == x | (y | z)) by (bit_vector);
}

/// Enabling one family after another requests the same mask as enabling
/// them the other way round.
pub proof fn lemma_insertion_order_is_irrelevant(
    families: Set<CompressionFamily>,
    first: CompressionFamily,
    second: CompressionFamily,
)
    ensures
        mask_bits(families.insert(first).insert(second)) == mask_bits(
            families.insert(second).insert(first),
        ),
        mask_bits(families.insert(first)) == mask_bits(families) | first.spec_bit(),
{
    lemma_negotiation_ignores_order(families, set![first], set![first]);
}

} // verus!
