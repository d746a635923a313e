//! What the library needs to know of the compilation target.

use vstd::prelude::*;
use target_lexicon::Triple;
use crate::module::ValueType;

verus! {

#[verifier::external_type_specification]
#[verifier::external_body]
pub struct ExTriple(Triple);

/// The width of a native pointer on the target.
#[derive(Copy, Clone, PartialEq, Eq, Debug, Structural)]
pub enum PointerWidth {
    U16,
    U32,
    U64,
}

impl PointerWidth {
    pub open spec fn spec_bits(self) -> u16 {
        match self {
            PointerWidth::U16 => 16,
            PointerWidth::U32 => 32,
            PointerWidth::U64 => 64,
        }
    }

    pub open spec fn spec_bytes(self) -> u8 {
        match self {
            PointerWidth::U16 => 2,
            PointerWidth::U32 => 4,
            PointerWidth::U64 => 8,
        }
    }

    pub open spec fn spec_pointer_type(self) -> ValueType {
        match self {
            PointerWidth::U16 => ValueType::I16,
            PointerWidth::U32 => ValueType::I32,
            PointerWidth::U64 => ValueType::I64,
        }
    }

    /// The number of bits in a pointer.
    #[verifier::when_used_as_spec(spec_bits)]
    pub fn bits(self) -> (bits: u16)
        ensures
            bits == self.spec_bits(),
            bits == 8 * self.spec_bytes(),
            ValueType::integer(bits) == Some(self.spec_pointer_type()),
    {
        match self {
            PointerWidth::U16 => 16,
            PointerWidth::U32 => 32,
            PointerWidth::U64 => 64,
        }
    }

    /// The number of bytes in a pointer.
    #[verifier::when_used_as_spec(spec_bytes)]
    pub fn bytes(self) -> (bytes: u8)
        ensures
            bytes == self.spec_bytes(),
    {
        match self {
            PointerWidth::U16 => 2,
            PointerWidth::U32 => 4,
            PointerWidth::U64 => 8,
        }
    }

    /// The integer type that holds a pointer.
    #[verifier::when_used_as_spec(spec_pointer_type)]
    pub fn pointer_type(self) -> (ty: ValueType)
        ensures
            ty == self.spec_pointer_type(),
    {
        match self {
            PointerWidth::U16 => ValueType::I16,
            PointerWidth::U32 => ValueType::I32,
            PointerWidth::U64 => ValueType::I64,
        }
    }
}

/// The pointer width of the architecture that `triple` names, where it is
/// known.
pub uninterp spec fn triple_pointer_width(triple: Triple) -> Option<PointerWidth>;

/// `Triple::pointer_width`: the width of a pointer on the architecture of the
/// triple, or nothing for an architecture whose pointer width is not known.
#[verifier::external_body]
pub(crate) fn pointer_width_of(triple: &Triple) -> (width: Option<PointerWidth>)
    ensures
        width == triple_pointer_width(*triple),
{
    match triple.pointer_width() {
        Ok(target_lexicon::PointerWidth::U16) => Some(PointerWidth::U16),
        Ok(target_lexicon::PointerWidth::U32) => Some(PointerWidth::U32),
        Ok(target_lexicon::PointerWidth::U64) => Some(PointerWidth::U64),
        Err(()) => None,
    }
}

} // verus!
