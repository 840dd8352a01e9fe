//! Kinds of types of the wrapped library's IR.
//!
//! The type handles themselves, and the calls that build and inspect them,
//! live in the unverified shell; the kind tag that classifies a type handle
//! is mirrored here with its numeric code on the C side.

use vstd::prelude::*;

verus! {

/// Represents the different kinds of types in the wrapped library's IR,
/// such as integer types, floating-point types, vector types, and others.
#[derive(Clone, Copy, Debug, PartialEq, Eq, Structural)]
#[allow(non_camel_case_types)]
pub enum TypeKind {
    /// The `void` type, which has no value.
    VoidTypeKind,
    /// The 16-bit floating-point type (`half`).
    HalfTypeKind,
    /// The 32-bit floating-point type (`float`).
    FloatTypeKind,
    /// The 64-bit floating-point type (`double`).
    DoubleTypeKind,
    /// The 80-bit floating-point type used in x86 architecture.
    X86_FP80TypeKind,
    /// The 128-bit floating-point type (`fp128`).
    FP128TypeKind,
    /// The 128-bit floating-point type used in `PowerPC` architecture.
    PPC_FP128TypeKind,
    /// A label type, which is used for basic block labels.
    LabelTypeKind,
    /// An integer type of arbitrary bit width.
    IntegerTypeKind,
    /// A function type, including the return type and parameter types.
    FunctionTypeKind,
    /// A structure type, which is a collection of fields.
    StructTypeKind,
    /// An array type, which is a sequence of elements of a specified type.
    ArrayTypeKind,
    /// A pointer type, pointing to a value of a specified type.
    PointerTypeKind,
    /// A vector type: a sequence of elements that can be processed in parallel.
    VectorTypeKind,
    /// A metadata type, used for attaching additional information to instructions.
    MetadataTypeKind,
    /// The MMX type used in x86 architecture.
    X86_MMXTypeKind,
    /// A token type, used for operand bundles.
    TokenTypeKind,
    /// A scalable vector type, which can dynamically change in size.
    ScalableVectorTypeKind,
    /// The `bfloat` floating-point type used in machine learning applications.
    BFloatTypeKind,
    /// The AMX type used in x86 architecture for matrix multiplication.
    X86_AMXTypeKind,
    /// A target-specific extended type.
    TargetExtTypeKind,
}

impl TypeKind {
    /// The numeric code of this type kind on the C side of the wrapped
    /// library.
    pub open spec fn spec_code(self) -> u32 {
        match self {
            TypeKind::VoidTypeKind => 0,
            TypeKind::HalfTypeKind => 1,
            TypeKind::FloatTypeKind => 2,
            TypeKind::DoubleTypeKind => 3,
            TypeKind::X86_FP80TypeKind => 4,
            TypeKind::FP128TypeKind => 5,
            TypeKind::PPC_FP128TypeKind => 6,
            TypeKind::LabelTypeKind => 7,
            TypeKind::IntegerTypeKind => 8,
            TypeKind::FunctionTypeKind => 9,
            TypeKind::StructTypeKind => 10,
            TypeKind::ArrayTypeKind => 11,
            TypeKind::PointerTypeKind => 12,
            TypeKind::VectorTypeKind => 13,
            TypeKind::MetadataTypeKind => 14,
            TypeKind::X86_MMXTypeKind => 15,
            TypeKind::TokenTypeKind => 16,
            TypeKind::ScalableVectorTypeKind => 17,
            TypeKind::BFloatTypeKind => 18,
            TypeKind::X86_AMXTypeKind => 19,
            TypeKind::TargetExtTypeKind => 20,
        }
    }

    /// The type kind a numeric C code stands for, if any.
    pub open spec fn spec_from_code(code: u32) -> Option<TypeKind> {
        if code == 0 {
            Some(TypeKind::VoidTypeKind)
        } else if code == 1 {
            Some(TypeKind::HalfTypeKind)
        } else if code == 2 {
            Some(TypeKind::FloatTypeKind)
        } else if code == 3 {
            Some(TypeKind::DoubleTypeKind)
        } else if code == 4 {
            Some(TypeKind::X86_FP80TypeKind)
        } else if code == 5 {
            Some(TypeKind::FP128TypeKind)
        } else if code == 6 {
            Some(TypeKind::PPC_FP128TypeKind)
        } else if code == 7 {
            Some(TypeKind::LabelTypeKind)
        } else if code == 8 {
            Some(TypeKind::IntegerTypeKind)
        } else if code == 9 {
            Some(TypeKind::FunctionTypeKind)
        } else if code == 10 {
            Some(TypeKind::StructTypeKind)
        } else if code == 11 {
            Some(TypeKind::ArrayTypeKind)
        } else if code == 12 {
            Some(TypeKind::PointerTypeKind)
        } else if code == 13 {
            Some(TypeKind::VectorTypeKind)
        } else if code == 14 {
            Some(TypeKind::MetadataTypeKind)
        } else if code == 15 {
            Some(TypeKind::X86_MMXTypeKind)
        } else if code == 16 {
            Some(TypeKind::TokenTypeKind)
        } else if code == 17 {
            Some(TypeKind::ScalableVectorTypeKind)
        } else if code == 18 {
            Some(TypeKind::BFloatTypeKind)
        } else if code == 19 {
            Some(TypeKind::X86_AMXTypeKind)
        } else if code == 20 {
            Some(TypeKind::TargetExtTypeKind)
        } else {
            None
        }
    }

    /// Convert to the numeric code of the wrapped library's C enumeration.
    pub fn code(self) -> (c: u32)
        ensures
            c == self.spec_code(),
    {
        match self {
            TypeKind::VoidTypeKind => 0,
            TypeKind::HalfTypeKind => 1,
            TypeKind::FloatTypeKind => 2,
            TypeKind::DoubleTypeKind => 3,
            TypeKind::X86_FP80TypeKind => 4,
            TypeKind::FP128TypeKind => 5,
            TypeKind::PPC_FP128TypeKind => 6,
            TypeKind::LabelTypeKind => 7,
            TypeKind::IntegerTypeKind => 8,
            TypeKind::FunctionTypeKind => 9,
            TypeKind::StructTypeKind => 10,
            TypeKind::ArrayTypeKind => 11,
            TypeKind::PointerTypeKind => 12,
            TypeKind::VectorTypeKind => 13,
            TypeKind::MetadataTypeKind => 14,
            TypeKind::X86_MMXTypeKind => 15,
            TypeKind::TokenTypeKind => 16,
            TypeKind::ScalableVectorTypeKind => 17,
            TypeKind::BFloatTypeKind => 18,
            TypeKind::X86_AMXTypeKind => 19,
            TypeKind::TargetExtTypeKind => 20,
        }
    }

    /// Convert a numeric code of the wrapped library's C enumeration back;
    /// `None` exactly on codes that stand for no type kind.
    pub fn from_code(code: u32) -> (r: Option<TypeKind>)
        ensures
            r == Self::spec_from_code(code),
    {
        match code {
            0 => Some(TypeKind::VoidTypeKind),
            1 => Some(TypeKind::HalfTypeKind),
            2 => Some(TypeKind::FloatTypeKind),
            3 => Some(TypeKind::DoubleTypeKind),
            4 => Some(TypeKind::X86_FP80TypeKind),
            5 => Some(TypeKind::FP128TypeKind),
            6 => Some(TypeKind::PPC_FP128TypeKind),
            7 => Some(TypeKind::LabelTypeKind),
            8 => Some(TypeKind::IntegerTypeKind),
            9 => Some(TypeKind::FunctionTypeKind),
            10 => Some(TypeKind::StructTypeKind),
            11 => Some(TypeKind::ArrayTypeKind),
            12 => Some(TypeKind::PointerTypeKind),
            13 => Some(TypeKind::VectorTypeKind),
            14 => Some(TypeKind::MetadataTypeKind),
            15 => Some(TypeKind::X86_MMXTypeKind),
            16 => Some(TypeKind::TokenTypeKind),
            17 => Some(TypeKind::ScalableVectorTypeKind),
            18 => Some(TypeKind::BFloatTypeKind),
            19 => Some(TypeKind::X86_AMXTypeKind),
            20 => Some(TypeKind::TargetExtTypeKind),
            _ => None,
        }
    }
}

/// Decoding a type kind's own code gives that type kind back.
pub proof fn lemma_type_kind_code_round_trip(x: TypeKind)
    ensures
        TypeKind::spec_from_code(x.spec_code()) == Some(x),
{
}

/// A code that decodes to a type kind is that type kind's code; together
/// with the round trip above, the code is a faithful name for the variant.
pub proof fn lemma_type_kind_from_code_inverse(code: u32)
    ensures
        TypeKind::spec_from_code(code) matches Some(x) ==> x.spec_code() == code,
{
}

} // verus!
