//! Core definitions shared across the wrapper: the address space wrapper,
//! the library version record, and the enumerations that mirror the wrapped
//! library's instruction opcodes, comparison predicates, linkage kinds,
//! symbol visibility, storage classes and unnamed-address modes.
//!
//! Each mirrored enumeration carries its numeric code on the C side of the
//! wrapped library, stated by a spec function and computed by a verified
//! conversion in each direction.  The unverified shell turns the raw C enum
//! into that code and back; everything in between is proved here.

use vstd::prelude::*;

use crate::CUint;

verus! {

/// Represents an address space of the wrapped library.
///
/// Address spaces distinguish regions of memory, such as global, local and
/// private memory, especially on hardware where those regions differ.
#[derive(Debug, Clone, PartialEq, Eq, Structural)]
pub struct AddressSpace(pub CUint);

impl From<u32> for AddressSpace {
    fn from(value: u32) -> (r: Self) {
        Self(CUint(value))
    }
}

impl vstd::std_specs::convert::FromSpecImpl<u32> for AddressSpace {
    open spec fn obeys_from_spec() -> bool {
        true
    }

    open spec fn from_spec(value: u32) -> Self {
        AddressSpace(CUint(value))
    }
}

impl AddressSpace {
    /// Wrap an already-wrapped `c_uint` value.
    pub fn new(value: CUint) -> (r: Self)
        ensures
            r.0 == value,
    {
        Self(value)
    }

    /// The numeric address space value.
    pub fn value(&self) -> (r: u32)
        ensures
            r == self.0.0,
    {
        self.0.0
    }
}

/// Library version representation.
///
/// The `Version` struct encapsulates the major, minor, and patch components
/// of the wrapped library's version.  The shell queries the three numbers
/// from the C API and hands them over as plain values.
#[derive(Debug, Clone)]
pub struct Version {
    major: u32,
    minor: u32,
    patch: u32,
}

impl Version {
    /// Build the version record from the three components the shell read
    /// out of the wrapped library.
    pub fn new(major: u32, minor: u32, patch: u32) -> (r: Self)
        ensures
            r.spec_major() == major,
            r.spec_minor() == minor,
            r.spec_patch() == patch,
    {
        Self { major, minor, patch }
    }

    /// The major component.
    pub closed spec fn spec_major(&self) -> u32 {
        self.major
    }

    /// The minor component.
    pub closed spec fn spec_minor(&self) -> u32 {
        self.minor
    }

    /// The patch component.
    pub closed spec fn spec_patch(&self) -> u32 {
        self.patch
    }

    /// Return version data: (major, minor, patch).
    pub fn get(&self) -> (r: (u32, u32, u32))
        ensures
            r == (self.spec_major(), self.spec_minor(), self.spec_patch()),
    {
        (self.major, self.minor, self.patch)
    }
}

/// Represents the various opcodes in the wrapped library's IR.
/// Each variant names one instruction kind.
#[derive(Clone, Copy, Debug, PartialEq, Eq, Structural)]
pub enum Opcode {
    /// Return instruction.
    Ret,
    /// Branch instruction.
    Br,
    /// Switch instruction.
    Switch,
    /// Indirect branch instruction.
    IndirectBr,
    /// Invoke instruction.
    Invoke,
    /// Unreachable instruction.
    Unreachable,
    /// `CallBr` instruction.
    CallBr,
    /// Floating-point negation instruction.
    FNeg,
    /// Integer addition instruction.
    Add,
    /// Floating-point addition instruction.
    FAdd,
    /// Integer subtraction instruction.
    Sub,
    /// Floating-point subtraction instruction.
    FSub,
    /// Integer multiplication instruction.
    Mul,
    /// Floating-point multiplication instruction.
    FMul,
    /// Unsigned integer division instruction.
    UDiv,
    /// Signed integer division instruction.
    SDiv,
    /// Floating-point division instruction.
    FDiv,
    /// Unsigned integer remainder instruction.
    URem,
    /// Signed integer remainder instruction.
    SRem,
    /// Floating-point remainder instruction.
    FRem,
    /// Logical shift left instruction.
    Shl,
    /// Logical shift right instruction.
    LShr,
    /// Arithmetic shift right instruction.
    AShr,
    /// Bitwise AND instruction.
    And,
    /// Bitwise OR instruction.
    Or,
    /// Bitwise XOR instruction.
    Xor,
    /// Alloca instruction.
    Alloca,
    /// Load instruction.
    Load,
    /// Store instruction.
    Store,
    /// `GetElementPtr` instruction.
    GetElementPtr,
    /// Truncate instruction.
    Trunc,
    /// Zero extend instruction.
    ZExt,
    /// Sign extend instruction.
    SExt,
    /// Floating-point to unsigned integer instruction.
    FPToUI,
    /// Floating-point to signed integer instruction.
    FPToSI,
    /// Unsigned integer to floating-point instruction.
    UIToFP,
    /// Signed integer to floating-point instruction.
    SIToFP,
    /// Floating-point truncate instruction.
    FPTrunc,
    /// Floating-point extend instruction.
    FPExt,
    /// Pointer to integer instruction.
    PtrToInt,
    /// Integer to pointer instruction.
    IntToPtr,
    /// Bit-cast instruction.
    BitCast,
    /// Address space cast instruction.
    AddrSpaceCast,
    /// Integer comparison instruction.
    ICmp,
    /// Floating-point comparison instruction.
    FCmp,
    /// PHI node instruction.
    PHI,
    /// Call instruction.
    Call,
    /// Select instruction.
    Select,
    /// User-defined operation 1.
    UserOp1,
    /// User-defined operation 2.
    UserOp2,
    /// Variable argument instruction.
    VAArg,
    /// Extract element from vector instruction.
    ExtractElement,
    /// Insert element into vector instruction.
    InsertElement,
    /// Shuffle vector instruction.
    ShuffleVector,
    /// Extract value from aggregate instruction.
    ExtractValue,
    /// Insert value into aggregate instruction.
    InsertValue,
    /// Freeze instruction.
    Freeze,
    /// Fence instruction.
    Fence,
    /// Atomic compare and exchange instruction.
    AtomicCmpXchg,
    /// Atomic read-modify-write instruction.
    AtomicRMW,
    /// Resume instruction.
    Resume,
    /// Landing pad instruction.
    LandingPad,
    /// Cleanup return instruction.
    CleanupRet,
    /// Catch return instruction.
    CatchRet,
    /// Catch pad instruction.
    CatchPad,
    /// Cleanup pad instruction.
    CleanupPad,
    /// Catch switch instruction.
    CatchSwitch,
}

impl Opcode {
    /// The numeric code of this opcode on the C side of the wrapped
    /// library.
    pub open spec fn spec_code(self) -> u32 {
        match self {
            Opcode::Ret => 1,
            Opcode::Br => 2,
            Opcode::Switch => 3,
            Opcode::IndirectBr => 4,
            Opcode::Invoke => 5,
            Opcode::Unreachable => 7,
            Opcode::CallBr => 67,
            Opcode::FNeg => 66,
            Opcode::Add => 8,
            Opcode::FAdd => 9,
            Opcode::Sub => 10,
            Opcode::FSub => 11,
            Opcode::Mul => 12,
            Opcode::FMul => 13,
            Opcode::UDiv => 14,
            Opcode::SDiv => 15,
            Opcode::FDiv => 16,
            Opcode::URem => 17,
            Opcode::SRem => 18,
            Opcode::FRem => 19,
            Opcode::Shl => 20,
            Opcode::LShr => 21,
            Opcode::AShr => 22,
            Opcode::And => 23,
            Opcode::Or => 24,
            Opcode::Xor => 25,
            Opcode::Alloca => 26,
            Opcode::Load => 27,
            Opcode::Store => 28,
            Opcode::GetElementPtr => 29,
            Opcode::Trunc => 30,
            Opcode::ZExt => 31,
            Opcode::SExt => 32,
            Opcode::FPToUI => 33,
            Opcode::FPToSI => 34,
            Opcode::UIToFP => 35,
            Opcode::SIToFP => 36,
            Opcode::FPTrunc => 37,
            Opcode::FPExt => 38,
            Opcode::PtrToInt => 39,
            Opcode::IntToPtr => 40,
            Opcode::BitCast => 41,
            Opcode::AddrSpaceCast => 60,
            Opcode::ICmp => 42,
            Opcode::FCmp => 43,
            Opcode::PHI => 44,
            Opcode::Call => 45,
            Opcode::Select => 46,
            Opcode::UserOp1 => 47,
            Opcode::UserOp2 => 48,
            Opcode::VAArg => 49,
            Opcode::ExtractElement => 50,
            Opcode::InsertElement => 51,
            Opcode::ShuffleVector => 52,
            Opcode::ExtractValue => 53,
            Opcode::InsertValue => 54,
            Opcode::Freeze => 68,
            Opcode::Fence => 55,
            Opcode::AtomicCmpXchg => 56,
            Opcode::AtomicRMW => 57,
            Opcode::Resume => 58,
            Opcode::LandingPad => 59,
            Opcode::CleanupRet => 61,
            Opcode::CatchRet => 62,
            Opcode::CatchPad => 63,
            Opcode::CleanupPad => 64,
            Opcode::CatchSwitch => 65,
        }
    }

    /// The opcode a numeric C code stands for, if any.
    pub open spec fn spec_from_code(code: u32) -> Option<Opcode> {
        if code == 1 {
            Some(Opcode::Ret)
        } else if code == 2 {
            Some(Opcode::Br)
        } else if code == 3 {
            Some(Opcode::Switch)
        } else if code == 4 {
            Some(Opcode::IndirectBr)
        } else if code == 5 {
            Some(Opcode::Invoke)
        } else if code == 7 {
            Some(Opcode::Unreachable)
        } else if code == 67 {
            Some(Opcode::CallBr)
        } else if code == 66 {
            Some(Opcode::FNeg)
        } else if code == 8 {
            Some(Opcode::Add)
        } else if code == 9 {
            Some(Opcode::FAdd)
        } else if code == 10 {
            Some(Opcode::Sub)
        } else if code == 11 {
            Some(Opcode::FSub)
        } else if code == 12 {
            Some(Opcode::Mul)
        } else if code == 13 {
            Some(Opcode::FMul)
        } else if code == 14 {
            Some(Opcode::UDiv)
        } else if code == 15 {
            Some(Opcode::SDiv)
        } else if code == 16 {
            Some(Opcode::FDiv)
        } else if code == 17 {
            Some(Opcode::URem)
        } else if code == 18 {
            Some(Opcode::SRem)
        } else if code == 19 {
            Some(Opcode::FRem)
        } else if code == 20 {
            Some(Opcode::Shl)
        } else if code == 21 {
            Some(Opcode::LShr)
        } else if code == 22 {
            Some(Opcode::AShr)
        } else if code == 23 {
            Some(Opcode::And)
        } else if code == 24 {
            Some(Opcode::Or)
        } else if code == 25 {
            Some(Opcode::Xor)
        } else if code == 26 {
            Some(Opcode::Alloca)
        } else if code == 27 {
            Some(Opcode::Load)
        } else if code == 28 {
            Some(Opcode::Store)
        } else if code == 29 {
            Some(Opcode::GetElementPtr)
        } else if code == 30 {
            Some(Opcode::Trunc)
        } else if code == 31 {
            Some(Opcode::ZExt)
        } else if code == 32 {
            Some(Opcode::SExt)
        } else if code == 33 {
            Some(Opcode::FPToUI)
        } else if code == 34 {
            Some(Opcode::FPToSI)
        } else if code == 35 {
            Some(Opcode::UIToFP)
        } else if code == 36 {
            Some(Opcode::SIToFP)
        } else if code == 37 {
            Some(Opcode::FPTrunc)
        } else if code == 38 {
            Some(Opcode::FPExt)
        } else if code == 39 {
            Some(Opcode::PtrToInt)
        } else if code == 40 {
            Some(Opcode::IntToPtr)
        } else if code == 41 {
            Some(Opcode::BitCast)
        } else if code == 60 {
            Some(Opcode::AddrSpaceCast)
        } else if code == 42 {
            Some(Opcode::ICmp)
        } else if code == 43 {
            Some(Opcode::FCmp)
        } else if code == 44 {
            Some(Opcode::PHI)
        } else if code == 45 {
            Some(Opcode::Call)
        } else if code == 46 {
            Some(Opcode::Select)
        } else if code == 47 {
            Some(Opcode::UserOp1)
        } else if code == 48 {
            Some(Opcode::UserOp2)
        } else if code == 49 {
            Some(Opcode::VAArg)
        } else if code == 50 {
            Some(Opcode::ExtractElement)
        } else if code == 51 {
            Some(Opcode::InsertElement)
        } else if code == 52 {
            Some(Opcode::ShuffleVector)
        } else if code == 53 {
            Some(Opcode::ExtractValue)
        } else if code == 54 {
            Some(Opcode::InsertValue)
        } else if code == 68 {
            Some(Opcode::Freeze)
        } else if code == 55 {
            Some(Opcode::Fence)
        } else if code == 56 {
            Some(Opcode::AtomicCmpXchg)
        } else if code == 57 {
            Some(Opcode::AtomicRMW)
        } else if code == 58 {
            Some(Opcode::Resume)
        } else if code == 59 {
            Some(Opcode::LandingPad)
        } else if code == 61 {
            Some(Opcode::CleanupRet)
        } else if code == 62 {
            Some(Opcode::CatchRet)
        } else if code == 63 {
            Some(Opcode::CatchPad)
        } else if code == 64 {
            Some(Opcode::CleanupPad)
        } else if code == 65 {
            Some(Opcode::CatchSwitch)
        } else {
            None
        }
    }

    /// Convert to the numeric code of the wrapped library's C enumeration.
    pub fn code(self) -> (c: u32)
        ensures
            c == self.spec_code(),
    {
        match self {
            Opcode::Ret => 1,
            Opcode::Br => 2,
            Opcode::Switch => 3,
            Opcode::IndirectBr => 4,
            Opcode::Invoke => 5,
            Opcode::Unreachable => 7,
            Opcode::CallBr => 67,
            Opcode::FNeg => 66,
            Opcode::Add => 8,
            Opcode::FAdd => 9,
            Opcode::Sub => 10,
            Opcode::FSub => 11,
            Opcode::Mul => 12,
            Opcode::FMul => 13,
            Opcode::UDiv => 14,
            Opcode::SDiv => 15,
            Opcode::FDiv => 16,
            Opcode::URem => 17,
            Opcode::SRem => 18,
            Opcode::FRem => 19,
            Opcode::Shl => 20,
            Opcode::LShr => 21,
            Opcode::AShr => 22,
            Opcode::And => 23,
            Opcode::Or => 24,
            Opcode::Xor => 25,
            Opcode::Alloca => 26,
            Opcode::Load => 27,
            Opcode::Store => 28,
            Opcode::GetElementPtr => 29,
            Opcode::Trunc => 30,
            Opcode::ZExt => 31,
            Opcode::SExt => 32,
            Opcode::FPToUI => 33,
            Opcode::FPToSI => 34,
            Opcode::UIToFP => 35,
            Opcode::SIToFP => 36,
            Opcode::FPTrunc => 37,
            Opcode::FPExt => 38,
            Opcode::PtrToInt => 39,
            Opcode::IntToPtr => 40,
            Opcode::BitCast => 41,
            Opcode::AddrSpaceCast => 60,
            Opcode::ICmp => 42,
            Opcode::FCmp => 43,
            Opcode::PHI => 44,
            Opcode::Call => 45,
            Opcode::Select => 46,
            Opcode::UserOp1 => 47,
            Opcode::UserOp2 => 48,
            Opcode::VAArg => 49,
            Opcode::ExtractElement => 50,
            Opcode::InsertElement => 51,
            Opcode::ShuffleVector => 52,
            Opcode::ExtractValue => 53,
            Opcode::InsertValue => 54,
            Opcode::Freeze => 68,
            Opcode::Fence => 55,
            Opcode::AtomicCmpXchg => 56,
            Opcode::AtomicRMW => 57,
            Opcode::Resume => 58,
            Opcode::LandingPad => 59,
            Opcode::CleanupRet => 61,
            Opcode::CatchRet => 62,
            Opcode::CatchPad => 63,
            Opcode::CleanupPad => 64,
            Opcode::CatchSwitch => 65,
        }
    }

    /// Convert a numeric code of the wrapped library's C enumeration back;
    /// `None` exactly on codes that stand for no opcode.
    pub fn from_code(code: u32) -> (r: Option<Opcode>)
        ensures
            r == Self::spec_from_code(code),
    {
        match code {
            1 => Some(Opcode::Ret),
            2 => Some(Opcode::Br),
            3 => Some(Opcode::Switch),
            4 => Some(Opcode::IndirectBr),
            5 => Some(Opcode::Invoke),
            7 => Some(Opcode::Unreachable),
            67 => Some(Opcode::CallBr),
            66 => Some(Opcode::FNeg),
            8 => Some(Opcode::Add),
            9 => Some(Opcode::FAdd),
            10 => Some(Opcode::Sub),
            11 => Some(Opcode::FSub),
            12 => Some(Opcode::Mul),
            13 => Some(Opcode::FMul),
            14 => Some(Opcode::UDiv),
            15 => Some(Opcode::SDiv),
            16 => Some(Opcode::FDiv),
            17 => Some(Opcode::URem),
            18 => Some(Opcode::SRem),
            19 => Some(Opcode::FRem),
            20 => Some(Opcode::Shl),
            21 => Some(Opcode::LShr),
            22 => Some(Opcode::AShr),
            23 => Some(Opcode::And),
            24 => Some(Opcode::Or),
            25 => Some(Opcode::Xor),
            26 => Some(Opcode::Alloca),
            27 => Some(Opcode::Load),
            28 => Some(Opcode::Store),
            29 => Some(Opcode::GetElementPtr),
            30 => Some(Opcode::Trunc),
            31 => Some(Opcode::ZExt),
            32 => Some(Opcode::SExt),
            33 => Some(Opcode::FPToUI),
            34 => Some(Opcode::FPToSI),
            35 => Some(Opcode::UIToFP),
            36 => Some(Opcode::SIToFP),
            37 => Some(Opcode::FPTrunc),
            38 => Some(Opcode::FPExt),
            39 => Some(Opcode::PtrToInt),
            40 => Some(Opcode::IntToPtr),
            41 => Some(Opcode::BitCast),
            60 => Some(Opcode::AddrSpaceCast),
            42 => Some(Opcode::ICmp),
            43 => Some(Opcode::FCmp),
            44 => Some(Opcode::PHI),
            45 => Some(Opcode::Call),
            46 => Some(Opcode::Select),
            47 => Some(Opcode::UserOp1),
            48 => Some(Opcode::UserOp2),
            49 => Some(Opcode::VAArg),
            50 => Some(Opcode::ExtractElement),
            51 => Some(Opcode::InsertElement),
            52 => Some(Opcode::ShuffleVector),
            53 => Some(Opcode::ExtractValue),
            54 => Some(Opcode::InsertValue),
            68 => Some(Opcode::Freeze),
            55 => Some(Opcode::Fence),
            56 => Some(Opcode::AtomicCmpXchg),
            57 => Some(Opcode::AtomicRMW),
            58 => Some(Opcode::Resume),
            59 => Some(Opcode::LandingPad),
            61 => Some(Opcode::CleanupRet),
            62 => Some(Opcode::CatchRet),
            63 => Some(Opcode::CatchPad),
            64 => Some(Opcode::CleanupPad),
            65 => Some(Opcode::CatchSwitch),
            _ => None,
        }
    }
}

/// Decoding an opcode's own code gives that opcode back.
pub proof fn lemma_opcode_code_round_trip(x: Opcode)
    ensures
        Opcode::spec_from_code(x.spec_code()) == Some(x),
{
}

/// A code that decodes to an opcode is that opcode's code; together
/// with the round trip above, the code is a faithful name for the variant.
pub proof fn lemma_opcode_from_code_inverse(code: u32)
    ensures
        Opcode::spec_from_code(code) matches Some(x) ==> x.spec_code() == code,
{
}

/// Represents the various integer comparison predicates in the wrapped
/// library's IR: the conditions under which an integer comparison is
/// considered true, covering signed and unsigned comparisons as well as
/// equality checks.
#[derive(Clone, Copy, Debug, PartialEq, Eq, Structural)]
pub enum IntPredicate {
    /// Equality comparison (`==`): true if the two integers are equal.
    IntEQ,
    /// Inequality comparison (`!=`): true if the two integers are not equal.
    IntNE,
    /// Unsigned greater than comparison (`>`).
    IntUGT,
    /// Unsigned greater than or equal comparison (`>=`).
    IntUGE,
    /// Unsigned less than comparison (`<`).
    IntULT,
    /// Unsigned less than or equal comparison (`<=`).
    IntULE,
    /// Signed greater than comparison (`>`).
    IntSGT,
    /// Signed greater than or equal comparison (`>=`).
    IntSGE,
    /// Signed less than comparison (`<`).
    IntSLT,
    /// Signed less than or equal comparison (`<=`).
    IntSLE,
}

impl IntPredicate {
    /// The numeric code of this integer predicate on the C side of the wrapped
    /// library.
    pub open spec fn spec_code(self) -> u32 {
        match self {
            IntPredicate::IntEQ => 32,
            IntPredicate::IntNE => 33,
            IntPredicate::IntUGT => 34,
            IntPredicate::IntUGE => 35,
            IntPredicate::IntULT => 36,
            IntPredicate::IntULE => 37,
            IntPredicate::IntSGT => 38,
            IntPredicate::IntSGE => 39,
            IntPredicate::IntSLT => 40,
            IntPredicate::IntSLE => 41,
        }
    }

    /// The integer predicate a numeric C code stands for, if any.
    pub open spec fn spec_from_code(code: u32) -> Option<IntPredicate> {
        if code == 32 {
            Some(IntPredicate::IntEQ)
        } else if code == 33 {
            Some(IntPredicate::IntNE)
        } else if code == 34 {
            Some(IntPredicate::IntUGT)
        } else if code == 35 {
            Some(IntPredicate::IntUGE)
        } else if code == 36 {
            Some(IntPredicate::IntULT)
        } else if code == 37 {
            Some(IntPredicate::IntULE)
        } else if code == 38 {
            Some(IntPredicate::IntSGT)
        } else if code == 39 {
            Some(IntPredicate::IntSGE)
        } else if code == 40 {
            Some(IntPredicate::IntSLT)
        } else if code == 41 {
            Some(IntPredicate::IntSLE)
        } else {
            None
        }
    }

    /// Convert to the numeric code of the wrapped library's C enumeration.
    pub fn code(self) -> (c: u32)
        ensures
            c == self.spec_code(),
    {
        match self {
            IntPredicate::IntEQ => 32,
            IntPredicate::IntNE => 33,
            IntPredicate::IntUGT => 34,
            IntPredicate::IntUGE => 35,
            IntPredicate::IntULT => 36,
            IntPredicate::IntULE => 37,
            IntPredicate::IntSGT => 38,
            IntPredicate::IntSGE => 39,
            IntPredicate::IntSLT => 40,
            IntPredicate::IntSLE => 41,
        }
    }

    /// Convert a numeric code of the wrapped library's C enumeration back;
    /// `None` exactly on codes that stand for no integer predicate.
    pub fn from_code(code: u32) -> (r: Option<IntPredicate>)
        ensures
            r == Self::spec_from_code(code),
    {
        match code {
            32 => Some(IntPredicate::IntEQ),
            33 => Some(IntPredicate::IntNE),
            34 => Some(IntPredicate::IntUGT),
            35 => Some(IntPredicate::IntUGE),
            36 => Some(IntPredicate::IntULT),
            37 => Some(IntPredicate::IntULE),
            38 => Some(IntPredicate::IntSGT),
            39 => Some(IntPredicate::IntSGE),
            40 => Some(IntPredicate::IntSLT),
            41 => Some(IntPredicate::IntSLE),
            _ => None,
        }
    }
}

/// Decoding an integer predicate's own code gives that integer predicate back.
pub proof fn lemma_int_predicate_code_round_trip(x: IntPredicate)
    ensures
        IntPredicate::spec_from_code(x.spec_code()) == Some(x),
{
}

/// A code that decodes to an integer predicate is that integer predicate's code; together
/// with the round trip above, the code is a faithful name for the variant.
pub proof fn lemma_int_predicate_from_code_inverse(code: u32)
    ensures
        IntPredicate::spec_from_code(code) matches Some(x) ==> x.spec_code() == code,
{
}

/// Represents the various floating-point comparison predicates in the
/// wrapped library's IR: ordered and unordered comparisons as well as
/// equality and inequality checks.
#[derive(Clone, Copy, Debug, PartialEq, Eq, Structural)]
pub enum RealPredicate {
    /// Always returns false. No comparison is true under this predicate.
    RealPredicateFalse,
    /// Ordered equality comparison: true if the operands are equal and neither is NaN.
    RealOEQ,
    /// Ordered greater than comparison: true if neither operand is NaN and the first is greater.
    RealOGT,
    /// Ordered greater than or equal comparison: true if neither operand is NaN and the first is greater or equal.
    RealOGE,
    /// Ordered less than comparison: true if neither operand is NaN and the first is less.
    RealOLT,
    /// Ordered less than or equal comparison: true if neither operand is NaN and the first is less or equal.
    RealOLE,
    /// Ordered inequality comparison: true if the operands differ and neither is NaN.
    RealONE,
    /// Ordered comparison: true if neither operand is NaN.
    RealORD,
    /// Unordered comparison: true if either operand is NaN.
    RealUNO,
    /// Unordered equality comparison: true if the operands are equal or either is NaN.
    RealUEQ,
    /// Unordered greater than comparison: true if the first operand is greater or either is NaN.
    RealUGT,
    /// Unordered greater than or equal comparison: true if the first operand is greater or equal, or either is NaN.
    RealUGE,
    /// Unordered less than comparison: true if the first operand is less or either is NaN.
    RealULT,
    /// Unordered less than or equal comparison: true if the first operand is less or equal, or either is NaN.
    RealULE,
    /// Unordered inequality comparison: true if the operands differ or either is NaN.
    RealUNE,
    /// Always returns true. All comparisons are true under this predicate.
    RealPredicateTrue,
}

impl RealPredicate {
    /// The numeric code of this real predicate on the C side of the wrapped
    /// library.
    pub open spec fn spec_code(self) -> u32 {
        match self {
            RealPredicate::RealPredicateFalse => 0,
            RealPredicate::RealOEQ => 1,
            RealPredicate::RealOGT => 2,
            RealPredicate::RealOGE => 3,
            RealPredicate::RealOLT => 4,
            RealPredicate::RealOLE => 5,
            RealPredicate::RealONE => 6,
            RealPredicate::RealORD => 7,
            RealPredicate::RealUNO => 8,
            RealPredicate::RealUEQ => 9,
            RealPredicate::RealUGT => 10,
            RealPredicate::RealUGE => 11,
            RealPredicate::RealULT => 12,
            RealPredicate::RealULE => 13,
            RealPredicate::RealUNE => 14,
            RealPredicate::RealPredicateTrue => 15,
        }
    }

    /// The real predicate a numeric C code stands for, if any.
    pub open spec fn spec_from_code(code: u32) -> Option<RealPredicate> {
        if code == 0 {
            Some(RealPredicate::RealPredicateFalse)
        } else if code == 1 {
            Some(RealPredicate::RealOEQ)
        } else if code == 2 {
            Some(RealPredicate::RealOGT)
        } else if code == 3 {
            Some(RealPredicate::RealOGE)
        } else if code == 4 {
            Some(RealPredicate::RealOLT)
        } else if code == 5 {
            Some(RealPredicate::RealOLE)
        } else if code == 6 {
            Some(RealPredicate::RealONE)
        } else if code == 7 {
            Some(RealPredicate::RealORD)
        } else if code == 8 {
            Some(RealPredicate::RealUNO)
        } else if code == 9 {
            Some(RealPredicate::RealUEQ)
        } else if code == 10 {
            Some(RealPredicate::RealUGT)
        } else if code == 11 {
            Some(RealPredicate::RealUGE)
        } else if code == 12 {
            Some(RealPredicate::RealULT)
        } else if code == 13 {
            Some(RealPredicate::RealULE)
        } else if code == 14 {
            Some(RealPredicate::RealUNE)
        } else if code == 15 {
            Some(RealPredicate::RealPredicateTrue)
        } else {
            None
        }
    }

    /// Convert to the numeric code of the wrapped library's C enumeration.
    pub fn code(self) -> (c: u32)
        ensures
            c == self.spec_code(),
    {
        match self {
            RealPredicate::RealPredicateFalse => 0,
            RealPredicate::RealOEQ => 1,
            RealPredicate::RealOGT => 2,
            RealPredicate::RealOGE => 3,
            RealPredicate::RealOLT => 4,
            RealPredicate::RealOLE => 5,
            RealPredicate::RealONE => 6,
            RealPredicate::RealORD => 7,
            RealPredicate::RealUNO => 8,
            RealPredicate::RealUEQ => 9,
            RealPredicate::RealUGT => 10,
            RealPredicate::RealUGE => 11,
            RealPredicate::RealULT => 12,
            RealPredicate::RealULE => 13,
            RealPredicate::RealUNE => 14,
            RealPredicate::RealPredicateTrue => 15,
        }
    }

    /// Convert a numeric code of the wrapped library's C enumeration back;
    /// `None` exactly on codes that stand for no real predicate.
    pub fn from_code(code: u32) -> (r: Option<RealPredicate>)
        ensures
            r == Self::spec_from_code(code),
    {
        match code {
            0 => Some(RealPredicate::RealPredicateFalse),
            1 => Some(RealPredicate::RealOEQ),
            2 => Some(RealPredicate::RealOGT),
            3 => Some(RealPredicate::RealOGE),
            4 => Some(RealPredicate::RealOLT),
            5 => Some(RealPredicate::RealOLE),
            6 => Some(RealPredicate::RealONE),
            7 => Some(RealPredicate::RealORD),
            8 => Some(RealPredicate::RealUNO),
            9 => Some(RealPredicate::RealUEQ),
            10 => Some(RealPredicate::RealUGT),
            11 => Some(RealPredicate::RealUGE),
            12 => Some(RealPredicate::RealULT),
            13 => Some(RealPredicate::RealULE),
            14 => Some(RealPredicate::RealUNE),
            15 => Some(RealPredicate::RealPredicateTrue),
            _ => None,
        }
    }
}

/// Decoding a real predicate's own code gives that real predicate back.
pub proof fn lemma_real_predicate_code_round_trip(x: RealPredicate)
    ensures
        RealPredicate::spec_from_code(x.spec_code()) == Some(x),
{
}

/// A code that decodes to a real predicate is that real predicate's code; together
/// with the round trip above, the code is a faithful name for the variant.
pub proof fn lemma_real_predicate_from_code_inverse(code: u32)
    ensures
        RealPredicate::spec_from_code(code) matches Some(x) ==> x.spec_code() == code,
{
}

/// Represents the linkage types for global values: the visibility and
/// behavior of symbols across different modules and within the same
/// module.
#[derive(Clone, Copy, Debug, PartialEq, Eq, Structural)]
pub enum Linkage {
    /// Externally visible function or variable. Can be linked from another module.
    ExternalLinkage,
    /// Similar to `ExternalLinkage`, but the symbol may be discarded if not used.
    AvailableExternallyLinkage,
    /// Keeps one copy of the function or variable when linking, discarding others.
    LinkOnceAnyLinkage,
    /// Similar to `LinkOnceAnyLinkage`, but the symbol cannot be discarded.
    LinkOnceODRLinkage,
    /// Same as `LinkOnceODRLinkage`, but with hidden visibility.
    LinkOnceODRAutoHideLinkage,
    /// Keeps one copy, discarding others, but prefer the local copy.
    WeakAnyLinkage,
    /// Similar to `WeakAnyLinkage`, but ensures that the symbol is unique and is emitted only once.
    WeakODRLinkage,
    /// Appending linkage: when linked, multiple definitions of the same variable are concatenated.
    AppendingLinkage,
    /// Local to the translation unit, not visible outside of it.
    InternalLinkage,
    /// Similar to `InternalLinkage`, but prevents inlining and other optimizations.
    PrivateLinkage,
    /// Indicates that the global value should be imported from a DLL.
    DLLImportLinkage,
    /// Indicates that the global value should be exported to a DLL.
    DLLExportLinkage,
    /// The global variable or function is merged into the program only if it is used.
    ExternalWeakLinkage,
    /// A special linkage type used internally by the linker.
    GhostLinkage,
    /// Common linkage for uninitialized global variables.
    CommonLinkage,
    /// Linker private linkage, used to indicate a symbol that is internal to the module.
    LinkerPrivateLinkage,
    /// Weak version of `LinkerPrivateLinkage`.
    LinkerPrivateWeakLinkage,
}

impl Linkage {
    /// The numeric code of this linkage on the C side of the wrapped
    /// library.
    pub open spec fn spec_code(self) -> u32 {
        match self {
            Linkage::ExternalLinkage => 0,
            Linkage::AvailableExternallyLinkage => 1,
            Linkage::LinkOnceAnyLinkage => 2,
            Linkage::LinkOnceODRLinkage => 3,
            Linkage::LinkOnceODRAutoHideLinkage => 4,
            Linkage::WeakAnyLinkage => 5,
            Linkage::WeakODRLinkage => 6,
            Linkage::AppendingLinkage => 7,
            Linkage::InternalLinkage => 8,
            Linkage::PrivateLinkage => 9,
            Linkage::DLLImportLinkage => 10,
            Linkage::DLLExportLinkage => 11,
            Linkage::ExternalWeakLinkage => 12,
            Linkage::GhostLinkage => 13,
            Linkage::CommonLinkage => 14,
            Linkage::LinkerPrivateLinkage => 15,
            Linkage::LinkerPrivateWeakLinkage => 16,
        }
    }

    /// The linkage a numeric C code stands for, if any.
    pub open spec fn spec_from_code(code: u32) -> Option<Linkage> {
        if code == 0 {
            Some(Linkage::ExternalLinkage)
        } else if code == 1 {
            Some(Linkage::AvailableExternallyLinkage)
        } else if code == 2 {
            Some(Linkage::LinkOnceAnyLinkage)
        } else if code == 3 {
            Some(Linkage::LinkOnceODRLinkage)
        } else if code == 4 {
            Some(Linkage::LinkOnceODRAutoHideLinkage)
        } else if code == 5 {
            Some(Linkage::WeakAnyLinkage)
        } else if code == 6 {
            Some(Linkage::WeakODRLinkage)
        } else if code == 7 {
            Some(Linkage::AppendingLinkage)
        } else if code == 8 {
            Some(Linkage::InternalLinkage)
        } else if code == 9 {
            Some(Linkage::PrivateLinkage)
        } else if code == 10 {
            Some(Linkage::DLLImportLinkage)
        } else if code == 11 {
            Some(Linkage::DLLExportLinkage)
        } else if code == 12 {
            Some(Linkage::ExternalWeakLinkage)
        } else if code == 13 {
            Some(Linkage::GhostLinkage)
        } else if code == 14 {
            Some(Linkage::CommonLinkage)
        } else if code == 15 {
            Some(Linkage::LinkerPrivateLinkage)
        } else if code == 16 {
            Some(Linkage::LinkerPrivateWeakLinkage)
        } else {
            None
        }
    }

    /// Convert to the numeric code of the wrapped library's C enumeration.
    pub fn code(self) -> (c: u32)
        ensures
            c == self.spec_code(),
    {
        match self {
            Linkage::ExternalLinkage => 0,
            Linkage::AvailableExternallyLinkage => 1,
            Linkage::LinkOnceAnyLinkage => 2,
            Linkage::LinkOnceODRLinkage => 3,
            Linkage::LinkOnceODRAutoHideLinkage => 4,
            Linkage::WeakAnyLinkage => 5,
            Linkage::WeakODRLinkage => 6,
            Linkage::AppendingLinkage => 7,
            Linkage::InternalLinkage => 8,
            Linkage::PrivateLinkage => 9,
            Linkage::DLLImportLinkage => 10,
            Linkage::DLLExportLinkage => 11,
            Linkage::ExternalWeakLinkage => 12,
            Linkage::GhostLinkage => 13,
            Linkage::CommonLinkage => 14,
            Linkage::LinkerPrivateLinkage => 15,
            Linkage::LinkerPrivateWeakLinkage => 16,
        }
    }

    /// Convert a numeric code of the wrapped library's C enumeration back;
    /// `None` exactly on codes that stand for no linkage.
    pub fn from_code(code: u32) -> (r: Option<Linkage>)
        ensures
            r == Self::spec_from_code(code),
    {
        match code {
            0 => Some(Linkage::ExternalLinkage),
            1 => Some(Linkage::AvailableExternallyLinkage),
            2 => Some(Linkage::LinkOnceAnyLinkage),
            3 => Some(Linkage::LinkOnceODRLinkage),
            4 => Some(Linkage::LinkOnceODRAutoHideLinkage),
            5 => Some(Linkage::WeakAnyLinkage),
            6 => Some(Linkage::WeakODRLinkage),
            7 => Some(Linkage::AppendingLinkage),
            8 => Some(Linkage::InternalLinkage),
            9 => Some(Linkage::PrivateLinkage),
            10 => Some(Linkage::DLLImportLinkage),
            11 => Some(Linkage::DLLExportLinkage),
            12 => Some(Linkage::ExternalWeakLinkage),
            13 => Some(Linkage::GhostLinkage),
            14 => Some(Linkage::CommonLinkage),
            15 => Some(Linkage::LinkerPrivateLinkage),
            16 => Some(Linkage::LinkerPrivateWeakLinkage),
            _ => None,
        }
    }
}

/// Decoding a linkage's own code gives that linkage back.
pub proof fn lemma_linkage_code_round_trip(x: Linkage)
    ensures
        Linkage::spec_from_code(x.spec_code()) == Some(x),
{
}

/// A code that decodes to a linkage is that linkage's code; together
/// with the round trip above, the code is a faithful name for the variant.
pub proof fn lemma_linkage_from_code_inverse(code: u32)
    ensures
        Linkage::spec_from_code(code) matches Some(x) ==> x.spec_code() == code,
{
}

/// `Visibility` represents the visibility of global values such as functions
/// and global variables: how symbols are treated by the linker and whether
/// other modules or shared libraries can see them.  Generally `Visibility`
/// represents access to the symbol after `Linkage`; composing the two defines
/// the symbol behavior.
#[derive(Clone, Copy, Debug, PartialEq, Eq, Structural)]
pub enum Visibility {
    /// Default visibility. The symbol is visible to other modules.
    DefaultVisibility,
    /// Hidden visibility. The symbol is not visible to other modules or shared libraries.
    HiddenVisibility,
    /// Protected visibility. The symbol is visible to other modules but cannot be overridden.
    ProtectedVisibility,
}

impl Visibility {
    /// The numeric code of this visibility on the C side of the wrapped
    /// library.
    pub open spec fn spec_code(self) -> u32 {
        match self {
            Visibility::DefaultVisibility => 0,
            Visibility::HiddenVisibility => 1,
            Visibility::ProtectedVisibility => 2,
        }
    }

    /// The visibility a numeric C code stands for, if any.
    pub open spec fn spec_from_code(code: u32) -> Option<Visibility> {
        if code == 0 {
            Some(Visibility::DefaultVisibility)
        } else if code == 1 {
            Some(Visibility::HiddenVisibility)
        } else if code == 2 {
            Some(Visibility::ProtectedVisibility)
        } else {
            None
        }
    }

    /// Convert to the numeric code of the wrapped library's C enumeration.
    pub fn code(self) -> (c: u32)
        ensures
            c == self.spec_code(),
    {
        match self {
            Visibility::DefaultVisibility => 0,
            Visibility::HiddenVisibility => 1,
            Visibility::ProtectedVisibility => 2,
        }
    }

    /// Convert a numeric code of the wrapped library's C enumeration back;
    /// `None` exactly on codes that stand for no visibility.
    pub fn from_code(code: u32) -> (r: Option<Visibility>)
        ensures
            r == Self::spec_from_code(code),
    {
        match code {
            0 => Some(Visibility::DefaultVisibility),
            1 => Some(Visibility::HiddenVisibility),
            2 => Some(Visibility::ProtectedVisibility),
            _ => None,
        }
    }
}

/// Decoding a visibility's own code gives that visibility back.
pub proof fn lemma_visibility_code_round_trip(x: Visibility)
    ensures
        Visibility::spec_from_code(x.spec_code()) == Some(x),
{
}

/// A code that decodes to a visibility is that visibility's code; together
/// with the round trip above, the code is a faithful name for the variant.
pub proof fn lemma_visibility_from_code_inverse(code: u32)
    ensures
        Visibility::spec_from_code(code) matches Some(x) ==> x.spec_code() == code,
{
}

/// Represents the DLL storage classes: how a global value, such as a
/// function or global variable, should be treated with respect to dynamic
/// link libraries (DLLs): imported from a DLL, exported to a DLL, or
/// treated as a normal global symbol.
#[derive(Clone, Copy, Debug, PartialEq, Eq, Structural)]
pub enum DLLStorageClass {
    /// The default storage class: the symbol is not specifically marked for
    /// import or export from a DLL and is treated as a normal global symbol.
    DefaultStorageClass,
    /// The symbol should be imported from a DLL; the linker ensures it is
    /// correctly resolved at runtime.
    DLLImportStorageClass,
    /// The symbol should be exported to a DLL and made accessible to other
    /// modules or executables.
    DLLExportStorageClass,
}

impl DLLStorageClass {
    /// The numeric code of this storage class on the C side of the wrapped
    /// library.
    pub open spec fn spec_code(self) -> u32 {
        match self {
            DLLStorageClass::DefaultStorageClass => 0,
            DLLStorageClass::DLLImportStorageClass => 1,
            DLLStorageClass::DLLExportStorageClass => 2,
        }
    }

    /// The storage class a numeric C code stands for, if any.
    pub open spec fn spec_from_code(code: u32) -> Option<DLLStorageClass> {
        if code == 0 {
            Some(DLLStorageClass::DefaultStorageClass)
        } else if code == 1 {
            Some(DLLStorageClass::DLLImportStorageClass)
        } else if code == 2 {
            Some(DLLStorageClass::DLLExportStorageClass)
        } else {
            None
        }
    }

    /// Convert to the numeric code of the wrapped library's C enumeration.
    pub fn code(self) -> (c: u32)
        ensures
            c == self.spec_code(),
    {
        match self {
            DLLStorageClass::DefaultStorageClass => 0,
            DLLStorageClass::DLLImportStorageClass => 1,
            DLLStorageClass::DLLExportStorageClass => 2,
        }
    }

    /// Convert a numeric code of the wrapped library's C enumeration back;
    /// `None` exactly on codes that stand for no storage class.
    pub fn from_code(code: u32) -> (r: Option<DLLStorageClass>)
        ensures
            r == Self::spec_from_code(code),
    {
        match code {
            0 => Some(DLLStorageClass::DefaultStorageClass),
            1 => Some(DLLStorageClass::DLLImportStorageClass),
            2 => Some(DLLStorageClass::DLLExportStorageClass),
            _ => None,
        }
    }
}

/// Decoding a storage class's own code gives that storage class back.
pub proof fn lemma_dll_storage_class_code_round_trip(x: DLLStorageClass)
    ensures
        DLLStorageClass::spec_from_code(x.spec_code()) == Some(x),
{
}

/// A code that decodes to a storage class is that storage class's code; together
/// with the round trip above, the code is a faithful name for the variant.
pub proof fn lemma_dll_storage_class_from_code_inverse(code: u32)
    ensures
        DLLStorageClass::spec_from_code(code) matches Some(x) ==> x.spec_code() == code,
{
}

/// Represents the unnamed address attribute for global values: whether a
/// global variable or function's address is significant, which lets the
/// optimizer merge or duplicate global values with identical content.
#[derive(Clone, Copy, Debug, PartialEq, Eq, Structural)]
pub enum UnnamedAddr {
    /// The address of the global value is significant and must be unique;
    /// the value cannot be merged with others even with identical content.
    NoUnnamedAddr,
    /// The address is not significant within the module, so values with the
    /// same content may be merged or duplicated inside it.
    LocalUnnamedAddr,
    /// The address is not significant across the entire program, so values
    /// with identical content may be merged or duplicated freely.
    GlobalUnnamedAddr,
}

impl UnnamedAddr {
    /// The numeric code of this unnamed-address mode on the C side of the wrapped
    /// library.
    pub open spec fn spec_code(self) -> u32 {
        match self {
            UnnamedAddr::NoUnnamedAddr => 0,
            UnnamedAddr::LocalUnnamedAddr => 1,
            UnnamedAddr::GlobalUnnamedAddr => 2,
        }
    }

    /// The unnamed-address mode a numeric C code stands for, if any.
    pub open spec fn spec_from_code(code: u32) -> Option<UnnamedAddr> {
        if code == 0 {
            Some(UnnamedAddr::NoUnnamedAddr)
        } else if code == 1 {
            Some(UnnamedAddr::LocalUnnamedAddr)
        } else if code == 2 {
            Some(UnnamedAddr::GlobalUnnamedAddr)
        } else {
            None
        }
    }

    /// Convert to the numeric code of the wrapped library's C enumeration.
    pub fn code(self) -> (c: u32)
        ensures
            c == self.spec_code(),
    {
        match self {
            UnnamedAddr::NoUnnamedAddr => 0,
            UnnamedAddr::LocalUnnamedAddr => 1,
            UnnamedAddr::GlobalUnnamedAddr => 2,
        }
    }

    /// Convert a numeric code of the wrapped library's C enumeration back;
    /// `None` exactly on codes that stand for no unnamed-address mode.
    pub fn from_code(code: u32) -> (r: Option<UnnamedAddr>)
        ensures
            r == Self::spec_from_code(code),
    {
        match code {
            0 => Some(UnnamedAddr::NoUnnamedAddr),
            1 => Some(UnnamedAddr::LocalUnnamedAddr),
            2 => Some(UnnamedAddr::GlobalUnnamedAddr),
            _ => None,
        }
    }
}

/// Decoding an unnamed-address mode's own code gives that unnamed-address mode back.
pub proof fn lemma_unnamed_addr_code_round_trip(x: UnnamedAddr)
    ensures
        UnnamedAddr::spec_from_code(x.spec_code()) == Some(x),
{
}

/// A code that decodes to an unnamed-address mode is that unnamed-address mode's code; together
/// with the round trip above, the code is a faithful name for the variant.
pub proof fn lemma_unnamed_addr_from_code_inverse(code: u32)
    ensures
        UnnamedAddr::spec_from_code(code) matches Some(x) ==> x.spec_code() == code,
{
}

} // verus!
