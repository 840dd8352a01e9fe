//! Kinds of values of the wrapped library's IR, and the thread-local
//! storage model of global variables.
//!
//! The value handles themselves, and the calls that build and inspect them,
//! live in the unverified shell; the tags that classify a value handle are
//! mirrored here with their numeric codes on the C side.

use vstd::prelude::*;

verus! {

/// Represents the different kinds of values in the wrapped library's IR,
/// such as functions, global variables, instructions and constants.
/// Useful for identifying the type of a value when working with IR
/// structures.
#[derive(Clone, Copy, Debug, PartialEq, Eq, Structural)]
pub enum ValueKind {
    /// A function argument. Each argument passed to a function is an instance of this kind.
    Argument,
    /// A basic block within a function. Basic blocks are the building blocks of a function's control flow.
    BasicBlock,
    /// A memory use in the `MemorySSA`: the use of a memory location within SSA form.
    MemoryUse,
    /// A memory definition in the `MemorySSA`: the definition of a memory location within SSA form.
    MemoryDef,
    /// A memory PHI node in the `MemorySSA`, merging memory states from different control flow paths.
    MemoryPhi,
    /// A function: the primary callable entity in the wrapped library's IR.
    Function,
    /// A global alias: an alternative name for a global variable or function.
    GlobalAlias,
    /// An indirect function: a function pointer resolved at runtime to a specific implementation.
    GlobalIFunc,
    /// A global variable, accessible across the entire module.
    GlobalVariable,
    /// A block address, referring to the address of a basic block within a function.
    BlockAddress,
    /// A constant expression: a constant value computed at compile time from other constants.
    ConstantExpr,
    /// A constant array, whose elements are all constant values.
    ConstantArray,
    /// A constant struct, whose fields are all constant values.
    ConstantStruct,
    /// A constant vector, whose elements are all constant values.
    ConstantVector,
    /// An undefined value: a placeholder that can take any value of its type during execution.
    Undef,
    /// A constant aggregate with all elements set to zero: an array, struct or vector of zeros.
    ConstantAggregateZero,
    /// A constant data array: an array of simple data values stored as a constant.
    ConstantDataArray,
    /// A constant data vector: a vector of simple data values stored as a constant.
    ConstantDataVector,
    /// A constant integer, fixed and known at compile time.
    ConstantInt,
    /// A constant floating-point value, fixed and known at compile time.
    ConstantFP,
    /// A constant null pointer: a pointer explicitly set to null.
    ConstantPointerNull,
    /// A constant token with no value, used by certain intrinsic functions that deal with tokens.
    ConstantTokenNone,
    /// Metadata used as a value, storing extra information for optimizations, debugging or analysis.
    MetadataAsValue,
    /// Inline assembly code embedded in the wrapped library's IR.
    InlineAsm,
    /// An instruction: an individual operation in the body of a function.
    Instruction,
    /// A poison value, resulting from an operation with undefined behavior.
    Poison,
    /// A target-specific constant value with no direct representation in the source code.
    ConstantTargetNone,
    /// A constant pointer with pointer authentication information.
    ConstantPtrAuthValueKind,
}

impl ValueKind {
    /// The numeric code of this value kind on the C side of the wrapped
    /// library.
    pub open spec fn spec_code(self) -> u32 {
        match self {
            ValueKind::Argument => 0,
            ValueKind::BasicBlock => 1,
            ValueKind::MemoryUse => 2,
            ValueKind::MemoryDef => 3,
            ValueKind::MemoryPhi => 4,
            ValueKind::Function => 5,
            ValueKind::GlobalAlias => 6,
            ValueKind::GlobalIFunc => 7,
            ValueKind::GlobalVariable => 8,
            ValueKind::BlockAddress => 9,
            ValueKind::ConstantExpr => 10,
            ValueKind::ConstantArray => 11,
            ValueKind::ConstantStruct => 12,
            ValueKind::ConstantVector => 13,
            ValueKind::Undef => 14,
            ValueKind::ConstantAggregateZero => 15,
            ValueKind::ConstantDataArray => 16,
            ValueKind::ConstantDataVector => 17,
            ValueKind::ConstantInt => 18,
            ValueKind::ConstantFP => 19,
            ValueKind::ConstantPointerNull => 20,
            ValueKind::ConstantTokenNone => 21,
            ValueKind::MetadataAsValue => 22,
            ValueKind::InlineAsm => 23,
            ValueKind::Instruction => 24,
            ValueKind::Poison => 25,
            ValueKind::ConstantTargetNone => 26,
            ValueKind::ConstantPtrAuthValueKind => 27,
        }
    }

    /// The value kind a numeric C code stands for, if any.
    pub open spec fn spec_from_code(code: u32) -> Option<ValueKind> {
        if code == 0 {
            Some(ValueKind::Argument)
        } else if code == 1 {
            Some(ValueKind::BasicBlock)
        } else if code == 2 {
            Some(ValueKind::MemoryUse)
        } else if code == 3 {
            Some(ValueKind::MemoryDef)
        } else if code == 4 {
            Some(ValueKind::MemoryPhi)
        } else if code == 5 {
            Some(ValueKind::Function)
        } else if code == 6 {
            Some(ValueKind::GlobalAlias)
        } else if code == 7 {
            Some(ValueKind::GlobalIFunc)
        } else if code == 8 {
            Some(ValueKind::GlobalVariable)
        } else if code == 9 {
            Some(ValueKind::BlockAddress)
        } else if code == 10 {
            Some(ValueKind::ConstantExpr)
        } else if code == 11 {
            Some(ValueKind::ConstantArray)
        } else if code == 12 {
            Some(ValueKind::ConstantStruct)
        } else if code == 13 {
            Some(ValueKind::ConstantVector)
        } else if code == 14 {
            Some(ValueKind::Undef)
        } else if code == 15 {
            Some(ValueKind::ConstantAggregateZero)
        } else if code == 16 {
            Some(ValueKind::ConstantDataArray)
        } else if code == 17 {
            Some(ValueKind::ConstantDataVector)
        } else if code == 18 {
            Some(ValueKind::ConstantInt)
        } else if code == 19 {
            Some(ValueKind::ConstantFP)
        } else if code == 20 {
            Some(ValueKind::ConstantPointerNull)
        } else if code == 21 {
            Some(ValueKind::ConstantTokenNone)
        } else if code == 22 {
            Some(ValueKind::MetadataAsValue)
        } else if code == 23 {
            Some(ValueKind::InlineAsm)
        } else if code == 24 {
            Some(ValueKind::Instruction)
        } else if code == 25 {
            Some(ValueKind::Poison)
        } else if code == 26 {
            Some(ValueKind::ConstantTargetNone)
        } else if code == 27 {
            Some(ValueKind::ConstantPtrAuthValueKind)
        } else {
            None
        }
    }

    /// Convert a numeric code of the wrapped library's C enumeration back;
    /// `None` exactly on codes that stand for no value kind.
    pub fn from_code(code: u32) -> (r: Option<ValueKind>)
        ensures
            r == Self::spec_from_code(code),
    {
        match code {
            0 => Some(ValueKind::Argument),
            1 => Some(ValueKind::BasicBlock),
            2 => Some(ValueKind::MemoryUse),
            3 => Some(ValueKind::MemoryDef),
            4 => Some(ValueKind::MemoryPhi),
            5 => Some(ValueKind::Function),
            6 => Some(ValueKind::GlobalAlias),
            7 => Some(ValueKind::GlobalIFunc),
            8 => Some(ValueKind::GlobalVariable),
            9 => Some(ValueKind::BlockAddress),
            10 => Some(ValueKind::ConstantExpr),
            11 => Some(ValueKind::ConstantArray),
            12 => Some(ValueKind::ConstantStruct),
            13 => Some(ValueKind::ConstantVector),
            14 => Some(ValueKind::Undef),
            15 => Some(ValueKind::ConstantAggregateZero),
            16 => Some(ValueKind::ConstantDataArray),
            17 => Some(ValueKind::ConstantDataVector),
            18 => Some(ValueKind::ConstantInt),
            19 => Some(ValueKind::ConstantFP),
            20 => Some(ValueKind::ConstantPointerNull),
            21 => Some(ValueKind::ConstantTokenNone),
            22 => Some(ValueKind::MetadataAsValue),
            23 => Some(ValueKind::InlineAsm),
            24 => Some(ValueKind::Instruction),
            25 => Some(ValueKind::Poison),
            26 => Some(ValueKind::ConstantTargetNone),
            27 => Some(ValueKind::ConstantPtrAuthValueKind),
            _ => None,
        }
    }
}

/// Decoding a value kind's own code gives that value kind back.
pub proof fn lemma_value_kind_code_round_trip(x: ValueKind)
    ensures
        ValueKind::spec_from_code(x.spec_code()) == Some(x),
{
}

/// A code that decodes to a value kind is that value kind's code; together
/// with the round trip above, the code is a faithful name for the variant.
pub proof fn lemma_value_kind_from_code_inverse(code: u32)
    ensures
        ValueKind::spec_from_code(code) matches Some(x) ==> x.spec_code() == code,
{
}

/// Represents the thread-local storage (TLS) model for a global variable.
///
/// Thread-local storage allows each thread to have its own instance of a
/// global variable. The different TLS models dictate how the runtime
/// handles accessing the variable across threads and whether the variable
/// is accessed dynamically or statically.
#[derive(Clone, Copy, Debug, PartialEq, Eq, Structural)]
pub enum ThreadLocalMode {
    /// The global variable is not thread-local.
    NotThreadLocal,
    /// General dynamic TLS model, suitable for global variables that are accessed
    /// across multiple modules and can be dynamically allocated for each thread.
    GeneralDynamicTLSModel,
    /// Local dynamic TLS model, suitable for global variables that are dynamically
    /// allocated but only accessed within the same module.
    LocalDynamicTLSModel,
    /// Initial execution TLS model, allowing faster access to TLS variables known
    /// to be used early during program execution (such as in dynamic libraries).
    InitialExecTLSModel,
    /// Local execution TLS model, providing fast access to thread-local variables
    /// that are only accessed within the current module.
    LocalExecTLSModel,
}

impl ThreadLocalMode {
    /// The numeric code of this thread-local mode on the C side of the wrapped
    /// library.
    pub open spec fn spec_code(self) -> u32 {
        match self {
            ThreadLocalMode::NotThreadLocal => 0,
            ThreadLocalMode::GeneralDynamicTLSModel => 1,
            ThreadLocalMode::LocalDynamicTLSModel => 2,
            ThreadLocalMode::InitialExecTLSModel => 3,
            ThreadLocalMode::LocalExecTLSModel => 4,
        }
    }

    /// The thread-local mode a numeric C code stands for, if any.
    pub open spec fn spec_from_code(code: u32) -> Option<ThreadLocalMode> {
        if code == 0 {
            Some(ThreadLocalMode::NotThreadLocal)
        } else if code == 1 {
            Some(ThreadLocalMode::GeneralDynamicTLSModel)
        } else if code == 2 {
            Some(ThreadLocalMode::LocalDynamicTLSModel)
        } else if code == 3 {
            Some(ThreadLocalMode::InitialExecTLSModel)
        } else if code == 4 {
            Some(ThreadLocalMode::LocalExecTLSModel)
        } else {
            None
        }
    }

    /// Convert to the numeric code of the wrapped library's C enumeration.
    pub fn code(self) -> (c: u32)
        ensures
            c == self.spec_code(),
    {
        match self {
            ThreadLocalMode::NotThreadLocal => 0,
            ThreadLocalMode::GeneralDynamicTLSModel => 1,
            ThreadLocalMode::LocalDynamicTLSModel => 2,
            ThreadLocalMode::InitialExecTLSModel => 3,
            ThreadLocalMode::LocalExecTLSModel => 4,
        }
    }

    /// Convert a numeric code of the wrapped library's C enumeration back;
    /// `None` exactly on codes that stand for no thread-local mode.
    pub fn from_code(code: u32) -> (r: Option<ThreadLocalMode>)
        ensures
            r == Self::spec_from_code(code),
    {
        match code {
            0 => Some(ThreadLocalMode::NotThreadLocal),
            1 => Some(ThreadLocalMode::GeneralDynamicTLSModel),
            2 => Some(ThreadLocalMode::LocalDynamicTLSModel),
            3 => Some(ThreadLocalMode::InitialExecTLSModel),
            4 => Some(ThreadLocalMode::LocalExecTLSModel),
            _ => None,
        }
    }
}

/// Decoding a thread-local mode's own code gives that thread-local mode back.
pub proof fn lemma_thread_local_mode_code_round_trip(x: ThreadLocalMode)
    ensures
        ThreadLocalMode::spec_from_code(x.spec_code()) == Some(x),
{
}

/// A code that decodes to a thread-local mode is that thread-local mode's code; together
/// with the round trip above, the code is a faithful name for the variant.
pub proof fn lemma_thread_local_mode_from_code_inverse(code: u32)
    ensures
        ThreadLocalMode::spec_from_code(code) matches Some(x) ==> x.spec_code() == code,
{
}

} // verus!
