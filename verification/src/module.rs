//! Module-level tags of the wrapped library: the inline assembly dialect
//! and the merge behavior of module flags.
//!
//! The module handle itself, and the calls that read and write a module,
//! live in the unverified shell; the two tags that those calls take and
//! return are mirrored here with their numeric codes on the C side.

use vstd::prelude::*;

verus! {

/// Inline assembly dialect.
#[derive(Clone, Copy, Debug, PartialEq, Eq, Structural)]
pub enum InlineAsmDialect {
    /// The AT&T inline assembly dialect.
    InlineAsmDialectATT,
    /// The Intel inline assembly dialect.
    InlineAsmDialectIntel,
}

impl InlineAsmDialect {
    /// The numeric code of this inline assembly dialect on the C side of the wrapped
    /// library.
    pub open spec fn spec_code(self) -> u32 {
        match self {
            InlineAsmDialect::InlineAsmDialectATT => 0,
            InlineAsmDialect::InlineAsmDialectIntel => 1,
        }
    }

    /// The inline assembly dialect a numeric C code stands for, if any.
    pub open spec fn spec_from_code(code: u32) -> Option<InlineAsmDialect> {
        if code == 0 {
            Some(InlineAsmDialect::InlineAsmDialectATT)
        } else if code == 1 {
            Some(InlineAsmDialect::InlineAsmDialectIntel)
        } else {
            None
        }
    }

    /// Convert to the numeric code of the wrapped library's C enumeration.
    pub fn code(self) -> (c: u32)
        ensures
            c == self.spec_code(),
    {
        match self {
            InlineAsmDialect::InlineAsmDialectATT => 0,
            InlineAsmDialect::InlineAsmDialectIntel => 1,
        }
    }

    /// Convert a numeric code of the wrapped library's C enumeration back;
    /// `None` exactly on codes that stand for no inline assembly dialect.
    pub fn from_code(code: u32) -> (r: Option<InlineAsmDialect>)
        ensures
            r == Self::spec_from_code(code),
    {
        match code {
            0 => Some(InlineAsmDialect::InlineAsmDialectATT),
            1 => Some(InlineAsmDialect::InlineAsmDialectIntel),
            _ => None,
        }
    }
}

/// Decoding an inline assembly dialect's own code gives that inline assembly dialect back.
pub proof fn lemma_inline_asm_dialect_code_round_trip(x: InlineAsmDialect)
    ensures
        InlineAsmDialect::spec_from_code(x.spec_code()) == Some(x),
{
}

/// A code that decodes to an inline assembly dialect is that inline assembly dialect's code; together
/// with the round trip above, the code is a faithful name for the variant.
pub proof fn lemma_inline_asm_dialect_from_code_inverse(code: u32)
    ensures
        InlineAsmDialect::spec_from_code(code) matches Some(x) ==> x.spec_code() == code,
{
}

/// Represents flags that describe information about the module for use by
/// an external entity, e.g. the dynamic linker.
#[derive(Clone, Copy, Debug, PartialEq, Eq, Structural)]
pub enum ModuleFlagBehavior {
    /// Emits an error if two values disagree; otherwise the resulting value is
    /// that of the operands.
    ModuleFlagBehaviorError,
    /// Emits a warning if two values disagree. The result value will be the
    /// operand for the flag from the first module being linked.
    ModuleFlagBehaviorWarning,
    /// Adds a requirement that another module flag be present and have a
    /// specified value after linking is performed. The value must be a metadata
    /// pair whose first element is the ID of the module flag to be restricted
    /// and whose second element is the value the flag should be restricted to.
    ModuleFlagBehaviorRequire,
    /// Uses the specified value, regardless of the behavior or value of the
    /// other module. If both modules specify this behavior but the values
    /// differ, an error is emitted.
    ModuleFlagBehaviorOverride,
    /// Appends the two values, which are required to be metadata nodes.
    ModuleFlagBehaviorAppend,
    /// Appends the two values, which are required to be metadata nodes;
    /// duplicate entries in the second list are dropped during the append.
    ModuleFlagBehaviorAppendUnique,
}

impl ModuleFlagBehavior {
    /// The numeric code of this flag behavior on the C side of the wrapped
    /// library.
    pub open spec fn spec_code(self) -> u32 {
        match self {
            ModuleFlagBehavior::ModuleFlagBehaviorError => 0,
            ModuleFlagBehavior::ModuleFlagBehaviorWarning => 1,
            ModuleFlagBehavior::ModuleFlagBehaviorRequire => 2,
            ModuleFlagBehavior::ModuleFlagBehaviorOverride => 3,
            ModuleFlagBehavior::ModuleFlagBehaviorAppend => 4,
            ModuleFlagBehavior::ModuleFlagBehaviorAppendUnique => 5,
        }
    }

    /// The flag behavior a numeric C code stands for, if any.
    pub open spec fn spec_from_code(code: u32) -> Option<ModuleFlagBehavior> {
        if code == 0 {
            Some(ModuleFlagBehavior::ModuleFlagBehaviorError)
        } else if code == 1 {
            Some(ModuleFlagBehavior::ModuleFlagBehaviorWarning)
        } else if code == 2 {
            Some(ModuleFlagBehavior::ModuleFlagBehaviorRequire)
        } else if code == 3 {
            Some(ModuleFlagBehavior::ModuleFlagBehaviorOverride)
        } else if code == 4 {
            Some(ModuleFlagBehavior::ModuleFlagBehaviorAppend)
        } else if code == 5 {
            Some(ModuleFlagBehavior::ModuleFlagBehaviorAppendUnique)
        } else {
            None
        }
    }

    /// Convert to the numeric code of the wrapped library's C enumeration.
    pub fn code(self) -> (c: u32)
        ensures
            c == self.spec_code(),
    {
        match self {
            ModuleFlagBehavior::ModuleFlagBehaviorError => 0,
            ModuleFlagBehavior::ModuleFlagBehaviorWarning => 1,
            ModuleFlagBehavior::ModuleFlagBehaviorRequire => 2,
            ModuleFlagBehavior::ModuleFlagBehaviorOverride => 3,
            ModuleFlagBehavior::ModuleFlagBehaviorAppend => 4,
            ModuleFlagBehavior::ModuleFlagBehaviorAppendUnique => 5,
        }
    }

    /// Convert a numeric code of the wrapped library's C enumeration back;
    /// `None` exactly on codes that stand for no flag behavior.
    pub fn from_code(code: u32) -> (r: Option<ModuleFlagBehavior>)
        ensures
            r == Self::spec_from_code(code),
    {
        match code {
            0 => Some(ModuleFlagBehavior::ModuleFlagBehaviorError),
            1 => Some(ModuleFlagBehavior::ModuleFlagBehaviorWarning),
            2 => Some(ModuleFlagBehavior::ModuleFlagBehaviorRequire),
            3 => Some(ModuleFlagBehavior::ModuleFlagBehaviorOverride),
            4 => Some(ModuleFlagBehavior::ModuleFlagBehaviorAppend),
            5 => Some(ModuleFlagBehavior::ModuleFlagBehaviorAppendUnique),
            _ => None,
        }
    }
}

/// Decoding a flag behavior's own code gives that flag behavior back.
pub proof fn lemma_module_flag_behavior_code_round_trip(x: ModuleFlagBehavior)
    ensures
        ModuleFlagBehavior::spec_from_code(x.spec_code()) == Some(x),
{
}

/// A code that decodes to a flag behavior is that flag behavior's code; together
/// with the round trip above, the code is a faithful name for the variant.
pub proof fn lemma_module_flag_behavior_from_code_inverse(code: u32)
    ensures
        ModuleFlagBehavior::spec_from_code(code) matches Some(x) ==> x.spec_code() == code,
{
}

} // verus!
