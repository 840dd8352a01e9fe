//! Exhaustive checks of the mirrored enumerations against the numeric
//! codes of the wrapped library's C enumerations: every variant round-trips
//! through its code, and codes outside the C enumeration decode to `None`.

use llvm_lib::context::DiagnosticSeverity;
use llvm_lib::ir::{DLLStorageClass, IntPredicate, Linkage, Opcode, RealPredicate, UnnamedAddr, Visibility};
use llvm_lib::module::{InlineAsmDialect, ModuleFlagBehavior};
use llvm_lib::types::TypeKind;
use llvm_lib::values::{ThreadLocalMode, ValueKind};

#[test]
fn opcode_codes_round_trip() {
    let cases: [(Opcode, u32); 67] = [
        (Opcode::Ret, 1),
        (Opcode::Br, 2),
        (Opcode::Switch, 3),
        (Opcode::IndirectBr, 4),
        (Opcode::Invoke, 5),
        (Opcode::Unreachable, 7),
        (Opcode::CallBr, 67),
        (Opcode::FNeg, 66),
        (Opcode::Add, 8),
        (Opcode::FAdd, 9),
        (Opcode::Sub, 10),
        (Opcode::FSub, 11),
        (Opcode::Mul, 12),
        (Opcode::FMul, 13),
        (Opcode::UDiv, 14),
        (Opcode::SDiv, 15),
        (Opcode::FDiv, 16),
        (Opcode::URem, 17),
        (Opcode::SRem, 18),
        (Opcode::FRem, 19),
        (Opcode::Shl, 20),
        (Opcode::LShr, 21),
        (Opcode::AShr, 22),
        (Opcode::And, 23),
        (Opcode::Or, 24),
        (Opcode::Xor, 25),
        (Opcode::Alloca, 26),
        (Opcode::Load, 27),
        (Opcode::Store, 28),
        (Opcode::GetElementPtr, 29),
        (Opcode::Trunc, 30),
        (Opcode::ZExt, 31),
        (Opcode::SExt, 32),
        (Opcode::FPToUI, 33),
        (Opcode::FPToSI, 34),
        (Opcode::UIToFP, 35),
        (Opcode::SIToFP, 36),
        (Opcode::FPTrunc, 37),
        (Opcode::FPExt, 38),
        (Opcode::PtrToInt, 39),
        (Opcode::IntToPtr, 40),
        (Opcode::BitCast, 41),
        (Opcode::AddrSpaceCast, 60),
        (Opcode::ICmp, 42),
        (Opcode::FCmp, 43),
        (Opcode::PHI, 44),
        (Opcode::Call, 45),
        (Opcode::Select, 46),
        (Opcode::UserOp1, 47),
        (Opcode::UserOp2, 48),
        (Opcode::VAArg, 49),
        (Opcode::ExtractElement, 50),
        (Opcode::InsertElement, 51),
        (Opcode::ShuffleVector, 52),
        (Opcode::ExtractValue, 53),
        (Opcode::InsertValue, 54),
        (Opcode::Freeze, 68),
        (Opcode::Fence, 55),
        (Opcode::AtomicCmpXchg, 56),
        (Opcode::AtomicRMW, 57),
        (Opcode::Resume, 58),
        (Opcode::LandingPad, 59),
        (Opcode::CleanupRet, 61),
        (Opcode::CatchRet, 62),
        (Opcode::CatchPad, 63),
        (Opcode::CleanupPad, 64),
        (Opcode::CatchSwitch, 65),
    ];
    for (x, code) in cases {
        assert_eq!(x.code(), code);
        assert_eq!(Opcode::from_code(code), Some(x));
    }
    assert_eq!(Opcode::from_code(0), None);
    assert_eq!(Opcode::from_code(6), None);
    assert_eq!(Opcode::from_code(69), None);
    assert_eq!(Opcode::from_code(1000), None);
}

#[test]
fn int_predicate_codes_round_trip() {
    let cases: [(IntPredicate, u32); 10] = [
        (IntPredicate::IntEQ, 32),
        (IntPredicate::IntNE, 33),
        (IntPredicate::IntUGT, 34),
        (IntPredicate::IntUGE, 35),
        (IntPredicate::IntULT, 36),
        (IntPredicate::IntULE, 37),
        (IntPredicate::IntSGT, 38),
        (IntPredicate::IntSGE, 39),
        (IntPredicate::IntSLT, 40),
        (IntPredicate::IntSLE, 41),
    ];
    for (x, code) in cases {
        assert_eq!(x.code(), code);
        assert_eq!(IntPredicate::from_code(code), Some(x));
    }
    assert_eq!(IntPredicate::from_code(0), None);
    assert_eq!(IntPredicate::from_code(31), None);
    assert_eq!(IntPredicate::from_code(42), None);
}

#[test]
fn real_predicate_codes_round_trip() {
    let cases: [(RealPredicate, u32); 16] = [
        (RealPredicate::RealPredicateFalse, 0),
        (RealPredicate::RealOEQ, 1),
        (RealPredicate::RealOGT, 2),
        (RealPredicate::RealOGE, 3),
        (RealPredicate::RealOLT, 4),
        (RealPredicate::RealOLE, 5),
        (RealPredicate::RealONE, 6),
        (RealPredicate::RealORD, 7),
        (RealPredicate::RealUNO, 8),
        (RealPredicate::RealUEQ, 9),
        (RealPredicate::RealUGT, 10),
        (RealPredicate::RealUGE, 11),
        (RealPredicate::RealULT, 12),
        (RealPredicate::RealULE, 13),
        (RealPredicate::RealUNE, 14),
        (RealPredicate::RealPredicateTrue, 15),
    ];
    for (x, code) in cases {
        assert_eq!(x.code(), code);
        assert_eq!(RealPredicate::from_code(code), Some(x));
    }
    assert_eq!(RealPredicate::from_code(16), None);
    assert_eq!(RealPredicate::from_code(100), None);
}

#[test]
fn linkage_codes_round_trip() {
    let cases: [(Linkage, u32); 17] = [
        (Linkage::ExternalLinkage, 0),
        (Linkage::AvailableExternallyLinkage, 1),
        (Linkage::LinkOnceAnyLinkage, 2),
        (Linkage::LinkOnceODRLinkage, 3),
        (Linkage::LinkOnceODRAutoHideLinkage, 4),
        (Linkage::WeakAnyLinkage, 5),
        (Linkage::WeakODRLinkage, 6),
        (Linkage::AppendingLinkage, 7),
        (Linkage::InternalLinkage, 8),
        (Linkage::PrivateLinkage, 9),
        (Linkage::DLLImportLinkage, 10),
        (Linkage::DLLExportLinkage, 11),
        (Linkage::ExternalWeakLinkage, 12),
        (Linkage::GhostLinkage, 13),
        (Linkage::CommonLinkage, 14),
        (Linkage::LinkerPrivateLinkage, 15),
        (Linkage::LinkerPrivateWeakLinkage, 16),
    ];
    for (x, code) in cases {
        assert_eq!(x.code(), code);
        assert_eq!(Linkage::from_code(code), Some(x));
    }
    assert_eq!(Linkage::from_code(17), None);
    assert_eq!(Linkage::from_code(255), None);
}

#[test]
fn visibility_codes_round_trip() {
    let cases: [(Visibility, u32); 3] = [
        (Visibility::DefaultVisibility, 0),
        (Visibility::HiddenVisibility, 1),
        (Visibility::ProtectedVisibility, 2),
    ];
    for (x, code) in cases {
        assert_eq!(x.code(), code);
        assert_eq!(Visibility::from_code(code), Some(x));
    }
    assert_eq!(Visibility::from_code(3), None);
}

#[test]
fn dll_storage_class_codes_round_trip() {
    let cases: [(DLLStorageClass, u32); 3] = [
        (DLLStorageClass::DefaultStorageClass, 0),
        (DLLStorageClass::DLLImportStorageClass, 1),
        (DLLStorageClass::DLLExportStorageClass, 2),
    ];
    for (x, code) in cases {
        assert_eq!(x.code(), code);
        assert_eq!(DLLStorageClass::from_code(code), Some(x));
    }
    assert_eq!(DLLStorageClass::from_code(3), None);
}

#[test]
fn unnamed_addr_codes_round_trip() {
    let cases: [(UnnamedAddr, u32); 3] = [
        (UnnamedAddr::NoUnnamedAddr, 0),
        (UnnamedAddr::LocalUnnamedAddr, 1),
        (UnnamedAddr::GlobalUnnamedAddr, 2),
    ];
    for (x, code) in cases {
        assert_eq!(x.code(), code);
        assert_eq!(UnnamedAddr::from_code(code), Some(x));
    }
    assert_eq!(UnnamedAddr::from_code(3), None);
}

#[test]
fn type_kind_codes_round_trip() {
    let cases: [(TypeKind, u32); 21] = [
        (TypeKind::VoidTypeKind, 0),
        (TypeKind::HalfTypeKind, 1),
        (TypeKind::FloatTypeKind, 2),
        (TypeKind::DoubleTypeKind, 3),
        (TypeKind::X86_FP80TypeKind, 4),
        (TypeKind::FP128TypeKind, 5),
        (TypeKind::PPC_FP128TypeKind, 6),
        (TypeKind::LabelTypeKind, 7),
        (TypeKind::IntegerTypeKind, 8),
        (TypeKind::FunctionTypeKind, 9),
        (TypeKind::StructTypeKind, 10),
        (TypeKind::ArrayTypeKind, 11),
        (TypeKind::PointerTypeKind, 12),
        (TypeKind::VectorTypeKind, 13),
        (TypeKind::MetadataTypeKind, 14),
        (TypeKind::X86_MMXTypeKind, 15),
        (TypeKind::TokenTypeKind, 16),
        (TypeKind::ScalableVectorTypeKind, 17),
        (TypeKind::BFloatTypeKind, 18),
        (TypeKind::X86_AMXTypeKind, 19),
        (TypeKind::TargetExtTypeKind, 20),
    ];
    for (x, code) in cases {
        assert_eq!(x.code(), code);
        assert_eq!(TypeKind::from_code(code), Some(x));
    }
    assert_eq!(TypeKind::from_code(21), None);
    assert_eq!(TypeKind::from_code(1000), None);
}

#[test]
fn value_kind_codes_decode() {
    let cases: [(ValueKind, u32); 28] = [
        (ValueKind::Argument, 0),
        (ValueKind::BasicBlock, 1),
        (ValueKind::MemoryUse, 2),
        (ValueKind::MemoryDef, 3),
        (ValueKind::MemoryPhi, 4),
        (ValueKind::Function, 5),
        (ValueKind::GlobalAlias, 6),
        (ValueKind::GlobalIFunc, 7),
        (ValueKind::GlobalVariable, 8),
        (ValueKind::BlockAddress, 9),
        (ValueKind::ConstantExpr, 10),
        (ValueKind::ConstantArray, 11),
        (ValueKind::ConstantStruct, 12),
        (ValueKind::ConstantVector, 13),
        (ValueKind::Undef, 14),
        (ValueKind::ConstantAggregateZero, 15),
        (ValueKind::ConstantDataArray, 16),
        (ValueKind::ConstantDataVector, 17),
        (ValueKind::ConstantInt, 18),
        (ValueKind::ConstantFP, 19),
        (ValueKind::ConstantPointerNull, 20),
        (ValueKind::ConstantTokenNone, 21),
        (ValueKind::MetadataAsValue, 22),
        (ValueKind::InlineAsm, 23),
        (ValueKind::Instruction, 24),
        (ValueKind::Poison, 25),
        (ValueKind::ConstantTargetNone, 26),
        (ValueKind::ConstantPtrAuthValueKind, 27),
    ];
    for (x, code) in cases {
        assert_eq!(ValueKind::from_code(code), Some(x));
    }
    assert_eq!(ValueKind::from_code(28), None);
    assert_eq!(ValueKind::from_code(1000), None);
}

#[test]
fn thread_local_mode_codes_round_trip() {
    let cases: [(ThreadLocalMode, u32); 5] = [
        (ThreadLocalMode::NotThreadLocal, 0),
        (ThreadLocalMode::GeneralDynamicTLSModel, 1),
        (ThreadLocalMode::LocalDynamicTLSModel, 2),
        (ThreadLocalMode::InitialExecTLSModel, 3),
        (ThreadLocalMode::LocalExecTLSModel, 4),
    ];
    for (x, code) in cases {
        assert_eq!(x.code(), code);
        assert_eq!(ThreadLocalMode::from_code(code), Some(x));
    }
    assert_eq!(ThreadLocalMode::from_code(5), None);
}

#[test]
fn inline_asm_dialect_codes_round_trip() {
    let cases: [(InlineAsmDialect, u32); 2] = [
        (InlineAsmDialect::InlineAsmDialectATT, 0),
        (InlineAsmDialect::InlineAsmDialectIntel, 1),
    ];
    for (x, code) in cases {
        assert_eq!(x.code(), code);
        assert_eq!(InlineAsmDialect::from_code(code), Some(x));
    }
    assert_eq!(InlineAsmDialect::from_code(2), None);
}

#[test]
fn module_flag_behavior_codes_round_trip() {
    let cases: [(ModuleFlagBehavior, u32); 6] = [
        (ModuleFlagBehavior::ModuleFlagBehaviorError, 0),
        (ModuleFlagBehavior::ModuleFlagBehaviorWarning, 1),
        (ModuleFlagBehavior::ModuleFlagBehaviorRequire, 2),
        (ModuleFlagBehavior::ModuleFlagBehaviorOverride, 3),
        (ModuleFlagBehavior::ModuleFlagBehaviorAppend, 4),
        (ModuleFlagBehavior::ModuleFlagBehaviorAppendUnique, 5),
    ];
    for (x, code) in cases {
        assert_eq!(x.code(), code);
        assert_eq!(ModuleFlagBehavior::from_code(code), Some(x));
    }
    assert_eq!(ModuleFlagBehavior::from_code(6), None);
}
#[test]
fn diagnostic_severity_codes_round_trip() {
    let cases: [(DiagnosticSeverity, u32); 4] = [
        (DiagnosticSeverity::Error, 0),
        (DiagnosticSeverity::Warning, 1),
        (DiagnosticSeverity::Remark, 2),
        (DiagnosticSeverity::Note, 3),
    ];
    for (x, code) in cases {
        assert_eq!(x.code(), code);
        assert_eq!(DiagnosticSeverity::from_code(code), Some(x));
    }
    assert_eq!(DiagnosticSeverity::from_code(4), None);
}
