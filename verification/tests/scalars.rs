//! Checks of the scalar wrappers, the address space wrapper, the metadata
//! kind identifier and the version record.

use llvm_lib::context::MetadataKindId;
use llvm_lib::ir::{AddressSpace, Version};
use llvm_lib::{CInt, CUint, SizeT};

#[test]
fn cuint_from_u32_and_back() {
    let c = CUint::from(7u32);
    assert_eq!(c.value(), 7);
    assert_eq!(u32::from(c), 7);
    assert_eq!(CUint::from(0u32).value(), 0);
    assert_eq!(CUint::from(u32::MAX).value(), u32::MAX);
}

#[test]
fn cuint_from_usize() {
    assert_eq!(CUint::from_usize(0usize).value(), 0);
    assert_eq!(CUint::from_usize(4096usize).value(), 4096);
    assert_eq!(
        CUint::from_usize(u32::MAX as usize).value(),
        u32::MAX,
    );
}

#[test]
fn cint_from_i32_and_bool() {
    assert_eq!(CInt::from(-5i32).value(), -5);
    assert_eq!(CInt::from(i32::MAX).value(), i32::MAX);
    assert_eq!(CInt::from(true).value(), 1);
    assert_eq!(CInt::from(false).value(), 0);
}

#[test]
fn size_t_from_usize() {
    assert_eq!(SizeT::from(0usize).value(), 0);
    assert_eq!(SizeT::from(123_456usize).value(), 123_456);
}

#[test]
fn address_space_wraps_the_number() {
    let a = AddressSpace::from(3u32);
    assert_eq!(a.value(), 3);
    let b = AddressSpace::new(CUint::from(0u32));
    assert_eq!(b.value(), 0);
    assert_eq!(AddressSpace::from(3u32), a);
}

#[test]
fn metadata_kind_id_wraps_the_number() {
    let id = MetadataKindId::new(42);
    assert_eq!(id.value(), 42);
    assert_eq!(id.0, 42);
    assert_eq!(MetadataKindId::new(42), id);
}

#[test]
fn version_get_returns_major_minor_patch() {
    let v = Version::new(19, 1, 2);
    assert_eq!(v.get(), (19, 1, 2));
    let w = Version::new(0, 0, 0);
    assert_eq!(w.get(), (0, 0, 0));
}
