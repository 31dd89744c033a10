use mu_pi::fw_fs::ffs::attributes::Attribute as FfsAttribute;
use mu_pi::fw_fs::ffs::file::State as FfsFileState;
use mu_pi::fw_fs::fv::attributes::Fv2;
use mu_pi::fw_fs::fv::file::Attribute as FvFileAttribute;
use mu_pi::fw_fs::fv::WritePolicy;
use mu_pi::fw_fs::fvb::attributes::Fvb2;

#[test]
fn ffs_attributes_have_their_bits() {
    assert_eq!(FfsAttribute::LargeFile.to_raw(), 0x01);
    assert_eq!(FfsAttribute::DataAlignment2.to_raw(), 0x02);
    assert_eq!(FfsAttribute::Fixed.to_raw(), 0x04);
    assert_eq!(FfsAttribute::DataAlignment.to_raw(), 0x38);
    assert_eq!(FfsAttribute::Checksum.to_raw(), 0x40);
    assert_eq!(mu_pi::fw_fs::ffs::attributes::raw::CHECKSUM, 0x40);
}

#[test]
fn ffs_file_states_have_their_bits() {
    assert_eq!(FfsFileState::HeaderConstruction.to_raw(), 0x01);
    assert_eq!(FfsFileState::HeaderValid.to_raw(), 0x02);
    assert_eq!(FfsFileState::DataValid.to_raw(), 0x04);
    assert_eq!(FfsFileState::MarkedForUpdate.to_raw(), 0x08);
    assert_eq!(FfsFileState::Deleted.to_raw(), 0x10);
    assert_eq!(FfsFileState::HeaderInvalid.to_raw(), 0x20);
}

#[test]
fn fv_file_attributes_have_their_bits() {
    assert_eq!(FvFileAttribute::Alignment.to_raw(), 0x1F);
    assert_eq!(FvFileAttribute::Fixed.to_raw(), 0x100);
    assert_eq!(FvFileAttribute::MemoryMapped.to_raw(), 0x200);
}

#[test]
fn write_policies_have_their_values() {
    assert_eq!(WritePolicy::UnreliableWrite.to_raw(), 0);
    assert_eq!(WritePolicy::ReliableWrite.to_raw(), 1);
}

#[test]
fn fv2_attributes_have_their_bits() {
    assert_eq!(Fv2::ReadDisableCap.to_raw(), 0x1);
    assert_eq!(Fv2::ReadEnableCap.to_raw(), 0x2);
    assert_eq!(Fv2::ReadStatus.to_raw(), 0x4);
    assert_eq!(Fv2::WriteDisableCap.to_raw(), 0x8);
    assert_eq!(Fv2::WriteEnableCap.to_raw(), 0x10);
    assert_eq!(Fv2::WriteStatus.to_raw(), 0x20);
    assert_eq!(Fv2::LockCap.to_raw(), 0x40);
    assert_eq!(Fv2::LockStatus.to_raw(), 0x80);
    assert_eq!(Fv2::WritePolicyReliable.to_raw(), 0x100);
    assert_eq!(Fv2::ReadLockCap.to_raw(), 0x1000);
    assert_eq!(Fv2::ReadLockStatus.to_raw(), 0x2000);
    assert_eq!(Fv2::WriteLockCap.to_raw(), 0x4000);
    assert_eq!(Fv2::WriteLockStatus.to_raw(), 0x8000);
    assert_eq!(Fv2::Alignment1.to_raw(), 0);
    assert_eq!(Fv2::Alignment2.to_raw(), 0x1_0000);
    assert_eq!(Fv2::Alignment4K.to_raw(), 0xC_0000);
    assert_eq!(Fv2::Alignment64K.to_raw(), 0x10_0000);
    assert_eq!(Fv2::Alignment1M.to_raw(), 0x14_0000);
    assert_eq!(Fv2::Alignment2G.to_raw(), 0x1F_0000);
}

#[test]
fn fvb2_attributes_have_their_bits() {
    assert_eq!(Fvb2::ReadDisableCap.to_raw(), 0x1);
    assert_eq!(Fvb2::ReadEnableCap.to_raw(), 0x2);
    assert_eq!(Fvb2::ReadStatus.to_raw(), 0x4);
    assert_eq!(Fvb2::WriteDisableCap.to_raw(), 0x8);
    assert_eq!(Fvb2::WriteEnableCap.to_raw(), 0x10);
    assert_eq!(Fvb2::WriteStatus.to_raw(), 0x20);
    assert_eq!(Fvb2::LockCap.to_raw(), 0x40);
    assert_eq!(Fvb2::LockStatus.to_raw(), 0x80);
    assert_eq!(Fvb2::StickyWrite.to_raw(), 0x200);
    assert_eq!(Fvb2::MemoryMapped.to_raw(), 0x400);
    assert_eq!(Fvb2::ErasePolarity.to_raw(), 0x800);
    assert_eq!(Fvb2::ReadLockCap.to_raw(), 0x1000);
    assert_eq!(Fvb2::WriteLockStatus.to_raw(), 0x8000);
    assert_eq!(Fvb2::Alignment1.to_raw(), 0);
    assert_eq!(Fvb2::Alignment16.to_raw(), 0x4_0000);
    assert_eq!(Fvb2::Alignment512K.to_raw(), 0x13_0000);
    assert_eq!(Fvb2::Alignment2G.to_raw(), 0x1F_0000);
    assert_eq!(Fvb2::WeakAlignment.to_raw(), 0x8000_0000);
}
