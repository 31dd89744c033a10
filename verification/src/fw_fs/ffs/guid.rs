//! Firmware File System (FFS) GUID definitions.
//!
//! Based on the values defined in the UEFI Platform Initialization (PI) Specification V1.8A Section 3.2.2.

use crate::base::Guid;
use vstd::prelude::*;

verus! {

/// The value of {8C8CE578-8A3D-4F1C-9935-896185C32DD3}.
pub const EFI_FIRMWARE_FILE_SYSTEM2_GUID_VALUE: u128 = 0xd32dc385618935994f1c8a3d8c8ce578;

/// The value of {5473C07A-3DCB-4DCA-BD6F-1E9689E7349A}.
pub const EFI_FIRMWARE_FILE_SYSTEM3_GUID_VALUE: u128 = 0x9a34e789961e6fbd4dca3dcb5473c07a;

/// The value of {1BA0062E-C779-4582-8566-336AE8F78F09}.
pub const EFI_FFS_VOLUME_TOP_FILE_GUID_VALUE: u128 = 0x098ff7e86a3366854582c7791ba0062e;

/// {8C8CE578-8A3D-4F1C-9935-896185C32DD3}
pub fn efi_firmware_file_system2_guid() -> (guid: Guid)
    ensures
        guid.value == EFI_FIRMWARE_FILE_SYSTEM2_GUID_VALUE,
{
    Guid::from_fields(0x8c8ce578, 0x8a3d, 0x4f1c, 0x99, 0x35, &[0x89, 0x61, 0x85, 0xc3, 0x2d, 0xd3])
}

/// {5473C07A-3DCB-4DCA-BD6F-1E9689E7349A}
pub fn efi_firmware_file_system3_guid() -> (guid: Guid)
    ensures
        guid.value == EFI_FIRMWARE_FILE_SYSTEM3_GUID_VALUE,
{
    Guid::from_fields(0x5473c07a, 0x3dcb, 0x4dca, 0xbd, 0x6f, &[0x1e, 0x96, 0x89, 0xe7, 0x34, 0x9a])
}

/// {1BA0062E-C779-4582-8566-336AE8F78F09}
pub fn efi_ffs_volume_top_file_guid() -> (guid: Guid)
    ensures
        guid.value == EFI_FFS_VOLUME_TOP_FILE_GUID_VALUE,
{
    Guid::from_fields(0x1ba0062e, 0xc779, 0x4582, 0x85, 0x66, &[0x33, 0x6a, 0xe8, 0xf7, 0x8f, 0x9])
}

} // verus!
