use mu_pi::base::{Boolean, Guid, Status};
use mu_pi::fw_fs::ffs::guid::{
    efi_ffs_volume_top_file_guid, efi_firmware_file_system2_guid, efi_firmware_file_system3_guid,
    EFI_FFS_VOLUME_TOP_FILE_GUID_VALUE, EFI_FIRMWARE_FILE_SYSTEM2_GUID_VALUE, EFI_FIRMWARE_FILE_SYSTEM3_GUID_VALUE,
};

#[test]
fn guid_fields_are_stored_little_endian() {
    let guid = Guid::from_fields(0x8c8ce578, 0x8a3d, 0x4f1c, 0x99, 0x35, &[0x89, 0x61, 0x85, 0xc3, 0x2d, 0xd3]);
    assert_eq!(
        guid.as_bytes(),
        [0x78, 0xE5, 0x8C, 0x8C, 0x3D, 0x8A, 0x1C, 0x4F, 0x99, 0x35, 0x89, 0x61, 0x85, 0xC3, 0x2D, 0xD3]
    );
    assert_eq!(guid.value, 0xd32dc385618935994f1c8a3d8c8ce578);
}

#[test]
fn guid_bytes_round_trip() {
    let bytes = [0x00, 0x01, 0x7F, 0x80, 0xFF, 0xFE, 0x10, 0x20, 0x30, 0x40, 0x50, 0x60, 0x70, 0x81, 0x92, 0xA3];
    let guid = Guid::from_bytes(&bytes);
    assert_eq!(guid.as_bytes(), bytes);
    assert_eq!(guid.value, u128::from_le_bytes(bytes));
    assert_eq!(Guid::from_bytes(&[0; 16]).value, 0);
    assert_eq!(Guid::from_bytes(&[0xFF; 16]).value, u128::MAX);
    assert_eq!(Guid { value: u128::MAX }.as_bytes(), [0xFF; 16]);
    assert_eq!(Guid { value: 1 }.as_bytes(), [1, 0, 0, 0, 0, 0, 0, 0, 0, 0, 0, 0, 0, 0, 0, 0]);
    assert_eq!(Guid { value: 1 << 127 }.as_bytes(), [0, 0, 0, 0, 0, 0, 0, 0, 0, 0, 0, 0, 0, 0, 0, 0x80]);
}

#[test]
fn guid_is_read_at_an_offset() {
    let mut buffer = vec![0xEE; 5];
    buffer.extend_from_slice(&[1, 2, 3, 4, 5, 6, 7, 8, 9, 10, 11, 12, 13, 14, 15, 16]);
    buffer.push(0xEE);
    let guid = Guid::read(&buffer, 5);
    assert_eq!(guid, Guid::from_fields(0x04030201, 0x0605, 0x0807, 9, 10, &[11, 12, 13, 14, 15, 16]));
}

#[test]
fn guids_are_equal_when_their_bytes_are() {
    let one = Guid::from_fields(1, 2, 3, 4, 5, &[6, 7, 8, 9, 10, 11]);
    let same = Guid::from_bytes(&[1, 0, 0, 0, 2, 0, 3, 0, 4, 5, 6, 7, 8, 9, 10, 11]);
    let other = Guid::from_fields(1, 2, 3, 4, 5, &[6, 7, 8, 9, 10, 12]);
    assert_eq!(one, same);
    assert_ne!(one, other);
}

#[test]
fn file_system_guids_have_their_values() {
    // {8C8CE578-8A3D-4F1C-9935-896185C32DD3}
    assert_eq!(
        efi_firmware_file_system2_guid().as_bytes(),
        [0x78, 0xE5, 0x8C, 0x8C, 0x3D, 0x8A, 0x1C, 0x4F, 0x99, 0x35, 0x89, 0x61, 0x85, 0xC3, 0x2D, 0xD3]
    );
    assert_eq!(efi_firmware_file_system2_guid().value, EFI_FIRMWARE_FILE_SYSTEM2_GUID_VALUE);
    // {5473C07A-3DCB-4DCA-BD6F-1E9689E7349A}
    assert_eq!(
        efi_firmware_file_system3_guid().as_bytes(),
        [0x7A, 0xC0, 0x73, 0x54, 0xCB, 0x3D, 0xCA, 0x4D, 0xBD, 0x6F, 0x1E, 0x96, 0x89, 0xE7, 0x34, 0x9A]
    );
    assert_eq!(efi_firmware_file_system3_guid().value, EFI_FIRMWARE_FILE_SYSTEM3_GUID_VALUE);
    // {1BA0062E-C779-4582-8566-336AE8F78F09}
    assert_eq!(
        efi_ffs_volume_top_file_guid().as_bytes(),
        [0x2E, 0x06, 0xA0, 0x1B, 0x79, 0xC7, 0x82, 0x45, 0x85, 0x66, 0x33, 0x6A, 0xE8, 0xF7, 0x8F, 0x09]
    );
    assert_eq!(efi_ffs_volume_top_file_guid().value, EFI_FFS_VOLUME_TOP_FILE_GUID_VALUE);
}

#[test]
fn status_codes_are_those_of_the_uefi_specification() {
    assert_eq!(Status::Success.code(), 0);
    assert_eq!(Status::LoadError.code(), 1);
    assert_eq!(Status::InvalidParameter.code(), 2);
    assert_eq!(Status::BufferTooSmall.code(), 5);
    assert_eq!(Status::NotReady.code(), 6);
    assert_eq!(Status::WriteProtected.code(), 8);
    assert_eq!(Status::VolumeCorrupted.code(), 10);
    assert_eq!(Status::NotFound.code(), 14);
    assert_eq!(Status::AlreadyStarted.code(), 20);
    assert_eq!(Status::EndOfMedia.code(), 28);
    assert_eq!(Status::EndOfFile.code(), 31);
    assert_eq!(Status::HttpError.code(), 35);
}

#[test]
fn status_is_found_by_its_code() {
    let mut known = 0;
    for code in 0..64usize {
        match Status::from_code(code) {
            Some(status) => {
                assert_eq!(status.code() as usize, code);
                known += 1;
            }
            None => assert!(code == 29 || code == 30 || code > 35),
        }
    }
    assert_eq!(known, 34);
    assert_eq!(Status::from_code(10), Some(Status::VolumeCorrupted));
    assert_eq!(Status::from_code(2), Some(Status::InvalidParameter));
    assert_eq!(Status::from_code(usize::MAX), None);
}

#[test]
fn every_status_but_success_is_an_error() {
    assert!(!Status::Success.is_error());
    assert!(Status::InvalidParameter.is_error());
    assert!(Status::VolumeCorrupted.is_error());
    assert!(Status::HttpError.is_error());
}

#[test]
fn boolean_is_one_byte() {
    assert_eq!(Boolean::from_bool(true).value, 1);
    assert_eq!(Boolean::from_bool(false).value, 0);
    assert!(Boolean::from_bool(true).as_bool());
    assert!(!Boolean::from_bool(false).as_bool());
    assert!(Boolean { value: 0x80 }.as_bool());
    assert!(!Boolean { value: 0 }.as_bool());
}
