//! Firmware files of a firmware volume.

use crate::base::{Guid, Status};
use crate::bytes::{byte_sum, le_u128, le_u24, le_u64, read_u24, read_u64, sum_bytes};
use crate::fw_fs::ffs::attributes::raw as FfsRawAttribute;
use crate::fw_fs::ffs::file::raw::file_type as FfsFileRawType;
use crate::fw_fs::ffs::file::raw::state as FfsFileRawState;
use crate::fw_fs::ffs::file::Type as FfsFileType;
use crate::fw_fs::ffs::file::{EXTENDED_SIZE_LENGTH, HEADER_SIZE};
use crate::fw_fs::fv::file::raw::attribute as FvFileRawAttribute;
use crate::fw_fs::fv::file::EfiFvFileAttributes;
use crate::fw_fs::section_iter::{
    sections_from, FileSectionIterator, NullSectionExtractor, SectionExtractor,
    MAX_EXTRACTION_DEPTH,
};
use vstd::prelude::*;
use vstd::slice::slice_subrange;

verus! {

/// What a [`File`] holds, as a mathematical value.
pub struct FileModel {
    /// The bytes of the file, header included.
    pub data: Seq<u8>,
    /// The name of the file.
    pub name: Guid,
    /// The type byte of the file header.
    pub file_type: u8,
    /// The attributes byte of the file header.
    pub attributes: u8,
    /// The number of bytes of the file header.
    pub header_size: int,
    /// The size of the file, header included.
    pub size: int,
}

impl FileModel {
    /// The bytes of the file behind its header.
    pub open spec fn content(self) -> Seq<u8> {
        self.data.subrange(self.header_size, self.size)
    }
}

/// The file header declares a large file, whose size is a 64-bit field
/// behind the standard header.
pub open spec fn is_large_file(buf: Seq<u8>) -> bool {
    buf[19] & FfsRawAttribute::LARGE_FILE != 0
}

/// The number of bytes of the file header.
pub open spec fn file_header_size(buf: Seq<u8>) -> int {
    if is_large_file(buf) {
        HEADER_SIZE + EXTENDED_SIZE_LENGTH
    } else {
        HEADER_SIZE as int
    }
}

/// The size of the file that the header declares.
pub open spec fn declared_file_size(buf: Seq<u8>) -> int {
    if is_large_file(buf) {
        le_u64(buf, HEADER_SIZE as int)
    } else {
        le_u24(buf, 20)
    }
}

/// The state byte says that the data of the file is valid and that the file
/// is neither marked for update nor deleted. The highest bit of the state
/// tells the erase polarity of the volume, under which the other bits are
/// read.
pub open spec fn state_is_data_valid(state: u8) -> bool {
    if state & 0x80 == 0 {
        state & 0xFC == FfsFileRawState::DATA_VALID
    } else {
        (!state) & 0xFC == FfsFileRawState::DATA_VALID
    }
}

/// The bytes of the header add up to zero modulo 256 when the file checksum
/// and the state are counted as zero.
pub open spec fn header_checksum_holds(buf: Seq<u8>) -> bool {
    (byte_sum(buf, 0, file_header_size(buf)) - buf[17] - buf[23]) % 256 == 0
}

/// The file checksum holds: with the checksum attribute the bytes behind the
/// header add up to zero modulo 256, without it the checksum field is `0xAA`.
pub open spec fn data_checksum_holds(buf: Seq<u8>) -> bool {
    if buf[19] & FfsRawAttribute::CHECKSUM != 0 {
        byte_sum(buf, file_header_size(buf), declared_file_size(buf) - file_header_size(buf))
            % 256 == 0
    } else {
        buf[17] == 0xAA
    }
}

/// The firmware file at the start of `buf`.
///
/// A buffer without room for the standard header is an invalid parameter. A
/// file is corrupted where the extended size field does not fit in the
/// buffer, where the declared size is smaller than the header or larger than
/// the buffer, where the state is not that of valid data, or where one of the
/// two checksums fails.
pub open spec fn parse_file(buf: Seq<u8>) -> Result<FileModel, Status> {
    if buf.len() < HEADER_SIZE {
        Err(Status::InvalidParameter)
    } else if buf.len() < file_header_size(buf) {
        Err(Status::VolumeCorrupted)
    } else if declared_file_size(buf) > buf.len() || declared_file_size(buf) < file_header_size(
        buf,
    ) {
        Err(Status::VolumeCorrupted)
    } else if !state_is_data_valid(buf[23]) {
        Err(Status::VolumeCorrupted)
    } else if !header_checksum_holds(buf) {
        Err(Status::VolumeCorrupted)
    } else if !data_checksum_holds(buf) {
        Err(Status::VolumeCorrupted)
    } else {
        Ok(
            FileModel {
                data: buf.subrange(0, declared_file_size(buf)),
                name: Guid { value: le_u128(buf, 0) as u128 },
                file_type: buf[18],
                attributes: buf[19],
                header_size: file_header_size(buf),
                size: declared_file_size(buf),
            },
        )
    }
}

/// A file without the checksum attribute whose file checksum field is not
/// `0xAA` is corrupted, whatever else it holds.
pub proof fn lemma_missing_checksum_marker(buf: Seq<u8>)
    requires
        buf.len() >= HEADER_SIZE,
        buf[19] & FfsRawAttribute::CHECKSUM == 0,
        buf[17] != 0xAA,
    ensures
        parse_file(buf) == Err::<FileModel, Status>(Status::VolumeCorrupted),
{
}

/// A file that parses holds its header, lies in the buffer, and has a state
/// of valid data and two checksums that hold.
pub proof fn lemma_parsed_file(buf: Seq<u8>)
    requires
        parse_file(buf) is Ok,
    ensures
        HEADER_SIZE <= file_header_size(buf) <= declared_file_size(buf) <= buf.len(),
        parse_file(buf)->Ok_0.size == declared_file_size(buf),
        parse_file(buf)->Ok_0.header_size == file_header_size(buf),
        state_is_data_valid(buf[23]),
        header_checksum_holds(buf),
        data_checksum_holds(buf),
{
}

/// The file type that a raw type byte stands for, if it is a known one.
pub open spec fn file_type_of(raw: u8) -> Option<FfsFileType> {
    if raw == FfsFileRawType::RAW {
        Some(FfsFileType::Raw)
    } else if raw == FfsFileRawType::FREEFORM {
        Some(FfsFileType::FreeForm)
    } else if raw == FfsFileRawType::SECURITY_CORE {
        Some(FfsFileType::SecurityCore)
    } else if raw == FfsFileRawType::PEI_CORE {
        Some(FfsFileType::PeiCore)
    } else if raw == FfsFileRawType::DXE_CORE {
        Some(FfsFileType::DxeCore)
    } else if raw == FfsFileRawType::PEIM {
        Some(FfsFileType::Peim)
    } else if raw == FfsFileRawType::DRIVER {
        Some(FfsFileType::Driver)
    } else if raw == FfsFileRawType::COMBINED_PEIM_DRIVER {
        Some(FfsFileType::CombinedPeimDriver)
    } else if raw == FfsFileRawType::APPLICATION {
        Some(FfsFileType::Application)
    } else if raw == FfsFileRawType::MM {
        Some(FfsFileType::Mm)
    } else if raw == FfsFileRawType::FIRMWARE_VOLUME_IMAGE {
        Some(FfsFileType::FirmwareVolumeImage)
    } else if raw == FfsFileRawType::COMBINED_MM_DXE {
        Some(FfsFileType::CombinedMmDxe)
    } else if raw == FfsFileRawType::MM_CORE {
        Some(FfsFileType::MmCore)
    } else if raw == FfsFileRawType::MM_STANDALONE {
        Some(FfsFileType::MmStandalone)
    } else if raw == FfsFileRawType::MM_CORE_STANDALONE {
        Some(FfsFileType::MmCoreStandalone)
    } else if FfsFileRawType::OEM_MIN <= raw <= FfsFileRawType::OEM_MAX {
        Some(FfsFileType::OemMin)
    } else if FfsFileRawType::DEBUG_MIN <= raw <= FfsFileRawType::DEBUG_MAX {
        Some(FfsFileType::DebugMin)
    } else if raw == FfsFileRawType::FFS_PAD {
        Some(FfsFileType::FfsPad)
    } else if FfsFileRawType::FFS_MIN <= raw {
        Some(FfsFileType::FfsUnknown)
    } else {
        None
    }
}

/// The alignment exponent that a data alignment code stands for, per
/// Table 3.3 in PI spec 1.8 Part III. With `extended` the second alignment
/// bit of the attributes is set.
pub open spec fn alignment_exponent(code: u8, extended: bool) -> u32 {
    if extended {
        (17 + code) as u32
    } else if code == 0 {
        0
    } else if code == 1 {
        4
    } else if code == 2 {
        7
    } else if code == 3 {
        9
    } else if code == 4 {
        10
    } else if code == 5 {
        12
    } else if code == 6 {
        15
    } else {
        16
    }
}

/// The firmware volume file attributes that the attributes byte of a file
/// header stands for.
pub open spec fn fv_file_attributes(attributes: u8) -> EfiFvFileAttributes {
    let exponent = alignment_exponent(
        (attributes & FfsRawAttribute::DATA_ALIGNMENT) >> 3,
        attributes & FfsRawAttribute::DATA_ALIGNMENT_2 == FfsRawAttribute::DATA_ALIGNMENT_2,
    );
    if attributes & FfsRawAttribute::FIXED != 0 {
        exponent | FvFileRawAttribute::FIXED
    } else {
        exponent
    }
}

/// The difference of two bytes modulo 256, as `num_traits` computes it:
/// `WrappingSub::wrapping_sub` on `u8` is the wrapping subtraction of the
/// standard library.
#[verifier::external_body]
fn wrapping_sub_u8(a: u8, b: u8) -> (r: u8)
    ensures
        r == (a - b) % 256,
{
    num_traits::WrappingSub::wrapping_sub(&a, &b)
}

/// Tells whether the state byte is that of a file with valid data.
///
/// Interpreting the state field requires knowledge of the erase polarity of
/// the volume. It is inferred from the highest bit of the state, which the
/// PI specification requires to be set to the erase polarity.
fn state_shows_valid_data(state: u8) -> (r: bool)
    ensures
        r == state_is_data_valid(state),
{
    if (state & 0x80) == 0 {
        // erase polarity = 0. Verify DATA_VALID is set, and no higher-order bits are set.
        state & 0xFC == FfsFileRawState::DATA_VALID
    } else {
        // erase polarity = 1. Verify DATA_VALID is clear, and no higher-order bits are clear.
        (!state) & 0xFC == FfsFileRawState::DATA_VALID
    }
}

/// Tells whether the header checksum of the file at the start of `buffer`
/// holds.
fn header_checksum_ok(buffer: &[u8], header_size: usize) -> (r: bool)
    requires
        HEADER_SIZE <= header_size <= buffer.len(),
        header_size == file_header_size(buffer@),
    ensures
        r == header_checksum_holds(buffer@),
{
    let header_sum = sum_bytes(buffer, 0, header_size);
    // integrity_check_file and state are assumed to be zero for checksum, so subtract them here.
    let without_file_checksum = wrapping_sub_u8(header_sum, buffer[17]);
    let without_state = wrapping_sub_u8(without_file_checksum, buffer[23]);
    without_state == 0
}

/// Tells whether the file checksum of the file at the start of `buffer`
/// holds. The file ends at `end`.
fn data_checksum_ok(buffer: &[u8], header_size: usize, end: usize) -> (r: bool)
    requires
        HEADER_SIZE <= header_size <= end <= buffer.len(),
        header_size == file_header_size(buffer@),
        end == declared_file_size(buffer@),
    ensures
        r == data_checksum_holds(buffer@),
{
    if buffer[19] & FfsRawAttribute::CHECKSUM != 0 {
        sum_bytes(buffer, header_size, end - header_size) == 0
    } else {
        // The PI Specification sets the checksum to 0xAA when the CHECKSUM attribute is cleared.
        buffer[17] == 0xAA
    }
}

/// File access support
///
/// Provides access to file contents.
#[derive(Debug)]
pub struct File<'a> {
    data: &'a [u8],
    name: Guid,
    file_type: u8,
    attributes: u8,
    header_size: usize,
    size: u64,
}

impl<'a> View for File<'a> {
    type V = FileModel;

    closed spec fn view(&self) -> FileModel {
        FileModel {
            data: self.data@,
            name: self.name,
            file_type: self.file_type,
            attributes: self.attributes,
            header_size: self.header_size as int,
            size: self.size as int,
        }
    }
}

/// The model of what a parse returned.
pub open spec fn file_result_view(r: Result<File<'_>, Status>) -> Result<FileModel, Status> {
    match r {
        Ok(file) => Ok(file@),
        Err(e) => Err(e),
    }
}

impl<'a> Clone for File<'a> {
    fn clone(&self) -> (r: Self)
        ensures
            r == *self,
    {
        proof {
            use_type_invariant(self);
        }
        File {
            data: self.data,
            name: self.name,
            file_type: self.file_type,
            attributes: self.attributes,
            header_size: self.header_size,
            size: self.size,
        }
    }
}

impl<'a> File<'a> {
    /// The header lies in the file, and the file is as long as its size says.
    #[verifier::type_invariant]
    spec fn well_formed(self) -> bool {
        self.header_size <= self.size && self.size == self.data@.len()
    }

    /// Instantiates a new File by parsing the given buffer.
    ///
    /// The normal way to obtain a File instance would be through the file
    /// iterator of a firmware volume, but a constructor is provided here to
    /// enable independent instantiation of a file.
    pub fn new(buffer: &'a [u8]) -> (r: Result<File<'a>, Status>)
        ensures
            file_result_view(r) == parse_file(buffer@),
    {
        let len = buffer.len();
        // verify that buffer has enough storage for a file header.
        if len < HEADER_SIZE {
            return Err(Status::InvalidParameter);
        }
        let attributes = buffer[19];

        // determine size and data offset
        let (header_size, size): (usize, u64) = if (attributes & FfsRawAttribute::LARGE_FILE)
            == 0 {
            // standard header with 24-bit size
            (HEADER_SIZE, read_u24(buffer, 20) as u64)
        } else {
            // extended header with 64-bit size
            if len - HEADER_SIZE < EXTENDED_SIZE_LENGTH {
                return Err(Status::VolumeCorrupted);
            }
            (HEADER_SIZE + EXTENDED_SIZE_LENGTH, read_u64(buffer, HEADER_SIZE))
        };
        assert(header_size == file_header_size(buffer@));
        assert(size == declared_file_size(buffer@));

        // Verify that the total size of the file fits within the buffer and holds the header.
        if size > len as u64 || size < header_size as u64 {
            return Err(Status::VolumeCorrupted);
        }
        let end = size as usize;

        // This implementation does not support FV modification, so the only valid state is EFI_FILE_DATA_VALID.
        if !state_shows_valid_data(buffer[23]) {
            return Err(Status::VolumeCorrupted);
        }
        // Verify the header checksum.
        if !header_checksum_ok(buffer, header_size) {
            return Err(Status::VolumeCorrupted);
        }
        // Verify the file data checksum.
        if !data_checksum_ok(buffer, header_size, end) {
            return Err(Status::VolumeCorrupted);
        }
        Ok(
            File {
                data: slice_subrange(buffer, 0, end),
                name: Guid::read(buffer, 0),
                file_type: buffer[18],
                attributes,
                header_size,
                size,
            },
        )
    }

    /// Returns the file type.
    pub fn file_type(&self) -> (r: Option<FfsFileType>)
        ensures
            r == file_type_of(self@.file_type),
    {
        let raw = self.file_type;
        if raw == FfsFileRawType::RAW {
            Some(FfsFileType::Raw)
        } else if raw == FfsFileRawType::FREEFORM {
            Some(FfsFileType::FreeForm)
        } else if raw == FfsFileRawType::SECURITY_CORE {
            Some(FfsFileType::SecurityCore)
        } else if raw == FfsFileRawType::PEI_CORE {
            Some(FfsFileType::PeiCore)
        } else if raw == FfsFileRawType::DXE_CORE {
            Some(FfsFileType::DxeCore)
        } else if raw == FfsFileRawType::PEIM {
            Some(FfsFileType::Peim)
        } else if raw == FfsFileRawType::DRIVER {
            Some(FfsFileType::Driver)
        } else if raw == FfsFileRawType::COMBINED_PEIM_DRIVER {
            Some(FfsFileType::CombinedPeimDriver)
        } else if raw == FfsFileRawType::APPLICATION {
            Some(FfsFileType::Application)
        } else if raw == FfsFileRawType::MM {
            Some(FfsFileType::Mm)
        } else if raw == FfsFileRawType::FIRMWARE_VOLUME_IMAGE {
            Some(FfsFileType::FirmwareVolumeImage)
        } else if raw == FfsFileRawType::COMBINED_MM_DXE {
            Some(FfsFileType::CombinedMmDxe)
        } else if raw == FfsFileRawType::MM_CORE {
            Some(FfsFileType::MmCore)
        } else if raw == FfsFileRawType::MM_STANDALONE {
            Some(FfsFileType::MmStandalone)
        } else if raw == FfsFileRawType::MM_CORE_STANDALONE {
            Some(FfsFileType::MmCoreStandalone)
        } else if FfsFileRawType::OEM_MIN <= raw && raw <= FfsFileRawType::OEM_MAX {
            Some(FfsFileType::OemMin)
        } else if FfsFileRawType::DEBUG_MIN <= raw && raw <= FfsFileRawType::DEBUG_MAX {
            Some(FfsFileType::DebugMin)
        } else if raw == FfsFileRawType::FFS_PAD {
            Some(FfsFileType::FfsPad)
        } else if FfsFileRawType::FFS_MIN <= raw {
            Some(FfsFileType::FfsUnknown)
        } else {
            None
        }
    }

    /// Returns the file type as a raw u8.
    pub fn file_type_raw(&self) -> (r: u8)
        ensures
            r == self@.file_type,
    {
        self.file_type
    }

    /// Returns the FV attributes for the file.
    pub fn fv_attributes(&self) -> (r: EfiFvFileAttributes)
        ensures
            r == fv_file_attributes(self@.attributes),
    {
        let attributes = self.attributes;
        let data_alignment: u8 = (attributes & FfsRawAttribute::DATA_ALIGNMENT) >> 3;
        assert((attributes & 0x38) >> 3 <= 7) by (bit_vector);
        let extended = (attributes & FfsRawAttribute::DATA_ALIGNMENT_2)
            == FfsRawAttribute::DATA_ALIGNMENT_2;
        // decode alignment per Table 3.3 in PI spec 1.8 Part III.
        let file_attributes: u32 = if extended {
            17 + data_alignment as u32
        } else if data_alignment == 0 {
            0
        } else if data_alignment == 1 {
            4
        } else if data_alignment == 2 {
            7
        } else if data_alignment == 3 {
            9
        } else if data_alignment == 4 {
            10
        } else if data_alignment == 5 {
            12
        } else if data_alignment == 6 {
            15
        } else {
            16
        };
        if attributes & FfsRawAttribute::FIXED != 0 {
            file_attributes | FvFileRawAttribute::FIXED
        } else {
            file_attributes
        }
    }

    /// Returns the file attributes as a raw u8
    pub fn attributes_raw(&self) -> (r: u8)
        ensures
            r == self@.attributes,
    {
        self.attributes
    }

    /// Returns the file name GUID.
    pub fn name(&self) -> (r: Guid)
        ensures
            r == self@.name,
    {
        self.name
    }

    /// Returns the size in bytes of the whole file, including the header.
    pub fn size(&self) -> (r: u64)
        ensures
            r == self@.size,
    {
        self.size
    }

    /// Returns the raw data from the file (without extracting any sections), not including the header.
    pub fn content(&self) -> (r: &[u8])
        ensures
            0 <= self@.header_size <= self@.size == self@.data.len(),
            r@ == self@.content(),
    {
        proof {
            use_type_invariant(self);
        }
        slice_subrange(self.data, self.header_size, self.data.len())
    }

    /// Returns the raw data for the file, including the header.
    pub fn data(&self) -> (r: &[u8])
        ensures
            r@ == self@.data,
    {
        self.data
    }

    /// Returns an iterator over the sections of this file (without extracting encapsulation sections).
    pub fn section_iter(&self) -> (it: FileSectionIterator<'_, NullSectionExtractor>)
        ensures
            it@ == sections_from(
                &(NullSectionExtractor {  }),
                self@.content(),
                0,
                MAX_EXTRACTION_DEPTH as nat,
            ),
    {
        FileSectionIterator::new(self.content(), &NullSectionExtractor {  })
    }

    /// Returns an iterator over the sections of this file, extracting encapsulation sections with the given extractor.
    pub fn section_iter_with_extractor<'b, E: SectionExtractor>(&'b self, extractor: &'b E) -> (it:
        FileSectionIterator<'b, E>)
        ensures
            it@ == sections_from(extractor, self@.content(), 0, MAX_EXTRACTION_DEPTH as nat),
    {
        FileSectionIterator::new(self.content(), extractor)
    }
}

} // verus!
