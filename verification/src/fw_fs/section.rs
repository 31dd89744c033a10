//! Sections of a firmware file.

use crate::base::{Guid, Status};
use crate::bytes::{le_u128, le_u16, le_u24, le_u32, read_u16, read_u24, read_u32};
use crate::fw_fs::ffs::section::header;
use crate::fw_fs::ffs::section::raw_type;
use crate::fw_fs::ffs::section::Type as FfsSectionType;
use vstd::prelude::*;
use vstd::slice::{slice_subrange, slice_to_vec};

verus! {

/// Section Metadata
///
/// Describes the meta data in the section header (if any - most section types do not have metadata).
#[derive(Debug, Clone)]
pub enum SectionMetaData {
    /// The section type has no header of its own.
    Absent,
    Compression(header::Compression),
    GuidDefined(header::GuidDefined, Vec<u8>),
    Version(header::Version),
    FreeformSubtypeGuid(header::FreeformSubtypeGuid),
}

/// What a [`SectionMetaData`] holds, as a mathematical value.
pub enum MetaDataModel {
    Absent,
    Compression(header::Compression),
    GuidDefined(header::GuidDefined, Seq<u8>),
    Version(header::Version),
    FreeformSubtypeGuid(header::FreeformSubtypeGuid),
}

impl View for SectionMetaData {
    type V = MetaDataModel;

    open spec fn view(&self) -> MetaDataModel {
        match self {
            SectionMetaData::Absent => MetaDataModel::Absent,
            SectionMetaData::Compression(h) => MetaDataModel::Compression(*h),
            SectionMetaData::GuidDefined(h, vendor) => MetaDataModel::GuidDefined(*h, vendor@),
            SectionMetaData::Version(h) => MetaDataModel::Version(*h),
            SectionMetaData::FreeformSubtypeGuid(h) => MetaDataModel::FreeformSubtypeGuid(*h),
        }
    }
}

/// What a [`Section`] holds, as a mathematical value.
pub struct SectionModel {
    /// The type byte of the section header.
    pub section_type: u8,
    /// The header fields that are specific to the section type.
    pub meta_data: MetaDataModel,
    /// The content of the section.
    pub data: Seq<u8>,
    /// The size of the section with its headers, as its header declares it.
    pub section_size: int,
}

impl SectionModel {
    /// The section holds further sections that an extractor can expand.
    pub open spec fn is_encapsulation(self) -> bool {
        self.section_type == raw_type::encapsulated::COMPRESSION || self.section_type
            == raw_type::encapsulated::GUID_DEFINED
    }
}

/// The size field of the common header is the marker of an extended header:
/// its three bytes are all `0xFF`.
pub open spec fn has_extended_size(buf: Seq<u8>) -> bool {
    buf[0] == 0xFF && buf[1] == 0xFF && buf[2] == 0xFF
}

/// The number of bytes of the common header, with the extended size field
/// where there is one.
pub open spec fn common_header_size(buf: Seq<u8>) -> int {
    if has_extended_size(buf) {
        header::EXTENDED_HEADER_SIZE as int
    } else {
        header::STANDARD_HEADER_SIZE as int
    }
}

/// The size of the section that the header declares.
pub open spec fn declared_section_size(buf: Seq<u8>) -> int {
    if has_extended_size(buf) {
        le_u32(buf, 4)
    } else {
        le_u24(buf, 0)
    }
}

/// The number of bytes of the header that is specific to a section type.
pub open spec fn type_header_size(section_type: u8) -> int {
    if section_type == raw_type::encapsulated::COMPRESSION {
        header::COMPRESSION_SIZE as int
    } else if section_type == raw_type::encapsulated::GUID_DEFINED {
        header::GUID_DEFINED_SIZE as int
    } else if section_type == raw_type::VERSION {
        header::VERSION_SIZE as int
    } else if section_type == raw_type::FREEFORM_SUBTYPE_GUID {
        header::FREEFORM_SUBTYPE_GUID_SIZE as int
    } else {
        0
    }
}

/// The section type has no header of its own and its data is the whole
/// buffer: the vendor and reserved ranges of section types.
pub open spec fn is_opaque_type(section_type: u8) -> bool {
    section_type >= raw_type::OEM_MIN
}

/// The metadata of the section at the start of `buf`, whose common header
/// takes `off` bytes. The headers fit in the section.
pub open spec fn section_meta_data(buf: Seq<u8>, off: int) -> MetaDataModel {
    let section_type = buf[3];
    if section_type == raw_type::encapsulated::COMPRESSION {
        MetaDataModel::Compression(
            header::Compression {
                uncompressed_length: le_u32(buf, off) as u32,
                compression_type: buf[off + 4],
            },
        )
    } else if section_type == raw_type::encapsulated::GUID_DEFINED {
        MetaDataModel::GuidDefined(
            header::GuidDefined {
                section_definition_guid: Guid { value: le_u128(buf, off) as u128 },
                data_offset: le_u16(buf, off + 16) as u16,
                attributes: le_u16(buf, off + 18) as u16,
            },
            buf.subrange(off + header::GUID_DEFINED_SIZE as int, le_u16(buf, off + 16)),
        )
    } else if section_type == raw_type::VERSION {
        MetaDataModel::Version(header::Version { build_number: le_u16(buf, off) as u16 })
    } else if section_type == raw_type::FREEFORM_SUBTYPE_GUID {
        MetaDataModel::FreeformSubtypeGuid(
            header::FreeformSubtypeGuid { sub_type_guid: Guid { value: le_u128(buf, off) as u128 } },
        )
    } else {
        MetaDataModel::Absent
    }
}

/// The offset in `buf` at which the data of the section starts. The headers
/// fit in the section.
pub open spec fn section_data_start(buf: Seq<u8>, off: int) -> int {
    let section_type = buf[3];
    if section_type == raw_type::encapsulated::GUID_DEFINED {
        le_u16(buf, off + 16)
    } else {
        off + type_header_size(section_type)
    }
}

/// The section at the start of `buf`.
///
/// A buffer without room for the common header is an invalid parameter. A
/// section is corrupted where a header does not fit in the buffer, where the
/// declared size is smaller than the headers or larger than the buffer, or
/// where the data offset of a GUID-defined section lies in the headers or
/// behind the section.
pub open spec fn parse_section(buf: Seq<u8>) -> Result<SectionModel, Status> {
    if buf.len() < header::STANDARD_HEADER_SIZE {
        Err(Status::InvalidParameter)
    } else if has_extended_size(buf) && buf.len() < header::EXTENDED_HEADER_SIZE {
        Err(Status::VolumeCorrupted)
    } else {
        let off = common_header_size(buf);
        let size = declared_section_size(buf);
        let section_type = buf[3];
        let headers = off + type_header_size(section_type);
        if buf.len() < headers || size < headers || size > buf.len() {
            Err(Status::VolumeCorrupted)
        } else if section_type == raw_type::encapsulated::GUID_DEFINED && !(headers <= le_u16(
            buf,
            off + 16,
        ) <= size) {
            Err(Status::VolumeCorrupted)
        } else {
            Ok(
                SectionModel {
                    section_type,
                    meta_data: section_meta_data(buf, off),
                    data: if is_opaque_type(section_type) {
                        buf
                    } else {
                        buf.subrange(section_data_start(buf, off), size)
                    },
                    section_size: size,
                },
            )
        }
    }
}

/// A section whose size field is all `0xFF` is read by its extended size
/// field, whatever its type: the size of the section is the 32-bit field
/// behind the common header, and the headers of the section start behind
/// that field. Without room for the field the section is corrupted.
pub proof fn lemma_extended_size_decides(buf: Seq<u8>)
    requires
        buf.len() >= header::STANDARD_HEADER_SIZE,
        buf[0] == 0xFF,
        buf[1] == 0xFF,
        buf[2] == 0xFF,
    ensures
        buf.len() < header::EXTENDED_HEADER_SIZE ==> parse_section(buf) == Err::<
            SectionModel,
            Status,
        >(Status::VolumeCorrupted),
        parse_section(buf) is Ok ==> {
            &&& parse_section(buf)->Ok_0.section_size == le_u32(buf, 4)
            &&& parse_section(buf)->Ok_0.meta_data == section_meta_data(
                buf,
                header::EXTENDED_HEADER_SIZE as int,
            )
            &&& !is_opaque_type(buf[3]) ==> parse_section(buf)->Ok_0.data == buf.subrange(
                section_data_start(buf, header::EXTENDED_HEADER_SIZE as int),
                le_u32(buf, 4),
            )
        },
{
}

/// A section that parses holds its headers and lies in the buffer.
pub proof fn lemma_parsed_section(buf: Seq<u8>)
    requires
        parse_section(buf) is Ok,
    ensures
        header::STANDARD_HEADER_SIZE <= common_header_size(buf) + type_header_size(buf[3])
            <= declared_section_size(buf) <= buf.len(),
        parse_section(buf)->Ok_0.section_size == declared_section_size(buf),
        parse_section(buf)->Ok_0.section_type == buf[3],
{
}

/// The model of what a parse returned.
pub open spec fn section_result_view(r: Result<Section, Status>) -> Result<SectionModel, Status> {
    match r {
        Ok(section) => Ok(section@),
        Err(e) => Err(e),
    }
}

/// Section access support
///
/// Provides access to section contents.
#[derive(Debug, Clone)]
pub struct Section {
    section_type: u8,
    meta_data: SectionMetaData,
    data: Vec<u8>,
    section_size: usize,
}

impl View for Section {
    type V = SectionModel;

    closed spec fn view(&self) -> SectionModel {
        SectionModel {
            section_type: self.section_type,
            meta_data: self.meta_data@,
            data: self.data@,
            section_size: self.section_size as int,
        }
    }
}

/// The section type that a raw type byte stands for, if it is a known one.
pub open spec fn section_type_of(raw: u8) -> Option<FfsSectionType> {
    if raw == raw_type::encapsulated::COMPRESSION {
        Some(FfsSectionType::Compression)
    } else if raw == raw_type::encapsulated::GUID_DEFINED {
        Some(FfsSectionType::GuidDefined)
    } else if raw == raw_type::encapsulated::DISPOSABLE {
        Some(FfsSectionType::Disposable)
    } else if raw == raw_type::PE32 {
        Some(FfsSectionType::Pe32)
    } else if raw == raw_type::PIC {
        Some(FfsSectionType::Pic)
    } else if raw == raw_type::TE {
        Some(FfsSectionType::Te)
    } else if raw == raw_type::DXE_DEPEX {
        Some(FfsSectionType::DxeDepex)
    } else if raw == raw_type::VERSION {
        Some(FfsSectionType::Version)
    } else if raw == raw_type::USER_INTERFACE {
        Some(FfsSectionType::UserInterface)
    } else if raw == raw_type::COMPATIBILITY16 {
        Some(FfsSectionType::Compatibility16)
    } else if raw == raw_type::FIRMWARE_VOLUME_IMAGE {
        Some(FfsSectionType::FirmwareVolumeImage)
    } else if raw == raw_type::FREEFORM_SUBTYPE_GUID {
        Some(FfsSectionType::FreeformSubtypeGuid)
    } else if raw == raw_type::RAW {
        Some(FfsSectionType::Raw)
    } else if raw == raw_type::PEI_DEPEX {
        Some(FfsSectionType::PeiDepex)
    } else if raw == raw_type::MM_DEPEX {
        Some(FfsSectionType::MmDepex)
    } else {
        None
    }
}

impl Section {
    /// Instantiates a new Section by parsing the given buffer.
    ///
    /// The normal way to obtain a Section instance would be through the
    /// section iterator of a file, but a constructor is provided here to
    /// enable independent instantiation of a section.
    pub fn new(buffer: &[u8]) -> (r: Result<Section, Status>)
        ensures
            section_result_view(r) == parse_section(buffer@),
    {
        let len = buffer.len();
        // verify that buffer has enough storage for a section header.
        if len < header::STANDARD_HEADER_SIZE {
            return Err(Status::InvalidParameter);
        }
        let section_type = buffer[3];

        // determine section_size and start of section content based on whether extended size field is present.
        let extended = buffer[0] == 0xFF && buffer[1] == 0xFF && buffer[2] == 0xFF;
        let (section_size, content_offset): (usize, usize) = if extended {
            // extended header - confirm there is space for extended size
            if len < header::EXTENDED_HEADER_SIZE {
                return Err(Status::VolumeCorrupted);
            }
            (read_u32(buffer, 4) as usize, header::EXTENDED_HEADER_SIZE)
        } else {
            // standard header
            (read_u24(buffer, 0) as usize, header::STANDARD_HEADER_SIZE)
        };

        let type_header: usize = if section_type == raw_type::encapsulated::COMPRESSION {
            header::COMPRESSION_SIZE
        } else if section_type == raw_type::encapsulated::GUID_DEFINED {
            header::GUID_DEFINED_SIZE
        } else if section_type == raw_type::VERSION {
            header::VERSION_SIZE
        } else if section_type == raw_type::FREEFORM_SUBTYPE_GUID {
            header::FREEFORM_SUBTYPE_GUID_SIZE
        } else {
            0
        };
        let headers: usize = content_offset + type_header;

        // verify that the headers of the section lie in the buffer and in the section, and
        // that the section lies in the buffer.
        if len < headers || section_size < headers || section_size > len {
            return Err(Status::VolumeCorrupted);
        }
        let (meta_data, data): (SectionMetaData, Vec<u8>) = if section_type
            == raw_type::encapsulated::COMPRESSION {
            let compression_header = header::Compression {
                uncompressed_length: read_u32(buffer, content_offset),
                compression_type: buffer[content_offset + 4],
            };
            let data = slice_to_vec(slice_subrange(buffer, headers, section_size));
            (SectionMetaData::Compression(compression_header), data)
        } else if section_type == raw_type::encapsulated::GUID_DEFINED {
            let guid_defined = header::GuidDefined {
                section_definition_guid: Guid::read(buffer, content_offset),
                data_offset: read_u16(buffer, content_offset + 16),
                attributes: read_u16(buffer, content_offset + 18),
            };
            // verify that the data starts behind the headers and in the section.
            let data_offset = guid_defined.data_offset as usize;
            if data_offset < headers || data_offset > section_size {
                return Err(Status::VolumeCorrupted);
            }
            let guid_specific_header_fields = slice_to_vec(
                slice_subrange(buffer, headers, data_offset),
            );
            let data = slice_to_vec(slice_subrange(buffer, data_offset, section_size));
            (SectionMetaData::GuidDefined(guid_defined, guid_specific_header_fields), data)
        } else if section_type == raw_type::VERSION {
            let version_header = header::Version { build_number: read_u16(buffer, content_offset) };
            let data = slice_to_vec(slice_subrange(buffer, headers, section_size));
            (SectionMetaData::Version(version_header), data)
        } else if section_type == raw_type::FREEFORM_SUBTYPE_GUID {
            let freeform_header = header::FreeformSubtypeGuid {
                sub_type_guid: Guid::read(buffer, content_offset),
            };
            let data = slice_to_vec(slice_subrange(buffer, headers, section_size));
            (SectionMetaData::FreeformSubtypeGuid(freeform_header), data)
        } else if section_type >= raw_type::OEM_MIN {
            // these section types do not have a defined header. So set metadata to none, and set
            // data to the entire section buffer.
            (SectionMetaData::Absent, slice_to_vec(buffer))
        } else {
            (SectionMetaData::Absent, slice_to_vec(slice_subrange(buffer, headers, section_size)))
        };

        Ok(Section { section_type, meta_data, data, section_size })
    }

    /// Returns the section type.
    pub fn section_type(&self) -> (r: Option<FfsSectionType>)
        ensures
            r == section_type_of(self@.section_type),
    {
        let raw = self.section_type;
        if raw == raw_type::encapsulated::COMPRESSION {
            Some(FfsSectionType::Compression)
        } else if raw == raw_type::encapsulated::GUID_DEFINED {
            Some(FfsSectionType::GuidDefined)
        } else if raw == raw_type::encapsulated::DISPOSABLE {
            Some(FfsSectionType::Disposable)
        } else if raw == raw_type::PE32 {
            Some(FfsSectionType::Pe32)
        } else if raw == raw_type::PIC {
            Some(FfsSectionType::Pic)
        } else if raw == raw_type::TE {
            Some(FfsSectionType::Te)
        } else if raw == raw_type::DXE_DEPEX {
            Some(FfsSectionType::DxeDepex)
        } else if raw == raw_type::VERSION {
            Some(FfsSectionType::Version)
        } else if raw == raw_type::USER_INTERFACE {
            Some(FfsSectionType::UserInterface)
        } else if raw == raw_type::COMPATIBILITY16 {
            Some(FfsSectionType::Compatibility16)
        } else if raw == raw_type::FIRMWARE_VOLUME_IMAGE {
            Some(FfsSectionType::FirmwareVolumeImage)
        } else if raw == raw_type::FREEFORM_SUBTYPE_GUID {
            Some(FfsSectionType::FreeformSubtypeGuid)
        } else if raw == raw_type::RAW {
            Some(FfsSectionType::Raw)
        } else if raw == raw_type::PEI_DEPEX {
            Some(FfsSectionType::PeiDepex)
        } else if raw == raw_type::MM_DEPEX {
            Some(FfsSectionType::MmDepex)
        } else {
            None
        }
    }

    /// Returns the section type as a raw u8.
    pub fn section_type_raw(&self) -> (r: u8)
        ensures
            r == self@.section_type,
    {
        self.section_type
    }

    /// Indicates whether this section is an encapsulation section (i.e. can be expended with a SectionExtractor).
    pub fn is_encapsulation(&self) -> (r: bool)
        ensures
            r == self@.is_encapsulation(),
    {
        self.section_type == raw_type::encapsulated::COMPRESSION || self.section_type
            == raw_type::encapsulated::GUID_DEFINED
    }

    /// Returns the section metadata.
    pub fn meta_data(&self) -> (r: &SectionMetaData)
        ensures
            r@ == self@.meta_data,
    {
        &self.meta_data
    }

    /// Returns the section data.
    pub fn section_data(&self) -> (r: &[u8])
        ensures
            r@ == self@.data,
    {
        self.data.as_slice()
    }

    /// Returns the size of the section with its headers, as its header declares it.
    pub fn section_size(&self) -> (r: usize)
        ensures
            r == self@.section_size,
    {
        self.section_size
    }
}

} // verus!
