//! Firmware Filesystem
//!
//! Services to read a firmware volume, the firmware files in it and the
//! sections of a file. All of them read from one buffer of bytes that the
//! caller supplies, and none of them changes it.
//!
//! See <https://uefi.org/specs/PI/1.8A/V3_Design_Discussion.html#firmware-storage-introduction>.

pub mod ffs;
pub mod file;
pub mod file_iter;
pub mod fv;
pub mod fvb;
pub mod section;
pub mod section_iter;
pub mod volume;

pub use ffs::{
    attributes::{raw as FfsRawAttribute, Attribute as FfsAttribute},
    file::{
        raw::{file_type as FfsFileRawType, state as FfsFileRawState},
        State as FfsFileState, Type as FfsFileType,
    },
    section::{
        header as FfsSectionHeader, raw_type as FfsSectionRawType, raw_type::encapsulated as FfsEncapsulatedSectionRawType,
        EfiSectionType, Type as FfsSectionType,
    },
};
pub use file::{File, FileModel};
pub use file_iter::FvFileIterator;
pub use fv::{
    attributes::{raw::fv2 as Fv2RawAttributes, EfiFvAttributes, Fv2 as Fv2Attributes},
    file::{raw::attribute as FvFileRawAttribute, Attribute as FvFileAttribute, EfiFvFileAttributes},
    EfiFvFileType, WritePolicy,
};
pub use fvb::attributes::{raw::fvb2 as Fvb2RawAttributes, EfiFvbAttributes2, Fvb2 as Fvb2Attributes};
pub use section::{MetaDataModel, Section, SectionMetaData, SectionModel};
pub use section_iter::{FileSectionIterator, NullSectionExtractor, SectionExtractor};
pub use volume::{FirmwareVolume, FirmwareVolumeExtHeader, FirmwareVolumeModel};
