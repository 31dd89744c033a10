//! Firmware volumes.

use crate::address_helper::{align_up, lemma_align_bounds, lemma_common_alignments, spec_align_up};
use crate::base::{Guid, Status};
use crate::bytes::{
    le_u128, le_u16, le_u32, le_u64, read_u16, read_u32, read_u64, sum_words, word_sum,
};
use crate::fw_fs::ffs::guid::{
    efi_firmware_file_system2_guid, efi_firmware_file_system3_guid,
    EFI_FIRMWARE_FILE_SYSTEM2_GUID_VALUE, EFI_FIRMWARE_FILE_SYSTEM3_GUID_VALUE,
};
use crate::fw_fs::file_iter::{files_from, FvFileIterator};
use crate::fw_fs::fv::{BlockMapEntry, ExtHeader, Header, EXT_HEADER_SIZE, HEADER_SIZE, SIGNATURE};
use crate::fw_fs::fvb::attributes::raw::fvb2 as Fvb2RawAttributes;
use crate::fw_fs::fvb::attributes::EfiFvbAttributes2;
use vstd::prelude::*;
use vstd::slice::slice_subrange;

verus! {

/// The length field of the volume header: the size of the volume.
pub open spec fn fv_length_of(buf: Seq<u8>) -> int {
    le_u64(buf, 32)
}

/// The signature field of the volume header.
pub open spec fn signature_of(buf: Seq<u8>) -> int {
    le_u32(buf, 40)
}

/// The attributes field of the volume header.
pub open spec fn attributes_of(buf: Seq<u8>) -> int {
    le_u32(buf, 44)
}

/// The header length field of the volume header: the size of the header
/// with its block map.
pub open spec fn header_length_of(buf: Seq<u8>) -> int {
    le_u16(buf, 48)
}

/// The offset of the extended header, or zero where the volume has none.
pub open spec fn ext_header_offset_of(buf: Seq<u8>) -> int {
    le_u16(buf, 52)
}

/// The size field of the extended header at `ext_off`.
pub open spec fn ext_header_size_of(buf: Seq<u8>, ext_off: int) -> int {
    le_u32(buf, ext_off + 16)
}

/// The 16-bit words of the volume header add up to zero modulo 65536.
pub open spec fn header_checksum_holds(buf: Seq<u8>) -> bool {
    word_sum(buf, 0, header_length_of(buf) / 2) % 0x1_0000 == 0
}

/// The checks on the header that come before the file system is looked at:
/// the signature, the header length, the header checksum and the revision.
pub open spec fn header_is_sound(buf: Seq<u8>) -> bool {
    &&& signature_of(buf) == SIGNATURE
    &&& HEADER_SIZE <= header_length_of(buf) <= buf.len()
    &&& header_length_of(buf) % 2 == 0
    &&& header_checksum_holds(buf)
    &&& buf[55] >= 2
}

/// The file system of the volume is one of the two firmware file systems.
pub open spec fn has_firmware_file_system(buf: Seq<u8>) -> bool {
    le_u128(buf, 16) == EFI_FIRMWARE_FILE_SYSTEM2_GUID_VALUE || le_u128(buf, 16)
        == EFI_FIRMWARE_FILE_SYSTEM3_GUID_VALUE
}

/// The volume holds its header and lies in the buffer, and the extended
/// header, where there is one, starts in the volume and lies in the buffer.
pub open spec fn extent_is_sound(buf: Seq<u8>) -> bool {
    let ext_off = ext_header_offset_of(buf);
    &&& header_length_of(buf) <= fv_length_of(buf) <= buf.len()
    &&& ext_off <= fv_length_of(buf)
    &&& ext_off != 0 ==> ext_off + EXT_HEADER_SIZE <= buf.len() && ext_off + ext_header_size_of(
        buf,
        ext_off,
    ) <= buf.len()
}

/// The entry of the block map with index `i`, the terminating entry
/// included.
pub open spec fn raw_block_map_entry(buf: Seq<u8>, i: int) -> BlockMapEntry {
    BlockMapEntry {
        num_blocks: le_u32(buf, HEADER_SIZE + 8 * i) as u32,
        length: le_u32(buf, HEADER_SIZE + 8 * i + 4) as u32,
    }
}

/// The entry that ends a block map.
pub open spec fn is_terminator(entry: BlockMapEntry) -> bool {
    entry.num_blocks == 0 && entry.length == 0
}

/// The number of entries of the block map, the terminating entry included.
pub open spec fn raw_block_map_len(buf: Seq<u8>) -> int {
    (header_length_of(buf) - HEADER_SIZE) / 8
}

/// The block map fills the header behind its fixed part, ends with the
/// terminating entry, and holds at least one entry before it, none of which
/// is a terminating entry.
pub open spec fn block_map_is_sound(buf: Seq<u8>) -> bool {
    let n = raw_block_map_len(buf);
    &&& (header_length_of(buf) - HEADER_SIZE) % 8 == 0
    &&& n >= 2
    &&& is_terminator(raw_block_map_entry(buf, n - 1))
    &&& forall|i: int| 0 <= i < n - 1 ==> !is_terminator(#[trigger] raw_block_map_entry(buf, i))
}

/// The block map of the volume, without the terminating entry.
pub open spec fn block_map_of(buf: Seq<u8>) -> Seq<BlockMapEntry> {
    Seq::new((raw_block_map_len(buf) - 1) as nat, |i: int| raw_block_map_entry(buf, i))
}

/// The offset at which the headers of the volume end: the end of the
/// extended header where there is one, else the end of the header.
pub open spec fn headers_end_of(buf: Seq<u8>) -> int {
    let ext_off = ext_header_offset_of(buf);
    if ext_off != 0 {
        ext_off + ext_header_size_of(buf, ext_off)
    } else {
        header_length_of(buf)
    }
}

/// The extended header of a volume, as a mathematical value.
pub struct ExtHeaderModel {
    /// The fixed fields of the extended header.
    pub header: ExtHeader,
    /// The bytes of the extended header.
    pub data: Seq<u8>,
}

/// What a [`FirmwareVolume`] holds, as a mathematical value.
pub struct FirmwareVolumeModel {
    /// The bytes of the buffer that holds the volume.
    pub data: Seq<u8>,
    /// The attributes of the volume.
    pub attributes: EfiFvbAttributes2,
    /// The block map, without its terminating entry.
    pub block_map: Seq<BlockMapEntry>,
    /// The extended header, where the volume has one.
    pub ext_header: Option<ExtHeaderModel>,
    /// The offset of the first file: the end of the headers, aligned to 8.
    pub data_offset: int,
    /// The value of the bytes of erased flash.
    pub erase_byte: u8,
}

impl FirmwareVolumeModel {
    /// The bytes in which the files of the volume lie.
    pub open spec fn file_window(self) -> Seq<u8> {
        if self.data_offset <= self.data.len() {
            self.data.subrange(self.data_offset, self.data.len() as int)
        } else {
            Seq::empty()
        }
    }
}

/// The firmware volume at the start of `buf`.
///
/// A buffer without room for the volume header, and a volume of another
/// file system than the two firmware file systems, is an invalid parameter.
/// Any other failed check makes a corrupted volume. The checks are made in
/// the order of [`header_is_sound`], [`has_firmware_file_system`],
/// [`extent_is_sound`] and [`block_map_is_sound`], and the first that fails
/// decides.
pub open spec fn parse_volume(buf: Seq<u8>) -> Result<FirmwareVolumeModel, Status> {
    if buf.len() < HEADER_SIZE {
        Err(Status::InvalidParameter)
    } else if !header_is_sound(buf) {
        Err(Status::VolumeCorrupted)
    } else if !has_firmware_file_system(buf) {
        Err(Status::InvalidParameter)
    } else if !extent_is_sound(buf) || !block_map_is_sound(buf) {
        Err(Status::VolumeCorrupted)
    } else {
        let ext_off = ext_header_offset_of(buf);
        Ok(
            FirmwareVolumeModel {
                data: buf,
                attributes: attributes_of(buf) as u32,
                block_map: block_map_of(buf),
                ext_header: if ext_off != 0 {
                    Some(
                        ExtHeaderModel {
                            header: ExtHeader {
                                fv_name: Guid { value: le_u128(buf, ext_off) as u128 },
                                ext_header_size: ext_header_size_of(buf, ext_off) as u32,
                            },
                            data: buf.subrange(ext_off, headers_end_of(buf)),
                        },
                    )
                } else {
                    None
                },
                data_offset: spec_align_up(headers_end_of(buf), 8),
                erase_byte: if attributes_of(buf) as u32 & Fvb2RawAttributes::ERASE_POLARITY != 0 {
                    0xffu8
                } else {
                    0u8
                },
            },
        )
    }
}

/// In a volume that parses, the 16-bit words of the header add up to zero
/// modulo 65536: the header has an even length, and the sum of its words,
/// cut to 16 bits, is zero.
pub proof fn lemma_volume_header_sums_to_zero(buf: Seq<u8>)
    requires
        parse_volume(buf) is Ok,
    ensures
        HEADER_SIZE <= header_length_of(buf) <= buf.len(),
        header_length_of(buf) % 2 == 0,
        word_sum(buf, 0, header_length_of(buf) / 2) % 0x1_0000 == 0,
{
}

/// In a volume that parses, the block map has an entry, and none of its
/// entries is the terminating entry.
pub proof fn lemma_volume_block_map_is_proper(buf: Seq<u8>)
    requires
        parse_volume(buf) is Ok,
    ensures
        parse_volume(buf)->Ok_0.block_map.len() > 0,
        forall|i: int|
            0 <= i < parse_volume(buf)->Ok_0.block_map.len() ==> !is_terminator(
                #[trigger] parse_volume(buf)->Ok_0.block_map[i],
            ),
{
    let map = parse_volume(buf)->Ok_0.block_map;
    assert(map == block_map_of(buf));
    assert forall|i: int| 0 <= i < map.len() implies !is_terminator(#[trigger] map[i]) by {
        assert(map[i] == raw_block_map_entry(buf, i));
    }
}

/// The erase byte of a volume that parses is `0x00` or `0xFF`, and the files
/// of the volume start at a multiple of 8 that is no smaller than the end of
/// the headers.
pub proof fn lemma_volume_file_window(buf: Seq<u8>)
    requires
        parse_volume(buf) is Ok,
    ensures
        parse_volume(buf)->Ok_0.erase_byte == 0x00 || parse_volume(buf)->Ok_0.erase_byte == 0xFF,
        parse_volume(buf)->Ok_0.data_offset % 8 == 0,
        headers_end_of(buf) <= parse_volume(buf)->Ok_0.data_offset < headers_end_of(buf) + 8,
{
    lemma_align_bounds(headers_end_of(buf), 8);
}

/// The number of blocks in the first `k` runs of a block map.
pub open spec fn blocks_before(map: Seq<BlockMapEntry>, k: int) -> int
    decreases k,
{
    if k <= 0 {
        0
    } else {
        blocks_before(map, k - 1) + map[k - 1].num_blocks
    }
}

/// The number of bytes in the first `k` runs of a block map.
pub open spec fn bytes_before(map: Seq<BlockMapEntry>, k: int) -> int
    decreases k,
{
    if k <= 0 {
        0
    } else {
        bytes_before(map, k - 1) + map[k - 1].num_blocks * map[k - 1].length
    }
}

/// The index of the first run from `k` on that holds the block `lba`, or the
/// length of the block map where none does.
pub open spec fn run_from(map: Seq<BlockMapEntry>, lba: int, k: int) -> int
    decreases map.len() - k,
{
    if k < 0 || k >= map.len() {
        map.len() as int
    } else if lba < blocks_before(map, k + 1) {
        k
    } else {
        run_from(map, lba, k + 1)
    }
}

/// The linear offset of the block `lba` from the base of the volume, the
/// size of the block, and the number of blocks from it to the end of its
/// run.
///
/// A block behind the last run is out of range, and so is one whose offset
/// does not fit in 32 bits.
pub open spec fn lba_info_of(map: Seq<BlockMapEntry>, lba: u32) -> Result<(u32, u32, u32), Status> {
    let k = run_from(map, lba as int, 0);
    if k >= map.len() {
        Err(Status::InvalidParameter)
    } else {
        let offset = bytes_before(map, k) + (lba - blocks_before(map, k)) * map[k].length;
        if offset > u32::MAX {
            Err(Status::InvalidParameter)
        } else {
            Ok((offset as u32, map[k].length, (blocks_before(map, k + 1) - lba) as u32))
        }
    }
}

/// The block and byte counts of a block map grow with the number of runs.
pub proof fn lemma_runs_grow(map: Seq<BlockMapEntry>, j: int, k: int)
    requires
        0 <= j <= k,
    ensures
        blocks_before(map, j) <= blocks_before(map, k),
        bytes_before(map, j) <= bytes_before(map, k),
    decreases k - j,
{
    if j < k {
        lemma_runs_grow(map, j, k - 1);
        assert(map[k - 1].num_blocks * map[k - 1].length >= 0) by (nonlinear_arith)
            requires
                map[k - 1].num_blocks >= 0,
                map[k - 1].length >= 0,
        ;
    }
}

/// From run `k` on, the run that holds `lba` is no earlier than `k`, and the
/// runs between the two do not hold `lba`.
pub proof fn lemma_run_from(map: Seq<BlockMapEntry>, lba: int, k: int)
    requires
        0 <= k <= map.len(),
    ensures
        k <= run_from(map, lba, k) <= map.len(),
        run_from(map, lba, k) < map.len() ==> lba < blocks_before(
            map,
            run_from(map, lba, k) + 1,
        ),
        lba >= blocks_before(map, k) ==> lba >= blocks_before(map, run_from(map, lba, k)),
    decreases map.len() - k,
{
    if k < map.len() && lba >= blocks_before(map, k + 1) {
        lemma_run_from(map, lba, k + 1);
    }
}

/// The extended header of a firmware volume.
#[derive(Debug, Clone, Copy)]
pub struct FirmwareVolumeExtHeader<'a> {
    header: ExtHeader,
    data: &'a [u8],
}

impl<'a> View for FirmwareVolumeExtHeader<'a> {
    type V = ExtHeaderModel;

    closed spec fn view(&self) -> ExtHeaderModel {
        ExtHeaderModel { header: self.header, data: self.data@ }
    }
}

/// Firmware Volume access support
///
/// Provides access to firmware volume contents.
#[derive(Debug)]
pub struct FirmwareVolume<'a> {
    data: &'a [u8],
    attributes: EfiFvbAttributes2,
    block_map: Vec<BlockMapEntry>,
    ext_header: Option<FirmwareVolumeExtHeader<'a>>,
    headers_end: usize,
    erase_byte: u8,
}

impl<'a> View for FirmwareVolume<'a> {
    type V = FirmwareVolumeModel;

    closed spec fn view(&self) -> FirmwareVolumeModel {
        FirmwareVolumeModel {
            data: self.data@,
            attributes: self.attributes,
            block_map: self.block_map@,
            ext_header: match self.ext_header {
                Some(ext_header) => Some(ext_header@),
                None => None,
            },
            data_offset: spec_align_up(self.headers_end as int, 8),
            erase_byte: self.erase_byte,
        }
    }
}

impl<'a> Clone for FirmwareVolume<'a> {
    fn clone(&self) -> (r: Self)
        ensures
            r@ == self@,
    {
        proof {
            use_type_invariant(self);
        }
        let block_map = self.block_map.clone();
        assert(block_map@ =~= self.block_map@);
        FirmwareVolume {
            data: self.data,
            attributes: self.attributes,
            block_map,
            ext_header: self.ext_header,
            headers_end: self.headers_end,
            erase_byte: self.erase_byte,
        }
    }
}

/// The model of what a parse returned.
pub open spec fn volume_result_view(r: Result<FirmwareVolume<'_>, Status>) -> Result<
    FirmwareVolumeModel,
    Status,
> {
    match r {
        Ok(volume) => Ok(volume@),
        Err(e) => Err(e),
    }
}

/// Reads the fixed part of the volume header at the start of `buffer`.
pub fn read_header(buffer: &[u8]) -> (header: Header)
    requires
        HEADER_SIZE <= buffer.len(),
    ensures
        header.zero_vector@ == buffer@.subrange(0, 16),
        header.file_system_guid.value == le_u128(buffer@, 16),
        header.fv_length == fv_length_of(buffer@),
        header.signature == signature_of(buffer@),
        header.attributes == attributes_of(buffer@),
        header.header_length == header_length_of(buffer@),
        header.checksum == le_u16(buffer@, 50),
        header.ext_header_offset == ext_header_offset_of(buffer@),
        header.reserved == buffer@[54],
        header.revision == buffer@[55],
{
    let mut zero_vector: [u8; 16] = [0u8;16];
    let mut i: usize = 0;
    while i < 16
        invariant
            i <= 16,
            HEADER_SIZE <= buffer.len(),
            forall|j: int| 0 <= j < i ==> zero_vector@[j] == buffer@[j],
        decreases 16 - i,
    {
        zero_vector[i] = buffer[i];
        i = i + 1;
    }
    assert(zero_vector@ =~= buffer@.subrange(0, 16));
    Header {
        zero_vector,
        file_system_guid: Guid::read(buffer, 16),
        fv_length: read_u64(buffer, 32),
        signature: read_u32(buffer, 40),
        attributes: read_u32(buffer, 44),
        header_length: read_u16(buffer, 48),
        checksum: read_u16(buffer, 50),
        ext_header_offset: read_u16(buffer, 52),
        reserved: buffer[54],
        revision: buffer[55],
    }
}

/// Reads the block map of the volume at the start of `buffer`, with its
/// terminating entry, and tells whether the block map is sound.
fn read_block_map(buffer: &[u8], header_length: usize) -> (r: Option<Vec<BlockMapEntry>>)
    requires
        HEADER_SIZE <= header_length <= buffer.len(),
        header_length == header_length_of(buffer@),
    ensures
        r is Some <==> block_map_is_sound(buffer@),
        r is Some ==> r->0@ == block_map_of(buffer@),
{
    // block map should be a multiple of 8 in size
    if (header_length - HEADER_SIZE) % 8 != 0 {
        return None;
    }
    let count: usize = (header_length - HEADER_SIZE) / 8;
    // block map should terminate with zero entry, and there must be at least one valid entry
    // in the block map.
    if count < 2 {
        return None;
    }
    let mut block_map: Vec<BlockMapEntry> = Vec::new();
    let mut i: usize = 0;
    while i < count - 1
        invariant
            2 <= count == raw_block_map_len(buffer@),
            HEADER_SIZE + 8 * count <= buffer.len(),
            i <= count - 1,
            block_map@.len() == i,
            forall|j: int| 0 <= j < i ==> block_map@[j] == #[trigger] raw_block_map_entry(buffer@, j),
            forall|j: int| 0 <= j < i ==> !is_terminator(#[trigger] raw_block_map_entry(buffer@, j)),
        decreases count - i,
    {
        let entry = BlockMapEntry {
            num_blocks: read_u32(buffer, HEADER_SIZE + 8 * i),
            length: read_u32(buffer, HEADER_SIZE + 8 * i + 4),
        };
        assert(entry == raw_block_map_entry(buffer@, i as int));
        // other entries in block map must be non-zero.
        if entry.num_blocks == 0 && entry.length == 0 {
            return None;
        }
        block_map.push(entry);
        i = i + 1;
    }
    let last = BlockMapEntry {
        num_blocks: read_u32(buffer, HEADER_SIZE + 8 * (count - 1)),
        length: read_u32(buffer, HEADER_SIZE + 8 * (count - 1) + 4),
    };
    assert(last == raw_block_map_entry(buffer@, count - 1));
    if last.num_blocks != 0 || last.length != 0 {
        return None;
    }
    assert(block_map@ =~= block_map_of(buffer@));
    Some(block_map)
}

impl<'a> FirmwareVolume<'a> {
    /// The block map has an entry, none of its entries is a terminating
    /// entry, and the headers end in the buffer.
    #[verifier::type_invariant]
    spec fn well_formed(self) -> bool {
        &&& self.block_map@.len() > 0
        &&& forall|i: int| 0 <= i < self.block_map@.len() ==> !is_terminator(#[trigger] self.block_map@[i])
        &&& self.headers_end <= self.data@.len()
    }

    /// Instantiate a new FirmwareVolume.
    ///
    /// Contents of the FirmwareVolume will be cached in this instance.
    pub fn new(buffer: &'a [u8]) -> (r: Result<FirmwareVolume<'a>, Status>)
        ensures
            volume_result_view(r) == parse_volume(buffer@),
    {
        let len = buffer.len();
        // buffer must be large enough to hold the header structure.
        if len < HEADER_SIZE {
            return Err(Status::InvalidParameter);
        }
        let fv_header = read_header(buffer);

        // signature: must be ASCII '_FVH'
        if fv_header.signature != SIGNATURE {
            return Err(Status::VolumeCorrupted);
        }
        let header_length = fv_header.header_length as usize;
        // header_length: must be large enough to hold the header, and buffer must be large
        // enough to hold the header.
        if header_length < HEADER_SIZE || header_length > len {
            return Err(Status::VolumeCorrupted);
        }
        // checksum: fv header must sum to zero (and must be multiple of 2 bytes)
        if fv_header.header_length % 2 != 0 {
            return Err(Status::VolumeCorrupted);
        }
        if sum_words(buffer, 0, header_length / 2) != 0 {
            return Err(Status::VolumeCorrupted);
        }
        // revision: must be at least 2. Assumes that if later PI Specifications bump the rev they will maintain
        // backwards compat with existing header definition.
        if fv_header.revision < 2 {
            return Err(Status::VolumeCorrupted);
        }
        assert(header_is_sound(buffer@));

        // file_system_guid: must be EFI_FIRMWARE_FILE_SYSTEM2_GUID or EFI_FIRMWARE_FILE_SYSTEM3_GUID.
        if fv_header.file_system_guid != efi_firmware_file_system2_guid()
            && fv_header.file_system_guid != efi_firmware_file_system3_guid() {
            return Err(Status::InvalidParameter);
        }
        assert(has_firmware_file_system(buffer@));

        // fv_length: must be large enough to hold the header, and must be less than or equal to
        // fv_data buffer length
        if fv_header.fv_length < header_length as u64 || fv_header.fv_length > len as u64 {
            return Err(Status::VolumeCorrupted);
        }
        // ext_header_offset: must be inside the fv
        if fv_header.ext_header_offset as u64 > fv_header.fv_length {
            return Err(Status::VolumeCorrupted);
        }
        // if ext_header is present, its size must fit inside the FV.
        let ext_header_offset = fv_header.ext_header_offset as usize;
        let ext_header: Option<FirmwareVolumeExtHeader<'a>> = if ext_header_offset != 0 {
            if len - ext_header_offset < EXT_HEADER_SIZE {
                return Err(Status::VolumeCorrupted);
            }
            let header = ExtHeader {
                fv_name: Guid::read(buffer, ext_header_offset),
                ext_header_size: read_u32(buffer, ext_header_offset + 16),
            };
            if header.ext_header_size as u64 > (len - ext_header_offset) as u64 {
                return Err(Status::VolumeCorrupted);
            }
            let ext_header_end = ext_header_offset + header.ext_header_size as usize;
            Some(
                FirmwareVolumeExtHeader {
                    header,
                    data: slice_subrange(buffer, ext_header_offset, ext_header_end),
                },
            )
        } else {
            None
        };
        assert(extent_is_sound(buffer@));

        // block map must fit within the fv header (which is checked above to guarantee it is within the fv_data buffer).
        let block_map = match read_block_map(buffer, header_length) {
            Some(block_map) => block_map,
            None => {
                return Err(Status::VolumeCorrupted);
            },
        };

        let headers_end: usize = match &ext_header {
            // if ext header exists, then data starts after ext header
            Some(ext_header) => ext_header_offset + ext_header.header.ext_header_size as usize,
            // otherwise data starts after the fv_header.
            None => header_length,
        };
        let erase_byte: u8 = if fv_header.attributes & Fvb2RawAttributes::ERASE_POLARITY != 0 {
            0xff
        } else {
            0
        };

        Ok(
            FirmwareVolume {
                data: buffer,
                attributes: fv_header.attributes,
                block_map,
                ext_header,
                headers_end,
                erase_byte,
            },
        )
    }

    /// Returns the block map for the FV
    pub fn block_map(&self) -> (r: &Vec<BlockMapEntry>)
        ensures
            r@ == self@.block_map,
            r@.len() > 0,
            forall|i: int| 0 <= i < r@.len() ==> !is_terminator(#[trigger] r@[i]),
    {
        proof {
            use_type_invariant(self);
        }
        &self.block_map
    }

    /// Returns the GUID name of the FV, if any.
    pub fn fv_name(&self) -> (r: Option<Guid>)
        ensures
            r == match self@.ext_header {
                Some(ext_header) => Some(ext_header.header.fv_name),
                None => None,
            },
    {
        match &self.ext_header {
            Some(ext_header) => Some(ext_header.header.fv_name),
            None => None,
        }
    }

    /// Returns an iterator of the files in this FV.
    ///
    /// The files lie behind the headers of the volume, from the next
    /// multiple of 8 on. Where the buffer ends before that offset, the
    /// volume has no files.
    pub fn file_iter(&self) -> (it: FvFileIterator<'a>)
        ensures
            it@ == files_from(self@.file_window(), self@.erase_byte, 0),
    {
        proof {
            use_type_invariant(self);
            lemma_common_alignments();
            lemma_align_bounds(self.headers_end as int, 8);
        }
        let len = self.data.len();
        let start: usize = if self.headers_end as u64 > u64::MAX - 7 {
            len
        } else {
            let aligned = align_up(self.headers_end as u64, 8);
            if aligned > len as u64 {
                len
            } else {
                aligned as usize
            }
        };
        let window = slice_subrange(self.data, start, len);
        assert(window@ =~= self@.file_window());
        FvFileIterator::new(window, self.erase_byte)
    }

    /// returns the (linear block offset from FV base, block_size, remaining_blocks) given an LBA.
    ///
    /// The offset is that of the block `lba`: the bytes of the runs before
    /// the run of the block, and the blocks of that run before it. The
    /// remaining blocks are those of the run from the block on.
    pub fn lba_info(&self, lba: u32) -> (r: Result<(u32, u32, u32), Status>)
        ensures
            r == lba_info_of(self@.block_map, lba),
    {
        let ghost map = self.block_map@;
        let count = self.block_map.len();
        let mut blocks: u64 = 0;
        let mut offset: u64 = 0;
        let mut i: usize = 0;
        while i < count
            invariant
                i <= count == map.len(),
                map == self.block_map@,
                blocks == blocks_before(map, i as int),
                offset == bytes_before(map, i as int),
                blocks <= lba,
                offset <= u32::MAX,
                run_from(map, lba as int, 0) == run_from(map, lba as int, i as int),
            decreases count - i,
        {
            let entry = self.block_map[i];
            assert(0 <= entry.num_blocks * entry.length <= 0xFFFF_FFFF * 0xFFFF_FFFF)
                by (nonlinear_arith)
                requires
                    0 <= entry.num_blocks <= 0xFFFF_FFFF,
                    0 <= entry.length <= 0xFFFF_FFFF,
            ;
            let run_bytes: u64 = entry.num_blocks as u64 * entry.length as u64;
            if (lba as u64) < blocks + entry.num_blocks as u64 {
                let in_run: u64 = lba as u64 - blocks;
                assert(0 <= in_run * entry.length <= entry.num_blocks * entry.length)
                    by (nonlinear_arith)
                    requires
                        0 <= in_run < entry.num_blocks,
                        0 <= entry.length,
                ;
                let in_run_bytes: u64 = in_run * entry.length as u64;
                let linear: u64 = offset + in_run_bytes;
                if linear > u32::MAX as u64 {
                    return Err(Status::InvalidParameter);  // the offset cannot be told.
                }
                let remaining: u64 = blocks + entry.num_blocks as u64 - lba as u64;
                return Ok((linear as u32, entry.length, remaining as u32));
            }
            if offset + run_bytes > u32::MAX as u64 {
                proof {
                    // Every later block lies behind this run, out of the reach of 32 bits.
                    let k = run_from(map, lba as int, i + 1);
                    lemma_run_from(map, lba as int, i + 1);
                    if k < map.len() {
                        lemma_runs_grow(map, i + 1, k);
                        assert((lba - blocks_before(map, k)) * map[k].length >= 0)
                            by (nonlinear_arith)
                            requires
                                lba - blocks_before(map, k) >= 0,
                                map[k].length >= 0,
                        ;
                    }
                }
                return Err(Status::InvalidParameter);
            }
            blocks = blocks + entry.num_blocks as u64;
            offset = offset + run_bytes;
            i = i + 1;
        }
        Err(Status::InvalidParameter)  // lba out of range.
    }

    /// Returns the attributes for the FirmwareVolume
    pub fn attributes(&self) -> (r: EfiFvbAttributes2)
        ensures
            r == self@.attributes,
    {
        self.attributes
    }

    /// Returns the size in bytes of the FV data + header.
    pub fn size(&self) -> (r: u64)
        ensures
            r == self@.data.len(),
    {
        self.data.len() as u64
    }

    /// Returns the FV data.
    pub fn data(&self) -> (r: &[u8])
        ensures
            r@ == self@.data,
    {
        self.data
    }
}

} // verus!
