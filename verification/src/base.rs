//! Base types of the UEFI specification that the firmware formats use.

use crate::bytes::{le_u128, read_u128};
use vstd::prelude::*;

verus! {

/// Status codes of the UEFI specification.
///
/// The parsers of this crate report `InvalidParameter` and `VolumeCorrupted`;
/// a section extractor may report any status.
#[derive(Clone, Copy, Debug, PartialEq, Eq, Structural)]
pub enum Status {
    Success,
    LoadError,
    InvalidParameter,
    Unsupported,
    BadBufferSize,
    BufferTooSmall,
    NotReady,
    DeviceError,
    WriteProtected,
    OutOfResources,
    VolumeCorrupted,
    VolumeFull,
    NoMedia,
    MediaChanged,
    NotFound,
    AccessDenied,
    NoResponse,
    NoMapping,
    Timeout,
    NotStarted,
    AlreadyStarted,
    Aborted,
    IcmpError,
    TftpError,
    ProtocolError,
    IncompatibleVersion,
    SecurityViolation,
    CrcError,
    EndOfMedia,
    EndOfFile,
    InvalidLanguage,
    CompromisedData,
    IpAddressConflict,
    HttpError,
}

impl Status {
    /// The number of the status without the error bit, as the UEFI
    /// specification assigns it.
    pub open spec fn spec_code(self) -> int {
        match self {
            Status::Success => 0,
            Status::LoadError => 1,
            Status::InvalidParameter => 2,
            Status::Unsupported => 3,
            Status::BadBufferSize => 4,
            Status::BufferTooSmall => 5,
            Status::NotReady => 6,
            Status::DeviceError => 7,
            Status::WriteProtected => 8,
            Status::OutOfResources => 9,
            Status::VolumeCorrupted => 10,
            Status::VolumeFull => 11,
            Status::NoMedia => 12,
            Status::MediaChanged => 13,
            Status::NotFound => 14,
            Status::AccessDenied => 15,
            Status::NoResponse => 16,
            Status::NoMapping => 17,
            Status::Timeout => 18,
            Status::NotStarted => 19,
            Status::AlreadyStarted => 20,
            Status::Aborted => 21,
            Status::IcmpError => 22,
            Status::TftpError => 23,
            Status::ProtocolError => 24,
            Status::IncompatibleVersion => 25,
            Status::SecurityViolation => 26,
            Status::CrcError => 27,
            Status::EndOfMedia => 28,
            Status::EndOfFile => 31,
            Status::InvalidLanguage => 32,
            Status::CompromisedData => 33,
            Status::IpAddressConflict => 34,
            Status::HttpError => 35,
        }
    }

    /// Tells whether the status reports an error.
    pub fn is_error(&self) -> (r: bool)
        ensures
            r == (*self != Status::Success),
    {
        match self {
            Status::Success => false,
            _ => true,
        }
    }

    /// The status with the given number. The number 0 stands for success,
    /// any other number for an error.
    pub fn from_code(code: usize) -> (r: Option<Status>)
        ensures
            match r {
                Some(status) => status.spec_code() == code,
                None => forall|status: Status| status.spec_code() != code,
            },
    {
        if code == 0 {
            Some(Status::Success)
        } else if code == 1 {
            Some(Status::LoadError)
        } else if code == 2 {
            Some(Status::InvalidParameter)
        } else if code == 3 {
            Some(Status::Unsupported)
        } else if code == 4 {
            Some(Status::BadBufferSize)
        } else if code == 5 {
            Some(Status::BufferTooSmall)
        } else if code == 6 {
            Some(Status::NotReady)
        } else if code == 7 {
            Some(Status::DeviceError)
        } else if code == 8 {
            Some(Status::WriteProtected)
        } else if code == 9 {
            Some(Status::OutOfResources)
        } else if code == 10 {
            Some(Status::VolumeCorrupted)
        } else if code == 11 {
            Some(Status::VolumeFull)
        } else if code == 12 {
            Some(Status::NoMedia)
        } else if code == 13 {
            Some(Status::MediaChanged)
        } else if code == 14 {
            Some(Status::NotFound)
        } else if code == 15 {
            Some(Status::AccessDenied)
        } else if code == 16 {
            Some(Status::NoResponse)
        } else if code == 17 {
            Some(Status::NoMapping)
        } else if code == 18 {
            Some(Status::Timeout)
        } else if code == 19 {
            Some(Status::NotStarted)
        } else if code == 20 {
            Some(Status::AlreadyStarted)
        } else if code == 21 {
            Some(Status::Aborted)
        } else if code == 22 {
            Some(Status::IcmpError)
        } else if code == 23 {
            Some(Status::TftpError)
        } else if code == 24 {
            Some(Status::ProtocolError)
        } else if code == 25 {
            Some(Status::IncompatibleVersion)
        } else if code == 26 {
            Some(Status::SecurityViolation)
        } else if code == 27 {
            Some(Status::CrcError)
        } else if code == 28 {
            Some(Status::EndOfMedia)
        } else if code == 31 {
            Some(Status::EndOfFile)
        } else if code == 32 {
            Some(Status::InvalidLanguage)
        } else if code == 33 {
            Some(Status::CompromisedData)
        } else if code == 34 {
            Some(Status::IpAddressConflict)
        } else if code == 35 {
            Some(Status::HttpError)
        } else {
            None
        }
    }

    /// The number of the status without the error bit.
    pub fn code(&self) -> (r: u8)
        ensures
            r == self.spec_code(),
    {
        match self {
            Status::Success => 0,
            Status::LoadError => 1,
            Status::InvalidParameter => 2,
            Status::Unsupported => 3,
            Status::BadBufferSize => 4,
            Status::BufferTooSmall => 5,
            Status::NotReady => 6,
            Status::DeviceError => 7,
            Status::WriteProtected => 8,
            Status::OutOfResources => 9,
            Status::VolumeCorrupted => 10,
            Status::VolumeFull => 11,
            Status::NoMedia => 12,
            Status::MediaChanged => 13,
            Status::NotFound => 14,
            Status::AccessDenied => 15,
            Status::NoResponse => 16,
            Status::NoMapping => 17,
            Status::Timeout => 18,
            Status::NotStarted => 19,
            Status::AlreadyStarted => 20,
            Status::Aborted => 21,
            Status::IcmpError => 22,
            Status::TftpError => 23,
            Status::ProtocolError => 24,
            Status::IncompatibleVersion => 25,
            Status::SecurityViolation => 26,
            Status::CrcError => 27,
            Status::EndOfMedia => 28,
            Status::EndOfFile => 31,
            Status::InvalidLanguage => 32,
            Status::CompromisedData => 33,
            Status::IpAddressConflict => 34,
            Status::HttpError => 35,
        }
    }
}

/// A 128-bit globally unique identifier.
///
/// A GUID is held as the number that its sixteen bytes spell when they are
/// read least significant byte first, so two GUIDs are equal exactly when
/// their bytes are.
#[derive(Clone, Copy, Debug, PartialEq, Eq, Structural)]
pub struct Guid {
    pub value: u128,
}

/// The number that the six bytes of a node field spell.
pub open spec fn node_value(node: Seq<u8>) -> int {
    node[0] as int + 0x100 * (node[1] as int) + 0x1_0000 * (node[2] as int) + 0x100_0000 * (
    node[3] as int) + 0x1_0000_0000 * (node[4] as int) + 0x100_0000_0000 * (node[5] as int)
}

/// The value of the GUID with the given fields.
pub open spec fn guid_of_fields(
    time_low: u32,
    time_mid: u16,
    time_hi_and_version: u16,
    clk_seq_hi_res: u8,
    clk_seq_low: u8,
    node: Seq<u8>,
) -> int {
    time_low as int + 0x1_0000_0000 * (time_mid as int) + 0x1_0000_0000_0000 * (
    time_hi_and_version as int) + 0x1_0000_0000_0000_0000 * (clk_seq_hi_res as int)
        + 0x100_0000_0000_0000_0000 * (clk_seq_low as int) + 0x1_0000_0000_0000_0000_0000
        * node_value(node)
}

impl Guid {
    /// Builds a GUID from its fields as the UEFI specification names them.
    pub fn from_fields(
        time_low: u32,
        time_mid: u16,
        time_hi_and_version: u16,
        clk_seq_hi_res: u8,
        clk_seq_low: u8,
        node: &[u8; 6],
    ) -> (guid: Guid)
        ensures
            guid.value == guid_of_fields(
                time_low,
                time_mid,
                time_hi_and_version,
                clk_seq_hi_res,
                clk_seq_low,
                node@,
            ),
    {
        let n: u128 = node[0] as u128 + 0x100 * (node[1] as u128) + 0x1_0000 * (node[2] as u128)
            + 0x100_0000 * (node[3] as u128) + 0x1_0000_0000 * (node[4] as u128)
            + 0x100_0000_0000 * (node[5] as u128);
        let value: u128 = time_low as u128 + 0x1_0000_0000 * (time_mid as u128)
            + 0x1_0000_0000_0000 * (time_hi_and_version as u128) + 0x1_0000_0000_0000_0000 * (
        clk_seq_hi_res as u128) + 0x100_0000_0000_0000_0000 * (clk_seq_low as u128)
            + 0x1_0000_0000_0000_0000_0000 * n;
        Guid { value }
    }

    /// Builds a GUID from its sixteen bytes.
    pub fn from_bytes(bytes: &[u8; 16]) -> (guid: Guid)
        ensures
            guid.value == le_u128(bytes@, 0),
    {
        Guid::read(bytes.as_slice(), 0)
    }

    /// Reads the GUID that is stored at `off`.
    pub fn read(buf: &[u8], off: usize) -> (guid: Guid)
        requires
            off + 16 <= buf.len(),
        ensures
            guid.value == le_u128(buf@, off as int),
    {
        Guid { value: read_u128(buf, off) }
    }

    /// The sixteen bytes of the GUID.
    pub fn as_bytes(&self) -> (bytes: [u8; 16])
        ensures
            le_u128(bytes@, 0) == self.value,
    {
        let lo: u64 = (self.value % 0x1_0000_0000_0000_0000) as u64;
        let hi: u64 = (self.value / 0x1_0000_0000_0000_0000) as u64;
        let (l0, l1, l2, l3) = split_u32((lo % 0x1_0000_0000) as u32);
        let (l4, l5, l6, l7) = split_u32((lo / 0x1_0000_0000) as u32);
        let (h0, h1, h2, h3) = split_u32((hi % 0x1_0000_0000) as u32);
        let (h4, h5, h6, h7) = split_u32((hi / 0x1_0000_0000) as u32);
        let bytes: [u8; 16] = [l0, l1, l2, l3, l4, l5, l6, l7, h0, h1, h2, h3, h4, h5, h6, h7];
        bytes
    }
}

/// The four bytes of a 32-bit number, least significant first.
fn split_u32(v: u32) -> (r: (u8, u8, u8, u8))
    ensures
        v == r.0 as int + 0x100 * (r.1 as int) + 0x1_0000 * (r.2 as int) + 0x100_0000 * (
        r.3 as int),
{
    let b0: u8 = (v % 0x100) as u8;
    let r1: u32 = v / 0x100;
    let b1: u8 = (r1 % 0x100) as u8;
    let r2: u32 = r1 / 0x100;
    let b2: u8 = (r2 % 0x100) as u8;
    let b3: u8 = (r2 / 0x100) as u8;
    (b0, b1, b2, b3)
}

/// A boolean as the UEFI specification stores it: one byte, zero for false.
#[derive(Clone, Copy, Debug, PartialEq, Eq, Structural)]
pub struct Boolean {
    pub value: u8,
}

impl Boolean {
    /// The stored form of a `bool`.
    pub fn from_bool(b: bool) -> (r: Boolean)
        ensures
            r.value == (if b { 1u8 } else { 0u8 }),
    {
        Boolean { value: if b { 1 } else { 0 } }
    }

    /// The `bool` that the byte stands for.
    pub fn as_bool(&self) -> (r: bool)
        ensures
            r == (self.value != 0),
    {
        self.value != 0
    }
}

} // verus!
