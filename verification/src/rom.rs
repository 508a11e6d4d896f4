//! Program images: a raw dump of code, or one behind a header that names
//! its version, size, entry address and checksum.

use vstd::prelude::*;
use vstd::slice::slice_subrange;
use vstd::slice::slice_to_vec;
use vstd::string::StringExecFns;
use crate::text::push_decimal;
use crate::text::spec_decimal;
use crate::util::crc32;
use crate::util::half_bytes;
use crate::util::spec_crc32;
use crate::util::spec_word;
use crate::util::word;

verus! {

/// Bytes of an image's header, the magic number included.
pub const HEADER_LEN: usize = 16;

/// The version of the machine that an image was written for: major, minor.
#[derive(PartialEq, Eq, Structural, PartialOrd, Ord, Clone, Copy, Debug)]
pub struct Version(pub u8, pub u8);

impl Version {
    /// The version as text: major, a dot, minor.
    pub open spec fn spec_to_string(self) -> Seq<char> {
        spec_decimal(self.0 as nat) + seq!['.'] + spec_decimal(self.1 as nat)
    }

    pub fn to_string(&self) -> (s: String)
        ensures
            s@ == self.spec_to_string(),
    {
        let mut s = String::new();
        push_decimal(&mut s, self.0 as u16);
        s.push('.');
        push_decimal(&mut s, self.1 as u16);
        assert(s@ =~= self.spec_to_string());
        s
    }
}

/// Why a sequence of bytes is no image.
#[derive(PartialEq, Eq, Structural, Clone, Copy, Debug)]
pub enum RomError {
    /// The magic number is there, but the header ends early.
    TruncatedHeader,
    /// The header declares more code than follows it.
    TruncatedPayload,
}

impl RomError {
    /// The error in words.
    pub open spec fn spec_message(self) -> Seq<char> {
        match self {
            RomError::TruncatedHeader => "the header ends early"@,
            RomError::TruncatedPayload => "the code is shorter than the header declares"@,
        }
    }

    pub fn message(&self) -> (s: String)
        ensures
            s@ == self.spec_message(),
    {
        match self {
            RomError::TruncatedHeader => String::from_str("the header ends early"),
            RomError::TruncatedPayload => String::from_str(
                "the code is shorter than the header declares",
            ),
        }
    }
}

pub struct Rom {
    version: Version,
    size: u32,
    start: u16,
    checksum: u32,
    rom: Vec<u8>,
}

/// What an image holds, as mathematical values.
pub struct RomView {
    pub version: Version,
    pub size: u32,
    pub start: u16,
    pub checksum: u32,
    pub rom: Seq<u8>,
}

/// Whether a file begins with the four characters `CH16`.
pub open spec fn has_magic(bytes: Seq<u8>) -> bool {
    &&& bytes.len() >= 4
    &&& bytes[0] == 0x43
    &&& bytes[1] == 0x48
    &&& bytes[2] == 0x31
    &&& bytes[3] == 0x36
}

/// The 32-bit number whose little-endian bytes are the four at `at`.
pub open spec fn spec_long(bytes: Seq<u8>, at: int) -> u32 {
    (bytes[at] + 0x100 * bytes[at + 1] + 0x1_0000 * bytes[at + 2] + 0x100_0000 * bytes[at + 3]) as u32
}

/// The image that a file holds. Without the magic number the whole file is
/// code for address 0, of version 0.0 and with checksum 0. With it come a
/// reserved byte, the version (major in the high half of its byte, minor in
/// the low half), the size in two bytes, the entry address in two bytes,
/// two bytes that are passed over, the checksum in four bytes, and `size`
/// bytes of code; numbers have their least significant byte first. What
/// follows the code is ignored.
pub open spec fn spec_load(bytes: Seq<u8>) -> Result<RomView, RomError> {
    if !has_magic(bytes) {
        Ok(
            RomView {
                version: Version(0, 0),
                size: bytes.len() as u32,
                start: 0,
                checksum: 0,
                rom: bytes,
            },
        )
    } else if bytes.len() < HEADER_LEN {
        Err(RomError::TruncatedHeader)
    } else {
        let size = spec_word(bytes[6], bytes[7]);
        if bytes.len() < HEADER_LEN + size {
            Err(RomError::TruncatedPayload)
        } else {
            Ok(
                RomView {
                    version: Version((bytes[5] / 16) as u8, (bytes[5] % 16) as u8),
                    size: size as u32,
                    start: spec_word(bytes[8], bytes[9]),
                    checksum: spec_long(bytes, 12),
                    rom: bytes.subrange(HEADER_LEN as int, HEADER_LEN + size),
                },
            )
        }
    }
}

impl RomView {
    /// The declared size is the number of bytes of code.
    pub open spec fn wf(self) -> bool {
        self.rom.len() == self.size
    }
}

impl View for Rom {
    type V = RomView;

    closed spec fn view(&self) -> RomView {
        RomView {
            version: self.version,
            size: self.size,
            start: self.start,
            checksum: self.checksum,
            rom: self.rom@,
        }
    }
}

impl Rom {
    /// The invariant of an image: that of its view.
    pub open spec fn wf(&self) -> bool {
        self@.wf()
    }

    /// Read an image from the bytes of a file.
    pub fn load(bytes: &[u8]) -> (r: Result<Rom, RomError>)
        requires
            bytes@.len() <= u32::MAX,
        ensures
            match r {
                Ok(rom) => rom.wf() && spec_load(bytes@) == Ok::<RomView, RomError>(rom@),
                Err(e) => spec_load(bytes@) == Err::<RomView, RomError>(e),
            },
            !has_magic(bytes@) ==> (r matches Ok(rom) && rom@.version == Version(0, 0)
                && rom@.start == 0 && rom@.checksum == 0 && rom@.rom == bytes@),
    {
        let len = bytes.len();
        let magic = len >= 4 && bytes[0] == 0x43 && bytes[1] == 0x48 && bytes[2] == 0x31
            && bytes[3] == 0x36;
        if !magic {
            let rom = slice_to_vec(bytes);
            return Ok(Rom { version: Version(0, 0), size: len as u32, start: 0, checksum: 0, rom });
        }
        if len < HEADER_LEN {
            return Err(RomError::TruncatedHeader);
        }
        let size: u16 = word(bytes[6], bytes[7]);
        if len - HEADER_LEN < size as usize {
            return Err(RomError::TruncatedPayload);
        }
        let (major, minor) = half_bytes(bytes[5]);
        let checksum: u32 = bytes[12] as u32 + 0x100 * (bytes[13] as u32) + 0x1_0000 * (
        bytes[14] as u32) + 0x100_0000 * (bytes[15] as u32);
        let rom = slice_to_vec(slice_subrange(bytes, HEADER_LEN, HEADER_LEN + size as usize));
        Ok(
            Rom {
                version: Version(major, minor),
                size: size as u32,
                start: word(bytes[8], bytes[9]),
                checksum,
                rom,
            },
        )
    }

    pub fn version(&self) -> (v: Version)
        ensures
            v == self@.version,
    {
        self.version
    }

    pub fn size(&self) -> (n: u32)
        ensures
            n == self@.size,
    {
        self.size
    }

    pub fn start(&self) -> (a: u16)
        ensures
            a == self@.start,
    {
        self.start
    }

    /// The checksum that the image declares, and the one that its code has.
    pub fn checksum(&self) -> (r: (u32, u32))
        ensures
            r.0 == self@.checksum,
            r.1 == spec_crc32(self@.rom),
    {
        (self.checksum, crc32(self.rom.as_slice()))
    }

    pub fn rom(&self) -> (r: &Vec<u8>)
        ensures
            r@ == self@.rom,
    {
        &self.rom
    }
}

} // verus!
