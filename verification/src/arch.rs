//! Binary architecture detection: classify a native executable's CPU
//! architecture from the first twenty bytes of its ELF header, to pick
//! the injection shim that matches the game binary.
//!
//! A short or non-ELF header is simply "unknown" (`None`); an ELF header
//! whose data-encoding byte is neither little- nor big-endian is a
//! malformed header and a distinct, fatal error.

use vstd::prelude::*;

verus! {

/// Machine type of a native executable, as far as injection supports it.
#[derive(Clone, Copy, Debug, PartialEq, Eq, Structural)]
pub enum Arch {
    X86,
    X86_64,
}

#[derive(Clone, Copy, Debug, PartialEq, Eq, Structural)]
pub enum ElfHeaderError {
    /// The header carries the ELF magic but its data-encoding byte is
    /// neither 1 (little-endian) nor 2 (big-endian).
    InvalidDataEncoding,
}

/// The four magic bytes that open every ELF file.
pub open spec fn spec_has_elf_magic(s: Seq<u8>) -> bool {
    s.len() >= 4 && s[0] == 0x7fu8 && s[1] == 0x45u8 && s[2] == 0x4cu8 && s[3] == 0x46u8
}

/// The architectures the injection mechanism knows, by ELF machine value.
pub open spec fn spec_arch_of_machine(m: int) -> Option<Arch> {
    if m == 0x03 {
        Some(Arch::X86)
    } else if m == 0x3e {
        Some(Arch::X86_64)
    } else {
        None
    }
}

/// Classification of a header: too short or not ELF means unknown; the
/// data-encoding byte selects how the 16-bit machine field at offset
/// 0x12 is read; any other encoding value is malformed.
pub open spec fn spec_classify_header(s: Seq<u8>) -> Result<Option<Arch>, ElfHeaderError> {
    if s.len() < 20 {
        Ok(None)
    } else if !spec_has_elf_magic(s) {
        Ok(None)
    } else if s[4] == 1u8 {
        Ok(spec_arch_of_machine(s[18] + 256 * s[19]))
    } else if s[4] == 2u8 {
        Ok(spec_arch_of_machine(s[19] + 256 * s[18]))
    } else {
        Err(ElfHeaderError::InvalidDataEncoding)
    }
}

impl Arch {
    /// Classify the architecture named by the first twenty bytes of an
    /// executable. `Ok(None)` is the ordinary "unknown" outcome; the error
    /// marks a recognizably ELF header with a malformed encoding byte.
    pub fn from_header(header: &Vec<u8>) -> (r: Result<Option<Arch>, ElfHeaderError>)
        ensures
            r == spec_classify_header(header@),
    {
        if header.len() < 20 {
            return Ok(None);
        }
        if !(header[0] == 0x7fu8 && header[1] == 0x45u8 && header[2] == 0x4cu8 && header[3]
            == 0x46u8) {
            return Ok(None);
        }
        let encoding = header[4];
        let machine: u32 = if encoding == 1 {
            header[18] as u32 + 256 * (header[19] as u32)
        } else if encoding == 2 {
            header[19] as u32 + 256 * (header[18] as u32)
        } else {
            return Err(ElfHeaderError::InvalidDataEncoding);
        };
        if machine == 0x03 {
            Ok(Some(Arch::X86))
        } else if machine == 0x3e {
            Ok(Some(Arch::X86_64))
        } else {
            Ok(None)
        }
    }
}

} // verus!
