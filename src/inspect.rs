use vstd::prelude::*;

use crate::error::ErrorKind;

verus! {

/// Length of the 64-bit ELF file header; shorter files are rejected outright.
pub const HEADER_LEN: usize = 64;

/// Value of the class byte (offset 4) for 64-bit objects.
pub const CLASS_64: u8 = 2;

/// Machine code of x86-64.
pub const MACHINE_X86_64: u16 = 0x3E;

/// Object type of a fixed-address executable.
pub const TYPE_EXEC: u16 = 2;

/// Object type of a shared object, which position-independent executables are.
pub const TYPE_DYN: u16 = 3;

/// The execute bits of owner, group and other.
pub const EXEC_BITS: u32 = 0o111;

/// What the file system says about the target path, gathered before reading it.
#[derive(Clone, Copy, Debug, PartialEq, Eq)]
pub struct FileFacts {
    pub exists: bool,
    pub is_file: bool,
    /// Unix permission bits.
    pub mode: u32,
}

/// The four bytes every ELF file starts with.
pub open spec fn elf_magic() -> Seq<u8> {
    seq![0x7Fu8, 0x45u8, 0x4Cu8, 0x46u8]
}

/// The little-endian 16-bit value stored at offsets `i` and `i + 1`.
pub open spec fn le_u16_at(b: Seq<u8>, i: int) -> int {
    b[i] as int + 256 * (b[i + 1] as int)
}

pub open spec fn has_elf_prefix(b: Seq<u8>) -> bool {
    b.len() >= HEADER_LEN && b.subrange(0, 4) == elf_magic()
}

pub open spec fn machine_of(b: Seq<u8>) -> int {
    le_u16_at(b, 18)
}

pub open spec fn object_type_of(b: Seq<u8>) -> int {
    le_u16_at(b, 16)
}

/// The verdict on a file's leading bytes: the first violated check wins.
pub open spec fn header_verdict(b: Seq<u8>) -> Result<(), ErrorKind> {
    if !has_elf_prefix(b) {
        Err(ErrorKind::NotElf)
    } else if b[4] != CLASS_64 {
        Err(ErrorKind::Not64Bit)
    } else if machine_of(b) != MACHINE_X86_64 {
        Err(ErrorKind::WrongArch(machine_of(b) as u16))
    } else if object_type_of(b) != TYPE_EXEC && object_type_of(b) != TYPE_DYN {
        Err(ErrorKind::NotExecutableType(object_type_of(b) as u16))
    } else {
        Ok(())
    }
}

/// The verdict on what the file system reports, before any byte is read.
pub open spec fn facts_verdict(f: FileFacts) -> Result<(), ErrorKind> {
    if !f.exists {
        Err(ErrorKind::TargetNotFound)
    } else if !f.is_file {
        Err(ErrorKind::NotAFile)
    } else if f.mode & EXEC_BITS == 0 {
        Err(ErrorKind::NotExecutable)
    } else {
        Ok(())
    }
}

/// The whole verdict on a target: file-system checks first, then its header.
pub open spec fn target_verdict(f: FileFacts, b: Seq<u8>) -> Result<(), ErrorKind> {
    match facts_verdict(f) {
        Err(e) => Err(e),
        Ok(()) => header_verdict(b),
    }
}

/// Reads the little-endian 16-bit field at `i`.
fn read_le_u16(b: &[u8], i: usize) -> (r: u16)
    requires
        i + 1 < b@.len(),
    ensures
        r as int == le_u16_at(b@, i as int),
{
    b[i] as u16 + 256 * (b[i + 1] as u16)
}

/// Classifies the file-system facts of a target path.
pub fn check_file_facts(f: &FileFacts) -> (r: Result<(), ErrorKind>)
    ensures
        r == facts_verdict(*f),
{
    if !f.exists {
        Err(ErrorKind::TargetNotFound)
    } else if !f.is_file {
        Err(ErrorKind::NotAFile)
    } else if f.mode & EXEC_BITS == 0 {
        Err(ErrorKind::NotExecutable)
    } else {
        Ok(())
    }
}

/// Classifies the leading bytes of a target: an ELF file of the 64-bit class,
/// for x86-64, that is an executable or a position-independent executable.
pub fn inspect_header(b: &[u8]) -> (r: Result<(), ErrorKind>)
    ensures
        r == header_verdict(b@),
{
    if b.len() < HEADER_LEN || b[0] != 0x7F || b[1] != 0x45 || b[2] != 0x4C || b[3] != 0x46 {
        proof {
            if b@.len() >= HEADER_LEN {
                assert(b@.subrange(0, 4)[0] == b@[0]);
                assert(b@.subrange(0, 4)[1] == b@[1]);
                assert(b@.subrange(0, 4)[2] == b@[2]);
                assert(b@.subrange(0, 4)[3] == b@[3]);
            }
        }
        return Err(ErrorKind::NotElf);
    }
    assert(b@.subrange(0, 4) =~= elf_magic());
    if b[4] != CLASS_64 {
        return Err(ErrorKind::Not64Bit);
    }
    let machine = read_le_u16(b, 18);
    if machine != MACHINE_X86_64 {
        return Err(ErrorKind::WrongArch(machine));
    }
    let object_type = read_le_u16(b, 16);
    if object_type != TYPE_EXEC && object_type != TYPE_DYN {
        return Err(ErrorKind::NotExecutableType(object_type));
    }
    Ok(())
}

/// Classifies a target from its file-system facts and its leading bytes;
/// the bytes are looked at only when the facts pass.
pub fn validate_target(f: &FileFacts, b: &[u8]) -> (r: Result<(), ErrorKind>)
    ensures
        r == target_verdict(*f, b@),
{
    match check_file_facts(f) {
        Err(e) => Err(e),
        Ok(()) => inspect_header(b),
    }
}

/// A buffer shorter than the header, or one without the ELF magic, is
/// rejected as not ELF, whatever else it holds.
pub proof fn lemma_short_or_unmarked_is_not_elf(f: FileFacts, b: Seq<u8>)
    requires
        facts_verdict(f) is Ok,
        b.len() < HEADER_LEN || b.subrange(0, 4) != elf_magic(),
    ensures
        target_verdict(f, b) == Err::<(), ErrorKind>(ErrorKind::NotElf),
{
}

/// An ELF buffer whose class byte is not the 64-bit class is rejected as
/// not 64-bit, never with a later check's error.
pub proof fn lemma_wrong_class_is_not_64bit(f: FileFacts, b: Seq<u8>)
    requires
        facts_verdict(f) is Ok,
        has_elf_prefix(b),
        b[4] != CLASS_64,
    ensures
        target_verdict(f, b) == Err::<(), ErrorKind>(ErrorKind::Not64Bit),
{
}

/// A 64-bit ELF buffer for another machine is rejected as the wrong
/// architecture, and the error holds the machine field's value.
pub proof fn lemma_foreign_machine_is_wrong_arch(f: FileFacts, b: Seq<u8>)
    requires
        facts_verdict(f) is Ok,
        has_elf_prefix(b),
        b[4] == CLASS_64,
        machine_of(b) != MACHINE_X86_64,
    ensures
        target_verdict(f, b) == Err::<(), ErrorKind>(ErrorKind::WrongArch(machine_of(b) as u16)),
        0 <= machine_of(b) <= 0xFFFF,
{
}

/// A 64-bit x86-64 ELF buffer whose object type is neither executable nor
/// shared is rejected, and the error holds the type field's value.
pub proof fn lemma_foreign_type_is_not_executable_type(f: FileFacts, b: Seq<u8>)
    requires
        facts_verdict(f) is Ok,
        has_elf_prefix(b),
        b[4] == CLASS_64,
        machine_of(b) == MACHINE_X86_64,
        object_type_of(b) != TYPE_EXEC,
        object_type_of(b) != TYPE_DYN,
    ensures
        target_verdict(f, b) == Err::<(), ErrorKind>(
            ErrorKind::NotExecutableType(object_type_of(b) as u16),
        ),
        0 <= object_type_of(b) <= 0xFFFF,
{
}

} // verus!
