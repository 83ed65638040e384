use vstd::prelude::*;

verus! {

/// Every way the launch pipeline can stop before the target runs to completion.
#[derive(Clone, Debug, PartialEq, Eq)]
pub enum ErrorKind {
    /// The target path does not exist.
    TargetNotFound,
    /// The target path exists but is not a regular file.
    NotAFile,
    /// No execute permission bit is set for owner, group or other.
    NotExecutable,
    /// Shorter than an ELF header, or the magic prefix is missing.
    NotElf,
    /// The ELF class byte is not the 64-bit class.
    Not64Bit,
    /// The machine field is not x86-64; holds the value found.
    WrongArch(u16),
    /// The object type is neither an executable nor a shared object; holds the value found.
    NotExecutableType(u16),
    /// The injection library is in none of the searched places.
    LibraryNotFound,
    /// The operating system refused to start the target; holds its message.
    LaunchFailed(String),
}

} // verus!
