//! The platform a resolution runs on, and the names it goes by remotely.

use vstd::prelude::*;

verus! {

/// An operating system the language server is published for.
#[derive(Clone, Copy, Debug, PartialEq, Eq, Structural)]
pub enum Os {
    Mac,
    Linux,
    Windows,
}

/// A processor architecture the language server is published for.
#[derive(Clone, Copy, Debug, PartialEq, Eq, Structural)]
pub enum Arch {
    Aarch64,
    X86,
    X8664,
}

/// The kind of archive an asset is packed as.
#[derive(Clone, Copy, Debug, PartialEq, Eq, Structural)]
pub enum ArchiveKind {
    GzipTar,
    Zip,
}

/// Operating system and architecture of one resolution.
#[derive(Clone, Copy, Debug, PartialEq, Eq, Structural)]
pub struct PlatformTarget {
    pub os: Os,
    pub arch: Arch,
}

/// The name of an operating system in asset and target names.
pub open spec fn os_token(os: Os) -> Seq<char> {
    match os {
        Os::Mac => "macos"@,
        Os::Linux => "linux"@,
        Os::Windows => "windows"@,
    }
}

/// The name of an architecture in asset and target names.
pub open spec fn arch_token(arch: Arch) -> Seq<char> {
    match arch {
        Arch::Aarch64 => "aarch64"@,
        Arch::X86 => "x86"@,
        Arch::X8664 => "x86_64"@,
    }
}

/// The target name `<arch>-<os>` under which a platform's asset is listed.
pub open spec fn target_token(platform: PlatformTarget) -> Seq<char> {
    arch_token(platform.arch) + "-"@ + os_token(platform.os)
}

impl Os {
    /// The name of this operating system in asset and target names.
    pub fn token(self) -> (r: &'static str)
        ensures
            r@ == os_token(self),
    {
        match self {
            Os::Mac => "macos",
            Os::Linux => "linux",
            Os::Windows => "windows",
        }
    }
}

impl Arch {
    /// The name of this architecture in asset and target names.
    pub fn token(self) -> (r: &'static str)
        ensures
            r@ == arch_token(self),
    {
        match self {
            Arch::Aarch64 => "aarch64",
            Arch::X86 => "x86",
            Arch::X8664 => "x86_64",
        }
    }
}

impl PlatformTarget {
    /// The target name `<arch>-<os>`, as in `aarch64-macos`.
    pub fn token(self) -> (r: String)
        ensures
            r@ == target_token(self),
    {
        let mut r = String::from_str(self.arch.token());
        r.append("-");
        r.append(self.os.token());
        r
    }
}

} // verus!
