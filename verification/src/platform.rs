//! The platforms a language server binary is published for, and how the
//! binary is named on each.

use vstd::prelude::*;
use crate::failure::{unsupported_platform, Failure};

verus! {

/// An operating system.
#[derive(Clone, Copy, Debug, PartialEq, Eq, Structural)]
pub enum Os {
    Mac,
    Linux,
    Windows,
}

/// A processor architecture.
#[derive(Clone, Copy, Debug, PartialEq, Eq, Structural)]
pub enum Architecture {
    Aarch64,
    X86,
    X8664,
}

/// The operating system and architecture that a binary has to run on.
#[derive(Clone, Copy, Debug, PartialEq, Eq, Structural)]
pub struct PlatformTarget {
    pub os: Os,
    pub arch: Architecture,
}

impl Os {
    /// The operating system as binary names spell it.
    pub open spec fn label(self) -> Seq<char> {
        match self {
            Os::Mac => "darwin"@,
            Os::Linux => "linux"@,
            Os::Windows => "win32"@,
        }
    }

    /// What follows the architecture in a binary's name.
    pub open spec fn extension(self) -> Seq<char> {
        match self {
            Os::Windows => ".exe"@,
            _ => ""@,
        }
    }

    /// The operating system as diagnostics spell it.
    pub open spec fn debug_label(self) -> Seq<char> {
        match self {
            Os::Mac => "Os::Mac"@,
            Os::Linux => "Os::Linux"@,
            Os::Windows => "Os::Windows"@,
        }
    }

    /// The operating system as diagnostics spell it.
    pub fn debug_name(self) -> (name: &'static str)
        ensures
            name@ == self.debug_label(),
    {
        match self {
            Os::Mac => "Os::Mac",
            Os::Linux => "Os::Linux",
            Os::Windows => "Os::Windows",
        }
    }
}

impl Architecture {
    /// The architecture as binary names spell it. Binaries exist for the
    /// 64-bit architectures only.
    pub open spec fn label(self) -> Option<Seq<char>> {
        match self {
            Architecture::Aarch64 => Some("arm64"@),
            Architecture::X8664 => Some("x64"@),
            Architecture::X86 => None,
        }
    }

    /// The architecture as diagnostics spell it.
    pub open spec fn debug_label(self) -> Seq<char> {
        match self {
            Architecture::Aarch64 => "Architecture::Aarch64"@,
            Architecture::X86 => "Architecture::X86"@,
            Architecture::X8664 => "Architecture::X8664"@,
        }
    }

    /// The architecture as diagnostics spell it.
    pub fn debug_name(self) -> (name: &'static str)
        ensures
            name@ == self.debug_label(),
    {
        match self {
            Architecture::Aarch64 => "Architecture::Aarch64",
            Architecture::X86 => "Architecture::X86",
            Architecture::X8664 => "Architecture::X8664",
        }
    }
}

impl PlatformTarget {
    /// Whether a binary is published for the platform.
    pub open spec fn supported(self) -> bool {
        self.arch.label() is Some
    }

    /// The file name of the binary for the platform. It means something for
    /// supported platforms only.
    pub open spec fn binary_name(self) -> Seq<char> {
        "turborepo-lsp-"@ + self.os.label() + "-"@ + self.arch.label().unwrap()
            + self.os.extension()
    }

    /// The file name of the binary for the platform, or the failure that
    /// says there is none.
    pub open spec fn binary_name_or_failure(self) -> Result<Seq<char>, crate::failure::FailureView> {
        if self.supported() {
            Ok(self.binary_name())
        } else {
            Err(unsupported_platform())
        }
    }
}

/// The names under which the language server may be installed on the search
/// path, in the order in which they are tried.
pub open spec fn binary_names() -> Seq<Seq<char>> {
    seq![
        "turborepo-lsp"@,
        "turborepo-lsp-linux-x64"@,
        "turborepo-lsp-linux-arm64"@,
        "turborepo-lsp-darwin-x64"@,
        "turborepo-lsp-darwin-arm64"@,
    ]
}

/// The names of a sequence of string slices.
pub open spec fn texts(names: Seq<&'static str>) -> Seq<Seq<char>> {
    Seq::new(names.len(), |i: int| names[i]@)
}

/// The names under which the language server may be installed on the search
/// path: the plain name first, then one per platform.
pub fn get_binary_names() -> (names: Vec<&'static str>)
    ensures
        texts(names@) == binary_names(),
{
    let mut names: Vec<&'static str> = Vec::new();
    names.push("turborepo-lsp");
    names.push("turborepo-lsp-linux-x64");
    names.push("turborepo-lsp-linux-arm64");
    names.push("turborepo-lsp-darwin-x64");
    names.push("turborepo-lsp-darwin-arm64");
    assert(texts(names@) =~= binary_names());
    names
}

/// The canonical file name of the binary for a platform:
/// `turborepo-lsp-<os>-<cpu>`, with `.exe` on Windows. 32-bit x86 has no
/// binary, whatever the operating system.
pub fn get_platform_binary_name(target: PlatformTarget) -> (name: Result<String, Failure>)
    ensures
        crate::failure::outcome_view(name) == target.binary_name_or_failure(),
{
    let os = match target.os {
        Os::Mac => "darwin",
        Os::Linux => "linux",
        Os::Windows => "win32",
    };
    let cpu = match target.arch {
        Architecture::Aarch64 => "arm64",
        Architecture::X8664 => "x64",
        Architecture::X86 => {
            return Err(Failure::unsupported_platform());
        },
    };
    let ext = match target.os {
        Os::Windows => ".exe",
        _ => "",
    };
    let mut name = String::from_str("turborepo-lsp-");
    name.append(os);
    name.append("-");
    name.append(cpu);
    name.append(ext);
    Ok(name)
}

} // verus!
