//! Why a resolution of the language server binary failed, and the text shown
//! to the user for it.

use vstd::prelude::*;
use crate::platform::PlatformTarget;
use crate::text::{join, joined};

verus! {

/// The kinds of failure that the install path can end in.
#[derive(Clone, Copy, Debug, PartialEq, Eq, Structural)]
pub enum FailureKind {
    /// No binary is published for the platform: permanent, never retried.
    UnsupportedPlatform,
    /// The registry could not be reached, or its answer could not be used.
    Lookup,
    /// The archive could not be fetched or unpacked.
    Download,
    /// The unpacked binary could not be marked executable.
    Permission,
    /// The archive was unpacked, and the binary is not where it should be.
    Verification,
}

/// A failure: its kind, and the text for the user.
#[derive(Debug, PartialEq, Eq)]
pub struct Failure {
    pub kind: FailureKind,
    pub message: String,
}

/// A failure as a mathematical value.
pub struct FailureView {
    pub kind: FailureKind,
    pub message: Seq<char>,
}

impl View for Failure {
    type V = FailureView;

    open spec fn view(&self) -> FailureView {
        FailureView { kind: self.kind, message: self.message@ }
    }
}

/// The view of a path or a failure.
pub open spec fn outcome_view(r: Result<String, Failure>) -> Result<Seq<char>, FailureView> {
    match r {
        Ok(path) => Ok(path@),
        Err(failure) => Err(failure@),
    }
}

/// The failure for a platform without a published binary.
pub open spec fn unsupported_platform() -> FailureView {
    FailureView {
        kind: FailureKind::UnsupportedPlatform,
        message: "32-bit x86 is not supported by turborepo-lsp"@,
    }
}

/// The failure for a registry that could not be reached; `cause` is the
/// transport's own text.
pub open spec fn registry_unreachable(cause: Seq<char>) -> FailureView {
    FailureView {
        kind: FailureKind::Lookup,
        message: "Failed to query VS Code Marketplace: "@ + cause,
    }
}

/// The failure for a registry answer that is not well-formed JSON; `cause` is
/// the parser's own text.
pub open spec fn registry_malformed(cause: Seq<char>) -> FailureView {
    FailureView {
        kind: FailureKind::Lookup,
        message: "Failed to parse marketplace response: "@ + cause,
    }
}

/// The failure for a registry answer without a version string.
pub open spec fn version_missing() -> FailureView {
    FailureView {
        kind: FailureKind::Lookup,
        message: "Could not find extension version in marketplace response"@,
    }
}

/// The failure for a registry answer without a list of files.
pub open spec fn files_missing() -> FailureView {
    FailureView {
        kind: FailureKind::Lookup,
        message: "Could not find files array in marketplace response"@,
    }
}

/// The failure for a registry answer that offers no archive.
pub open spec fn archive_missing() -> FailureView {
    FailureView {
        kind: FailureKind::Lookup,
        message: "Could not find VSIX download URL in marketplace response"@,
    }
}

/// The failure for an archive that could not be fetched or unpacked; `cause`
/// is the host's own text.
pub open spec fn download_failed(cause: Seq<char>) -> FailureView {
    FailureView {
        kind: FailureKind::Download,
        message: "Failed to download VSIX from marketplace: "@ + cause,
    }
}

/// The failure for a binary that could not be marked executable; `cause` is
/// the host's own text.
pub open spec fn permission_failed(cause: Seq<char>) -> FailureView {
    FailureView {
        kind: FailureKind::Permission,
        message: "Failed to make binary executable: "@ + cause,
    }
}

/// The names that the verification failure lists: those found beside the
/// expected binary, or a fixed phrase where the directory could not be read.
pub open spec fn available_text(found: Option<Seq<Seq<char>>>) -> Seq<char> {
    match found {
        Some(names) => joined(names, ", "@),
        None => "none found"@,
    }
}

/// The failure for an archive that did not hold the expected binary. `found`
/// are the binaries that the archive did hold.
pub open spec fn verification_failed(
    binary_name: Seq<char>,
    found: Option<Seq<Seq<char>>>,
    target: PlatformTarget,
) -> FailureView {
    FailureView {
        kind: FailureKind::Verification,
        message: "Binary '"@ + binary_name + "' not found in VSIX.\nAvailable binaries: "@
            + available_text(found) + "\nYour platform: "@ + target.os.debug_label() + " "@
            + target.arch.debug_label(),
    }
}

/// The text put in front of the cause of a failed installation.
pub open spec fn remediation_head() -> Seq<char> {
    "turborepo-lsp auto-download failed: "@
}

/// The manual installation options, up to the name of the binary.
pub open spec fn remediation_options() -> Seq<char> {
    "\n\nManual installation options:\n\n1. Build from source:\ngit clone https://github.com/vercel/turborepo\ncd turborepo/crates/turborepo-lsp\ncargo build --release\n# Binary at target/release/turborepo-lsp\n\n2. Extract from VS Code extension:\n- Install 'Turborepo' extension in VS Code\n- Find binary at ~/.vscode/extensions/vercel.turbo-vsc-*/out/"@
}

/// The manual installation options after the name of the binary.
pub open spec fn remediation_tail() -> Seq<char> {
    "\n\n3. Configure path in Zed settings.json:\n{\n\"lsp\": {\n\"turborepo-lsp\": {\n\"binary\": { \"path\": \"/path/to/turborepo-lsp\" }\n}\n}\n}"@
}

/// A failure of the install path as the user sees it: the same kind, and the
/// cause followed by the three ways to install the binary by hand.
pub open spec fn with_remediation(cause: FailureView, binary_name: Seq<char>) -> FailureView {
    FailureView {
        kind: cause.kind,
        message: remediation_head() + cause.message + remediation_options() + binary_name
            + remediation_tail(),
    }
}

impl Failure {
    /// A failure of the given kind whose text is `head` followed by `cause`.
    fn prefixed(kind: FailureKind, head: &str, cause: &str) -> (failure: Failure)
        ensures
            failure@ == (FailureView { kind, message: head@ + cause@ }),
    {
        let mut message = String::from_str(head);
        message.append(cause);
        Failure { kind, message }
    }

    /// See [`unsupported_platform`].
    pub fn unsupported_platform() -> (failure: Failure)
        ensures
            failure@ == unsupported_platform(),
    {
        Failure {
            kind: FailureKind::UnsupportedPlatform,
            message: String::from_str("32-bit x86 is not supported by turborepo-lsp"),
        }
    }

    /// See [`registry_unreachable`].
    pub fn registry_unreachable(cause: &str) -> (failure: Failure)
        ensures
            failure@ == registry_unreachable(cause@),
    {
        Failure::prefixed(FailureKind::Lookup, "Failed to query VS Code Marketplace: ", cause)
    }

    /// See [`registry_malformed`].
    pub fn registry_malformed(cause: &str) -> (failure: Failure)
        ensures
            failure@ == registry_malformed(cause@),
    {
        Failure::prefixed(FailureKind::Lookup, "Failed to parse marketplace response: ", cause)
    }

    /// See [`version_missing`].
    pub fn version_missing() -> (failure: Failure)
        ensures
            failure@ == version_missing(),
    {
        Failure {
            kind: FailureKind::Lookup,
            message: String::from_str("Could not find extension version in marketplace response"),
        }
    }

    /// See [`files_missing`].
    pub fn files_missing() -> (failure: Failure)
        ensures
            failure@ == files_missing(),
    {
        Failure {
            kind: FailureKind::Lookup,
            message: String::from_str("Could not find files array in marketplace response"),
        }
    }

    /// See [`archive_missing`].
    pub fn archive_missing() -> (failure: Failure)
        ensures
            failure@ == archive_missing(),
    {
        Failure {
            kind: FailureKind::Lookup,
            message: String::from_str("Could not find VSIX download URL in marketplace response"),
        }
    }

    /// See [`download_failed`].
    pub fn download_failed(cause: &str) -> (failure: Failure)
        ensures
            failure@ == download_failed(cause@),
    {
        Failure::prefixed(
            FailureKind::Download,
            "Failed to download VSIX from marketplace: ",
            cause,
        )
    }

    /// See [`permission_failed`].
    pub fn permission_failed(cause: &str) -> (failure: Failure)
        ensures
            failure@ == permission_failed(cause@),
    {
        Failure::prefixed(FailureKind::Permission, "Failed to make binary executable: ", cause)
    }

    /// See [`verification_failed`].
    pub fn verification_failed(
        binary_name: &str,
        found: &Option<Vec<String>>,
        target: PlatformTarget,
    ) -> (failure: Failure)
        ensures
            failure@ == verification_failed(binary_name@, found.deep_view(), target),
    {
        let available = match found {
            Some(names) => join(names, ", "),
            None => String::from_str("none found"),
        };
        let mut message = String::from_str("Binary '");
        message.append(binary_name);
        message.append("' not found in VSIX.\nAvailable binaries: ");
        message.append(available.as_str());
        message.append("\nYour platform: ");
        message.append(target.os.debug_name());
        message.append(" ");
        message.append(target.arch.debug_name());
        Failure { kind: FailureKind::Verification, message }
    }

    /// See [`with_remediation`].
    pub fn with_remediation(&self, binary_name: &str) -> (failure: Failure)
        ensures
            failure@ == with_remediation(self@, binary_name@),
    {
        let mut message = String::from_str("turborepo-lsp auto-download failed: ");
        message.append(self.message.as_str());
        message.append(
            "\n\nManual installation options:\n\n1. Build from source:\ngit clone https://github.com/vercel/turborepo\ncd turborepo/crates/turborepo-lsp\ncargo build --release\n# Binary at target/release/turborepo-lsp\n\n2. Extract from VS Code extension:\n- Install 'Turborepo' extension in VS Code\n- Find binary at ~/.vscode/extensions/vercel.turbo-vsc-*/out/",
        );
        message.append(binary_name);
        message.append(
            "\n\n3. Configure path in Zed settings.json:\n{\n\"lsp\": {\n\"turborepo-lsp\": {\n\"binary\": { \"path\": \"/path/to/turborepo-lsp\" }\n}\n}\n}",
        );
        Failure { kind: self.kind, message }
    }
}

} // verus!
