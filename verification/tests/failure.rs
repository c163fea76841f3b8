use zed_turborepo::failure::{Failure, FailureKind};
use zed_turborepo::platform::{Architecture, Os, PlatformTarget};

#[test]
fn lookup_failures() {
    let unreachable = Failure::registry_unreachable("connection refused");
    assert_eq!(unreachable.kind, FailureKind::Lookup);
    assert_eq!(unreachable.message, "Failed to query VS Code Marketplace: connection refused");

    let malformed = Failure::registry_malformed("expected value at line 1 column 1");
    assert_eq!(malformed.kind, FailureKind::Lookup);
    assert_eq!(
        malformed.message,
        "Failed to parse marketplace response: expected value at line 1 column 1"
    );

    assert_eq!(
        Failure::version_missing(),
        Failure {
            kind: FailureKind::Lookup,
            message: "Could not find extension version in marketplace response".to_string(),
        }
    );
    assert_eq!(
        Failure::files_missing(),
        Failure {
            kind: FailureKind::Lookup,
            message: "Could not find files array in marketplace response".to_string(),
        }
    );
    assert_eq!(
        Failure::archive_missing(),
        Failure {
            kind: FailureKind::Lookup,
            message: "Could not find VSIX download URL in marketplace response".to_string(),
        }
    );
}

#[test]
fn download_and_permission_failures() {
    assert_eq!(
        Failure::download_failed("disk full"),
        Failure {
            kind: FailureKind::Download,
            message: "Failed to download VSIX from marketplace: disk full".to_string(),
        }
    );
    assert_eq!(
        Failure::permission_failed("denied"),
        Failure {
            kind: FailureKind::Permission,
            message: "Failed to make binary executable: denied".to_string(),
        }
    );
}

#[test]
fn verification_failure_lists_what_was_found() {
    let target = PlatformTarget { os: Os::Linux, arch: Architecture::X8664 };
    let found = Some(vec![
        "turborepo-lsp-darwin-arm64".to_string(),
        "turborepo-lsp-win32-x64.exe".to_string(),
    ]);
    let failure = Failure::verification_failed("turborepo-lsp-linux-x64", &found, target);
    assert_eq!(failure.kind, FailureKind::Verification);
    assert_eq!(
        failure.message,
        "Binary 'turborepo-lsp-linux-x64' not found in VSIX.\n\
         Available binaries: turborepo-lsp-darwin-arm64, turborepo-lsp-win32-x64.exe\n\
         Your platform: Os::Linux Architecture::X8664"
    );
}

#[test]
fn verification_failure_without_a_listing() {
    let target = PlatformTarget { os: Os::Mac, arch: Architecture::Aarch64 };
    let failure = Failure::verification_failed("turborepo-lsp-darwin-arm64", &None, target);
    assert_eq!(
        failure.message,
        "Binary 'turborepo-lsp-darwin-arm64' not found in VSIX.\n\
         Available binaries: none found\n\
         Your platform: Os::Mac Architecture::Aarch64"
    );
    let empty = Failure::verification_failed("turborepo-lsp-darwin-arm64", &Some(vec![]), target);
    assert_eq!(
        empty.message,
        "Binary 'turborepo-lsp-darwin-arm64' not found in VSIX.\n\
         Available binaries: \n\
         Your platform: Os::Mac Architecture::Aarch64"
    );
}

#[test]
fn remediation_keeps_the_kind_and_wraps_the_cause() {
    let cause = Failure::download_failed("timed out");
    let shown = cause.with_remediation("turborepo-lsp-linux-x64");
    assert_eq!(shown.kind, FailureKind::Download);
    assert_eq!(
        shown.message,
        "turborepo-lsp auto-download failed: Failed to download VSIX from marketplace: timed out\n\n\
         Manual installation options:\n\n\
         1. Build from source:\n\
         git clone https://github.com/vercel/turborepo\n\
         cd turborepo/crates/turborepo-lsp\n\
         cargo build --release\n\
         # Binary at target/release/turborepo-lsp\n\n\
         2. Extract from VS Code extension:\n\
         - Install 'Turborepo' extension in VS Code\n\
         - Find binary at ~/.vscode/extensions/vercel.turbo-vsc-*/out/turborepo-lsp-linux-x64\n\n\
         3. Configure path in Zed settings.json:\n\
         {\n\
         \"lsp\": {\n\
         \"turborepo-lsp\": {\n\
         \"binary\": { \"path\": \"/path/to/turborepo-lsp\" }\n\
         }\n\
         }\n\
         }"
    );
}

#[test]
fn unsupported_platform_failure() {
    assert_eq!(
        Failure::unsupported_platform(),
        Failure {
            kind: FailureKind::UnsupportedPlatform,
            message: "32-bit x86 is not supported by turborepo-lsp".to_string(),
        }
    );
}
