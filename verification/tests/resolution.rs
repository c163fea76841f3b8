use std::collections::{BTreeMap, BTreeSet};

use zed_turborepo::failure::{Failure, FailureKind};
use zed_turborepo::platform::{Architecture, Os, PlatformTarget};
use zed_turborepo::protocol::{InstallationStatus, Reply, Request};
use zed_turborepo::registry::registry_query;
use zed_turborepo::resolver::{Step, TurboExtension};

const LINUX: PlatformTarget = PlatformTarget { os: Os::Linux, arch: Architecture::X8664 };
const OLD_PC: PlatformTarget = PlatformTarget { os: Os::Windows, arch: Architecture::X86 };
const BINARY: &str = "turborepo-lsp-linux-x64";
const INSTALLED: &str = "turbo-vsc-2.3.1/extension/out/turborepo-lsp-linux-x64";
const ARCHIVE: &str = "https://example/pkg.zip";

/// A host that lives in memory and keeps a record of what it was asked.
struct FakeHost {
    files: BTreeSet<String>,
    search_path: BTreeMap<String, String>,
    entries: Option<Vec<String>>,
    registry: Result<Vec<u8>, String>,
    archives: BTreeMap<String, Vec<String>>,
    download_error: String,
    unmarkable: BTreeMap<String, String>,
    undeletable: BTreeSet<String>,
    statuses: Vec<InstallationStatus>,
    asked: Vec<Request>,
}

fn registry_answer(version: &str, url: &str) -> Vec<u8> {
    format!(
        r#"{{"results":[{{"extensions":[{{"versions":[{{"version":"{version}","files":[{{"assetType":"Microsoft.VisualStudio.Services.Icons.Default","source":"https://example/icon.png"}},{{"assetType":"Microsoft.VisualStudio.Services.VSIXPackage","source":"{url}"}}]}}]}}]}}]}}"#
    )
    .into_bytes()
}

impl FakeHost {
    /// An empty working directory, nothing on the search path, and a registry
    /// that offers version 2.3.1 with binaries for Linux and macOS.
    fn new() -> FakeHost {
        let mut archives = BTreeMap::new();
        archives.insert(
            ARCHIVE.to_string(),
            vec![
                "extension/package.json".to_string(),
                "extension/out/turborepo-lsp-linux-x64".to_string(),
                "extension/out/turborepo-lsp-darwin-arm64".to_string(),
            ],
        );
        FakeHost {
            files: BTreeSet::new(),
            search_path: BTreeMap::new(),
            entries: Some(Vec::new()),
            registry: Ok(registry_answer("2.3.1", ARCHIVE)),
            archives,
            download_error: "connection reset".to_string(),
            unmarkable: BTreeMap::new(),
            undeletable: BTreeSet::new(),
            statuses: Vec::new(),
            asked: Vec::new(),
        }
    }

    fn with_file(mut self, path: &str) -> FakeHost {
        self.files.insert(path.to_string());
        self
    }

    fn with_entries(mut self, entries: &[&str]) -> FakeHost {
        self.entries = Some(entries.iter().map(|entry| entry.to_string()).collect());
        self
    }

    fn with_on_path(mut self, name: &str, path: &str) -> FakeHost {
        self.search_path.insert(name.to_string(), path.to_string());
        self
    }

    fn listing(&self, directory: &str) -> Option<Vec<String>> {
        let prefix = format!("{directory}/");
        let names: Vec<String> = self
            .files
            .iter()
            .filter_map(|path| path.strip_prefix(&prefix))
            .filter(|rest| !rest.contains('/'))
            .map(|rest| rest.to_string())
            .collect();
        if names.is_empty() {
            None
        } else {
            Some(names)
        }
    }

    fn answer(&mut self, request: Request) -> Reply {
        let reply = match &request {
            Request::ProbeFile(path) => Reply::Probed(self.files.contains(path)),
            Request::SearchPath(name) => Reply::Located(self.search_path.get(name).cloned()),
            Request::ListWorkingDir => Reply::Listing(self.entries.clone()),
            Request::ListOutputDir(path) => Reply::Listing(self.listing(path)),
            Request::ReportStatus(status) => {
                self.statuses.push(match status {
                    InstallationStatus::Idle => InstallationStatus::Idle,
                    InstallationStatus::Downloading => InstallationStatus::Downloading,
                    InstallationStatus::Failed(cause) => InstallationStatus::Failed(cause.clone()),
                });
                Reply::Acknowledged
            }
            Request::QueryRegistry(_) => Reply::Fetched(self.registry.clone()),
            Request::RemoveDir(name) => {
                if !self.undeletable.contains(name) {
                    let prefix = format!("{name}/");
                    self.files.retain(|path| !path.starts_with(&prefix));
                    if let Some(entries) = &mut self.entries {
                        entries.retain(|entry| entry != name);
                    }
                }
                Reply::Acknowledged
            }
            Request::Download { url, directory } => match self.archives.get(url) {
                Some(paths) => {
                    for path in paths {
                        self.files.insert(format!("{directory}/{path}"));
                    }
                    if let Some(entries) = &mut self.entries {
                        if !entries.contains(directory) {
                            entries.push(directory.clone());
                        }
                    }
                    Reply::Completed(Ok(()))
                }
                None => Reply::Completed(Err(self.download_error.clone())),
            },
            Request::MakeExecutable(path) => Reply::Completed(match self.unmarkable.get(path) {
                Some(cause) => Err(cause.clone()),
                None => Ok(()),
            }),
        };
        self.asked.push(request);
        reply
    }

    fn used_network(&self) -> bool {
        self.asked
            .iter()
            .any(|request| matches!(request, Request::QueryRegistry(_) | Request::Download { .. }))
    }

    fn listed_working_dir(&self) -> bool {
        self.asked.iter().any(|request| matches!(request, Request::ListWorkingDir))
    }

    fn version_dirs(&self) -> Vec<String> {
        self.entries
            .clone()
            .unwrap_or_default()
            .into_iter()
            .filter(|entry| entry.starts_with("turbo-vsc-"))
            .collect()
    }
}

fn drive(mut step: Step, host: &mut FakeHost) -> (TurboExtension, Result<String, Failure>) {
    loop {
        match step {
            Step::Done(extension, outcome) => return (extension, outcome),
            Step::Continue(resolution) => {
                let request = resolution.request();
                let reply = host.answer(request);
                step = resolution.advance(reply);
            }
        }
    }
}

fn resolve(
    extension: TurboExtension,
    target: PlatformTarget,
    configured: Option<&str>,
    host: &mut FakeHost,
) -> (TurboExtension, Result<String, Failure>) {
    host.asked.clear();
    host.statuses.clear();
    drive(
        extension.language_server_binary_path(target, configured.map(|path| path.to_string())),
        host,
    )
}

fn install(
    extension: TurboExtension,
    target: PlatformTarget,
    host: &mut FakeHost,
) -> (TurboExtension, Result<String, Failure>) {
    host.asked.clear();
    host.statuses.clear();
    drive(extension.download_and_extract_binary(target), host)
}

fn probe(path: &str) -> Request {
    Request::ProbeFile(path.to_string())
}

fn search(name: &str) -> Request {
    Request::SearchPath(name.to_string())
}

fn all_searches() -> Vec<Request> {
    vec![
        search("turborepo-lsp"),
        search("turborepo-lsp-linux-x64"),
        search("turborepo-lsp-linux-arm64"),
        search("turborepo-lsp-darwin-x64"),
        search("turborepo-lsp-darwin-arm64"),
    ]
}

const REMEDIATION: &str = "\n\nManual installation options:\n\n\
    1. Build from source:\n\
    git clone https://github.com/vercel/turborepo\n\
    cd turborepo/crates/turborepo-lsp\n\
    cargo build --release\n\
    # Binary at target/release/turborepo-lsp\n\n\
    2. Extract from VS Code extension:\n\
    - Install 'Turborepo' extension in VS Code\n\
    - Find binary at ~/.vscode/extensions/vercel.turbo-vsc-*/out/turborepo-lsp-linux-x64\n\n\
    3. Configure path in Zed settings.json:\n\
    {\n\
    \"lsp\": {\n\
    \"turborepo-lsp\": {\n\
    \"binary\": { \"path\": \"/path/to/turborepo-lsp\" }\n\
    }\n\
    }\n\
    }";

fn decorated(cause: &str) -> String {
    format!("turborepo-lsp auto-download failed: {cause}{REMEDIATION}")
}

#[test]
fn new_extension_remembers_nothing() {
    assert_eq!(TurboExtension::new().cached_binary_path(), None);
}

#[test]
fn configured_path_wins_when_every_place_has_a_binary() {
    let mut host = FakeHost::new()
        .with_file("/opt/custom/lsp")
        .with_on_path("turborepo-lsp", "/usr/bin/turborepo-lsp")
        .with_file("/usr/bin/turborepo-lsp")
        .with_entries(&["turbo-vsc-2.0.0"])
        .with_file("turbo-vsc-2.0.0/extension/out/turborepo-lsp-linux-x64");
    let (extension, first) = resolve(TurboExtension::new(), LINUX, None, &mut host);
    assert_eq!(first, Ok("/usr/bin/turborepo-lsp".to_string()));
    assert_eq!(extension.cached_binary_path(), Some("/usr/bin/turborepo-lsp".to_string()));

    let (extension, outcome) = resolve(extension, LINUX, Some("/opt/custom/lsp"), &mut host);
    assert_eq!(outcome, Ok("/opt/custom/lsp".to_string()));
    assert_eq!(host.asked, vec![probe("/opt/custom/lsp")]);
    assert_eq!(extension.cached_binary_path(), Some("/usr/bin/turborepo-lsp".to_string()));
}

#[test]
fn configured_path_that_is_no_file_is_passed_over() {
    let mut host = FakeHost::new().with_on_path("turborepo-lsp-linux-arm64", "/bin/arm");
    let (extension, outcome) = resolve(TurboExtension::new(), LINUX, Some("/missing"), &mut host);
    assert_eq!(outcome, Ok("/bin/arm".to_string()));
    assert_eq!(
        host.asked,
        vec![
            probe("/missing"),
            search("turborepo-lsp"),
            search("turborepo-lsp-linux-x64"),
            search("turborepo-lsp-linux-arm64"),
        ]
    );
    assert_eq!(extension.cached_binary_path(), Some("/bin/arm".to_string()));
}

#[test]
fn first_name_on_the_search_path_wins() {
    let mut host = FakeHost::new()
        .with_on_path("turborepo-lsp-darwin-arm64", "/late")
        .with_on_path("turborepo-lsp-linux-x64", "/early");
    let (_, outcome) = resolve(TurboExtension::new(), LINUX, None, &mut host);
    assert_eq!(outcome, Ok("/early".to_string()));
    assert_eq!(host.asked, vec![search("turborepo-lsp"), search("turborepo-lsp-linux-x64")]);
}

#[test]
fn search_path_result_is_not_probed() {
    let mut host = FakeHost::new().with_on_path("turborepo-lsp", "/not/a/file");
    let (_, outcome) = resolve(TurboExtension::new(), LINUX, None, &mut host);
    assert_eq!(outcome, Ok("/not/a/file".to_string()));
    assert_eq!(host.asked, vec![search("turborepo-lsp")]);
}

#[test]
fn remembered_path_is_probed_before_the_disk_is_scanned() {
    let mut host = FakeHost::new().with_on_path("turborepo-lsp", "/usr/bin/lsp").with_file("/usr/bin/lsp");
    let (extension, _) = resolve(TurboExtension::new(), LINUX, None, &mut host);
    host.search_path.clear();
    host = host
        .with_entries(&["turbo-vsc-2.0.0"])
        .with_file("turbo-vsc-2.0.0/extension/out/turborepo-lsp-linux-x64");

    let (extension, outcome) = resolve(extension, LINUX, None, &mut host);
    assert_eq!(outcome, Ok("/usr/bin/lsp".to_string()));
    let mut expected = all_searches();
    expected.push(probe("/usr/bin/lsp"));
    assert_eq!(host.asked, expected);
    assert!(!host.listed_working_dir());
    assert_eq!(extension.cached_binary_path(), Some("/usr/bin/lsp".to_string()));
}

#[test]
fn remembered_path_that_vanished_is_passed_over() {
    let mut host = FakeHost::new().with_on_path("turborepo-lsp", "/usr/bin/lsp");
    let (extension, _) = resolve(TurboExtension::new(), LINUX, None, &mut host);
    host.search_path.clear();
    host = host
        .with_entries(&["turbo-vsc-2.0.0"])
        .with_file("turbo-vsc-2.0.0/extension/out/turborepo-lsp-linux-x64");

    let (extension, outcome) = resolve(extension, LINUX, None, &mut host);
    assert_eq!(outcome, Ok("turbo-vsc-2.0.0/extension/out/turborepo-lsp-linux-x64".to_string()));
    assert!(!host.used_network());
    assert_eq!(
        extension.cached_binary_path(),
        Some("turbo-vsc-2.0.0/extension/out/turborepo-lsp-linux-x64".to_string())
    );
}

#[test]
fn remembered_path_that_vanished_is_forgotten() {
    let mut host = FakeHost::new().with_on_path("turborepo-lsp", "/usr/bin/lsp");
    let (extension, _) = resolve(TurboExtension::new(), LINUX, None, &mut host);
    assert_eq!(extension.cached_binary_path(), Some("/usr/bin/lsp".to_string()));
    host.search_path.clear();
    host.registry = Err("offline".to_string());

    let (extension, outcome) = resolve(extension, LINUX, None, &mut host);
    assert_eq!(outcome.unwrap_err().kind, FailureKind::Lookup);
    assert!(host.asked.contains(&probe("/usr/bin/lsp")));
    assert_eq!(extension.cached_binary_path(), None);

    host = host.with_file("/usr/bin/lsp");
    let (_, outcome) = resolve(extension, LINUX, None, &mut host);
    assert!(outcome.is_err());
    assert!(!host.asked.contains(&probe("/usr/bin/lsp")));
}

#[test]
fn earlier_installation_is_found_in_listing_order() {
    let mut host = FakeHost::new()
        .with_entries(&["node_modules", "turbo-vsc-1.0.0", "turbo-vsc-2.0.0", "turbo-vsc-3.0.0"])
        .with_file("turbo-vsc-1.0.0/extension/out/turborepo-lsp-darwin-arm64")
        .with_file("turbo-vsc-2.0.0/extension/out/turborepo-lsp-linux-x64")
        .with_file("turbo-vsc-3.0.0/extension/out/turborepo-lsp-linux-x64");
    let (extension, outcome) = resolve(TurboExtension::new(), LINUX, None, &mut host);
    assert_eq!(outcome, Ok("turbo-vsc-2.0.0/extension/out/turborepo-lsp-linux-x64".to_string()));
    let mut expected = all_searches();
    expected.push(Request::ListWorkingDir);
    expected.push(probe("turbo-vsc-1.0.0/extension/out/turborepo-lsp-linux-x64"));
    expected.push(probe("turbo-vsc-2.0.0/extension/out/turborepo-lsp-linux-x64"));
    assert_eq!(host.asked, expected);
    assert!(host.statuses.is_empty());
    assert_eq!(
        extension.cached_binary_path(),
        Some("turbo-vsc-2.0.0/extension/out/turborepo-lsp-linux-x64".to_string())
    );
}

#[test]
fn end_to_end_installation() {
    let mut host = FakeHost::new();
    let (extension, outcome) = resolve(TurboExtension::new(), LINUX, None, &mut host);
    assert_eq!(outcome, Ok(INSTALLED.to_string()));
    assert_eq!(extension.cached_binary_path(), Some(INSTALLED.to_string()));
    let mut expected = all_searches();
    expected.extend([
        Request::ListWorkingDir,
        Request::ReportStatus(InstallationStatus::Downloading),
        Request::QueryRegistry(registry_query()),
        probe(INSTALLED),
        Request::ListWorkingDir,
        Request::Download { url: ARCHIVE.to_string(), directory: "turbo-vsc-2.3.1".to_string() },
        Request::MakeExecutable(INSTALLED.to_string()),
        probe(INSTALLED),
    ]);
    assert_eq!(host.asked, expected);
    assert_eq!(host.statuses, vec![InstallationStatus::Downloading]);
    assert!(host.files.contains(INSTALLED));

    let (extension, again) = resolve(extension, LINUX, None, &mut host);
    assert_eq!(again, Ok(INSTALLED.to_string()));
    assert_eq!(extension.cached_binary_path(), Some(INSTALLED.to_string()));
    let mut expected = all_searches();
    expected.push(probe(INSTALLED));
    assert_eq!(host.asked, expected);
    assert!(!host.listed_working_dir());
    assert!(!host.used_network());
}

#[test]
fn archive_for_another_platform_fails_verification() {
    let mut host = FakeHost::new();
    host.archives.insert(
        ARCHIVE.to_string(),
        vec![
            "extension/out/turborepo-lsp-darwin-arm64".to_string(),
            "extension/out/extension.js".to_string(),
        ],
    );
    let (extension, outcome) = resolve(TurboExtension::new(), LINUX, None, &mut host);
    let cause = "Binary 'turborepo-lsp-linux-x64' not found in VSIX.\n\
                 Available binaries: turborepo-lsp-darwin-arm64\n\
                 Your platform: Os::Linux Architecture::X8664";
    let failure = outcome.unwrap_err();
    assert_eq!(failure.kind, FailureKind::Verification);
    assert!(failure.message.contains("turborepo-lsp-darwin-arm64"));
    assert_eq!(failure.message, decorated(cause));
    assert_eq!(
        host.statuses,
        vec![InstallationStatus::Downloading, InstallationStatus::Failed(cause.to_string())]
    );
    assert_eq!(
        host.asked[host.asked.len() - 3..],
        [
            probe(INSTALLED),
            Request::ListOutputDir("turbo-vsc-2.3.1/extension/out".to_string()),
            Request::ReportStatus(InstallationStatus::Failed(cause.to_string())),
        ]
    );
    assert_eq!(extension.cached_binary_path(), None);
}

#[test]
fn empty_archive_fails_verification_with_nothing_found() {
    let mut host = FakeHost::new();
    host.archives.insert(ARCHIVE.to_string(), vec![]);
    let (_, outcome) = install(TurboExtension::new(), LINUX, &mut host);
    assert_eq!(
        outcome,
        Err(Failure {
            kind: FailureKind::Verification,
            message: "Binary 'turborepo-lsp-linux-x64' not found in VSIX.\n\
                      Available binaries: none found\n\
                      Your platform: Os::Linux Architecture::X8664"
                .to_string(),
        })
    );
}

#[test]
fn unsupported_platform_fails_without_network() {
    let mut host = FakeHost::new()
        .with_entries(&["turbo-vsc-2.0.0"])
        .with_file("turbo-vsc-2.0.0/extension/out/turborepo-lsp-win32-x64.exe");
    let (extension, outcome) = resolve(TurboExtension::new(), OLD_PC, Some("/missing"), &mut host);
    assert_eq!(outcome, Err(Failure::unsupported_platform()));
    let mut expected = vec![probe("/missing")];
    expected.extend(all_searches());
    assert_eq!(host.asked, expected);
    assert!(!host.used_network());
    assert!(host.statuses.is_empty());
    assert_eq!(extension.cached_binary_path(), None);
}

#[test]
fn unsupported_platform_still_finds_a_configured_binary() {
    let mut host = FakeHost::new().with_file("C:/tools/lsp.exe");
    let (_, outcome) = resolve(TurboExtension::new(), OLD_PC, Some("C:/tools/lsp.exe"), &mut host);
    assert_eq!(outcome, Ok("C:/tools/lsp.exe".to_string()));
}

#[test]
fn installation_for_an_unsupported_platform_asks_for_nothing() {
    let mut host = FakeHost::new();
    let (_, outcome) = install(TurboExtension::new(), OLD_PC, &mut host);
    assert_eq!(outcome, Err(Failure::unsupported_platform()));
    assert!(host.asked.is_empty());
}

#[test]
fn installing_twice_downloads_once() {
    let mut host = FakeHost::new();
    let (extension, first) = install(TurboExtension::new(), LINUX, &mut host);
    assert_eq!(first, Ok(INSTALLED.to_string()));
    assert!(host.asked.contains(&Request::Download {
        url: ARCHIVE.to_string(),
        directory: "turbo-vsc-2.3.1".to_string(),
    }));

    let (extension, second) = install(extension, LINUX, &mut host);
    assert_eq!(second, first);
    assert_eq!(
        host.asked,
        vec![
            Request::ReportStatus(InstallationStatus::Downloading),
            Request::QueryRegistry(registry_query()),
            probe(INSTALLED),
        ]
    );
    assert_eq!(extension.cached_binary_path(), Some(INSTALLED.to_string()));
}

#[test]
fn installation_deletes_the_other_versions_first() {
    let mut host = FakeHost::new()
        .with_entries(&["turbo-vsc-1.0.0", "src", "turbo-vsc-1.5.0", "turbo-vsc"])
        .with_file("turbo-vsc-1.0.0/extension/out/turborepo-lsp-darwin-arm64")
        .with_file("turbo-vsc-1.5.0/extension/package.json")
        .with_file("src/main.rs");
    let (_, outcome) = resolve(TurboExtension::new(), LINUX, None, &mut host);
    assert_eq!(outcome, Ok(INSTALLED.to_string()));
    assert_eq!(host.version_dirs(), vec!["turbo-vsc-2.3.1"]);
    assert_eq!(
        host.entries,
        Some(vec!["src".to_string(), "turbo-vsc".to_string(), "turbo-vsc-2.3.1".to_string()])
    );
    assert!(host.files.contains("src/main.rs"));
    assert!(!host.files.contains("turbo-vsc-1.5.0/extension/package.json"));
    let removals: Vec<&Request> =
        host.asked.iter().filter(|request| matches!(request, Request::RemoveDir(_))).collect();
    assert_eq!(
        removals,
        vec![
            &Request::RemoveDir("turbo-vsc-1.0.0".to_string()),
            &Request::RemoveDir("turbo-vsc-1.5.0".to_string()),
        ]
    );
    let download = host.asked.iter().position(|request| matches!(request, Request::Download { .. }));
    let last_removal = host.asked.iter().rposition(|request| matches!(request, Request::RemoveDir(_)));
    assert!(last_removal < download);
}

#[test]
fn reinstalling_over_a_broken_version_keeps_its_directory() {
    let mut host = FakeHost::new()
        .with_entries(&["turbo-vsc-2.3.1", "turbo-vsc-2.2.0"])
        .with_file("turbo-vsc-2.3.1/extension/package.json");
    let (_, outcome) = install(TurboExtension::new(), LINUX, &mut host);
    assert_eq!(outcome, Ok(INSTALLED.to_string()));
    assert_eq!(host.version_dirs(), vec!["turbo-vsc-2.3.1"]);
    assert!(host.files.contains("turbo-vsc-2.3.1/extension/package.json"));
}

#[test]
fn directory_that_cannot_be_deleted_does_not_stop_the_installation() {
    let mut host = FakeHost::new().with_entries(&["turbo-vsc-1.0.0", "turbo-vsc-1.5.0"]);
    host.undeletable.insert("turbo-vsc-1.0.0".to_string());
    let (_, outcome) = install(TurboExtension::new(), LINUX, &mut host);
    assert_eq!(outcome, Ok(INSTALLED.to_string()));
    assert_eq!(host.version_dirs(), vec!["turbo-vsc-1.0.0", "turbo-vsc-2.3.1"]);
}

#[test]
fn unreadable_working_directory_is_treated_as_empty() {
    let mut host = FakeHost::new();
    host.entries = None;
    let (_, outcome) = resolve(TurboExtension::new(), LINUX, None, &mut host);
    assert_eq!(outcome, Ok(INSTALLED.to_string()));
    assert!(!host.asked.iter().any(|request| matches!(request, Request::RemoveDir(_))));
}

#[test]
fn unreachable_registry_is_reported_with_remediation() {
    let mut host = FakeHost::new().with_entries(&["turbo-vsc-1.0.0"]);
    host.registry = Err("timeout".to_string());
    let (extension, outcome) = resolve(TurboExtension::new(), LINUX, None, &mut host);
    assert_eq!(
        outcome,
        Err(Failure {
            kind: FailureKind::Lookup,
            message: decorated("Failed to query VS Code Marketplace: timeout"),
        })
    );
    assert_eq!(
        host.statuses,
        vec![
            InstallationStatus::Downloading,
            InstallationStatus::Failed("Failed to query VS Code Marketplace: timeout".to_string()),
        ]
    );
    assert_eq!(host.version_dirs(), vec!["turbo-vsc-1.0.0"]);
    assert_eq!(extension.cached_binary_path(), None);
}

#[test]
fn registry_answers_that_cannot_be_used() {
    let cases: [(&str, &str); 4] = [
        ("not json", "Failed to parse marketplace response: expected ident at line 1 column 2"),
        ("{}", "Could not find extension version in marketplace response"),
        (
            r#"{"results":[{"extensions":[{"versions":[{"version":"1"}]}]}]}"#,
            "Could not find files array in marketplace response",
        ),
        (
            r#"{"results":[{"extensions":[{"versions":[{"version":"1","files":[]}]}]}]}"#,
            "Could not find VSIX download URL in marketplace response",
        ),
    ];
    for (body, cause) in cases {
        let mut host = FakeHost::new();
        host.registry = Ok(body.as_bytes().to_vec());
        let (_, outcome) = install(TurboExtension::new(), LINUX, &mut host);
        assert_eq!(outcome, Err(Failure { kind: FailureKind::Lookup, message: cause.to_string() }));
        assert_eq!(
            host.asked,
            vec![Request::ReportStatus(InstallationStatus::Downloading), Request::QueryRegistry(registry_query())]
        );
    }
}

#[test]
fn failed_download_is_reported_after_the_cleanup() {
    let mut host = FakeHost::new().with_entries(&["turbo-vsc-1.0.0"]);
    host.archives.clear();
    let (_, outcome) = resolve(TurboExtension::new(), LINUX, None, &mut host);
    assert_eq!(
        outcome,
        Err(Failure {
            kind: FailureKind::Download,
            message: decorated("Failed to download VSIX from marketplace: connection reset"),
        })
    );
    assert_eq!(
        host.statuses.last(),
        Some(&InstallationStatus::Failed(
            "Failed to download VSIX from marketplace: connection reset".to_string()
        ))
    );
    assert!(host.version_dirs().is_empty());
}

#[test]
fn binary_that_cannot_be_marked_executable() {
    let mut host = FakeHost::new();
    host.unmarkable.insert(INSTALLED.to_string(), "read-only file system".to_string());
    let (extension, outcome) = install(TurboExtension::new(), LINUX, &mut host);
    assert_eq!(
        outcome,
        Err(Failure {
            kind: FailureKind::Permission,
            message: "Failed to make binary executable: read-only file system".to_string(),
        })
    );
    assert_eq!(host.asked.last(), Some(&Request::MakeExecutable(INSTALLED.to_string())));
    assert_eq!(host.statuses, vec![InstallationStatus::Downloading]);
    assert_eq!(extension.cached_binary_path(), None);
}

#[test]
fn answer_of_the_wrong_kind_leaves_the_request_pending() {
    let step = TurboExtension::new().language_server_binary_path(LINUX, Some("/configured".to_string()));
    let Step::Continue(resolution) = step else { panic!("a configured path is probed first") };
    assert_eq!(resolution.request(), probe("/configured"));
    let Step::Continue(resolution) = resolution.advance(Reply::Acknowledged) else {
        panic!("the probe is still unanswered")
    };
    assert_eq!(resolution.request(), probe("/configured"));
    let Step::Continue(resolution) = resolution.advance(Reply::Located(Some("/x".to_string()))) else {
        panic!("the probe is still unanswered")
    };
    assert_eq!(resolution.request(), probe("/configured"));
    let Step::Done(_, outcome) = resolution.advance(Reply::Probed(true)) else {
        panic!("a configured path that is a file ends the resolution")
    };
    assert_eq!(outcome, Ok("/configured".to_string()));
}

#[test]
fn windows_binary_is_installed_under_its_own_name() {
    let mut host = FakeHost::new();
    host.archives.insert(
        ARCHIVE.to_string(),
        vec!["extension/out/turborepo-lsp-win32-arm64.exe".to_string()],
    );
    let target = PlatformTarget { os: Os::Windows, arch: Architecture::Aarch64 };
    let (_, outcome) = install(TurboExtension::new(), target, &mut host);
    assert_eq!(outcome, Ok("turbo-vsc-2.3.1/extension/out/turborepo-lsp-win32-arm64.exe".to_string()));
}
