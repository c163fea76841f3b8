use zed_turborepo::failure::{Failure, FailureKind};
use zed_turborepo::registry::{
    pick_archive, query_marketplace_vsix_url, registry_query, select_release, AssetFile,
    RemoteVersionInfo,
};

const MARKER: &str = "Microsoft.VisualStudio.Services.VSIXPackage";

fn file(asset_type: Option<&str>, source: Option<&str>) -> AssetFile {
    AssetFile {
        asset_type: asset_type.map(|kind| kind.to_string()),
        source: source.map(|url| url.to_string()),
    }
}

fn answer(latest: &str) -> Vec<u8> {
    format!(r#"{{"results":[{{"extensions":[{{"versions":[{latest}]}}]}}]}}"#).into_bytes()
}

fn read(body: &str) -> Result<RemoteVersionInfo, Failure> {
    query_marketplace_vsix_url(&Ok(body.as_bytes().to_vec()))
}

#[test]
fn query_names_the_extension() {
    let query = registry_query();
    assert_eq!(
        query.url,
        "https://marketplace.visualstudio.com/_apis/public/gallery/extensionquery"
    );
    assert_eq!(
        query.headers,
        vec![
            ("Content-Type".to_string(), "application/json".to_string()),
            (
                "Accept".to_string(),
                "application/json;api-version=3.0-preview.1".to_string()
            ),
        ]
    );
    assert_eq!(
        query.body,
        r#"{"filters":[{"criteria":[{"filterType":7,"value":"vercel.turbo-vsc"}]}],"flags":914}"#
    );
}

#[test]
fn query_body_is_the_document_it_describes() {
    let body: serde_json::Value = serde_json::from_str(&registry_query().body).unwrap();
    assert_eq!(body["flags"], 914);
    assert_eq!(body["filters"][0]["criteria"][0]["filterType"], 7);
    assert_eq!(body["filters"][0]["criteria"][0]["value"], "vercel.turbo-vsc");
    assert_eq!(serde_json::to_string(&body).unwrap(), registry_query().body);
}

#[test]
fn latest_version_and_its_archive() {
    let body = answer(
        r#"{"version":"2.3.1","files":[{"assetType":"Microsoft.VisualStudio.Services.VSIXPackage","source":"https://example/pkg.zip"}]}"#,
    );
    assert_eq!(
        query_marketplace_vsix_url(&Ok(body)),
        Ok(RemoteVersionInfo {
            version: "2.3.1".to_string(),
            archive_url: "https://example/pkg.zip".to_string(),
        })
    );
}

#[test]
fn archive_is_selected_by_its_asset_type() {
    let body = answer(
        r#"{"version":"1.0.0","files":[
            {"assetType":"Microsoft.VisualStudio.Services.Icons.Default","source":"https://example/pkg.zip"},
            {"assetType":"Microsoft.VisualStudio.Services.VSIXPackage","source":"https://example/a"},
            {"assetType":"Microsoft.VisualStudio.Services.VSIXPackage","source":"https://example/b"}
        ]}"#,
    );
    let release = query_marketplace_vsix_url(&Ok(body)).unwrap();
    assert_eq!(release.version, "1.0.0");
    assert_eq!(release.archive_url, "https://example/a");
}

#[test]
fn only_the_first_entries_are_read() {
    let body = br#"{"results":[
        {"extensions":[
            {"versions":[
                {"version":"3.0.0","files":[{"assetType":"Microsoft.VisualStudio.Services.VSIXPackage","source":"new"}]},
                {"version":"2.0.0","files":[{"assetType":"Microsoft.VisualStudio.Services.VSIXPackage","source":"old"}]}
            ]},
            {"versions":[{"version":"9.9.9","files":[]}]}
        ]},
        {"extensions":[]}
    ]}"#;
    assert_eq!(
        query_marketplace_vsix_url(&Ok(body.to_vec())),
        Ok(RemoteVersionInfo { version: "3.0.0".to_string(), archive_url: "new".to_string() })
    );
}

#[test]
fn unreachable_registry() {
    let failure = query_marketplace_vsix_url(&Err("dns failure".to_string())).unwrap_err();
    assert_eq!(failure.kind, FailureKind::Lookup);
    assert_eq!(failure.message, "Failed to query VS Code Marketplace: dns failure");
}

#[test]
fn malformed_answer() {
    let failure = read("<html>").unwrap_err();
    assert_eq!(failure.kind, FailureKind::Lookup);
    assert_eq!(
        failure.message,
        "Failed to parse marketplace response: expected value at line 1 column 1"
    );
    let truncated = read(r#"{"results":["#).unwrap_err();
    assert!(truncated.message.starts_with("Failed to parse marketplace response: EOF while parsing"));
    let trailing = read("{} x").unwrap_err();
    assert!(trailing.message.starts_with("Failed to parse marketplace response: trailing characters"));
}

#[test]
fn answer_without_a_version() {
    for body in [
        "{}",
        "[]",
        "null",
        r#"{"results":[]}"#,
        r#"{"results":{"extensions":[]}}"#,
        r#"{"results":[{"extensions":[{"versions":[]}]}]}"#,
        r#"{"results":[{"extensions":[{"versions":[{"version":7,"files":[]}]}]}]}"#,
        r#"{"results":[{"extensions":[{"versions":[{"files":[]}]}]}]}"#,
    ] {
        assert_eq!(read(body), Err(Failure::version_missing()), "{body}");
    }
}

#[test]
fn answer_without_files() {
    for latest in [r#"{"version":"1.0.0"}"#, r#"{"version":"1.0.0","files":{}}"#, r#"{"version":"1.0.0","files":null}"#] {
        assert_eq!(query_marketplace_vsix_url(&Ok(answer(latest))), Err(Failure::files_missing()));
    }
}

#[test]
fn answer_without_an_archive() {
    for latest in [
        r#"{"version":"1.0.0","files":[]}"#,
        r#"{"version":"1.0.0","files":[{"assetType":"Other","source":"https://example/pkg.zip"}]}"#,
        r#"{"version":"1.0.0","files":[{"source":"https://example/pkg.zip"}]}"#,
        r#"{"version":"1.0.0","files":["Microsoft.VisualStudio.Services.VSIXPackage"]}"#,
        r#"{"version":"1.0.0","files":[{"assetType":"Microsoft.VisualStudio.Services.VSIXPackage"}]}"#,
        r#"{"version":"1.0.0","files":[{"assetType":"Microsoft.VisualStudio.Services.VSIXPackage","source":5},{"assetType":"Microsoft.VisualStudio.Services.VSIXPackage","source":"late"}]}"#,
    ] {
        assert_eq!(
            query_marketplace_vsix_url(&Ok(answer(latest))),
            Err(Failure::archive_missing()),
            "{latest}"
        );
    }
}

#[test]
fn version_is_looked_for_before_the_files() {
    assert_eq!(
        query_marketplace_vsix_url(&Ok(answer(r#"{"files":"none"}"#))),
        Err(Failure::version_missing())
    );
}

#[test]
fn release_of_a_parsed_document() {
    let doc: serde_json::Value = serde_json::from_slice(&answer(
        r#"{"version":"0.0.9","files":[{"assetType":"Microsoft.VisualStudio.Services.VSIXPackage","source":"u"}]}"#,
    ))
    .unwrap();
    assert_eq!(
        select_release(&doc),
        Ok(RemoteVersionInfo { version: "0.0.9".to_string(), archive_url: "u".to_string() })
    );
    assert_eq!(select_release(&serde_json::Value::Null), Err(Failure::version_missing()));
}

#[test]
fn archive_among_listed_files() {
    assert_eq!(pick_archive(&vec![]), None);
    assert_eq!(pick_archive(&vec![file(None, Some("a")), file(Some("Other"), Some("b"))]), None);
    assert_eq!(
        pick_archive(&vec![file(Some("Other"), Some("a")), file(Some(MARKER), Some("b"))]),
        Some("b".to_string())
    );
    assert_eq!(
        pick_archive(&vec![file(Some(MARKER), Some("first")), file(Some(MARKER), Some("second"))]),
        Some("first".to_string())
    );
    assert_eq!(pick_archive(&vec![file(Some(MARKER), None), file(Some(MARKER), Some("b"))]), None);
    assert_eq!(
        pick_archive(&vec![file(Some("microsoft.visualstudio.services.vsixpackage"), Some("a"))]),
        None
    );
}
