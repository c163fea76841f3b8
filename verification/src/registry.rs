//! Finding the latest published version of the language server.
//!
//! The server is shipped inside an editor extension that a public registry
//! lists. One query names the extension; the answer holds the latest
//! version and, among its files, the archive to download.

use vstd::prelude::*;
use crate::failure::{
    archive_missing, files_missing, registry_malformed, registry_unreachable, version_missing,
    Failure, FailureView,
};
use crate::json::{element, elements, json_parse, json_tree, json_trees, member, parse_document, text, JsonTree};

verus! {

/// The latest published version and where its archive is.
#[derive(Debug, PartialEq, Eq)]
pub struct RemoteVersionInfo {
    pub version: String,
    pub archive_url: String,
}

/// [`RemoteVersionInfo`] as a mathematical value.
pub struct RemoteVersionInfoView {
    pub version: Seq<char>,
    pub archive_url: Seq<char>,
}

impl View for RemoteVersionInfo {
    type V = RemoteVersionInfoView;

    open spec fn view(&self) -> RemoteVersionInfoView {
        RemoteVersionInfoView { version: self.version@, archive_url: self.archive_url@ }
    }
}

/// One file of a published version, as the registry lists it: what kind of
/// asset it is, and where it can be fetched. Either may be missing.
#[derive(Debug, PartialEq, Eq)]
pub struct AssetFile {
    pub asset_type: Option<String>,
    pub source: Option<String>,
}

/// [`AssetFile`] as a mathematical value.
pub struct AssetFileView {
    pub asset_type: Option<Seq<char>>,
    pub source: Option<Seq<char>>,
}

impl DeepView for AssetFile {
    type V = AssetFileView;

    open spec fn deep_view(&self) -> AssetFileView {
        AssetFileView { asset_type: self.asset_type.deep_view(), source: self.source.deep_view() }
    }
}

/// What is sent to the registry: one POST to `url` with these headers and
/// this body, following redirects.
#[derive(Debug, PartialEq, Eq)]
pub struct RegistryQuery {
    pub url: String,
    pub headers: Vec<(String, String)>,
    pub body: String,
}

/// [`RegistryQuery`] as a mathematical value.
pub struct RegistryQueryView {
    pub url: Seq<char>,
    pub headers: Seq<(Seq<char>, Seq<char>)>,
    pub body: Seq<char>,
}

impl View for RegistryQuery {
    type V = RegistryQueryView;

    open spec fn view(&self) -> RegistryQueryView {
        RegistryQueryView {
            url: self.url@,
            headers: self.headers.deep_view(),
            body: self.body@,
        }
    }
}

/// The address of the registry's query endpoint.
pub open spec fn registry_url() -> Seq<char> {
    "https://marketplace.visualstudio.com/_apis/public/gallery/extensionquery"@
}

/// The headers of a query.
pub open spec fn registry_headers() -> Seq<(Seq<char>, Seq<char>)> {
    seq![
        ("Content-Type"@, "application/json"@),
        ("Accept"@, "application/json;api-version=3.0-preview.1"@),
    ]
}

/// The body of a query: a filter that names the extension, and the flags
/// that ask for its versions and files.
pub open spec fn registry_body() -> Seq<char> {
    "{\"filters\":[{\"criteria\":[{\"filterType\":7,\"value\":\"vercel.turbo-vsc\"}]}],\"flags\":914}"@
}

/// The query that asks the registry for the extension that ships the
/// language server.
pub open spec fn marketplace_query() -> RegistryQueryView {
    RegistryQueryView { url: registry_url(), headers: registry_headers(), body: registry_body() }
}

/// The asset type that marks the archive among the files of a version.
pub open spec fn archive_marker() -> Seq<char> {
    "Microsoft.VisualStudio.Services.VSIXPackage"@
}

/// The first file that is marked as the archive.
pub open spec fn first_archive(files: Seq<AssetFileView>) -> Option<AssetFileView>
    decreases files.len(),
{
    if files.len() == 0 {
        None
    } else if files[0].asset_type == Some(archive_marker()) {
        Some(files[0])
    } else {
        first_archive(files.drop_first())
    }
}

/// Where the archive can be fetched: the source of the first file that is
/// marked as the archive. Later files are not considered, even where the
/// first has no source.
pub open spec fn archive_source(files: Seq<AssetFileView>) -> Option<Seq<char>> {
    match first_archive(files) {
        Some(file) => file.source,
        None => None,
    }
}

/// The entry of the latest version in the registry's answer.
pub open spec fn latest_entry(doc: JsonTree) -> JsonTree {
    doc.member("results"@).element(0).member("extensions"@).element(0).member(
        "versions"@,
    ).element(0)
}

/// A file entry of the registry's answer as an [`AssetFileView`].
pub open spec fn asset_file(entry: JsonTree) -> AssetFileView {
    AssetFileView {
        asset_type: entry.member("assetType"@).text(),
        source: entry.member("source"@).text(),
    }
}

/// The file entries of the registry's answer as [`AssetFileView`]s.
pub open spec fn asset_files(entries: Seq<JsonTree>) -> Seq<AssetFileView> {
    Seq::new(entries.len(), |i: int| asset_file(entries[i]))
}

/// What a parsed answer of the registry says: the version string of the
/// latest version and the source of its archive. The version is looked for
/// first, then the list of files, then the archive among them.
pub open spec fn release_of(doc: JsonTree) -> Result<RemoteVersionInfoView, FailureView> {
    let latest = latest_entry(doc);
    match latest.member("version"@).text() {
        None => Err(version_missing()),
        Some(version) => match latest.member("files"@).elements() {
            None => Err(files_missing()),
            Some(entries) => match archive_source(asset_files(entries)) {
                None => Err(archive_missing()),
                Some(archive_url) => Ok(RemoteVersionInfoView { version, archive_url }),
            },
        },
    }
}

/// What the outcome of a query says: `reply` is the body of the answer, or
/// the transport's text for why there is none.
pub open spec fn discovered(reply: Result<Seq<u8>, Seq<char>>) -> Result<
    RemoteVersionInfoView,
    FailureView,
> {
    match reply {
        Err(cause) => Err(registry_unreachable(cause)),
        Ok(body) => match json_parse(body) {
            Err(cause) => Err(registry_malformed(cause)),
            Ok(doc) => release_of(doc),
        },
    }
}

/// The view of a version or a failure.
pub open spec fn discovery_view(r: Result<RemoteVersionInfo, Failure>) -> Result<
    RemoteVersionInfoView,
    FailureView,
> {
    match r {
        Ok(info) => Ok(info@),
        Err(failure) => Err(failure@),
    }
}

/// The view of the outcome of a query.
pub open spec fn fetched_view(reply: Result<Vec<u8>, String>) -> Result<Seq<u8>, Seq<char>> {
    match reply {
        Ok(body) => Ok(body@),
        Err(cause) => Err(cause@),
    }
}

/// The query that asks the registry for the extension that ships the
/// language server.
pub fn registry_query() -> (query: RegistryQuery)
    ensures
        query@ == marketplace_query(),
{
    let mut headers: Vec<(String, String)> = Vec::new();
    headers.push((String::from_str("Content-Type"), String::from_str("application/json")));
    headers.push(
        (
            String::from_str("Accept"),
            String::from_str("application/json;api-version=3.0-preview.1"),
        ),
    );
    assert(headers.deep_view() =~= registry_headers());
    RegistryQuery {
        url: String::from_str(
            "https://marketplace.visualstudio.com/_apis/public/gallery/extensionquery",
        ),
        headers,
        body: String::from_str(
            "{\"filters\":[{\"criteria\":[{\"filterType\":7,\"value\":\"vercel.turbo-vsc\"}]}],\"flags\":914}",
        ),
    }
}

/// `first_archive` skips files that are not marked.
proof fn lemma_first_archive_skip(files: Seq<AssetFileView>, i: int)
    requires
        0 <= i < files.len(),
        files[i].asset_type != Some(archive_marker()),
        first_archive(files) == first_archive(files.skip(i)),
    ensures
        first_archive(files) == first_archive(files.skip(i + 1)),
{
    assert(files.skip(i).drop_first() =~= files.skip(i + 1));
}

/// Where the archive of a version can be fetched, given the files that the
/// registry lists for it.
pub fn pick_archive(files: &Vec<AssetFile>) -> (source: Option<String>)
    ensures
        source.deep_view() == archive_source(files.deep_view()),
{
    let ghost all = files.deep_view();
    let marker = String::from_str("Microsoft.VisualStudio.Services.VSIXPackage");
    let mut i: usize = 0;
    assert(all.skip(0) =~= all);
    while i < files.len()
        invariant
            i <= files.len(),
            all == files.deep_view(),
            marker@ == archive_marker(),
            first_archive(all) == first_archive(all.skip(i as int)),
        decreases files.len() - i,
    {
        assert(all[i as int] == files[i as int].deep_view());
        let marked = match &files[i].asset_type {
            Some(kind) => *kind == marker,
            None => false,
        };
        assert(marked == (all[i as int].asset_type == Some(archive_marker())));
        if marked {
            assert(first_archive(all.skip(i as int)) == Some(all[i as int]));
            return match &files[i].source {
                Some(url) => Some(url.clone()),
                None => None,
            };
        }
        proof {
            lemma_first_archive_skip(all, i as int);
        }
        i += 1;
    }
    assert(all.skip(files.len() as int) =~= Seq::<AssetFileView>::empty());
    None
}

/// Reads one file entry of the registry's answer.
fn read_asset_file(entry: &serde_json::Value) -> (file: AssetFile)
    ensures
        file.deep_view() == asset_file(json_tree(*entry)),
{
    let asset_type = match text(member(entry, "assetType")) {
        Some(kind) => Some(String::from_str(kind)),
        None => None,
    };
    let source = match text(member(entry, "source")) {
        Some(url) => Some(String::from_str(url)),
        None => None,
    };
    AssetFile { asset_type, source }
}

/// Reads the latest version and the source of its archive out of a parsed
/// answer of the registry.
pub fn select_release(doc: &serde_json::Value) -> (release: Result<RemoteVersionInfo, Failure>)
    ensures
        discovery_view(release) == release_of(json_tree(*doc)),
{
    let results = element(member(doc, "results"), 0);
    let extension = element(member(results, "extensions"), 0);
    let latest = element(member(extension, "versions"), 0);
    let version = match text(member(latest, "version")) {
        Some(version) => String::from_str(version),
        None => {
            return Err(Failure::version_missing());
        },
    };
    let entries = match elements(member(latest, "files")) {
        Some(entries) => entries,
        None => {
            return Err(Failure::files_missing());
        },
    };
    let mut files: Vec<AssetFile> = Vec::new();
    let mut i: usize = 0;
    while i < entries.len()
        invariant
            i <= entries.len(),
            files.len() == i,
            forall|k: int| 0 <= k < i ==> #[trigger] files[k].deep_view() == asset_file(json_tree(entries[k])),
        decreases entries.len() - i,
    {
        let file = read_asset_file(&entries[i]);
        files.push(file);
        i += 1;
    }
    assert(files.deep_view() =~= asset_files(json_trees(entries@)));
    match pick_archive(&files) {
        Some(archive_url) => Ok(RemoteVersionInfo { version, archive_url }),
        None => Err(Failure::archive_missing()),
    }
}

/// Reads the outcome of the registry query: the latest version and the
/// source of its archive, or why they cannot be had. `reply` is the body of
/// the answer, or the transport's text for why there is none.
pub fn query_marketplace_vsix_url(reply: &Result<Vec<u8>, String>) -> (release: Result<
    RemoteVersionInfo,
    Failure,
>)
    ensures
        discovery_view(release) == discovered(fetched_view(*reply)),
{
    match reply {
        Err(cause) => Err(Failure::registry_unreachable(cause.as_str())),
        Ok(body) => match parse_document(body.as_slice()) {
            Err(cause) => Err(Failure::registry_malformed(cause.as_str())),
            Ok(doc) => select_release(&doc),
        },
    }
}

} // verus!
