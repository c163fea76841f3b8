//! What a resolution asks of the editor that hosts it, and what the editor
//! answers.
//!
//! A resolution touches nothing itself. It names the next thing it needs — a
//! file probed, a name looked up on the search path, an archive downloaded —
//! as a [`Request`]; the host carries it out and hands back a [`Reply`].

use vstd::prelude::*;
use crate::registry::{fetched_view, RegistryQuery, RegistryQueryView};

verus! {

/// The state of the installation that the editor shows to the user.
#[derive(Debug, PartialEq, Eq)]
pub enum InstallationStatus {
    /// Nothing is being installed.
    Idle,
    /// The archive is being looked up or downloaded.
    Downloading,
    /// The installation failed, with the cause.
    Failed(String),
}

/// [`InstallationStatus`] as a mathematical value.
pub enum InstallationStatusView {
    Idle,
    Downloading,
    Failed(Seq<char>),
}

impl View for InstallationStatus {
    type V = InstallationStatusView;

    open spec fn view(&self) -> InstallationStatusView {
        match self {
            InstallationStatus::Idle => InstallationStatusView::Idle,
            InstallationStatus::Downloading => InstallationStatusView::Downloading,
            InstallationStatus::Failed(cause) => InstallationStatusView::Failed(cause@),
        }
    }
}

/// Something the host is asked to do.
#[derive(Debug, PartialEq, Eq)]
pub enum Request {
    /// Say whether a regular file exists at the path.
    ProbeFile(String),
    /// Look the name up on the executable search path.
    SearchPath(String),
    /// List the names of the entries of the working directory.
    ListWorkingDir,
    /// List the names of the entries of the directory at the path.
    ListOutputDir(String),
    /// Show the status to the user.
    ReportStatus(InstallationStatus),
    /// Send the query to the registry, as one POST that follows redirects,
    /// and hand back the body of the answer.
    QueryRegistry(RegistryQuery),
    /// Delete the named entry of the working directory and all below it.
    /// Whether that succeeds is not reported.
    RemoveDir(String),
    /// Fetch the ZIP archive at `url` and unpack it into `directory`.
    Download { url: String, directory: String },
    /// Mark the file at the path as executable.
    MakeExecutable(String),
}

/// [`Request`] as a mathematical value.
pub enum RequestView {
    ProbeFile(Seq<char>),
    SearchPath(Seq<char>),
    ListWorkingDir,
    ListOutputDir(Seq<char>),
    ReportStatus(InstallationStatusView),
    QueryRegistry(RegistryQueryView),
    RemoveDir(Seq<char>),
    Download { url: Seq<char>, directory: Seq<char> },
    MakeExecutable(Seq<char>),
}

impl View for Request {
    type V = RequestView;

    open spec fn view(&self) -> RequestView {
        match self {
            Request::ProbeFile(path) => RequestView::ProbeFile(path@),
            Request::SearchPath(name) => RequestView::SearchPath(name@),
            Request::ListWorkingDir => RequestView::ListWorkingDir,
            Request::ListOutputDir(path) => RequestView::ListOutputDir(path@),
            Request::ReportStatus(status) => RequestView::ReportStatus(status@),
            Request::QueryRegistry(query) => RequestView::QueryRegistry(query@),
            Request::RemoveDir(name) => RequestView::RemoveDir(name@),
            Request::Download { url, directory } => RequestView::Download {
                url: url@,
                directory: directory@,
            },
            Request::MakeExecutable(path) => RequestView::MakeExecutable(path@),
        }
    }
}

impl RequestView {
    /// Whether the request goes out to the network.
    pub open spec fn uses_network(self) -> bool {
        self is QueryRegistry || self is Download
    }
}

/// What the host answers.
#[derive(Debug, PartialEq, Eq)]
pub enum Reply {
    /// To `ProbeFile`: whether a regular file is there.
    Probed(bool),
    /// To `SearchPath`: the path found, if any.
    Located(Option<String>),
    /// To `ListWorkingDir` and `ListOutputDir`: the names of the entries, or
    /// nothing where the directory cannot be read.
    Listing(Option<Vec<String>>),
    /// To `ReportStatus` and `RemoveDir`: done.
    Acknowledged,
    /// To `QueryRegistry`: the body of the answer, or why there is none.
    Fetched(Result<Vec<u8>, String>),
    /// To `Download` and `MakeExecutable`: done, or why not.
    Completed(Result<(), String>),
}

/// [`Reply`] as a mathematical value.
pub enum ReplyView {
    Probed(bool),
    Located(Option<Seq<char>>),
    Listing(Option<Seq<Seq<char>>>),
    Acknowledged,
    Fetched(Result<Seq<u8>, Seq<char>>),
    Completed(Result<(), Seq<char>>),
}

/// The view of the outcome of an action of the host.
pub open spec fn completed_view(outcome: Result<(), String>) -> Result<(), Seq<char>> {
    match outcome {
        Ok(_) => Ok(()),
        Err(cause) => Err(cause@),
    }
}

impl View for Reply {
    type V = ReplyView;

    open spec fn view(&self) -> ReplyView {
        match self {
            Reply::Probed(found) => ReplyView::Probed(*found),
            Reply::Located(path) => ReplyView::Located(path.deep_view()),
            Reply::Listing(names) => ReplyView::Listing(names.deep_view()),
            Reply::Acknowledged => ReplyView::Acknowledged,
            Reply::Fetched(reply) => ReplyView::Fetched(fetched_view(*reply)),
            Reply::Completed(outcome) => ReplyView::Completed(completed_view(*outcome)),
        }
    }
}

} // verus!
