//! The rule by which a resolution moves: from where it stands and what the
//! host answered to where it stands next.
//!
//! A resolution looks for a binary that is already there, in a fixed order:
//! the path the user configured, the names on the search path, the path
//! found last time, the version directories left by earlier installations.
//! The first hit ends it. A path found last time that is no longer a file is
//! forgotten. Only when all four miss does it install: it announces the
//! download, asks the registry for the latest version, and, unless that
//! version is already unpacked, deletes the other version directories,
//! downloads and unpacks the archive, marks the binary executable and checks
//! that it is there.

use vstd::prelude::*;
use crate::failure::{
    download_failed, permission_failed, unsupported_platform, verification_failed,
    with_remediation, FailureView,
};
use crate::layout::{
    binary_path, installed_candidates, output_dir, published_binaries, stale_version_dirs,
    version_dir,
};
use crate::platform::{binary_names, PlatformTarget};
use crate::protocol::{InstallationStatusView, ReplyView, RequestView};
use crate::registry::{discovered, marketplace_query, RemoteVersionInfoView};

verus! {

/// What an installation has settled once the latest version is known.
pub struct PlanView {
    /// The file name of the binary for the platform.
    pub binary_name: Seq<char>,
    /// Where the archive is fetched from.
    pub archive_url: Seq<char>,
    /// The version directory that the archive is unpacked into.
    pub directory: Seq<char>,
    /// Where the binary is expected once the archive is unpacked.
    pub binary_path: Seq<char>,
}

/// The plan for installing a version.
pub open spec fn plan_for(release: RemoteVersionInfoView, binary_name: Seq<char>) -> PlanView {
    PlanView {
        binary_name,
        archive_url: release.archive_url,
        directory: version_dir(release.version),
        binary_path: binary_path(version_dir(release.version), binary_name),
    }
}

/// Where a resolution stands: which answer it waits for, and what it has to
/// remember meanwhile.
pub enum PhaseView {
    /// Is the configured path a file?
    ProbeConfigured { path: Seq<char> },
    /// Is `name` on the search path? `next` is the place, among the accepted
    /// names, of the one to try after it.
    SearchPath { name: Seq<char>, next: nat },
    /// Is the path found last time still a file?
    ProbeCached { path: Seq<char> },
    /// Which entries has the working directory?
    ScanWorkingDir { binary_name: Seq<char> },
    /// Is `candidate` a file? `next` is the place, among `candidates`, of the
    /// one to try after it.
    ProbeInstalled {
        binary_name: Seq<char>,
        candidate: Seq<char>,
        candidates: Seq<Seq<char>>,
        next: nat,
    },
    /// Has the download been announced?
    Announce { binary_name: Seq<char> },
    /// What does the registry say?
    Query { binary_name: Seq<char> },
    /// Is the latest version already unpacked?
    ProbeTarget { plan: PlanView },
    /// Which entries has the working directory, now that stale ones go?
    ListStale { plan: PlanView },
    /// Has `current` been deleted? `next` is the place, in `stale`, of the
    /// one to delete after it.
    RemoveStale { plan: PlanView, current: Seq<char>, stale: Seq<Seq<char>>, next: nat },
    /// Has the archive been fetched and unpacked?
    Download { plan: PlanView },
    /// Has the binary been marked executable?
    MakeExecutable { plan: PlanView },
    /// Is the binary where it should be?
    Verify { plan: PlanView },
    /// What did the archive hold instead?
    ListExtracted { plan: PlanView },
    /// Has the failure been shown? `failure` is what the caller gets.
    ReportFailure { failure: FailureView, reported: Seq<char> },
}

/// What a resolution carries through all its phases.
pub struct ContextView {
    /// The path found by the last resolution that found one on the search
    /// path or on disk.
    pub cache: Option<Seq<char>>,
    /// The platform the binary has to run on.
    pub target: PlatformTarget,
    /// Whether this is an installation on its own, with no lookup before it
    /// and no report after it.
    pub standalone: bool,
}

/// A resolution under way.
pub struct ResolutionView {
    pub context: ContextView,
    /// Where the resolution stands.
    pub phase: PhaseView,
}

/// What a move of a resolution leads to.
pub enum StepView {
    /// The resolution goes on: the host is to answer its pending request.
    Continue(ResolutionView),
    /// The resolution is over. The first field is the cache it leaves, the
    /// second the path of the binary or the failure.
    Done(Option<Seq<char>>, Result<Seq<char>, FailureView>),
}

impl PhaseView {
    /// The request whose answer the phase waits for.
    pub open spec fn pending(self) -> RequestView {
        match self {
            PhaseView::ProbeConfigured { path } => RequestView::ProbeFile(path),
            PhaseView::SearchPath { name, .. } => RequestView::SearchPath(name),
            PhaseView::ProbeCached { path } => RequestView::ProbeFile(path),
            PhaseView::ScanWorkingDir { .. } => RequestView::ListWorkingDir,
            PhaseView::ProbeInstalled { candidate, .. } => RequestView::ProbeFile(candidate),
            PhaseView::Announce { .. } => RequestView::ReportStatus(
                InstallationStatusView::Downloading,
            ),
            PhaseView::Query { .. } => RequestView::QueryRegistry(marketplace_query()),
            PhaseView::ProbeTarget { plan } => RequestView::ProbeFile(plan.binary_path),
            PhaseView::ListStale { .. } => RequestView::ListWorkingDir,
            PhaseView::RemoveStale { current, .. } => RequestView::RemoveDir(current),
            PhaseView::Download { plan } => RequestView::Download {
                url: plan.archive_url,
                directory: plan.directory,
            },
            PhaseView::MakeExecutable { plan } => RequestView::MakeExecutable(plan.binary_path),
            PhaseView::Verify { plan } => RequestView::ProbeFile(plan.binary_path),
            PhaseView::ListExtracted { plan } => RequestView::ListOutputDir(
                output_dir(plan.directory),
            ),
            PhaseView::ReportFailure { reported, .. } => RequestView::ReportStatus(
                InstallationStatusView::Failed(reported),
            ),
        }
    }
}

/// The entries of a directory listing; none where it could not be read.
pub open spec fn listed(listing: Option<Seq<Seq<char>>>) -> Seq<Seq<char>> {
    match listing {
        Some(entries) => entries,
        None => Seq::empty(),
    }
}

/// The binaries that a listing of the output directory shows; nothing where
/// it could not be read.
pub open spec fn found_binaries(listing: Option<Seq<Seq<char>>>) -> Option<Seq<Seq<char>>> {
    match listing {
        Some(entries) => Some(published_binaries(entries)),
        None => None,
    }
}

impl ContextView {
    /// The resolution goes on in the given phase.
    pub open spec fn at(self, phase: PhaseView) -> StepView {
        StepView::Continue(ResolutionView { context: self, phase })
    }

    /// The same without the remembered path.
    pub open spec fn forgetting(self) -> ContextView {
        ContextView { cache: None, ..self }
    }

    /// The end of the resolution with the binary at `path`, which is
    /// remembered.
    pub open spec fn found(self, path: Seq<char>) -> StepView {
        StepView::Done(Some(path), Ok(path))
    }

    /// Second step of the lookup, from the accepted name at place `index`
    /// on: the search path.
    pub open spec fn search_from(self, index: nat) -> StepView {
        if index < binary_names().len() {
            self.at(PhaseView::SearchPath { name: binary_names()[index as int], next: index + 1 })
        } else {
            self.after_search()
        }
    }

    /// Third step of the lookup: the path found last time, if there is one.
    /// Where it is no longer a file, it is forgotten.
    pub open spec fn after_search(self) -> StepView {
        match self.cache {
            Some(path) => self.at(PhaseView::ProbeCached { path }),
            None => self.after_cache(),
        }
    }

    /// Fourth step of the lookup: earlier installations. It needs the name
    /// of the binary, so it is here that a platform without one fails.
    pub open spec fn after_cache(self) -> StepView {
        if self.target.supported() {
            self.at(PhaseView::ScanWorkingDir { binary_name: self.target.binary_name() })
        } else {
            StepView::Done(self.cache, Err(unsupported_platform()))
        }
    }

    /// Fourth step of the lookup, from the candidate at place `index` on.
    /// When none is left, the lookup has missed and the installation begins.
    pub open spec fn installed_from(
        self,
        binary_name: Seq<char>,
        candidates: Seq<Seq<char>>,
        index: nat,
    ) -> StepView {
        if index < candidates.len() {
            self.at(
                PhaseView::ProbeInstalled {
                    binary_name,
                    candidate: candidates[index as int],
                    candidates,
                    next: index + 1,
                },
            )
        } else {
            self.at(PhaseView::Announce { binary_name })
        }
    }

    /// The cleanup before a download, from the stale directory at place
    /// `index` on. When none is left, the download begins.
    pub open spec fn remove_from(self, plan: PlanView, stale: Seq<Seq<char>>, index: nat) -> StepView {
        if index < stale.len() {
            self.at(
                PhaseView::RemoveStale { plan, current: stale[index as int], stale, next: index + 1 },
            )
        } else {
            self.at(PhaseView::Download { plan })
        }
    }

    /// The installation fails with `cause`. On its own it ends at once. As
    /// part of a resolution the cause is first shown to the user, and the
    /// caller gets it with the ways to install the binary by hand.
    pub open spec fn fail(self, cause: FailureView, binary_name: Seq<char>) -> StepView {
        if self.standalone {
            StepView::Done(self.cache, Err(cause))
        } else {
            self.at(
                PhaseView::ReportFailure {
                    failure: with_remediation(cause, binary_name),
                    reported: cause.message,
                },
            )
        }
    }

}

impl ResolutionView {
    /// The request whose answer the resolution waits for.
    pub open spec fn pending(self) -> RequestView {
        self.phase.pending()
    }

    /// Where the resolution stands once the host has answered. An answer
    /// that is not of the kind the pending request calls for changes
    /// nothing: the request stays pending.
    pub open spec fn next(self, reply: ReplyView) -> StepView {
        let context = self.context;
        match self.phase {
            PhaseView::ProbeConfigured { path } => match reply {
                ReplyView::Probed(hit) => if hit {
                    StepView::Done(context.cache, Ok(path))
                } else {
                    context.search_from(0)
                },
                _ => StepView::Continue(self),
            },
            PhaseView::SearchPath { name, next } => match reply {
                ReplyView::Located(Some(path)) => context.found(path),
                ReplyView::Located(None) => context.search_from(next),
                _ => StepView::Continue(self),
            },
            PhaseView::ProbeCached { path } => match reply {
                ReplyView::Probed(hit) => if hit {
                    StepView::Done(context.cache, Ok(path))
                } else {
                    context.forgetting().after_cache()
                },
                _ => StepView::Continue(self),
            },
            PhaseView::ScanWorkingDir { binary_name } => match reply {
                ReplyView::Listing(listing) => context.installed_from(
                    binary_name,
                    installed_candidates(listed(listing), binary_name),
                    0,
                ),
                _ => StepView::Continue(self),
            },
            PhaseView::ProbeInstalled { binary_name, candidate, candidates, next } => match reply {
                ReplyView::Probed(hit) => if hit {
                    context.found(candidate)
                } else {
                    context.installed_from(binary_name, candidates, next)
                },
                _ => StepView::Continue(self),
            },
            PhaseView::Announce { binary_name } => match reply {
                ReplyView::Acknowledged => context.at(PhaseView::Query { binary_name }),
                _ => StepView::Continue(self),
            },
            PhaseView::Query { binary_name } => match reply {
                ReplyView::Fetched(fetched) => match discovered(fetched) {
                    Ok(release) => context.at(
                        PhaseView::ProbeTarget { plan: plan_for(release, binary_name) },
                    ),
                    Err(cause) => context.fail(cause, binary_name),
                },
                _ => StepView::Continue(self),
            },
            PhaseView::ProbeTarget { plan } => match reply {
                ReplyView::Probed(hit) => if hit {
                    context.found(plan.binary_path)
                } else {
                    context.at(PhaseView::ListStale { plan })
                },
                _ => StepView::Continue(self),
            },
            PhaseView::ListStale { plan } => match reply {
                ReplyView::Listing(listing) => context.remove_from(
                    plan,
                    stale_version_dirs(listed(listing), plan.directory),
                    0,
                ),
                _ => StepView::Continue(self),
            },
            PhaseView::RemoveStale { plan, current, stale, next } => match reply {
                ReplyView::Acknowledged => context.remove_from(plan, stale, next),
                _ => StepView::Continue(self),
            },
            PhaseView::Download { plan } => match reply {
                ReplyView::Completed(Ok(_)) => context.at(PhaseView::MakeExecutable { plan }),
                ReplyView::Completed(Err(cause)) => context.fail(
                    download_failed(cause),
                    plan.binary_name,
                ),
                _ => StepView::Continue(self),
            },
            PhaseView::MakeExecutable { plan } => match reply {
                ReplyView::Completed(Ok(_)) => context.at(PhaseView::Verify { plan }),
                ReplyView::Completed(Err(cause)) => context.fail(
                    permission_failed(cause),
                    plan.binary_name,
                ),
                _ => StepView::Continue(self),
            },
            PhaseView::Verify { plan } => match reply {
                ReplyView::Probed(hit) => if hit {
                    context.found(plan.binary_path)
                } else {
                    context.at(PhaseView::ListExtracted { plan })
                },
                _ => StepView::Continue(self),
            },
            PhaseView::ListExtracted { plan } => match reply {
                ReplyView::Listing(listing) => context.fail(
                    verification_failed(plan.binary_name, found_binaries(listing), context.target),
                    plan.binary_name,
                ),
                _ => StepView::Continue(self),
            },
            PhaseView::ReportFailure { failure, reported } => match reply {
                ReplyView::Acknowledged => StepView::Done(context.cache, Err(failure)),
                _ => StepView::Continue(self),
            },
        }
    }
}

/// The first move of a resolution: the configured path if there is one, the
/// search path otherwise.
pub open spec fn begin_resolution(
    cache: Option<Seq<char>>,
    target: PlatformTarget,
    configured: Option<Seq<char>>,
) -> StepView {
    let context = ContextView { cache, target, standalone: false };
    match configured {
        Some(path) => context.at(PhaseView::ProbeConfigured { path }),
        None => context.search_from(0),
    }
}

/// The first move of an installation on its own: the announcement, or the
/// failure at once where the platform has no binary.
pub open spec fn begin_installation(cache: Option<Seq<char>>, target: PlatformTarget) -> StepView {
    if target.supported() {
        (ContextView { cache, target, standalone: true }).at(
            PhaseView::Announce { binary_name: target.binary_name() },
        )
    } else {
        StepView::Done(cache, Err(unsupported_platform()))
    }
}

} // verus!
