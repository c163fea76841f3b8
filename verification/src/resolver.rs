//! Resolving the language server binary, one request to the host at a time.
//!
//! [`TurboExtension`] is what the editor extension keeps between two
//! resolutions: the path found last. A resolution takes it, asks the host
//! for one thing after another, and gives it back with the outcome. How a
//! resolution moves is laid down in [`crate::transition`]; the functions
//! here carry those moves out.

use vstd::prelude::*;
use crate::failure::{outcome_view, Failure};
use crate::layout::{
    binaries_among, binary_path_in, candidate_paths, cleanup_old_versions, output_dir_of,
    version_dir_name,
};
use crate::platform::{get_binary_names, get_platform_binary_name, PlatformTarget};
use crate::protocol::{InstallationStatus, Reply, Request};
use crate::registry::{query_marketplace_vsix_url, registry_query, RemoteVersionInfo};
use crate::transition::{
    begin_installation, begin_resolution, plan_for, ContextView, PhaseView, PlanView,
    ResolutionView, StepView,
};

verus! {

/// What the extension keeps between two resolutions.
pub struct TurboExtension {
    cached_binary_path: Option<String>,
}

impl View for TurboExtension {
    type V = Option<Seq<char>>;

    /// The path found by the last resolution that found one on the search
    /// path or on disk.
    closed spec fn view(&self) -> Option<Seq<char>> {
        self.cached_binary_path.deep_view()
    }
}

struct Plan {
    binary_name: String,
    archive_url: String,
    directory: String,
    binary_path: String,
}

impl View for Plan {
    type V = PlanView;

    closed spec fn view(&self) -> PlanView {
        PlanView {
            binary_name: self.binary_name@,
            archive_url: self.archive_url@,
            directory: self.directory@,
            binary_path: self.binary_path@,
        }
    }
}

enum Phase {
    ProbeConfigured { path: String },
    SearchPath { name: String, next: usize },
    ProbeCached { path: String },
    ScanWorkingDir { binary_name: String },
    ProbeInstalled { binary_name: String, candidate: String, candidates: Vec<String>, next: usize },
    Announce { binary_name: String },
    Query { binary_name: String },
    ProbeTarget { plan: Plan },
    ListStale { plan: Plan },
    RemoveStale { plan: Plan, current: String, stale: Vec<String>, next: usize },
    Download { plan: Plan },
    MakeExecutable { plan: Plan },
    Verify { plan: Plan },
    ListExtracted { plan: Plan },
    ReportFailure { failure: Failure, reported: String },
}

impl View for Phase {
    type V = PhaseView;

    closed spec fn view(&self) -> PhaseView {
        match self {
            Phase::ProbeConfigured { path } => PhaseView::ProbeConfigured { path: path@ },
            Phase::SearchPath { name, next } => PhaseView::SearchPath {
                name: name@,
                next: *next as nat,
            },
            Phase::ProbeCached { path } => PhaseView::ProbeCached { path: path@ },
            Phase::ScanWorkingDir { binary_name } => PhaseView::ScanWorkingDir {
                binary_name: binary_name@,
            },
            Phase::ProbeInstalled { binary_name, candidate, candidates, next } => {
                PhaseView::ProbeInstalled {
                    binary_name: binary_name@,
                    candidate: candidate@,
                    candidates: candidates.deep_view(),
                    next: *next as nat,
                }
            },
            Phase::Announce { binary_name } => PhaseView::Announce { binary_name: binary_name@ },
            Phase::Query { binary_name } => PhaseView::Query { binary_name: binary_name@ },
            Phase::ProbeTarget { plan } => PhaseView::ProbeTarget { plan: plan@ },
            Phase::ListStale { plan } => PhaseView::ListStale { plan: plan@ },
            Phase::RemoveStale { plan, current, stale, next } => PhaseView::RemoveStale {
                plan: plan@,
                current: current@,
                stale: stale.deep_view(),
                next: *next as nat,
            },
            Phase::Download { plan } => PhaseView::Download { plan: plan@ },
            Phase::MakeExecutable { plan } => PhaseView::MakeExecutable { plan: plan@ },
            Phase::Verify { plan } => PhaseView::Verify { plan: plan@ },
            Phase::ListExtracted { plan } => PhaseView::ListExtracted { plan: plan@ },
            Phase::ReportFailure { failure, reported } => PhaseView::ReportFailure {
                failure: failure@,
                reported: reported@,
            },
        }
    }
}

struct Context {
    cached_binary_path: Option<String>,
    target: PlatformTarget,
    standalone: bool,
}

impl View for Context {
    type V = ContextView;

    closed spec fn view(&self) -> ContextView {
        ContextView {
            cache: self.cached_binary_path.deep_view(),
            target: self.target,
            standalone: self.standalone,
        }
    }
}

/// A resolution under way. It waits for the host to answer
/// [`Resolution::request`].
pub struct Resolution {
    context: Context,
    phase: Phase,
}

impl View for Resolution {
    type V = ResolutionView;

    closed spec fn view(&self) -> ResolutionView {
        ResolutionView { context: self.context@, phase: self.phase@ }
    }
}

/// What a move of a resolution leads to.
pub enum Step {
    /// The resolution goes on: the host is to answer its pending request.
    Continue(Resolution),
    /// The resolution is over: the extension's state, and the path of the
    /// binary or the failure.
    Done(TurboExtension, Result<String, Failure>),
}

impl View for Step {
    type V = StepView;

    open spec fn view(&self) -> StepView {
        match self {
            Step::Continue(resolution) => StepView::Continue(resolution@),
            Step::Done(extension, outcome) => StepView::Done(extension@, outcome_view(*outcome)),
        }
    }
}

impl Plan {
    fn new(release: RemoteVersionInfo, binary_name: String) -> (plan: Plan)
        ensures
            plan@ == plan_for(release@, binary_name@),
    {
        let directory = version_dir_name(release.version.as_str());
        let binary_path = binary_path_in(directory.as_str(), binary_name.as_str());
        Plan { binary_name, archive_url: release.archive_url, directory, binary_path }
    }
}

impl Context {
    fn at(self, phase: Phase) -> (step: Step)
        ensures
            step@ == self@.at(phase@),
    {
        Step::Continue(Resolution { context: self, phase })
    }

    fn forgetting(self) -> (context: Context)
        ensures
            context@ == self@.forgetting(),
    {
        Context { cached_binary_path: None, target: self.target, standalone: self.standalone }
    }

    fn done(self, outcome: Result<String, Failure>) -> (step: Step)
        ensures
            step@ == StepView::Done(self@.cache, outcome_view(outcome)),
    {
        Step::Done(TurboExtension { cached_binary_path: self.cached_binary_path }, outcome)
    }

    fn found(self, path: String) -> (step: Step)
        ensures
            step@ == self@.found(path@),
    {
        Step::Done(TurboExtension { cached_binary_path: Some(path.clone()) }, Ok(path))
    }

    fn search_from(self, index: usize) -> (step: Step)
        ensures
            step@ == self@.search_from(index as nat),
    {
        let names = get_binary_names();
        if index < names.len() {
            let name = String::from_str(names[index]);
            self.at(Phase::SearchPath { name, next: index + 1 })
        } else {
            self.after_search()
        }
    }

    fn after_search(self) -> (step: Step)
        ensures
            step@ == self@.after_search(),
    {
        let cached = match &self.cached_binary_path {
            Some(path) => Some(path.clone()),
            None => None,
        };
        match cached {
            Some(path) => self.at(Phase::ProbeCached { path }),
            None => self.after_cache(),
        }
    }

    fn after_cache(self) -> (step: Step)
        ensures
            step@ == self@.after_cache(),
    {
        match get_platform_binary_name(self.target) {
            Ok(binary_name) => self.at(Phase::ScanWorkingDir { binary_name }),
            Err(failure) => self.done(Err(failure)),
        }
    }

    fn installed_from(self, binary_name: String, candidates: Vec<String>, index: usize) -> (step:
        Step)
        ensures
            step@ == self@.installed_from(binary_name@, candidates.deep_view(), index as nat),
    {
        if index < candidates.len() {
            let candidate = candidates[index].clone();
            self.at(Phase::ProbeInstalled { binary_name, candidate, candidates, next: index + 1 })
        } else {
            self.at(Phase::Announce { binary_name })
        }
    }

    fn remove_from(self, plan: Plan, stale: Vec<String>, index: usize) -> (step: Step)
        ensures
            step@ == self@.remove_from(plan@, stale.deep_view(), index as nat),
    {
        if index < stale.len() {
            let current = stale[index].clone();
            self.at(Phase::RemoveStale { plan, current, stale, next: index + 1 })
        } else {
            self.at(Phase::Download { plan })
        }
    }

    fn fail(self, cause: Failure, binary_name: &str) -> (step: Step)
        ensures
            step@ == self@.fail(cause@, binary_name@),
    {
        if self.standalone {
            self.done(Err(cause))
        } else {
            let failure = cause.with_remediation(binary_name);
            self.at(Phase::ReportFailure { failure, reported: cause.message })
        }
    }
}

/// The entries of a listing; none where the directory could not be read.
fn entries_of(listing: Option<Vec<String>>) -> (entries: Vec<String>)
    ensures
        entries.deep_view() == crate::transition::listed(listing.deep_view()),
{
    match listing {
        Some(entries) => entries,
        None => {
            let entries: Vec<String> = Vec::new();
            assert(entries.deep_view() =~= Seq::<Seq<char>>::empty());
            entries
        },
    }
}

impl TurboExtension {
    /// The state of an extension that has resolved nothing yet.
    pub fn new() -> (extension: TurboExtension)
        ensures
            extension@ is None,
    {
        TurboExtension { cached_binary_path: None }
    }

    /// The path that the last resolution remembered, if any.
    pub fn cached_binary_path(&self) -> (path: Option<String>)
        ensures
            path.deep_view() == self@,
    {
        match &self.cached_binary_path {
            Some(path) => Some(path.clone()),
            None => None,
        }
    }

    /// Begins a resolution of the binary for `target`. `configured_path` is
    /// the path that the user has set for the binary, if any.
    pub fn language_server_binary_path(
        self,
        target: PlatformTarget,
        configured_path: Option<String>,
    ) -> (step: Step)
        ensures
            step@ == begin_resolution(self@, target, configured_path.deep_view()),
    {
        let context = Context {
            cached_binary_path: self.cached_binary_path,
            target,
            standalone: false,
        };
        match configured_path {
            Some(path) => context.at(Phase::ProbeConfigured { path }),
            None => context.search_from(0),
        }
    }

    /// Begins an installation of the binary for `target` on its own, without
    /// looking for one that is already there.
    pub fn download_and_extract_binary(self, target: PlatformTarget) -> (step: Step)
        ensures
            step@ == begin_installation(self@, target),
    {
        let context = Context {
            cached_binary_path: self.cached_binary_path,
            target,
            standalone: true,
        };
        match get_platform_binary_name(target) {
            Ok(binary_name) => context.at(Phase::Announce { binary_name }),
            Err(failure) => context.done(Err(failure)),
        }
    }
}

impl Resolution {
    /// The request that the host is to answer next.
    pub fn request(&self) -> (request: Request)
        ensures
            request@ == self@.pending(),
    {
        match &self.phase {
            Phase::ProbeConfigured { path } => Request::ProbeFile(path.clone()),
            Phase::SearchPath { name, .. } => Request::SearchPath(name.clone()),
            Phase::ProbeCached { path } => Request::ProbeFile(path.clone()),
            Phase::ScanWorkingDir { .. } => Request::ListWorkingDir,
            Phase::ProbeInstalled { candidate, .. } => Request::ProbeFile(candidate.clone()),
            Phase::Announce { .. } => Request::ReportStatus(InstallationStatus::Downloading),
            Phase::Query { .. } => Request::QueryRegistry(registry_query()),
            Phase::ProbeTarget { plan } => Request::ProbeFile(plan.binary_path.clone()),
            Phase::ListStale { .. } => Request::ListWorkingDir,
            Phase::RemoveStale { current, .. } => Request::RemoveDir(current.clone()),
            Phase::Download { plan } => Request::Download {
                url: plan.archive_url.clone(),
                directory: plan.directory.clone(),
            },
            Phase::MakeExecutable { plan } => Request::MakeExecutable(plan.binary_path.clone()),
            Phase::Verify { plan } => Request::ProbeFile(plan.binary_path.clone()),
            Phase::ListExtracted { plan } => Request::ListOutputDir(
                output_dir_of(plan.directory.as_str()),
            ),
            Phase::ReportFailure { reported, .. } => Request::ReportStatus(
                InstallationStatus::Failed(reported.clone()),
            ),
        }
    }

    /// Takes the host's answer to the pending request and makes the next
    /// move.
    pub fn advance(self, reply: Reply) -> (step: Step)
        ensures
            step@ == self@.next(reply@),
    {
        let Resolution { context, phase } = self;
        match phase {
            Phase::ProbeConfigured { path } => match reply {
                Reply::Probed(hit) => if hit {
                    context.done(Ok(path))
                } else {
                    context.search_from(0)
                },
                _ => context.at(Phase::ProbeConfigured { path }),
            },
            Phase::SearchPath { name, next } => match reply {
                Reply::Located(Some(path)) => context.found(path),
                Reply::Located(None) => context.search_from(next),
                _ => context.at(Phase::SearchPath { name, next }),
            },
            Phase::ProbeCached { path } => match reply {
                Reply::Probed(hit) => if hit {
                    context.done(Ok(path))
                } else {
                    context.forgetting().after_cache()
                },
                _ => context.at(Phase::ProbeCached { path }),
            },
            Phase::ScanWorkingDir { binary_name } => match reply {
                Reply::Listing(listing) => {
                    let entries = entries_of(listing);
                    let candidates = candidate_paths(&entries, binary_name.as_str());
                    context.installed_from(binary_name, candidates, 0)
                },
                _ => context.at(Phase::ScanWorkingDir { binary_name }),
            },
            Phase::ProbeInstalled { binary_name, candidate, candidates, next } => match reply {
                Reply::Probed(hit) => if hit {
                    context.found(candidate)
                } else {
                    context.installed_from(binary_name, candidates, next)
                },
                _ => context.at(Phase::ProbeInstalled { binary_name, candidate, candidates, next }),
            },
            Phase::Announce { binary_name } => match reply {
                Reply::Acknowledged => context.at(Phase::Query { binary_name }),
                _ => context.at(Phase::Announce { binary_name }),
            },
            Phase::Query { binary_name } => match reply {
                Reply::Fetched(fetched) => match query_marketplace_vsix_url(&fetched) {
                    Ok(release) => {
                        let plan = Plan::new(release, binary_name);
                        context.at(Phase::ProbeTarget { plan })
                    },
                    Err(cause) => context.fail(cause, binary_name.as_str()),
                },
                _ => context.at(Phase::Query { binary_name }),
            },
            Phase::ProbeTarget { plan } => match reply {
                Reply::Probed(hit) => if hit {
                    context.found(plan.binary_path)
                } else {
                    context.at(Phase::ListStale { plan })
                },
                _ => context.at(Phase::ProbeTarget { plan }),
            },
            Phase::ListStale { plan } => match reply {
                Reply::Listing(listing) => {
                    let entries = entries_of(listing);
                    let stale = cleanup_old_versions(&entries, &plan.directory);
                    context.remove_from(plan, stale, 0)
                },
                _ => context.at(Phase::ListStale { plan }),
            },
            Phase::RemoveStale { plan, current, stale, next } => match reply {
                Reply::Acknowledged => context.remove_from(plan, stale, next),
                _ => context.at(Phase::RemoveStale { plan, current, stale, next }),
            },
            Phase::Download { plan } => match reply {
                Reply::Completed(Ok(_)) => context.at(Phase::MakeExecutable { plan }),
                Reply::Completed(Err(cause)) => {
                    let failure = Failure::download_failed(cause.as_str());
                    context.fail(failure, plan.binary_name.as_str())
                },
                _ => context.at(Phase::Download { plan }),
            },
            Phase::MakeExecutable { plan } => match reply {
                Reply::Completed(Ok(_)) => context.at(Phase::Verify { plan }),
                Reply::Completed(Err(cause)) => {
                    let failure = Failure::permission_failed(cause.as_str());
                    context.fail(failure, plan.binary_name.as_str())
                },
                _ => context.at(Phase::MakeExecutable { plan }),
            },
            Phase::Verify { plan } => match reply {
                Reply::Probed(hit) => if hit {
                    context.found(plan.binary_path)
                } else {
                    context.at(Phase::ListExtracted { plan })
                },
                _ => context.at(Phase::Verify { plan }),
            },
            Phase::ListExtracted { plan } => match reply {
                Reply::Listing(listing) => {
                    let found = match listing {
                        Some(entries) => Some(binaries_among(&entries)),
                        None => None,
                    };
                    let failure = Failure::verification_failed(
                        plan.binary_name.as_str(),
                        &found,
                        context.target,
                    );
                    context.fail(failure, plan.binary_name.as_str())
                },
                _ => context.at(Phase::ListExtracted { plan }),
            },
            Phase::ReportFailure { failure, reported } => match reply {
                Reply::Acknowledged => context.done(Err(failure)),
                _ => context.at(Phase::ReportFailure { failure, reported }),
            },
        }
    }
}

} // verus!
