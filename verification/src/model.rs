//! A model of the host, and what a resolution comes to when the host
//! answers as the model says.
//!
//! The model is mathematics only: nothing here runs. It lets the crate say
//! what a whole resolution does — which path it returns, what it asks for on
//! the way, what it leaves on disk — and not just what one move does.

use vstd::prelude::*;
use crate::failure::FailureView;
use crate::platform::binary_names;
use crate::protocol::{InstallationStatusView, ReplyView, RequestView};
use crate::transition::{PhaseView, ResolutionView, StepView};

verus! {

/// The state of a host, as far as a resolution can tell.
#[verifier::ext_equal]
pub struct World {
    /// The paths at which there is a regular file.
    pub files: Set<Seq<char>>,
    /// The names that the search path knows, each with the path it leads to.
    pub search_path: Map<Seq<char>, Seq<char>>,
    /// The names of the entries of the working directory, in the order in
    /// which a listing gives them; nothing where it cannot be read.
    pub entries: Option<Seq<Seq<char>>>,
    /// The names of the entries of the other directories that can be read,
    /// as a listing gives them at the time it is asked for.
    pub listings: Map<Seq<char>, Seq<Seq<char>>>,
    /// The registry's answer to the query: its body, or why there is none.
    pub registry: Result<Seq<u8>, Seq<char>>,
    /// The archives that can be fetched, by address: for each, the paths of
    /// its files, relative to the directory it is unpacked into.
    pub archives: Map<Seq<char>, Set<Seq<char>>>,
    /// What the host says of an archive that cannot be fetched.
    pub download_error: Seq<char>,
    /// The paths that cannot be marked executable, each with what the host
    /// says of it.
    pub unmarkable: Map<Seq<char>, Seq<char>>,
    /// The entries of the working directory that cannot be deleted.
    pub undeletable: Set<Seq<char>>,
    /// The status shown to the user.
    pub status: InstallationStatusView,
}

/// Whether `path` lies below the directory `name`.
pub open spec fn below(name: Seq<char>, path: Seq<char>) -> bool {
    (name + "/"@).is_prefix_of(path)
}

/// What tells the entries with another name than `name` from the one with
/// that name.
pub open spec fn other_than(name: Seq<char>) -> spec_fn(Seq<char>) -> bool {
    |entry: Seq<char>| entry != name
}

impl World {
    /// The host after an attempt to delete the entry `name` of the working
    /// directory. Where it can be deleted, it leaves the listing, and no file
    /// is left below it.
    pub open spec fn without_dir(self, name: Seq<char>) -> World {
        if self.undeletable.contains(name) {
            self
        } else {
            World {
                files: self.files.filter(|path: Seq<char>| !below(name, path)),
                entries: match self.entries {
                    Some(entries) => Some(entries.filter(other_than(name))),
                    None => None,
                },
                ..self
            }
        }
    }

    /// The host after attempts to delete the entries `names` of the working
    /// directory, one after the other.
    pub open spec fn without_dirs(self, names: Seq<Seq<char>>) -> World
        decreases names.len(),
    {
        if names.len() == 0 {
            self
        } else {
            self.without_dir(names[0]).without_dirs(names.drop_first())
        }
    }

    /// The host after an archive with the files `paths` was unpacked into
    /// the entry `directory` of the working directory.
    pub open spec fn with_unpacked(self, directory: Seq<char>, paths: Set<Seq<char>>) -> World {
        World {
            files: self.files.union(
                Set::new(
                    |path: Seq<char>|
                        exists|inner: Seq<char>|
                            paths.contains(inner) && path == directory + "/"@ + inner,
                ),
            ),
            entries: match self.entries {
                Some(entries) => Some(
                    if entries.contains(directory) {
                        entries
                    } else {
                        entries.push(directory)
                    },
                ),
                None => None,
            },
            ..self
        }
    }

    /// The names of the entries of the directory at `path`; nothing where it
    /// cannot be read.
    pub open spec fn listing_of(self, path: Seq<char>) -> Option<Seq<Seq<char>>> {
        if self.listings.contains_key(path) {
            Some(self.listings[path])
        } else {
            None
        }
    }

    /// What the host answers to a request, and the state it is in afterwards.
    pub open spec fn respond(self, request: RequestView) -> (World, ReplyView) {
        match request {
            RequestView::ProbeFile(path) => (self, ReplyView::Probed(self.files.contains(path))),
            RequestView::SearchPath(name) => (
                self,
                ReplyView::Located(
                    if self.search_path.contains_key(name) {
                        Some(self.search_path[name])
                    } else {
                        None
                    },
                ),
            ),
            RequestView::ListWorkingDir => (self, ReplyView::Listing(self.entries)),
            RequestView::ListOutputDir(path) => (self, ReplyView::Listing(self.listing_of(path))),
            RequestView::ReportStatus(status) => (
                World { status, ..self },
                ReplyView::Acknowledged,
            ),
            RequestView::QueryRegistry(_) => (self, ReplyView::Fetched(self.registry)),
            RequestView::RemoveDir(name) => (self.without_dir(name), ReplyView::Acknowledged),
            RequestView::Download { url, directory } => if self.archives.contains_key(url) {
                (
                    self.with_unpacked(directory, self.archives[url]),
                    ReplyView::Completed(Ok(())),
                )
            } else {
                (self, ReplyView::Completed(Err(self.download_error)))
            },
            RequestView::MakeExecutable(path) => (
                self,
                ReplyView::Completed(
                    if self.unmarkable.contains_key(path) {
                        Err(self.unmarkable[path])
                    } else {
                        Ok(())
                    },
                ),
            ),
        }
    }
}

/// How a resolution ended.
#[verifier::ext_equal]
pub struct Outcome {
    /// The path of the binary, or the failure.
    pub result: Result<Seq<char>, FailureView>,
    /// The path that the extension remembers afterwards.
    pub cache: Option<Seq<char>>,
    /// The host afterwards.
    pub world: World,
    /// The requests that were made, in their order.
    pub trace: Seq<RequestView>,
}

impl Outcome {
    /// The outcome of a resolution that made `request` first and then went
    /// on to this outcome.
    pub open spec fn after(self, request: RequestView) -> Outcome {
        Outcome { trace: seq![request] + self.trace, ..self }
    }

    /// The outcome of a resolution that made `requests` first and then went
    /// on to this outcome.
    pub open spec fn preceded_by(self, requests: Seq<RequestView>) -> Outcome {
        Outcome { trace: requests + self.trace, ..self }
    }

    /// Whether any request went out to the network.
    pub open spec fn used_network(self) -> bool {
        exists|i: int| 0 <= i < self.trace.len() && (#[trigger] self.trace[i]).uses_network()
    }
}

impl PhaseView {
    /// How far the phase is from the end of the resolution, counted in
    /// phases.
    pub open spec fn stage(self) -> nat {
        match self {
            PhaseView::ProbeConfigured { .. } => 15,
            PhaseView::SearchPath { .. } => 14,
            PhaseView::ProbeCached { .. } => 13,
            PhaseView::ScanWorkingDir { .. } => 12,
            PhaseView::ProbeInstalled { .. } => 11,
            PhaseView::Announce { .. } => 10,
            PhaseView::Query { .. } => 9,
            PhaseView::ProbeTarget { .. } => 8,
            PhaseView::ListStale { .. } => 7,
            PhaseView::RemoveStale { .. } => 6,
            PhaseView::Download { .. } => 5,
            PhaseView::MakeExecutable { .. } => 4,
            PhaseView::Verify { .. } => 3,
            PhaseView::ListExtracted { .. } => 2,
            PhaseView::ReportFailure { .. } => 1,
        }
    }

    /// How many more times the phase can come round.
    pub open spec fn remaining(self) -> nat {
        match self {
            PhaseView::SearchPath { next, .. } => if next < binary_names().len() {
                (binary_names().len() - next) as nat
            } else {
                0
            },
            PhaseView::ProbeInstalled { candidates, next, .. } => if next < candidates.len() {
                (candidates.len() - next) as nat
            } else {
                0
            },
            PhaseView::RemoveStale { stale, next, .. } => if next < stale.len() {
                (stale.len() - next) as nat
            } else {
                0
            },
            _ => 0,
        }
    }
}

impl StepView {
    /// How far the step is from the end of the resolution, counted in
    /// phases.
    pub open spec fn stage(self) -> nat {
        match self {
            StepView::Continue(resolution) => resolution.phase.stage(),
            StepView::Done(..) => 0,
        }
    }

    /// How many more times the phase of the step can come round.
    pub open spec fn remaining(self) -> nat {
        match self {
            StepView::Continue(resolution) => resolution.phase.remaining(),
            StepView::Done(..) => 0,
        }
    }
}

/// A resolution that gets the model's answer to its pending request comes
/// closer to its end.
pub proof fn lemma_answered_step_descends(resolution: ResolutionView, world: World)
    ensures
        ({
            let step = resolution.next(world.respond(resolution.pending()).1);
            step.stage() < resolution.phase.stage() || (step.stage() == resolution.phase.stage()
                && step.remaining() < resolution.phase.remaining())
        }),
{
}

/// What a resolution comes to from `step` on, with the host in the state
/// `world` and answering as the model says.
pub open spec fn run(step: StepView, world: World) -> Outcome
    decreases step.stage(), step.remaining(),
{
    match step {
        StepView::Done(cache, result) => Outcome { result, cache, world, trace: Seq::empty() },
        StepView::Continue(resolution) => {
            let request = resolution.pending();
            let (after, reply) = world.respond(request);
            proof {
                lemma_answered_step_descends(resolution, world);
            }
            run(resolution.next(reply), after).after(request)
        },
    }
}

} // verus!
