//! What an installation and a lookup come to, written out from beginning to
//! end.
//!
//! [`crate::model::run`] follows a resolution move by move. The functions
//! here say the same in one piece, the way one would describe the procedure
//! to a reader; [`crate::laws`] proves that the two agree.

use vstd::prelude::*;
use crate::failure::{
    download_failed, permission_failed, unsupported_platform, verification_failed,
    with_remediation, FailureView,
};
use crate::layout::{installed_candidates, output_dir, stale_version_dirs};
use crate::model::{Outcome, World};
use crate::platform::binary_names;
use crate::protocol::{InstallationStatusView, RequestView};
use crate::registry::{discovered, marketplace_query};
use crate::transition::{found_binaries, listed, plan_for, ContextView, PlanView};

verus! {

/// One probe for each path, in their order.
pub open spec fn probes(paths: Seq<Seq<char>>) -> Seq<RequestView> {
    paths.map_values(|path: Seq<char>| RequestView::ProbeFile(path))
}

/// One lookup on the search path for each name, in their order.
pub open spec fn searches(names: Seq<Seq<char>>) -> Seq<RequestView> {
    names.map_values(|name: Seq<char>| RequestView::SearchPath(name))
}

/// One deletion for each name, in their order.
pub open spec fn removals(names: Seq<Seq<char>>) -> Seq<RequestView> {
    names.map_values(|name: Seq<char>| RequestView::RemoveDir(name))
}

/// The probe for a path, where there is one.
pub open spec fn probe_of(path: Option<Seq<char>>) -> Seq<RequestView> {
    match path {
        Some(path) => seq![RequestView::ProbeFile(path)],
        None => Seq::empty(),
    }
}

/// The end of a resolution that found the binary on the search path or on
/// disk: the path is returned and remembered.
pub open spec fn found_at(path: Seq<char>, world: World) -> Outcome {
    Outcome { result: Ok(path), cache: Some(path), world, trace: Seq::empty() }
}

/// The end of an installation that failed with `cause`. On its own it just
/// returns the cause. As part of a resolution it shows the cause to the user
/// and returns it with the ways to install the binary by hand.
pub open spec fn failed(
    context: ContextView,
    cause: FailureView,
    binary_name: Seq<char>,
    world: World,
) -> Outcome {
    if context.standalone {
        Outcome { result: Err(cause), cache: context.cache, world, trace: Seq::empty() }
    } else {
        let status = InstallationStatusView::Failed(cause.message);
        Outcome {
            result: Err(with_remediation(cause, binary_name)),
            cache: context.cache,
            world: World { status, ..world },
            trace: seq![RequestView::ReportStatus(status)],
        }
    }
}

/// The last part of an installation: the binary is probed where the archive
/// should have put it. Where it is missing, the output directory is listed,
/// and the failure names the binaries that the archive did hold.
pub open spec fn verification(context: ContextView, plan: PlanView, world: World) -> Outcome {
    let check = RequestView::ProbeFile(plan.binary_path);
    let list = RequestView::ListOutputDir(output_dir(plan.directory));
    if world.files.contains(plan.binary_path) {
        found_at(plan.binary_path, world).preceded_by(seq![check])
    } else {
        failed(
            context,
            verification_failed(
                plan.binary_name,
                found_binaries(world.listing_of(output_dir(plan.directory))),
                context.target,
            ),
            plan.binary_name,
            world,
        ).preceded_by(seq![check, list])
    }
}

/// The part of an installation after the archive is unpacked: the binary is
/// marked executable, and the verification follows.
pub open spec fn marking(context: ContextView, plan: PlanView, world: World) -> Outcome {
    let mark = seq![RequestView::MakeExecutable(plan.binary_path)];
    if world.unmarkable.contains_key(plan.binary_path) {
        failed(
            context,
            permission_failed(world.unmarkable[plan.binary_path]),
            plan.binary_name,
            world,
        ).preceded_by(mark)
    } else {
        verification(context, plan, world).preceded_by(mark)
    }
}

/// The second half of an installation: the archive is fetched and unpacked,
/// and the marking follows.
pub open spec fn download(context: ContextView, plan: PlanView, world: World) -> Outcome {
    let fetch = seq![RequestView::Download { url: plan.archive_url, directory: plan.directory }];
    if world.archives.contains_key(plan.archive_url) {
        marking(
            context,
            plan,
            world.with_unpacked(plan.directory, world.archives[plan.archive_url]),
        ).preceded_by(fetch)
    } else {
        failed(
            context,
            download_failed(world.download_error),
            plan.binary_name,
            world,
        ).preceded_by(fetch)
    }
}

/// An installation from beginning to end. The download is announced and the
/// registry is asked for the latest version. If that version is already
/// unpacked, its binary is the answer. Otherwise the other version
/// directories are deleted as far as they can be, and the download follows.
pub open spec fn installation(context: ContextView, binary_name: Seq<char>, world: World) -> Outcome {
    let announced = World { status: InstallationStatusView::Downloading, ..world };
    let asked = seq![
        RequestView::ReportStatus(InstallationStatusView::Downloading),
        RequestView::QueryRegistry(marketplace_query()),
    ];
    match discovered(world.registry) {
        Err(cause) => failed(context, cause, binary_name, announced).preceded_by(asked),
        Ok(release) => {
            let plan = plan_for(release, binary_name);
            let probed = asked.push(RequestView::ProbeFile(plan.binary_path));
            if world.files.contains(plan.binary_path) {
                found_at(plan.binary_path, announced).preceded_by(probed)
            } else {
                let stale = stale_version_dirs(listed(world.entries), plan.directory);
                download(context, plan, announced.without_dirs(stale)).preceded_by(
                    probed.push(RequestView::ListWorkingDir) + removals(stale),
                )
            }
        },
    }
}

/// Whether none of the accepted names from place `from` on is on the search
/// path.
pub open spec fn off_search_path(world: World, from: int) -> bool {
    forall|j: int|
        from <= j < binary_names().len() ==> !world.search_path.contains_key(
            #[trigger] binary_names()[j],
        )
}

/// The place of the first accepted name, from place `from` on, that is on
/// the search path.
pub open spec fn first_on_path(world: World, from: int) -> Option<int>
    decreases binary_names().len() - from,
{
    if from < 0 || from >= binary_names().len() {
        None
    } else if world.search_path.contains_key(binary_names()[from]) {
        Some(from)
    } else {
        first_on_path(world, from + 1)
    }
}

/// The place of the first of `paths`, from place `from` on, that is a file.
pub open spec fn first_file(world: World, paths: Seq<Seq<char>>, from: int) -> Option<int>
    decreases paths.len() - from,
{
    if from < 0 || from >= paths.len() {
        None
    } else if world.files.contains(paths[from]) {
        Some(from)
    } else {
        first_file(world, paths, from + 1)
    }
}

/// Whether there is a file at the path.
pub open spec fn hits(path: Option<Seq<char>>, world: World) -> bool {
    path matches Some(path) && world.files.contains(path)
}

/// The fourth place of a lookup, and what follows it. The place needs the
/// name of the binary, so a platform without one fails here. The version
/// directories in the working directory are tried in the order of its
/// listing; the binary of the first that has one is the answer, and is
/// remembered. When they all miss, the installation follows.
pub open spec fn lookup_on_disk(context: ContextView, world: World) -> Outcome {
    if !context.target.supported() {
        Outcome {
            result: Err(unsupported_platform()),
            cache: context.cache,
            world,
            trace: Seq::empty(),
        }
    } else {
        let binary_name = context.target.binary_name();
        let candidates = installed_candidates(listed(world.entries), binary_name);
        let list = seq![RequestView::ListWorkingDir];
        match first_file(world, candidates, 0) {
            Some(place) => found_at(candidates[place], world).preceded_by(
                list + probes(candidates.take(place + 1)),
            ),
            None => installation(context, binary_name, world).preceded_by(
                list + probes(candidates),
            ),
        }
    }
}

/// The third place of a lookup, and what follows it: the path remembered
/// from last time is the answer if it is still a file. If it is not, it is
/// forgotten.
pub open spec fn lookup_remembered(context: ContextView, world: World) -> Outcome {
    if hits(context.cache, world) {
        Outcome {
            result: Ok(context.cache.unwrap()),
            cache: context.cache,
            world,
            trace: probe_of(context.cache),
        }
    } else {
        lookup_on_disk(context.forgetting(), world).preceded_by(probe_of(context.cache))
    }
}

/// The second place of a lookup, and what follows it: the accepted names are
/// looked up on the search path in their order; the path of the first that
/// is found is the answer, and is remembered.
pub open spec fn lookup_on_search_path(context: ContextView, world: World) -> Outcome {
    match first_on_path(world, 0) {
        Some(place) => found_at(world.search_path[binary_names()[place]], world).preceded_by(
            searches(binary_names().take(place + 1)),
        ),
        None => lookup_remembered(context, world).preceded_by(searches(binary_names())),
    }
}

/// A resolution from beginning to end. Four places are tried in a fixed
/// order, and the first that has the binary ends the resolution: the
/// configured path, the search path, the remembered path, the disk. When all
/// four miss, the installation follows.
pub open spec fn resolution(
    context: ContextView,
    configured: Option<Seq<char>>,
    world: World,
) -> Outcome {
    if hits(configured, world) {
        Outcome {
            result: Ok(configured.unwrap()),
            cache: context.cache,
            world,
            trace: probe_of(configured),
        }
    } else {
        lookup_on_search_path(context, world).preceded_by(probe_of(configured))
    }
}

} // verus!
