//! The proof that a resolution, followed move by move, comes to what
//! [`crate::account`] says of it in one piece.

use vstd::prelude::*;
use crate::account::{
    download, failed, first_file, first_on_path, found_at, installation, lookup_on_disk,
    lookup_on_search_path, lookup_remembered, marking, off_search_path, probe_of, probes,
    removals, resolution, searches, verification,
};
use crate::failure::{
    download_failed, permission_failed, verification_failed, with_remediation, FailureView,
};
use crate::layout::{installed_candidates, output_dir, stale_version_dirs};
use crate::model::{run, Outcome, World};
use crate::platform::{binary_names, PlatformTarget};
use crate::protocol::{InstallationStatusView, RequestView};
use crate::registry::{discovered, marketplace_query};
use crate::transition::{
    begin_resolution, found_binaries, listed, plan_for, ContextView, PhaseView, PlanView,
    StepView,
};

verus! {

/// While the names miss, the search goes through them one by one.
proof fn lemma_search_misses(context: ContextView, world: World, index: nat)
    requires
        index <= binary_names().len(),
        off_search_path(world, index as int),
    ensures
        run(context.search_from(index), world) == run(
            context.after_search(),
            world,
        ).preceded_by(searches(binary_names().skip(index as int))),
    decreases binary_names().len() - index,
{
    let names = binary_names();
    let rest = run(context.after_search(), world);
    if index < names.len() {
        lemma_search_misses(context, world, index + 1);
        assert(!world.search_path.contains_key(names[index as int]));
        let later = run(context.search_from(index + 1), world);
        assert(run(context.search_from(index), world) == later.after(
            RequestView::SearchPath(names[index as int]),
        ));
        assert(searches(names.skip(index as int)) =~= seq![
            RequestView::SearchPath(names[index as int]),
        ] + searches(names.skip(index as int + 1)));
        assert(later.after(RequestView::SearchPath(names[index as int])) =~= rest.preceded_by(
            searches(names.skip(index as int)),
        ));
    } else {
        assert(searches(names.skip(index as int)) =~= Seq::<RequestView>::empty());
        assert(rest.preceded_by(searches(names.skip(index as int))) =~= rest);
    }
}

/// The search ends at the first name that is on the search path.
proof fn lemma_search_hits(context: ContextView, world: World, index: nat, hit: nat)
    requires
        index <= hit < binary_names().len(),
        world.search_path.contains_key(binary_names()[hit as int]),
        forall|j: int|
            index <= j < hit ==> !world.search_path.contains_key(#[trigger] binary_names()[j]),
    ensures
        run(context.search_from(index), world) == (Outcome {
            result: Ok(world.search_path[binary_names()[hit as int]]),
            cache: Some(world.search_path[binary_names()[hit as int]]),
            world,
            trace: searches(binary_names().subrange(index as int, hit as int + 1)),
        }),
    decreases hit - index,
{
    let names = binary_names();
    let path = world.search_path[names[hit as int]];
    let here = RequestView::SearchPath(names[index as int]);
    if index < hit {
        lemma_search_hits(context, world, index + 1, hit);
        assert(!world.search_path.contains_key(names[index as int]));
        let later = run(context.search_from(index + 1), world);
        assert(run(context.search_from(index), world) == later.after(here));
        assert(searches(names.subrange(index as int, hit as int + 1)) =~= seq![here] + searches(
            names.subrange(index as int + 1, hit as int + 1),
        ));
    } else {
        let done = run(context.found(path), world);
        assert(run(context.search_from(index), world) == done.after(here));
        assert(searches(names.subrange(index as int, hit as int + 1)) =~= seq![here]);
        assert(done.after(here).trace =~= seq![here]);
    }
}

/// While the candidates miss, the lookup goes through them one by one, and
/// then the installation begins.
proof fn lemma_candidates_miss(
    context: ContextView,
    world: World,
    binary_name: Seq<char>,
    candidates: Seq<Seq<char>>,
    index: nat,
)
    requires
        index <= candidates.len(),
        forall|j: int| index <= j < candidates.len() ==> !world.files.contains(#[trigger] candidates[j]),
    ensures
        run(context.installed_from(binary_name, candidates, index), world) == run(
            context.at(PhaseView::Announce { binary_name }),
            world,
        ).preceded_by(probes(candidates.skip(index as int))),
    decreases candidates.len() - index,
{
    let rest = run(context.at(PhaseView::Announce { binary_name }), world);
    if index < candidates.len() {
        let here = RequestView::ProbeFile(candidates[index as int]);
        lemma_candidates_miss(context, world, binary_name, candidates, index + 1);
        assert(!world.files.contains(candidates[index as int]));
        let later = run(context.installed_from(binary_name, candidates, index + 1), world);
        assert(run(context.installed_from(binary_name, candidates, index), world) == later.after(
            here,
        ));
        assert(probes(candidates.skip(index as int)) =~= seq![here] + probes(
            candidates.skip(index as int + 1),
        ));
        assert(later.after(here) =~= rest.preceded_by(probes(candidates.skip(index as int))));
    } else {
        assert(probes(candidates.skip(index as int)) =~= Seq::<RequestView>::empty());
        assert(rest.preceded_by(probes(candidates.skip(index as int))) =~= rest);
    }
}

/// The lookup on disk ends at the first candidate that is a file.
proof fn lemma_candidates_hit(
    context: ContextView,
    world: World,
    binary_name: Seq<char>,
    candidates: Seq<Seq<char>>,
    index: nat,
    hit: nat,
)
    requires
        index <= hit < candidates.len(),
        world.files.contains(candidates[hit as int]),
        forall|j: int| index <= j < hit ==> !world.files.contains(#[trigger] candidates[j]),
    ensures
        run(context.installed_from(binary_name, candidates, index), world) == (Outcome {
            result: Ok(candidates[hit as int]),
            cache: Some(candidates[hit as int]),
            world,
            trace: probes(candidates.subrange(index as int, hit as int + 1)),
        }),
    decreases hit - index,
{
    let here = RequestView::ProbeFile(candidates[index as int]);
    if index < hit {
        lemma_candidates_hit(context, world, binary_name, candidates, index + 1, hit);
        assert(!world.files.contains(candidates[index as int]));
        let later = run(context.installed_from(binary_name, candidates, index + 1), world);
        assert(run(context.installed_from(binary_name, candidates, index), world) == later.after(
            here,
        ));
        assert(probes(candidates.subrange(index as int, hit as int + 1)) =~= seq![here] + probes(
            candidates.subrange(index as int + 1, hit as int + 1),
        ));
    } else {
        let done = run(context.found(candidates[hit as int]), world);
        assert(run(context.installed_from(binary_name, candidates, index), world) == done.after(
            here,
        ));
        assert(probes(candidates.subrange(index as int, hit as int + 1)) =~= seq![here]);
        assert(done.after(here).trace =~= seq![here]);
    }
}

/// The cleanup asks for the stale directories to be deleted one by one, and
/// then the download begins.
proof fn lemma_removals(
    context: ContextView,
    world: World,
    plan: PlanView,
    stale: Seq<Seq<char>>,
    index: nat,
)
    requires
        index <= stale.len(),
    ensures
        run(context.remove_from(plan, stale, index), world) == run(
            context.at(PhaseView::Download { plan }),
            world.without_dirs(stale.skip(index as int)),
        ).preceded_by(removals(stale.skip(index as int))),
    decreases stale.len() - index,
{
    let left = stale.skip(index as int);
    if index < stale.len() {
        let here = RequestView::RemoveDir(stale[index as int]);
        let cleaner = world.without_dir(stale[index as int]);
        lemma_removals(context, cleaner, plan, stale, index + 1);
        let later = run(context.remove_from(plan, stale, index + 1), cleaner);
        assert(run(context.remove_from(plan, stale, index), world) == later.after(here));
        assert(left.drop_first() =~= stale.skip(index as int + 1));
        assert(world.without_dirs(left) == cleaner.without_dirs(stale.skip(index as int + 1)));
        assert(removals(left) =~= seq![here] + removals(stale.skip(index as int + 1)));
        let rest = run(context.at(PhaseView::Download { plan }), world.without_dirs(left));
        assert(later.after(here) =~= rest.preceded_by(removals(left)));
    } else {
        let rest = run(context.at(PhaseView::Download { plan }), world);
        assert(removals(left) =~= Seq::<RequestView>::empty());
        assert(rest.preceded_by(removals(left)) =~= rest);
    }
}

/// A failed installation ends as [`failed`] says.
proof fn lemma_failed(
    context: ContextView,
    cause: FailureView,
    binary_name: Seq<char>,
    world: World,
)
    ensures
        run(context.fail(cause, binary_name), world) == failed(context, cause, binary_name, world),
{
    if !context.standalone {
        let status = InstallationStatusView::Failed(cause.message);
        let shown = World { status, ..world };
        let end = StepView::Done(
            context.cache,
            Err(with_remediation(cause, binary_name)),
        );
        assert(run(context.fail(cause, binary_name), world) == run(end, shown).after(
            RequestView::ReportStatus(status),
        ));
        assert(run(end, shown).after(RequestView::ReportStatus(status)) =~= failed(
            context,
            cause,
            binary_name,
            world,
        ));
    }
}

/// From the verification on, an installation ends as [`verification`] says.
proof fn lemma_verification(context: ContextView, plan: PlanView, world: World)
    ensures
        run(context.at(PhaseView::Verify { plan }), world) == verification(context, plan, world),
{
    let check = RequestView::ProbeFile(plan.binary_path);
    let list = RequestView::ListOutputDir(output_dir(plan.directory));
    let start = run(context.at(PhaseView::Verify { plan }), world);
    if world.files.contains(plan.binary_path) {
        assert(start == run(context.found(plan.binary_path), world).after(check));
        assert(start =~= verification(context, plan, world));
    } else {
        let cause = verification_failed(
            plan.binary_name,
            found_binaries(
                world.listing_of(output_dir(plan.directory)),
            ),
            context.target,
        );
        let listing = run(context.at(PhaseView::ListExtracted { plan }), world);
        lemma_failed(context, cause, plan.binary_name, world);
        assert(start == listing.after(check));
        assert(listing == run(context.fail(cause, plan.binary_name), world).after(list));
        assert(start =~= verification(context, plan, world));
    }
}

/// From the marking on, an installation ends as [`marking`] says.
proof fn lemma_marking(context: ContextView, plan: PlanView, world: World)
    ensures
        run(context.at(PhaseView::MakeExecutable { plan }), world) == marking(
            context,
            plan,
            world,
        ),
{
    let mark = RequestView::MakeExecutable(plan.binary_path);
    let start = run(context.at(PhaseView::MakeExecutable { plan }), world);
    if world.unmarkable.contains_key(plan.binary_path) {
        let cause = permission_failed(world.unmarkable[plan.binary_path]);
        lemma_failed(context, cause, plan.binary_name, world);
        assert(start == run(context.fail(cause, plan.binary_name), world).after(mark));
        assert(start =~= marking(context, plan, world));
    } else {
        lemma_verification(context, plan, world);
        assert(start == run(context.at(PhaseView::Verify { plan }), world).after(mark));
        assert(start =~= marking(context, plan, world));
    }
}

/// From the download on, an installation ends as [`download`] says.
proof fn lemma_download(context: ContextView, plan: PlanView, world: World)
    ensures
        run(context.at(PhaseView::Download { plan }), world) == download(context, plan, world),
{
    let fetch = RequestView::Download { url: plan.archive_url, directory: plan.directory };
    let start = run(context.at(PhaseView::Download { plan }), world);
    if world.archives.contains_key(plan.archive_url) {
        let unpacked = world.with_unpacked(plan.directory, world.archives[plan.archive_url]);
        lemma_marking(context, plan, unpacked);
        assert(start == run(context.at(PhaseView::MakeExecutable { plan }), unpacked).after(
            fetch,
        ));
        assert(start =~= download(context, plan, world));
    } else {
        let cause = download_failed(world.download_error);
        lemma_failed(context, cause, plan.binary_name, world);
        assert(start == run(context.fail(cause, plan.binary_name), world).after(fetch));
        assert(start =~= download(context, plan, world));
    }
}

/// An installation, followed move by move, ends as [`installation`] says in
/// one piece: with the same result, the same remembered path, the same state
/// of the host and the same requests in the same order.
pub proof fn installation_runs_as_described(context: ContextView, binary_name: Seq<char>, world: World)
    ensures
        run(context.at(PhaseView::Announce { binary_name }), world) == installation(
            context,
            binary_name,
            world,
        ),
{
    let announce = RequestView::ReportStatus(InstallationStatusView::Downloading);
    let announced = World { status: InstallationStatusView::Downloading, ..world };
    let start = run(context.at(PhaseView::Announce { binary_name }), world);
    let asking = run(context.at(PhaseView::Query { binary_name }), announced);
    assert(start == asking.after(announce));
    match discovered(world.registry) {
        Err(cause) => {
            lemma_failed(context, cause, binary_name, announced);
            assert(asking == run(context.fail(cause, binary_name), announced).after(
                RequestView::QueryRegistry(marketplace_query()),
            ));
            assert(start =~= installation(context, binary_name, world));
        },
        Ok(release) => {
            let plan = plan_for(release, binary_name);
            let probe = RequestView::ProbeFile(plan.binary_path);
            let probing = run(context.at(PhaseView::ProbeTarget { plan }), announced);
            assert(asking == probing.after(RequestView::QueryRegistry(marketplace_query())));
            if world.files.contains(plan.binary_path) {
                assert(probing == run(context.found(plan.binary_path), announced).after(probe));
                assert(start =~= installation(context, binary_name, world));
            } else {
                let stale = stale_version_dirs(
                    listed(world.entries),
                    plan.directory,
                );
                let listing = run(context.at(PhaseView::ListStale { plan }), announced);
                assert(probing == listing.after(probe));
                assert(listing == run(context.remove_from(plan, stale, 0), announced).after(
                    RequestView::ListWorkingDir,
                ));
                lemma_removals(context, announced, plan, stale, 0);
                assert(stale.skip(0) =~= stale);
                lemma_download(context, plan, announced.without_dirs(stale));
                assert(start =~= installation(context, binary_name, world));
            }
        },
    }
}

/// What `first_on_path` finds is on the search path, and nothing before it
/// is.
pub proof fn lemma_first_on_path(world: World, from: int)
    requires
        0 <= from <= binary_names().len(),
    ensures
        match first_on_path(world, from) {
            Some(place) => {
                &&& from <= place < binary_names().len()
                &&& world.search_path.contains_key(binary_names()[place])
                &&& forall|j: int|
                    from <= j < place ==> !world.search_path.contains_key(
                        #[trigger] binary_names()[j],
                    )
            },
            None => off_search_path(world, from),
        },
    decreases binary_names().len() - from,
{
    if from < binary_names().len() && !world.search_path.contains_key(binary_names()[from]) {
        lemma_first_on_path(world, from + 1);
    }
}

/// What `first_file` finds is a file, and nothing before it is.
pub proof fn lemma_first_file(world: World, paths: Seq<Seq<char>>, from: int)
    requires
        0 <= from <= paths.len(),
    ensures
        match first_file(world, paths, from) {
            Some(place) => {
                &&& from <= place < paths.len()
                &&& world.files.contains(paths[place])
                &&& forall|j: int| from <= j < place ==> !world.files.contains(#[trigger] paths[j])
            },
            None => forall|j: int|
                from <= j < paths.len() ==> !world.files.contains(#[trigger] paths[j]),
        },
    decreases paths.len() - from,
{
    if from < paths.len() && !world.files.contains(paths[from]) {
        lemma_first_file(world, paths, from + 1);
    }
}

/// From the fourth place on, a resolution ends as [`lookup_on_disk`] says.
proof fn lemma_after_cache(context: ContextView, world: World)
    ensures
        run(context.after_cache(), world) == lookup_on_disk(context, world),
{
    let start = run(context.after_cache(), world);
    if context.target.supported() {
        let binary_name = context.target.binary_name();
        let candidates = installed_candidates(listed(world.entries), binary_name);
        let list = seq![RequestView::ListWorkingDir];
        let scanned = run(context.installed_from(binary_name, candidates, 0), world);
        assert(start == scanned.after(RequestView::ListWorkingDir));
        lemma_first_file(world, candidates, 0);
        match first_file(world, candidates, 0) {
            Some(place) => {
                lemma_candidates_hit(context, world, binary_name, candidates, 0, place as nat);
                assert(candidates.subrange(0, place + 1) =~= candidates.take(place + 1));
                assert(start =~= found_at(candidates[place], world).preceded_by(
                    list + probes(candidates.take(place + 1)),
                ));
            },
            None => {
                lemma_candidates_miss(context, world, binary_name, candidates, 0);
                installation_runs_as_described(context, binary_name, world);
                assert(candidates.skip(0) =~= candidates);
                assert(start =~= installation(context, binary_name, world).preceded_by(
                    list + probes(candidates),
                ));
            },
        }
    }
}

/// From the third place on, a resolution ends as [`lookup_remembered`] says.
proof fn lemma_after_search(context: ContextView, world: World)
    ensures
        run(context.after_search(), world) == lookup_remembered(context, world),
{
    let start = run(context.after_search(), world);
    let later = run(context.forgetting().after_cache(), world);
    lemma_after_cache(context.forgetting(), world);
    match context.cache {
        Some(path) => {
            let asked = RequestView::ProbeFile(path);
            if world.files.contains(path) {
                let end = StepView::Done(context.cache, Ok(path));
                assert(start == run(end, world).after(asked));
                assert(start =~= lookup_remembered(context, world));
            } else {
                assert(start == later.after(asked));
                assert(start =~= later.preceded_by(probe_of(context.cache)));
            }
        },
        None => {
            assert(context.forgetting() == context);
            assert(start == later);
            assert(start =~= later.preceded_by(probe_of(context.cache)));
        },
    }
}

/// From the second place on, a resolution ends as [`lookup_on_search_path`]
/// says.
proof fn lemma_search(context: ContextView, world: World)
    ensures
        run(context.search_from(0), world) == lookup_on_search_path(context, world),
{
    let names = binary_names();
    lemma_first_on_path(world, 0);
    match first_on_path(world, 0) {
        Some(place) => {
            lemma_search_hits(context, world, 0, place as nat);
            assert(names.subrange(0, place + 1) =~= names.take(place + 1));
            assert(run(context.search_from(0), world) =~= found_at(
                world.search_path[names[place]],
                world,
            ).preceded_by(searches(names.take(place + 1))));
        },
        None => {
            lemma_search_misses(context, world, 0);
            lemma_after_search(context, world);
            assert(names.skip(0) =~= names);
        },
    }
}

/// A resolution, followed move by move, ends as [`resolution`] says in one
/// piece: with the same result, the same remembered path, the same state of
/// the host and the same requests in the same order.
pub proof fn resolution_runs_as_described(
    cache: Option<Seq<char>>,
    target: PlatformTarget,
    configured: Option<Seq<char>>,
    world: World,
)
    ensures
        run(begin_resolution(cache, target, configured), world) == resolution(
            ContextView { cache, target, standalone: false },
            configured,
            world,
        ),
{
    let context = ContextView { cache, target, standalone: false };
    let start = run(begin_resolution(cache, target, configured), world);
    let searching = run(context.search_from(0), world);
    lemma_search(context, world);
    match configured {
        Some(path) => {
            let asked = RequestView::ProbeFile(path);
            if world.files.contains(path) {
                let end = StepView::Done(cache, Ok(path));
                assert(start == run(end, world).after(asked));
                assert(start =~= resolution(context, configured, world));
            } else {
                assert(start == searching.after(asked));
                assert(start =~= searching.preceded_by(probe_of(configured)));
            }
        },
        None => {
            assert(start == searching);
            assert(start =~= searching.preceded_by(probe_of(configured)));
        },
    }
}

} // verus!
