//! What holds of every resolution, proved against the model of the host.

use vstd::prelude::*;
use crate::account::{
    download, failed, first_file, first_on_path, hits, installation, lookup_on_disk,
    lookup_on_search_path, lookup_remembered, marking, off_search_path, probe_of, probes,
    removals, searches, verification,
};
use crate::agreement::{
    installation_runs_as_described, lemma_first_file, lemma_first_on_path,
    resolution_runs_as_described,
};
use crate::failure::{
    download_failed, permission_failed, unsupported_platform, verification_failed,
    with_remediation, FailureView,
};
use crate::layout::{
    binary_path, installed_candidates, is_version_dir, output_dir, stale_version_dirs,
    superseded_by, version_dir,
};
use crate::model::{other_than, run, Outcome, World};
use crate::platform::{binary_names, PlatformTarget};
use crate::protocol::{InstallationStatusView, RequestView};
use crate::registry::{discovered, marketplace_query};
use crate::transition::{
    begin_installation, begin_resolution, found_binaries, listed, plan_for, ContextView,
    PlanView, StepView,
};

verus! {

/// Whether no request of a trace goes out to the network.
pub open spec fn is_local(trace: Seq<RequestView>) -> bool {
    forall|i: int| 0 <= i < trace.len() ==> !(#[trigger] trace[i]).uses_network()
}

/// Probes and lookups on the search path stay on the machine.
proof fn lemma_lookup_is_local(
    configured: Option<Seq<char>>,
    names: Seq<Seq<char>>,
    cache: Option<Seq<char>>,
    paths: Seq<Seq<char>>,
)
    ensures
        is_local(probe_of(configured) + searches(names)),
        is_local(probe_of(configured) + searches(names) + probe_of(cache)),
        is_local(
            (probe_of(configured) + searches(names) + probe_of(cache)).push(
                RequestView::ListWorkingDir,
            ) + probes(paths),
        ),
{
}

/// The place that nothing on the search path comes before is the first.
proof fn lemma_first_on_path_is(world: World, place: int)
    requires
        0 <= place < binary_names().len(),
        world.search_path.contains_key(binary_names()[place]),
        forall|j: int| 0 <= j < place ==> !world.search_path.contains_key(#[trigger] binary_names()[j]),
    ensures
        first_on_path(world, 0) == Some(place),
{
    lemma_first_on_path(world, 0);
}

/// The place that no file comes before is the first.
proof fn lemma_first_file_is(world: World, paths: Seq<Seq<char>>, place: int)
    requires
        0 <= place < paths.len(),
        world.files.contains(paths[place]),
        forall|j: int| 0 <= j < place ==> !world.files.contains(#[trigger] paths[j]),
    ensures
        first_file(world, paths, 0) == Some(place),
{
    lemma_first_file(world, paths, 0);
}

/// Nothing on the search path means no first place.
proof fn lemma_nothing_on_path(world: World)
    requires
        off_search_path(world, 0),
    ensures
        first_on_path(world, 0) is None,
{
    lemma_first_on_path(world, 0);
}

/// First place of the order: a configured path that is a file is the answer,
/// whatever the search path, the remembered path and the disk hold. Nothing
/// else is asked of the host, and nothing is remembered anew.
pub proof fn configured_path_wins(
    cache: Option<Seq<char>>,
    target: PlatformTarget,
    configured: Seq<char>,
    world: World,
)
    requires
        world.files.contains(configured),
    ensures
        run(begin_resolution(cache, target, Some(configured)), world) == (Outcome {
            result: Ok(configured),
            cache,
            world,
            trace: seq![RequestView::ProbeFile(configured)],
        }),
{
    resolution_runs_as_described(cache, target, Some(configured), world);
}

/// Second place of the order: when the configured path misses, the first
/// accepted name that is on the search path is the answer, whatever the
/// remembered path and the disk hold. The path it leads to is remembered,
/// and the network is not used.
pub proof fn search_path_comes_second(
    cache: Option<Seq<char>>,
    target: PlatformTarget,
    configured: Option<Seq<char>>,
    world: World,
    place: int,
)
    requires
        !hits(configured, world),
        0 <= place < binary_names().len(),
        world.search_path.contains_key(binary_names()[place]),
        forall|j: int| 0 <= j < place ==> !world.search_path.contains_key(#[trigger] binary_names()[j]),
    ensures
        run(begin_resolution(cache, target, configured), world) == (Outcome {
            result: Ok(world.search_path[binary_names()[place]]),
            cache: Some(world.search_path[binary_names()[place]]),
            world,
            trace: probe_of(configured) + searches(binary_names().take(place + 1)),
        }),
        !run(begin_resolution(cache, target, configured), world).used_network(),
{
    resolution_runs_as_described(cache, target, configured, world);
    lemma_first_on_path_is(world, place);
    lemma_lookup_is_local(configured, binary_names().take(place + 1), None, Seq::empty());
    let outcome = run(begin_resolution(cache, target, configured), world);
    assert(outcome.trace =~= probe_of(configured) + searches(binary_names().take(place + 1)));
}

/// Third place of the order: when the configured path and the search path
/// miss, a remembered path that is still a file is the answer, whatever the
/// disk holds. The working directory is not listed, and the network is not
/// used.
pub proof fn remembered_path_comes_third(
    cache: Seq<char>,
    target: PlatformTarget,
    configured: Option<Seq<char>>,
    world: World,
)
    requires
        !hits(configured, world),
        off_search_path(world, 0),
        world.files.contains(cache),
    ensures
        run(begin_resolution(Some(cache), target, configured), world) == (Outcome {
            result: Ok(cache),
            cache: Some(cache),
            world,
            trace: (probe_of(configured) + searches(binary_names())).push(
                RequestView::ProbeFile(cache),
            ),
        }),
        !run(begin_resolution(Some(cache), target, configured), world).used_network(),
{
    resolution_runs_as_described(Some(cache), target, configured, world);
    lemma_nothing_on_path(world);
    lemma_lookup_is_local(configured, binary_names(), Some(cache), Seq::empty());
    let outcome = run(begin_resolution(Some(cache), target, configured), world);
    assert(outcome.trace =~= (probe_of(configured) + searches(binary_names())).push(
        RequestView::ProbeFile(cache),
    ));
    assert(outcome.trace =~= probe_of(configured) + searches(binary_names()) + probe_of(
        Some(cache),
    ));
}

/// Fourth place of the order: when the first three places miss, the binary
/// of the first version directory that has one is the answer, and no
/// installation begins. Its path is remembered, and the network is not used.
pub proof fn earlier_installation_comes_fourth(
    cache: Option<Seq<char>>,
    target: PlatformTarget,
    configured: Option<Seq<char>>,
    world: World,
    place: int,
)
    requires
        !hits(configured, world),
        off_search_path(world, 0),
        !hits(cache, world),
        target.supported(),
        0 <= place < installed_candidates(listed(world.entries), target.binary_name()).len(),
        world.files.contains(
            installed_candidates(listed(world.entries), target.binary_name())[place],
        ),
        forall|j: int|
            0 <= j < place ==> !world.files.contains(
                #[trigger] installed_candidates(listed(world.entries), target.binary_name())[j],
            ),
    ensures
        ({
            let candidates = installed_candidates(listed(world.entries), target.binary_name());
            run(begin_resolution(cache, target, configured), world) == (Outcome {
                result: Ok(candidates[place]),
                cache: Some(candidates[place]),
                world,
                trace: (probe_of(configured) + searches(binary_names()) + probe_of(cache)).push(
                    RequestView::ListWorkingDir,
                ) + probes(candidates.take(place + 1)),
            })
        }),
        !run(begin_resolution(cache, target, configured), world).used_network(),
{
    let candidates = installed_candidates(listed(world.entries), target.binary_name());
    resolution_runs_as_described(cache, target, configured, world);
    lemma_nothing_on_path(world);
    lemma_first_file_is(world, candidates, place);
    lemma_lookup_is_local(configured, binary_names(), cache, candidates.take(place + 1));
    let outcome = run(begin_resolution(cache, target, configured), world);
    assert(outcome.trace =~= (probe_of(configured) + searches(binary_names()) + probe_of(
        cache,
    )).push(RequestView::ListWorkingDir) + probes(candidates.take(place + 1)));
}

/// A platform without a published binary never reaches the network. A
/// resolution for it can still find a binary in one of the first three
/// places; when they all miss, it fails as an unsupported platform, having
/// asked for nothing but probes and lookups on the search path. It leaves
/// the host as it was, and remembers nothing. An installation on its own
/// fails at once, with no request at all.
pub proof fn unsupported_platform_fails_before_network(
    cache: Option<Seq<char>>,
    target: PlatformTarget,
    configured: Option<Seq<char>>,
    world: World,
)
    requires
        !target.supported(),
    ensures
        !run(begin_resolution(cache, target, configured), world).used_network(),
        run(begin_resolution(cache, target, configured), world).world == world,
        run(begin_resolution(cache, target, configured), world).result is Err <==> !hits(
            configured,
            world,
        ) && off_search_path(world, 0) && !hits(cache, world),
        run(begin_resolution(cache, target, configured), world).result is Err ==> run(
            begin_resolution(cache, target, configured),
            world,
        ) == (Outcome {
            result: Err(unsupported_platform()),
            cache: None,
            world,
            trace: probe_of(configured) + searches(binary_names()) + probe_of(cache),
        }),
        begin_installation(cache, target) == StepView::Done(cache, Err(unsupported_platform())),
        run(begin_installation(cache, target), world) == (Outcome {
            result: Err(unsupported_platform()),
            cache,
            world,
            trace: Seq::empty(),
        }),
{
    resolution_runs_as_described(cache, target, configured, world);
    lemma_first_on_path(world, 0);
    let outcome = run(begin_resolution(cache, target, configured), world);
    if hits(configured, world) {
        lemma_lookup_is_local(configured, Seq::empty(), None, Seq::empty());
        assert(outcome.trace =~= probe_of(configured) + searches(Seq::empty()));
    } else {
        match first_on_path(world, 0) {
            Some(place) => {
                lemma_lookup_is_local(
                    configured,
                    binary_names().take(place + 1),
                    None,
                    Seq::empty(),
                );
                assert(outcome.trace =~= probe_of(configured) + searches(
                    binary_names().take(place + 1),
                ));
            },
            None => {
                lemma_lookup_is_local(configured, binary_names(), cache, Seq::empty());
            },
        }
    }
}

/// Deleting entries of the working directory touches nothing but the files
/// and the listing of that directory.
proof fn lemma_cleanup_keeps(world: World, names: Seq<Seq<char>>)
    ensures
        world.without_dirs(names).registry == world.registry,
        world.without_dirs(names).archives == world.archives,
        world.without_dirs(names).undeletable == world.undeletable,
        world.without_dirs(names).status == world.status,
        world.without_dirs(names).entries is Some <==> world.entries is Some,
    decreases names.len(),
{
    if names.len() > 0 {
        lemma_cleanup_keeps(world.without_dir(names[0]), names.drop_first());
    }
}

/// After a cleanup in which every deletion succeeds, the working directory
/// has none of the deleted entries, and no entry that it had not before.
proof fn lemma_cleaned_entries(world: World, names: Seq<Seq<char>>, entry: Seq<char>)
    requires
        world.entries is Some,
        forall|i: int| 0 <= i < names.len() ==> !world.undeletable.contains(#[trigger] names[i]),
        world.without_dirs(names).entries is Some,
        world.without_dirs(names).entries->0.contains(entry),
    ensures
        world.entries->0.contains(entry),
        !names.contains(entry),
    decreases names.len(),
{
    if names.len() > 0 {
        let first = names[0];
        let cleaner = world.without_dir(first);
        let keep = other_than(first);
        assert(!world.undeletable.contains(names[0]));
        assert(cleaner.entries == Some(world.entries->0.filter(keep)));
        assert forall|i: int| 0 <= i < names.drop_first().len() implies !cleaner.undeletable.contains(
            #[trigger] names.drop_first()[i],
        ) by {
            assert(names.drop_first()[i] == names[i + 1]);
        }
        lemma_cleaned_entries(cleaner, names.drop_first(), entry);
        world.entries->0.lemma_filter_contains_rev(keep, entry);
        let at = choose|i: int|
            0 <= i < world.entries->0.filter(keep).len() && world.entries->0.filter(keep)[i]
                == entry;
        world.entries->0.lemma_filter_pred(keep, at);
        assert(entry != first);
        if names.contains(entry) {
            let place = choose|i: int| 0 <= i < names.len() && names[i] == entry;
            assert(names.drop_first()[place - 1] == entry);
        }
    }
}

/// A second installation of a version that is already there is cheap. When
/// an installation has returned a path, and the registry then still gives
/// the same answer and the binary is still at that path, a second
/// installation returns the same path and remembers it. It announces
/// itself, asks the registry, probes the path, and that is all: it
/// downloads nothing and deletes nothing. The host as the first
/// installation leaves it is such a host.
pub proof fn installing_again_downloads_nothing(
    cache: Option<Seq<char>>,
    target: PlatformTarget,
    first: World,
    second: World,
)
    requires
        run(begin_installation(cache, target), first).result is Ok,
        second.registry == first.registry,
        second.files.contains(run(begin_installation(cache, target), first).result->Ok_0),
    ensures
        ({
            let once = run(begin_installation(cache, target), first);
            let again = run(begin_installation(once.cache, target), second);
            &&& again == (Outcome {
                result: once.result,
                cache: once.cache,
                world: World { status: InstallationStatusView::Downloading, ..second },
                trace: seq![
                    RequestView::ReportStatus(InstallationStatusView::Downloading),
                    RequestView::QueryRegistry(marketplace_query()),
                    RequestView::ProbeFile(once.result->Ok_0),
                ],
            })
            &&& once.world.registry == first.registry
            &&& once.world.files.contains(once.result->Ok_0)
        }),
{
    let name = target.binary_name();
    let context = ContextView { cache, target, standalone: true };
    let once = run(begin_installation(cache, target), first);
    installation_runs_as_described(context, name, first);
    assert(target.supported());
    let release = discovered(first.registry)->Ok_0;
    let plan = plan_for(release, name);
    let path = plan.binary_path;
    let announced = World { status: InstallationStatusView::Downloading, ..first };
    if !first.files.contains(path) {
        let stale = stale_version_dirs(listed(first.entries), plan.directory);
        lemma_cleanup_keeps(announced, stale);
    }
    assert(once.result == Ok::<Seq<char>, FailureView>(path));
    assert(once.cache == Some(path));
    let again_context = ContextView { cache: once.cache, target, standalone: true };
    installation_runs_as_described(again_context, name, second);
    let again = run(begin_installation(once.cache, target), second);
    assert(again.trace =~= seq![
        RequestView::ReportStatus(InstallationStatusView::Downloading),
        RequestView::QueryRegistry(marketplace_query()),
        RequestView::ProbeFile(path),
    ]);
}

/// Whether all the version directories among `entries` bear the one name
/// `directory`.
pub open spec fn only_version(entries: Seq<Seq<char>>, directory: Seq<char>) -> bool {
    forall|i: int|
        0 <= i < entries.len() && is_version_dir(#[trigger] entries[i]) ==> entries[i]
            == directory
}

/// Whether each version directory among `entries` other than `directory`
/// can be deleted.
pub open spec fn stale_can_go(world: World, entries: Seq<Seq<char>>, directory: Seq<char>) -> bool {
    forall|i: int|
        0 <= i < entries.len() && is_version_dir(#[trigger] entries[i]) && entries[i]
            != directory ==> !world.undeletable.contains(entries[i])
}

/// An installation that had to download leaves one version on disk. When
/// the working directory can be listed and each superseded version
/// directory can be deleted, then after an installation that succeeded for
/// a version that was not yet unpacked, every version directory in the
/// working directory bears the name of that version.
pub proof fn download_leaves_one_version(
    context: ContextView,
    binary_name: Seq<char>,
    world: World,
)
    requires
        installation(context, binary_name, world).result is Ok,
        discovered(world.registry) is Ok,
        !world.files.contains(plan_for(discovered(world.registry)->Ok_0, binary_name).binary_path),
        world.entries is Some,
        stale_can_go(
            world,
            world.entries->0,
            version_dir(discovered(world.registry)->Ok_0.version),
        ),
    ensures
        installation(context, binary_name, world).world.entries is Some,
        only_version(
            installation(context, binary_name, world).world.entries->0,
            version_dir(discovered(world.registry)->Ok_0.version),
        ),
{
    let plan = plan_for(discovered(world.registry)->Ok_0, binary_name);
    let announced = World { status: InstallationStatusView::Downloading, ..world };
    let before = world.entries->0;
    let is_stale = superseded_by(plan.directory);
    let stale = stale_version_dirs(before, plan.directory);
    let cleaned = announced.without_dirs(stale);
    lemma_cleanup_keeps(announced, stale);
    assert(cleaned.archives.contains_key(plan.archive_url));
    let unpacked = cleaned.with_unpacked(plan.directory, cleaned.archives[plan.archive_url]);
    let after = installation(context, binary_name, world).world.entries->0;
    assert(installation(context, binary_name, world).world == unpacked);
    assert forall|i: int| 0 <= i < stale.len() implies !announced.undeletable.contains(
        #[trigger] stale[i],
    ) by {
        before.lemma_filter_pred(is_stale, i);
        assert(before.filter(is_stale).contains(stale[i]));
        before.lemma_filter_contains_rev(is_stale, stale[i]);
    }
    assert forall|i: int| 0 <= i < after.len() && is_version_dir(
        #[trigger] after[i],
    ) implies after[i] == plan.directory by {
        let entry = after[i];
        if entry != plan.directory {
            assert(cleaned.entries->0.contains(entry)) by {
                if !cleaned.entries->0.contains(plan.directory) {
                    assert(after == cleaned.entries->0.push(plan.directory));
                    assert(i < cleaned.entries->0.len());
                    assert(cleaned.entries->0[i] == entry);
                }
            }
            lemma_cleaned_entries(announced, stale, entry);
            let place = choose|j: int| 0 <= j < before.len() && before[j] == entry;
            before.lemma_filter_contains(is_stale, place);
        }
    }
}

/// [`download_leaves_one_version`] for an installation on its own.
pub proof fn installation_leaves_one_version(
    cache: Option<Seq<char>>,
    target: PlatformTarget,
    world: World,
)
    requires
        run(begin_installation(cache, target), world).result is Ok,
        discovered(world.registry) is Ok,
        !world.files.contains(
            binary_path(
                version_dir(discovered(world.registry)->Ok_0.version),
                target.binary_name(),
            ),
        ),
        world.entries is Some,
        stale_can_go(
            world,
            world.entries->0,
            version_dir(discovered(world.registry)->Ok_0.version),
        ),
    ensures
        run(begin_installation(cache, target), world).world.entries is Some,
        only_version(
            run(begin_installation(cache, target), world).world.entries->0,
            version_dir(discovered(world.registry)->Ok_0.version),
        ),
{
    let context = ContextView { cache, target, standalone: true };
    installation_runs_as_described(context, target.binary_name(), world);
    download_leaves_one_version(context, target.binary_name(), world);
}

/// [`download_leaves_one_version`] for a resolution that found the binary in
/// none of the four places and went on to install it.
pub proof fn resolution_leaves_one_version(
    cache: Option<Seq<char>>,
    target: PlatformTarget,
    configured: Option<Seq<char>>,
    world: World,
)
    requires
        target.supported(),
        !hits(configured, world),
        off_search_path(world, 0),
        !hits(cache, world),
        run(begin_resolution(cache, target, configured), world).result is Ok,
        discovered(world.registry) is Ok,
        !world.files.contains(
            binary_path(
                version_dir(discovered(world.registry)->Ok_0.version),
                target.binary_name(),
            ),
        ),
        world.entries is Some,
        stale_can_go(
            world,
            world.entries->0,
            version_dir(discovered(world.registry)->Ok_0.version),
        ),
        first_file(
            world,
            installed_candidates(world.entries->0, target.binary_name()),
            0,
        ) is None,
    ensures
        run(begin_resolution(cache, target, configured), world).world.entries is Some,
        only_version(
            run(begin_resolution(cache, target, configured), world).world.entries->0,
            version_dir(discovered(world.registry)->Ok_0.version),
        ),
{
    let context = ContextView { cache, target, standalone: false };
    resolution_runs_as_described(cache, target, configured, world);
    lemma_nothing_on_path(world);
    download_leaves_one_version(context.forgetting(), target.binary_name(), world);
}

/// A successful installation remembers the path it returns.
proof fn lemma_installation_remembers(context: ContextView, binary_name: Seq<char>, world: World)
    requires
        installation(context, binary_name, world).result is Ok,
    ensures
        installation(context, binary_name, world).cache == Some(
            installation(context, binary_name, world).result->Ok_0,
        ),
{
}

/// What a resolution returns it remembers, unless it is the configured
/// path: that one is asked for anew each time.
pub proof fn found_binary_is_remembered(
    cache: Option<Seq<char>>,
    target: PlatformTarget,
    configured: Option<Seq<char>>,
    world: World,
)
    requires
        run(begin_resolution(cache, target, configured), world).result is Ok,
        !hits(configured, world),
    ensures
        run(begin_resolution(cache, target, configured), world).cache == Some(
            run(begin_resolution(cache, target, configured), world).result->Ok_0,
        ),
{
    let context = ContextView { cache, target, standalone: false };
    resolution_runs_as_described(cache, target, configured, world);
    if first_on_path(world, 0) is None && !hits(cache, world) && target.supported() {
        let candidates = installed_candidates(listed(world.entries), target.binary_name());
        if first_file(world, candidates, 0) is None {
            lemma_installation_remembers(context.forgetting(), target.binary_name(), world);
        }
    }
}

/// What one resolution found, the next finds again without looking far.
/// When a resolution has returned a path that was not the configured one,
/// and the binary is then still at that path while the configured path and
/// the search path miss, the next resolution returns the same path from
/// memory: it probes and looks up names, and that is all. It does not list
/// the working directory and does not use the network.
pub proof fn resolving_again_uses_the_remembered_path(
    cache: Option<Seq<char>>,
    target: PlatformTarget,
    configured: Option<Seq<char>>,
    first: World,
    second: World,
)
    requires
        run(begin_resolution(cache, target, configured), first).result is Ok,
        !hits(configured, first),
        !hits(configured, second),
        off_search_path(second, 0),
        second.files.contains(run(begin_resolution(cache, target, configured), first).result->Ok_0),
    ensures
        ({
            let once = run(begin_resolution(cache, target, configured), first);
            let again = run(begin_resolution(once.cache, target, configured), second);
            &&& again == (Outcome {
                result: once.result,
                cache: once.cache,
                world: second,
                trace: (probe_of(configured) + searches(binary_names())).push(
                    RequestView::ProbeFile(once.result->Ok_0),
                ),
            })
            &&& !again.used_network()
        }),
{
    let once = run(begin_resolution(cache, target, configured), first);
    found_binary_is_remembered(cache, target, configured, first);
    remembered_path_comes_third(once.result->Ok_0, target, configured, second);
}

/// Whether an outcome is the failure `cause` of an installation, shown to
/// the user and returned with the ways to install the binary by hand.
pub open spec fn reported(outcome: Outcome, cause: FailureView, binary_name: Seq<char>) -> bool {
    &&& outcome.result == Err::<Seq<char>, FailureView>(
        with_remediation(cause, binary_name),
    )
    &&& outcome.world.status == InstallationStatusView::Failed(cause.message)
    &&& outcome.trace.len() > 0
    &&& outcome.trace.last() == RequestView::ReportStatus(
        InstallationStatusView::Failed(cause.message),
    )
}

/// Requests made before an outcome do not change how it ends.
proof fn lemma_reported_after(
    outcome: Outcome,
    requests: Seq<RequestView>,
    cause: FailureView,
    binary_name: Seq<char>,
)
    requires
        reported(outcome, cause, binary_name),
    ensures
        reported(outcome.preceded_by(requests), cause, binary_name),
{
    let longer = outcome.preceded_by(requests);
    assert(longer.trace.last() == outcome.trace.last());
}

/// A failure of the download is shown and returned with remediation.
proof fn lemma_download_failure(context: ContextView, plan: PlanView, world: World)
    requires
        !context.standalone,
        download(context, plan, world).result is Err,
    ensures
        exists|cause: FailureView| #[trigger]
            reported(download(context, plan, world), cause, plan.binary_name),
{
    let fetch = seq![RequestView::Download { url: plan.archive_url, directory: plan.directory }];
    let mark = seq![RequestView::MakeExecutable(plan.binary_path)];
    let check = RequestView::ProbeFile(plan.binary_path);
    let list = RequestView::ListOutputDir(output_dir(plan.directory));
    if !world.archives.contains_key(plan.archive_url) {
        let cause = download_failed(world.download_error);
        lemma_reported_after(
            failed(context, cause, plan.binary_name, world),
            fetch,
            cause,
            plan.binary_name,
        );
        assert(reported(download(context, plan, world), cause, plan.binary_name));
    } else {
        let unpacked = world.with_unpacked(plan.directory, world.archives[plan.archive_url]);
        if unpacked.unmarkable.contains_key(plan.binary_path) {
            let cause = permission_failed(unpacked.unmarkable[plan.binary_path]);
            lemma_reported_after(
                failed(context, cause, plan.binary_name, unpacked),
                mark,
                cause,
                plan.binary_name,
            );
            lemma_reported_after(marking(context, plan, unpacked), fetch, cause, plan.binary_name);
            assert(reported(download(context, plan, world), cause, plan.binary_name));
        } else {
            let cause = verification_failed(
                plan.binary_name,
                found_binaries(
                    unpacked.listing_of(output_dir(plan.directory)),
                ),
                context.target,
            );
            lemma_reported_after(
                failed(context, cause, plan.binary_name, unpacked),
                seq![check, list],
                cause,
                plan.binary_name,
            );
            lemma_reported_after(
                verification(context, plan, unpacked),
                mark,
                cause,
                plan.binary_name,
            );
            lemma_reported_after(marking(context, plan, unpacked), fetch, cause, plan.binary_name);
            assert(reported(download(context, plan, world), cause, plan.binary_name));
        }
    }
}

/// A failure of the installation is shown and returned with remediation.
proof fn lemma_installation_failure(context: ContextView, binary_name: Seq<char>, world: World)
    requires
        !context.standalone,
        installation(context, binary_name, world).result is Err,
    ensures
        exists|cause: FailureView| #[trigger]
            reported(installation(context, binary_name, world), cause, binary_name),
{
    let announced = World { status: InstallationStatusView::Downloading, ..world };
    let asked = seq![
        RequestView::ReportStatus(InstallationStatusView::Downloading),
        RequestView::QueryRegistry(marketplace_query()),
    ];
    match discovered(world.registry) {
        Err(cause) => {
            lemma_reported_after(
                failed(context, cause, binary_name, announced),
                asked,
                cause,
                binary_name,
            );
            assert(reported(installation(context, binary_name, world), cause, binary_name));
        },
        Ok(release) => {
            let plan = plan_for(release, binary_name);
            let stale = stale_version_dirs(listed(world.entries), plan.directory);
            let cleaned = announced.without_dirs(stale);
            lemma_download_failure(context, plan, cleaned);
            let cause = choose|cause: FailureView| #[trigger]
                reported(download(context, plan, cleaned), cause, plan.binary_name);
            lemma_reported_after(
                download(context, plan, cleaned),
                asked.push(RequestView::ProbeFile(plan.binary_path)).push(
                    RequestView::ListWorkingDir,
                ) + removals(stale),
                cause,
                binary_name,
            );
            assert(reported(installation(context, binary_name, world), cause, binary_name));
        },
    }
}

/// A resolution that fails on a supported platform has failed in the
/// installation, and says so twice: the cause is shown to the user as the
/// last thing the resolution asks for, and it is returned to the caller with
/// the ways to install the binary by hand. Nothing is remembered.
pub proof fn failed_installation_is_reported(
    cache: Option<Seq<char>>,
    target: PlatformTarget,
    configured: Option<Seq<char>>,
    world: World,
)
    requires
        target.supported(),
        run(begin_resolution(cache, target, configured), world).result is Err,
    ensures
        run(begin_resolution(cache, target, configured), world).cache is None,
        exists|cause: FailureView| #[trigger]
            reported(
                run(begin_resolution(cache, target, configured), world),
                cause,
                target.binary_name(),
            ),
{
    let remembering = ContextView { cache, target, standalone: false };
    let context = remembering.forgetting();
    let name = target.binary_name();
    let candidates = installed_candidates(listed(world.entries), name);
    resolution_runs_as_described(cache, target, configured, world);
    lemma_installation_failure(context, name, world);
    let cause = choose|cause: FailureView| #[trigger]
        reported(installation(context, name, world), cause, name);
    let on_disk = lookup_on_disk(context, world);
    lemma_reported_after(
        installation(context, name, world),
        seq![RequestView::ListWorkingDir] + probes(candidates),
        cause,
        name,
    );
    assert(reported(on_disk, cause, name));
    lemma_reported_after(on_disk, probe_of(cache), cause, name);
    lemma_reported_after(
        lookup_remembered(remembering, world),
        searches(binary_names()),
        cause,
        name,
    );
    lemma_reported_after(
        lookup_on_search_path(remembering, world),
        probe_of(configured),
        cause,
        name,
    );
    assert(reported(run(begin_resolution(cache, target, configured), world), cause, name));
}

} // verus!
