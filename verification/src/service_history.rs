//! What becomes of the tasks of services over a whole run: reloads one after the other, and a
//! shutdown at the end.
use vstd::prelude::*;

use crate::service::{
    after, configs_of, in_order, reload_runs_the_wanted_services, removal_steps, update_steps,
    ServiceRunner, Step,
};
use crate::string_map::{distinct, to_map, to_map_holds_pairs};

verus! {

/// What happens to a task of a service.
pub enum Deed<T> {
    /// It was launched under a name.
    Launched(Seq<char>, T),
    /// It was handed out under a name, to be stopped.
    Stopped(Seq<char>, T),
}

/// The name of the service that a deed is about.
pub open spec fn deed_name<T>(deed: Deed<T>) -> Seq<char> {
    match deed {
        Deed::Launched(name, _) => name,
        Deed::Stopped(name, _) => name,
    }
}

/// The tasks of services.
pub open spec fn tasks_of<S, T>(services: Map<Seq<char>, (S, T)>) -> Map<Seq<char>, T> {
    services.map_values(|service: (S, T)| service.1)
}

/// The services once the steps of a reload have been taken, where launching in the step at a
/// position gave the task at that position. A service that is launched is taken in, and one
/// that is stopped is taken out.
pub open spec fn services_after<S, T>(
    services: Map<Seq<char>, (S, T)>,
    steps: Seq<Step<S>>,
    tasks: Seq<T>,
) -> Map<Seq<char>, (S, T)>
    decreases steps.len(),
{
    if steps.len() == 0 {
        services
    } else {
        let before = services_after(services, steps.drop_last(), tasks);
        match steps.last() {
            Step::Stop(name) => before.remove(name),
            Step::Launch(name, config) => before.insert(name, (config, tasks[steps.len() - 1])),
        }
    }
}

/// What happens to tasks in the steps of a reload: a task that is launched is the one that
/// launching gave, and a task that is stopped is the one that the runner holds under the name.
pub open spec fn deeds_of<S, T>(
    services: Map<Seq<char>, (S, T)>,
    steps: Seq<Step<S>>,
    tasks: Seq<T>,
) -> Seq<Deed<T>>
    decreases steps.len(),
{
    if steps.len() == 0 {
        Seq::empty()
    } else {
        let before = services_after(services, steps.drop_last(), tasks);
        deeds_of(services, steps.drop_last(), tasks).push(
            match steps.last() {
                Step::Stop(name) => Deed::Stopped(name, before[name].1),
                Step::Launch(name, _) => Deed::Launched(name, tasks[steps.len() - 1]),
            },
        )
    }
}

/// One reload: the names of the services in the order in which the runner counts them, the new
/// configuration, and the tasks that launching gave.
pub struct Reload<S, T> {
    pub names: Seq<Seq<char>>,
    pub updated: Seq<(Seq<char>, S)>,
    pub tasks: Seq<T>,
}

/// The steps of a reload, as [`crate::service::ServiceRunner::reload`] gives them.
pub open spec fn steps_of<S: PartialEq, T>(
    services: Map<Seq<char>, (S, T)>,
    reload: Reload<S, T>,
) -> Seq<Step<S>> {
    update_steps(configs_of(services), reload.updated) + removal_steps(
        reload.names,
        to_map(reload.updated),
    )
}

/// The services after the given reloads.
pub open spec fn run_services<S: PartialEq, T>(reloads: Seq<Reload<S, T>>) -> Map<
    Seq<char>,
    (S, T),
>
    decreases reloads.len(),
{
    if reloads.len() == 0 {
        Map::empty()
    } else {
        let before = run_services(reloads.drop_last());
        services_after(before, steps_of(before, reloads.last()), reloads.last().tasks)
    }
}

/// What happens to tasks in the given reloads.
pub open spec fn run_deeds<S: PartialEq, T>(reloads: Seq<Reload<S, T>>) -> Seq<Deed<T>>
    decreases reloads.len(),
{
    if reloads.len() == 0 {
        Seq::empty()
    } else {
        let before = run_services(reloads.drop_last());
        run_deeds(reloads.drop_last()) + deeds_of(
            before,
            steps_of(before, reloads.last()),
            reloads.last().tasks,
        )
    }
}

/// Whether the reloads are as a runner makes them: it counts each of its services once, and a
/// configuration names each service once.
pub open spec fn proper<S: PartialEq, T>(reloads: Seq<Reload<S, T>>) -> bool
    decreases reloads.len(),
{
    reloads.len() > 0 ==> {
        &&& proper(reloads.drop_last())
        &&& reloads.last().names.no_duplicates()
        &&& reloads.last().names.to_set() == run_services(reloads.drop_last()).dom()
        &&& distinct(reloads.last().updated)
    }
}

/// What a shutdown does to tasks: those that it hands out are stopped, in their order.
pub open spec fn shutdown_deeds<S, T>(gone: Seq<(Seq<char>, (S, T))>) -> Seq<Deed<T>> {
    Seq::new(gone.len(), |i: int| Deed::Stopped(gone[i].0, gone[i].1.1))
}

/// The tasks that have been launched and not been stopped.
pub open spec fn running<T>(deeds: Seq<Deed<T>>) -> Map<Seq<char>, T>
    decreases deeds.len(),
{
    if deeds.len() == 0 {
        Map::empty()
    } else {
        let before = running(deeds.drop_last());
        match deeds.last() {
            Deed::Launched(name, task) => before.insert(name, task),
            Deed::Stopped(name, _) => before.remove(name),
        }
    }
}

/// Whether a deed fits what runs before it: a task is launched while none of its name runs, and
/// what is stopped runs under that name.
pub open spec fn sound_at<T>(deeds: Seq<Deed<T>>, i: int) -> bool {
    let before = running(deeds.take(i));
    match deeds[i] {
        Deed::Launched(name, _) => !before.contains_key(name),
        Deed::Stopped(name, task) => before.contains_key(name) && before[name] == task,
    }
}

/// Whether no two tasks run under one name at a time, and only what runs is stopped, under the
/// name that it was launched with.
pub open spec fn sound<T>(deeds: Seq<Deed<T>>) -> bool {
    forall|i: int| 0 <= i < deeds.len() ==> #[trigger] sound_at(deeds, i)
}

/// Whether the task launched at one position is stopped at another one, under the same name, and
/// nothing happens under that name in between.
pub open spec fn pair<T>(deeds: Seq<Deed<T>>, launched: int, stopped: int) -> bool {
    &&& 0 <= launched < stopped < deeds.len()
    &&& deeds[launched] matches Deed::Launched(name, task) && deeds[stopped] == Deed::Stopped(
        name,
        task,
    )
    &&& forall|k: int|
        launched < k < stopped ==> deed_name(#[trigger] deeds[k]) != deed_name(deeds[launched])
}

/// A launch and a stop that belong together determine each other.
pub proof fn pairs_are_unique<T>(deeds: Seq<Deed<T>>, a: int, b: int, c: int, d: int)
    requires
        pair(deeds, a, b),
        pair(deeds, c, d),
    ensures
        a == c <==> b == d,
{
    if a == c && b < d {
        assert(deed_name(deeds[b]) == deed_name(deeds[a]));
    }
    if a == c && d < b {
        assert(deed_name(deeds[d]) == deed_name(deeds[a]));
    }
    if b == d && a < c {
        assert(deed_name(deeds[c]) == deed_name(deeds[a]));
    }
    if b == d && c < a {
        assert(deed_name(deeds[a]) == deed_name(deeds[c]));
    }
}

proof fn sound_when_extended<T>(deeds: Seq<Deed<T>>, deed: Deed<T>)
    requires
        sound(deeds),
        match deed {
            Deed::Launched(name, _) => !running(deeds).contains_key(name),
            Deed::Stopped(name, task) => running(deeds).contains_key(name) && running(deeds)[name]
                == task,
        },
    ensures
        sound(deeds.push(deed)),
{
    let all = deeds.push(deed);
    assert forall|i: int| 0 <= i < all.len() implies #[trigger] sound_at(all, i) by {
        if i < deeds.len() {
            assert(sound_at(deeds, i));
            assert(all.take(i) =~= deeds.take(i));
        } else {
            assert(all.take(i) =~= deeds);
        }
    }
}

proof fn configs_follow<S, T>(
    services: Map<Seq<char>, (S, T)>,
    steps: Seq<Step<S>>,
    tasks: Seq<T>,
)
    ensures
        configs_of(services_after(services, steps, tasks)) == after(configs_of(services), steps),
    decreases steps.len(),
{
    if steps.len() > 0 {
        configs_follow(services, steps.drop_last(), tasks);
        assert(configs_of(services_after(services, steps, tasks)) =~= after(
            configs_of(services),
            steps,
        ));
    }
}

proof fn steps_keep_sound<S, T>(
    earlier: Seq<Deed<T>>,
    services: Map<Seq<char>, (S, T)>,
    steps: Seq<Step<S>>,
    tasks: Seq<T>,
)
    requires
        sound(earlier),
        running(earlier) == tasks_of(services),
        in_order(configs_of(services), steps),
    ensures
        sound(earlier + deeds_of(services, steps, tasks)),
        running(earlier + deeds_of(services, steps, tasks)) == tasks_of(
            services_after(services, steps, tasks),
        ),
    decreases steps.len(),
{
    let deeds = deeds_of(services, steps, tasks);
    if steps.len() == 0 {
        assert(earlier + deeds =~= earlier);
    } else {
        let head = steps.drop_last();
        let so_far = earlier + deeds_of(services, head, tasks);
        let before = services_after(services, head, tasks);
        steps_keep_sound(earlier, services, head, tasks);
        configs_follow(services, head, tasks);
        assert(earlier + deeds =~= so_far.push(deeds.last()));
        assert((earlier + deeds).drop_last() =~= so_far);
        let name = match steps.last() {
            Step::Stop(name) => name,
            Step::Launch(name, _) => name,
        };
        assert(configs_of(before).contains_key(name) <==> tasks_of(before).contains_key(name));
        sound_when_extended(so_far, deeds.last());
        assert(running(earlier + deeds) =~= tasks_of(services_after(services, steps, tasks)));
    }
}

proof fn reloads_keep_sound<S: PartialEq, T>(reloads: Seq<Reload<S, T>>)
    requires
        proper(reloads),
    ensures
        sound(run_deeds(reloads)),
        running(run_deeds(reloads)) == tasks_of(run_services(reloads)),
    decreases reloads.len(),
{
    if reloads.len() == 0 {
        assert(running(run_deeds(reloads)) =~= tasks_of(run_services(reloads)));
    } else {
        let head = reloads.drop_last();
        let last = reloads.last();
        let before = run_services(head);
        reloads_keep_sound(head);
        assert(configs_of(before).dom() =~= before.dom());
        reload_runs_the_wanted_services(configs_of(before), last.names, last.updated);
        steps_keep_sound(run_deeds(head), before, steps_of(before, last), last.tasks);
    }
}

/// Whether one of the first `n` services has a name.
spec fn named<V>(gone: Seq<(Seq<char>, V)>, n: int, name: Seq<char>) -> bool {
    exists|i: int| 0 <= i < n && gone[i].0 == name
}

proof fn shutdown_keeps_sound<S, T>(
    earlier: Seq<Deed<T>>,
    services: Map<Seq<char>, (S, T)>,
    gone: Seq<(Seq<char>, (S, T))>,
    n: int,
)
    requires
        sound(earlier),
        running(earlier) == tasks_of(services),
        distinct(gone),
        to_map(gone) == services,
        0 <= n <= gone.len(),
    ensures
        sound(earlier + shutdown_deeds(gone).take(n)),
        running(earlier + shutdown_deeds(gone).take(n)) == tasks_of(services).remove_keys(
            Set::new(|name: Seq<char>| named(gone, n, name)),
        ),
    decreases n,
{
    let deeds = earlier + shutdown_deeds(gone).take(n);
    let stopped = Set::new(|name: Seq<char>| named(gone, n, name));
    if n == 0 {
        assert(deeds =~= earlier);
        assert(tasks_of(services).remove_keys(stopped) =~= tasks_of(services));
    } else {
        let so_far = earlier + shutdown_deeds(gone).take(n - 1);
        let (name, (config, task)) = gone[n - 1];
        let deed = Deed::Stopped(name, task);
        shutdown_keeps_sound(earlier, services, gone, n - 1);
        to_map_holds_pairs(gone);
        assert(deeds =~= so_far.push(deed));
        assert(deeds.drop_last() =~= so_far);
        assert(services.contains_key(gone[n - 1].0));
        assert(!named(gone, n - 1, name));
        sound_when_extended(so_far, deed);
        assert forall|k: Seq<char>| named(gone, n, k) <==> named(gone, n - 1, k) || k == name by {
            if named(gone, n, k) && k != name {
                let i = choose|i: int| 0 <= i < n && gone[i].0 == k;
                assert(0 <= i < n - 1 && gone[i].0 == k);
            }
            if named(gone, n - 1, k) {
                let i = choose|i: int| 0 <= i < n - 1 && gone[i].0 == k;
                assert(0 <= i < n && gone[i].0 == k);
            }
            if k == name {
                assert(gone[n - 1].0 == k);
            }
        }
        assert(running(deeds) == running(so_far).remove(name));
        assert(running(deeds) =~= tasks_of(services).remove_keys(stopped));
    }
}

proof fn launch_of_what_runs<T>(deeds: Seq<Deed<T>>, name: Seq<char>) -> (launched: int)
    requires
        running(deeds).contains_key(name),
    ensures
        0 <= launched < deeds.len(),
        deeds[launched] == Deed::Launched(name, running(deeds)[name]),
        forall|k: int|
            launched < k < deeds.len() ==> deed_name(#[trigger] deeds[k]) != name,
    decreases deeds.len(),
{
    let head = deeds.drop_last();
    if deed_name(deeds.last()) == name {
        deeds.len() - 1
    } else {
        let launched = launch_of_what_runs(head, name);
        assert(deeds[launched] == head[launched]);
        assert forall|k: int| launched < k < deeds.len() implies deed_name(#[trigger] deeds[k])
            != name by {
            if k < head.len() {
                assert(deeds[k] == head[k]);
            }
        }
        launched
    }
}

proof fn stop_of_what_was_launched<T>(
    deeds: Seq<Deed<T>>,
    launched: int,
    name: Seq<char>,
    task: T,
    k: int,
) -> (stopped: int)
    requires
        sound(deeds),
        running(deeds) == Map::<Seq<char>, T>::empty(),
        0 <= launched < k <= deeds.len(),
        deeds[launched] == Deed::Launched(name, task),
        forall|j: int| launched < j < k ==> deed_name(#[trigger] deeds[j]) != name,
        running(deeds.take(k)).contains_key(name),
        running(deeds.take(k))[name] == task,
    ensures
        pair(deeds, launched, stopped),
    decreases deeds.len() - k,
{
    assert(deeds.take(deeds.len() as int) =~= deeds);
    if deed_name(deeds[k]) == name {
        assert(sound_at(deeds, k));
        assert(deeds[k] == Deed::Stopped(name, task));
        k
    } else {
        assert(deeds.take(k + 1).drop_last() =~= deeds.take(k));
        assert(deeds.take(k + 1).last() == deeds[k]);
        stop_of_what_was_launched(deeds, launched, name, task, k + 1)
    }
}

/// Over a whole run, reloads and then a shutdown, every task that was launched is handed out
/// exactly once, under the name that it was launched with, and nothing else is handed out; and
/// at no time do two tasks run under one name. Here `gone` is what the shutdown hands out.
pub proof fn every_task_is_handed_out_once<S: PartialEq, T>(
    reloads: Seq<Reload<S, T>>,
    gone: Seq<(Seq<char>, (S, T))>,
)
    requires
        proper(reloads),
        distinct(gone),
        to_map(gone) == run_services(reloads),
    ensures
        ({
            let deeds = run_deeds(reloads) + shutdown_deeds(gone);
            &&& sound(deeds)
            &&& running(deeds) == Map::<Seq<char>, T>::empty()
            &&& forall|i: int|
                0 <= i < deeds.len() && #[trigger] deeds[i] is Launched ==> exists|j: int|
                    pair(deeds, i, j)
            &&& forall|j: int|
                0 <= j < deeds.len() && #[trigger] deeds[j] is Stopped ==> exists|i: int|
                    pair(deeds, i, j)
        }),
{
    let deeds = run_deeds(reloads) + shutdown_deeds(gone);
    let services = run_services(reloads);
    let n = gone.len() as int;
    reloads_keep_sound(reloads);
    shutdown_keeps_sound(run_deeds(reloads), services, gone, n);
    to_map_holds_pairs(gone);
    assert(shutdown_deeds(gone).take(n) =~= shutdown_deeds(gone));
    assert forall|name: Seq<char>| services.contains_key(name) implies named(gone, n, name) by {
        let i = choose|i: int| 0 <= i < gone.len() && gone[i].0 == name;
        assert(gone[i].0 == name);
    }
    assert(running(deeds) =~= Map::<Seq<char>, T>::empty());
    assert forall|i: int| 0 <= i < deeds.len() && #[trigger] deeds[i] is Launched implies exists|
        j: int,
    | pair(deeds, i, j) by {
        let name = deeds[i]->Launched_0;
        let task = deeds[i]->Launched_1;
        assert(deeds.take(i + 1).drop_last() =~= deeds.take(i));
        assert(deeds.take(i + 1).last() == deeds[i]);
        let j = stop_of_what_was_launched(deeds, i, name, task, i + 1);
        assert(pair(deeds, i, j));
    }
    assert forall|j: int| 0 <= j < deeds.len() && #[trigger] deeds[j] is Stopped implies exists|
        i: int,
    | pair(deeds, i, j) by {
        let name = deeds[j]->Stopped_0;
        assert(sound_at(deeds, j));
        let head = deeds.take(j);
        let i = launch_of_what_runs(head, name);
        assert(deeds[i] == head[i]);
        assert forall|k: int| i < k < j implies deed_name(#[trigger] deeds[k]) != deed_name(
            deeds[i],
        ) by {
            assert(head[k] == deeds[k]);
        }
        assert(pair(deeds, i, j));
    }
}

/// A runner that has just been made stands at the start of a history.
pub proof fn history_starts_empty<S: PartialEq, T>()
    ensures
        proper(Seq::<Reload<S, T>>::empty()),
        run_services(Seq::<Reload<S, T>>::empty()) == Map::<Seq<char>, (S, T)>::empty(),
        run_deeds(Seq::<Reload<S, T>>::empty()) == Seq::<Deed<T>>::empty(),
{
}

/// A step of a reload is one more step of the history: where `before` holds the services after
/// the first `taken` steps, and the next one is taken with [`ServiceRunner::take`] or
/// [`ServiceRunner::launched`], `after` holds those after one step more, and the task that is
/// handed out or taken in is the one that the history tells of.
pub proof fn step_extends_the_history<S: PartialEq, T>(
    services: Map<Seq<char>, (S, T)>,
    steps: Seq<Step<S>>,
    tasks: Seq<T>,
    taken: int,
    before: ServiceRunner<S, T>,
    after: ServiceRunner<S, T>,
)
    requires
        0 <= taken < steps.len(),
        before.services() == services_after(services, steps.take(taken), tasks),
        after.services() == match steps[taken] {
            Step::Stop(name) => before.services().remove(name),
            Step::Launch(name, config) => before.services().insert(name, (config, tasks[taken])),
        },
    ensures
        after.services() == services_after(services, steps.take(taken + 1), tasks),
        deeds_of(services, steps.take(taken + 1), tasks) == deeds_of(
            services,
            steps.take(taken),
            tasks,
        ).push(
            match steps[taken] {
                Step::Stop(name) => Deed::Stopped(name, before.services()[name].1),
                Step::Launch(name, _) => Deed::Launched(name, tasks[taken]),
            },
        ),
{
    assert(steps.take(taken + 1).drop_last() =~= steps.take(taken));
    assert(steps.take(taken + 1).last() == steps[taken]);
}

/// A reload of a runner is one more reload of its history: where `before` stands at the end of
/// the reloads so far, `steps` are those that [`ServiceRunner::reload`] gives for `updated`, and
/// `after` is the runner once they have been taken, the history with this reload is proper, and
/// `after` stands at its end.
pub proof fn reload_extends_the_history<S: PartialEq, T>(
    reloads: Seq<Reload<S, T>>,
    before: ServiceRunner<S, T>,
    updated: Seq<(Seq<char>, S)>,
    steps: Seq<Step<S>>,
    tasks: Seq<T>,
    after: ServiceRunner<S, T>,
)
    requires
        proper(reloads),
        before.wf(),
        before.services() == run_services(reloads),
        distinct(updated),
        steps == update_steps(before.configs(), updated) + removal_steps(
            before.service_names(),
            to_map(updated),
        ),
        after.services() == services_after(before.services(), steps, tasks),
    ensures
        ({
            let reload = Reload { names: before.service_names(), updated, tasks };
            &&& steps == steps_of(run_services(reloads), reload)
            &&& proper(reloads.push(reload))
            &&& after.services() == run_services(reloads.push(reload))
            &&& run_deeds(reloads.push(reload)) == run_deeds(reloads) + deeds_of(
                before.services(),
                steps,
                tasks,
            )
        }),
{
    let reload = Reload { names: before.service_names(), updated, tasks };
    before.every_service_is_counted();
    assert(reloads.push(reload).drop_last() =~= reloads);
    assert(reloads.push(reload).last() == reload);
}

/// A runner hands out every task exactly once: where it stands at the end of the reloads so far
/// and is then shut down, with [`ServiceRunner::shutdown`] handing out the services in their
/// order, each task that was launched has been handed out once, under its name, and nothing else
/// has been.
pub proof fn shutdown_ends_the_history<S: PartialEq, T>(
    reloads: Seq<Reload<S, T>>,
    runner: ServiceRunner<S, T>,
)
    requires
        proper(reloads),
        runner.wf(),
        runner.services() == run_services(reloads),
    ensures
        ({
            let deeds = run_deeds(reloads) + shutdown_deeds(runner.order());
            &&& sound(deeds)
            &&& running(deeds) == Map::<Seq<char>, T>::empty()
            &&& forall|i: int|
                0 <= i < deeds.len() && #[trigger] deeds[i] is Launched ==> exists|j: int|
                    pair(deeds, i, j)
            &&& forall|j: int|
                0 <= j < deeds.len() && #[trigger] deeds[j] is Stopped ==> exists|i: int|
                    pair(deeds, i, j)
        }),
{
    runner.every_service_is_counted();
    every_task_is_handed_out_once(reloads, runner.order());
}

} // verus!
