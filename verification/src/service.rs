//! Keeps the services that run in step with the configuration.
use vstd::prelude::*;
use vstd::std_specs::cmp::PartialEqSpec;

use crate::string_map::{distinct, entry_pairs, to_map, to_map_holds_pairs, StringMap};

verus! {

/// What a runner of services has to react to.
pub enum Event<C> {
    Shutdown,
    Reload(C),
}

impl<C> Event<C> {
    /// What the channel of configurations says: a new one, or that there is nothing more to
    /// come.
    pub fn from_channel(received: Option<C>) -> (event: Event<C>)
        ensures
            event == match received {
                Some(config) => Event::Reload(config),
                None => Event::Shutdown,
            },
    {
        match received {
            Some(config) => Event::Reload(config),
            None => Event::Shutdown,
        }
    }
}

/// One step of a reload.
pub enum ServiceStep<'a, S> {
    /// Take the task of a service out of the runner, and stop it.
    Stop(String),
    /// Launch a service, and hand its task to the runner.
    Launch { name: &'a String, config: &'a S },
}

/// One step of a reload, as plain values.
pub enum Step<S> {
    Stop(Seq<char>),
    Launch(Seq<char>, S),
}

impl<'a, S> View for ServiceStep<'a, S> {
    type V = Step<S>;

    open spec fn view(&self) -> Step<S> {
        match self {
            ServiceStep::Stop(name) => Step::Stop(name@),
            ServiceStep::Launch { name, config } => Step::Launch(name@, **config),
        }
    }
}

/// The steps as plain values.
pub open spec fn step_views<'a, S>(steps: Seq<ServiceStep<'a, S>>) -> Seq<Step<S>> {
    Seq::new(steps.len(), |i: int| steps[i]@)
}

/// The steps for a service of the new configuration: a new service is launched, and one whose
/// configuration has changed is stopped first.
pub open spec fn steps_for<S: PartialEq>(
    running: Map<Seq<char>, S>,
    name: Seq<char>,
    config: S,
) -> Seq<Step<S>> {
    if !running.contains_key(name) {
        seq![Step::Launch(name, config)]
    } else if !running[name].eq_spec(&config) {
        seq![Step::Stop(name), Step::Launch(name, config)]
    } else {
        Seq::empty()
    }
}

/// The steps for the services of the new configuration, in their order.
pub open spec fn update_steps<S: PartialEq>(
    running: Map<Seq<char>, S>,
    updated: Seq<(Seq<char>, S)>,
) -> Seq<Step<S>>
    decreases updated.len(),
{
    if updated.len() == 0 {
        Seq::empty()
    } else {
        update_steps(running, updated.drop_last()) + steps_for(
            running,
            updated.last().0,
            updated.last().1,
        )
    }
}

/// The steps for the services that are no longer wanted, in the order in which they stand in
/// `running`.
pub open spec fn removal_steps<S>(running: Seq<Seq<char>>, updated: Map<Seq<char>, S>) -> Seq<
    Step<S>,
>
    decreases running.len(),
{
    if running.len() == 0 {
        Seq::empty()
    } else {
        let rest = removal_steps(running.drop_last(), updated);
        if updated.contains_key(running.last()) {
            rest
        } else {
            rest.push(Step::Stop(running.last()))
        }
    }
}

/// The configurations under which services run once the steps have been taken.
pub open spec fn after<S>(running: Map<Seq<char>, S>, steps: Seq<Step<S>>) -> Map<Seq<char>, S>
    decreases steps.len(),
{
    if steps.len() == 0 {
        running
    } else {
        let before = after(running, steps.drop_last());
        match steps.last() {
            Step::Stop(name) => before.remove(name),
            Step::Launch(name, config) => before.insert(name, config),
        }
    }
}

/// Whether each step finds what it needs: a service is stopped only while it runs, and launched
/// only while none of its name runs.
pub open spec fn in_order<S>(running: Map<Seq<char>, S>, steps: Seq<Step<S>>) -> bool
    decreases steps.len(),
{
    steps.len() > 0 ==> {
        let before = after(running, steps.drop_last());
        &&& in_order(running, steps.drop_last())
        &&& match steps.last() {
            Step::Stop(name) => before.contains_key(name),
            Step::Launch(name, _) => !before.contains_key(name),
        }
    }
}

/// The services that the new configuration asks for. One that already runs under an equal
/// configuration keeps the one that it has.
pub open spec fn wanted<S: PartialEq>(
    running: Map<Seq<char>, S>,
    updated: Map<Seq<char>, S>,
) -> Map<Seq<char>, S> {
    Map::new(
        |name: Seq<char>| updated.contains_key(name),
        |name: Seq<char>|
            if running.contains_key(name) && running[name].eq_spec(&updated[name]) {
                running[name]
            } else {
                updated[name]
            },
    )
}

/// The configurations of services.
pub open spec fn configs_of<S, T>(services: Map<Seq<char>, (S, T)>) -> Map<Seq<char>, S> {
    services.map_values(|service: (S, T)| service.0)
}

/// The services that run, with their configuration and their task.
pub struct ServiceRunner<S, T> {
    services: StringMap<(S, T)>,
}

impl<S, T> ServiceRunner<S, T> {
    /// The services by name.
    pub closed spec fn services(&self) -> Map<Seq<char>, (S, T)> {
        self.services@
    }

    /// The services in the order in which they are counted.
    pub closed spec fn order(&self) -> Seq<(Seq<char>, (S, T))> {
        self.services.pairs()
    }

    /// The names of the services, in that order.
    pub open spec fn service_names(&self) -> Seq<Seq<char>> {
        Seq::new(self.order().len(), |i: int| self.order()[i].0)
    }

    /// The configurations of the services.
    pub open spec fn configs(&self) -> Map<Seq<char>, S> {
        configs_of(self.services())
    }

    /// Every name has one service.
    pub closed spec fn wf(&self) -> bool {
        self.services.wf()
    }

    /// Every service is counted once, and nothing else is counted.
    pub proof fn every_service_is_counted(&self)
        requires
            self.wf(),
        ensures
            distinct(self.order()),
            to_map(self.order()) == self.services(),
            self.service_names().no_duplicates(),
            self.service_names().to_set() == self.services().dom(),
            self.service_names().to_set() == self.configs().dom(),
    {
        let names = self.service_names();
        let pairs = self.order();
        to_map_holds_pairs(pairs);
        assert forall|i: int, j: int| 0 <= i < j < names.len() implies names[i] != names[j] by {
            assert(pairs[i].0 != pairs[j].0);
        }
        assert forall|k: Seq<char>| names.to_set().contains(k)
            <==> self.services().dom().contains(k) by {
            if names.contains(k) {
                let i = choose|i: int| 0 <= i < names.len() && names[i] == k;
                assert(pairs[i].0 == k);
            }
            if to_map(pairs).contains_key(k) {
                let i = choose|i: int| 0 <= i < pairs.len() && pairs[i].0 == k;
                assert(names[i] == k);
            }
        }
        assert(names.to_set() =~= self.services().dom());
        assert(names.to_set() =~= self.configs().dom());
    }

    /// A runner without services.
    pub fn new() -> (runner: ServiceRunner<S, T>)
        ensures
            runner.wf(),
            runner.services() == Map::<Seq<char>, (S, T)>::empty(),
            runner.order() == Seq::<(Seq<char>, (S, T))>::empty(),
    {
        ServiceRunner { services: StringMap::new() }
    }

    /// The number of services.
    pub fn service_count(&self) -> (n: usize)
        ensures
            n == self.order().len(),
    {
        self.services.len()
    }

    /// Takes in the task of a service that was launched.
    pub fn launched(&mut self, name: String, config: S, task: T)
        ensures
            final(self).wf(),
            final(self).services() == old(self).services().insert(name@, (config, task)),
    {
        self.services.insert(name, (config, task));
    }

    /// Takes the task of a service out, to be stopped.
    pub fn take(&mut self, name: &str) -> (task: Option<T>)
        ensures
            final(self).wf(),
            final(self).services() == old(self).services().remove(name@),
            match task {
                Some(task) => old(self).services().contains_key(name@) && task
                    == old(self).services()[name@].1,
                None => !old(self).services().contains_key(name@),
            },
    {
        match self.services.remove(name) {
            Some((_, task)) => Some(task),
            None => None,
        }
    }

    /// Takes the tasks of all services out, to be stopped.
    pub fn shutdown(&mut self) -> (gone: Vec<(String, (S, T))>)
        ensures
            final(self).wf(),
            final(self).services() == Map::<Seq<char>, (S, T)>::empty(),
            final(self).order() == Seq::<(Seq<char>, (S, T))>::empty(),
            entry_pairs(gone@) == old(self).order(),
    {
        self.services.drain()
    }
}

impl<S: PartialEq, T> ServiceRunner<S, T> {
    /// What has to be done for the services of a new configuration to run: first services are
    /// launched, or stopped and launched anew where their configuration has changed, then those
    /// that are no longer wanted are stopped.
    pub fn reload<'a>(&self, updated: &'a StringMap<S>) -> (steps: Vec<ServiceStep<'a, S>>)
        requires
            S::obeys_eq_spec(),
        ensures
            step_views(steps@) == update_steps(self.configs(), updated.pairs()) + removal_steps(
                self.service_names(),
                updated@,
            ),
            after(self.configs(), step_views(steps@)) == wanted(self.configs(), updated@),
            in_order(self.configs(), step_views(steps@)),
    {
        proof {
            use_type_invariant(&self.services);
            use_type_invariant(updated);
        }
        let ghost running = self.configs();
        let ghost pairs = updated.pairs();
        let mut steps: Vec<ServiceStep<'a, S>> = Vec::new();
        assert(step_views(steps@) =~= Seq::<Step<S>>::empty());
        let mut i: usize = 0;
        while i < updated.len()
            invariant
                S::obeys_eq_spec(),
                running == self.configs(),
                pairs == updated.pairs(),
                i <= pairs.len(),
                step_views(steps@) == update_steps(running, pairs.take(i as int)),
            decreases pairs.len() - i,
        {
            let name = updated.key_at(i);
            let config = updated.value_at(i);
            let ghost earlier = step_views(steps@);
            proof {
                assert(pairs.take(i + 1).drop_last() =~= pairs.take(i as int));
                assert(pairs.take(i + 1).last() == pairs[i as int]);
            }
            match self.services.get(name.as_str()) {
                Some(service) => {
                    if service.0 != *config {
                        steps.push(ServiceStep::Stop(name.clone()));
                        assert(step_views(steps@) =~= earlier.push(Step::Stop(name@)));
                        steps.push(ServiceStep::Launch { name, config });
                        assert(step_views(steps@) =~= earlier + steps_for(running, name@, *config));
                    } else {
                        assert(step_views(steps@) =~= earlier + steps_for(running, name@, *config));
                    }
                },
                None => {
                    steps.push(ServiceStep::Launch { name, config });
                    assert(step_views(steps@) =~= earlier + steps_for(running, name@, *config));
                },
            }
            i = i + 1;
        }
        assert(pairs.take(i as int) =~= pairs);
        let ghost first = step_views(steps@);
        let ghost names = self.service_names();
        let mut j: usize = 0;
        assert(first + removal_steps(names.take(0), updated@) =~= first);
        while j < self.services.len()
            invariant
                names == self.service_names(),
                j <= names.len(),
                step_views(steps@) == first + removal_steps(names.take(j as int), updated@),
            decreases names.len() - j,
        {
            let name = self.services.key_at(j);
            let ghost earlier = step_views(steps@);
            proof {
                assert(names.take(j + 1).drop_last() =~= names.take(j as int));
                assert(names.take(j + 1).last() == name@);
            }
            if !updated.contains_key(name.as_str()) {
                steps.push(ServiceStep::Stop(name.clone()));
                assert(step_views(steps@) =~= earlier.push(Step::Stop(name@)));
                assert(step_views(steps@) =~= first + removal_steps(names.take(j + 1), updated@));
            }
            j = j + 1;
        }
        assert(names.take(j as int) =~= names);
        proof {
            self.every_service_is_counted();
            reload_runs_the_wanted_services(running, names, pairs);
        }
        steps
    }
}

proof fn after_appended<S>(running: Map<Seq<char>, S>, a: Seq<Step<S>>, b: Seq<Step<S>>)
    ensures
        after(running, a + b) == after(after(running, a), b),
        in_order(running, a) && in_order(after(running, a), b) ==> in_order(running, a + b),
    decreases b.len(),
{
    if b.len() == 0 {
        assert(a + b =~= a);
    } else {
        after_appended(running, a, b.drop_last());
        assert((a + b).drop_last() =~= a + b.drop_last());
        assert((a + b).last() == b.last());
    }
}

/// What runs after the steps for the services of the new configuration.
spec fn merged<S: PartialEq>(
    running: Map<Seq<char>, S>,
    updated: Map<Seq<char>, S>,
) -> Map<Seq<char>, S> {
    Map::new(
        |name: Seq<char>| running.contains_key(name) || updated.contains_key(name),
        |name: Seq<char>|
            if !updated.contains_key(name) || running.contains_key(name) && running[name].eq_spec(
                &updated[name],
            ) {
                running[name]
            } else {
                updated[name]
            },
    )
}

proof fn after_update<S: PartialEq>(running: Map<Seq<char>, S>, updated: Seq<(Seq<char>, S)>)
    requires
        distinct(updated),
    ensures
        after(running, update_steps(running, updated)) == merged(running, to_map(updated)),
        in_order(running, update_steps(running, updated)),
    decreases updated.len(),
{
    if updated.len() == 0 {
        assert(merged(running, to_map(updated)) =~= running);
    } else {
        let head = updated.drop_last();
        let (name, config) = updated.last();
        after_update(running, head);
        to_map_holds_pairs(head);
        let m = merged(running, to_map(head));
        assert(!to_map(head).contains_key(name)) by {
            if to_map(head).contains_key(name) {
                let i = choose|i: int| 0 <= i < head.len() && head[i].0 == name;
                assert(updated[i].0 == name);
                assert(updated[i].0 != updated[updated.len() - 1].0);
            }
        }
        let more = steps_for(running, name, config);
        reveal_with_fuel(after, 3);
        reveal_with_fuel(in_order, 3);
        after_appended(running, update_steps(running, head), more);
        if !running.contains_key(name) {
            assert(more.drop_last() =~= Seq::<Step<S>>::empty());
            assert(after(m, more) == m.insert(name, config));
        } else if !running[name].eq_spec(&config) {
            let stop = seq![Step::<S>::Stop(name)];
            assert(stop.drop_last() =~= Seq::<Step<S>>::empty());
            assert(after(m, stop) == m.remove(name));
            assert(more.drop_last() =~= stop);
            assert(after(m, more) == m.remove(name).insert(name, config));
        }
        assert(after(m, more) =~= merged(running, to_map(updated)));
        assert(in_order(m, more));
    }
}

/// What runs after the services in `names` that are not wanted have been stopped.
spec fn without<S>(
    running: Map<Seq<char>, S>,
    names: Seq<Seq<char>>,
    updated: Map<Seq<char>, S>,
) -> Map<Seq<char>, S> {
    running.remove_keys(
        Set::new(|name: Seq<char>| names.contains(name) && !updated.contains_key(name)),
    )
}

proof fn after_removal<S>(
    running: Map<Seq<char>, S>,
    names: Seq<Seq<char>>,
    updated: Map<Seq<char>, S>,
)
    requires
        names.no_duplicates(),
        forall|i: int| 0 <= i < names.len() ==> running.contains_key(#[trigger] names[i]),
    ensures
        after(running, removal_steps(names, updated)) == without(running, names, updated),
        in_order(running, removal_steps(names, updated)),
    decreases names.len(),
{
    if names.len() == 0 {
        assert(without(running, names, updated) =~= running);
    } else {
        let head = names.drop_last();
        let name = names.last();
        after_removal(running, head, updated);
        assert forall|k: Seq<char>| names.contains(k) <==> head.contains(k) || k == name by {
            if head.contains(k) {
                let i = choose|i: int| 0 <= i < head.len() && head[i] == k;
                assert(names[i] == k);
            }
            if k == name {
                assert(names[names.len() - 1] == k);
            }
            if names.contains(k) && k != name {
                let i = choose|i: int| 0 <= i < names.len() && names[i] == k;
                assert(head[i] == k);
            }
        }
        assert(running.contains_key(names[names.len() - 1]));
        assert(!head.contains(name)) by {
            if head.contains(name) {
                let i = choose|i: int| 0 <= i < head.len() && head[i] == name;
                assert(names[i] == names[names.len() - 1]);
            }
        }
        let rest = removal_steps(head, updated);
        let all = removal_steps(names, updated);
        if !updated.contains_key(name) {
            assert(all.drop_last() =~= rest);
        }
        assert(after(running, all) =~= without(running, names, updated));
    }
}

/// A reload does what it is for: once its steps have been taken, exactly the services of the
/// new configuration run, each under that configuration or an equal one. And each step finds
/// what it needs, so that no two services of one name run at a time.
pub proof fn reload_runs_the_wanted_services<S: PartialEq>(
    running: Map<Seq<char>, S>,
    names: Seq<Seq<char>>,
    updated: Seq<(Seq<char>, S)>,
)
    requires
        names.no_duplicates(),
        names.to_set() == running.dom(),
        distinct(updated),
    ensures
        after(
            running,
            update_steps(running, updated) + removal_steps(names, to_map(updated)),
        ) == wanted(running, to_map(updated)),
        in_order(
            running,
            update_steps(running, updated) + removal_steps(names, to_map(updated)),
        ),
{
    let wish = to_map(updated);
    after_update(running, updated);
    let m = merged(running, wish);
    assert forall|i: int| 0 <= i < names.len() implies m.contains_key(#[trigger] names[i]) by {
        assert(names.to_set().contains(names[i]));
    }
    after_removal(m, names, wish);
    after_appended(running, update_steps(running, updated), removal_steps(names, wish));
    assert forall|name: Seq<char>| running.contains_key(name) <==> names.contains(name) by {
        assert(running.dom().contains(name) <==> names.to_set().contains(name));
    }
    assert(without(m, names, wish) =~= wanted(running, wish));
}

/// The name of the service that a step is about.
pub open spec fn step_name<S>(step: Step<S>) -> Seq<char> {
    match step {
        Step::Stop(name) => name,
        Step::Launch(name, _) => name,
    }
}

/// A service whose configuration has not changed is left alone: no step is about it.
pub proof fn unchanged_services_are_left_alone<S: PartialEq>(
    running: Map<Seq<char>, S>,
    names: Seq<Seq<char>>,
    updated: Seq<(Seq<char>, S)>,
    name: Seq<char>,
)
    requires
        distinct(updated),
        running.contains_key(name),
        to_map(updated).contains_key(name),
        running[name].eq_spec(&to_map(updated)[name]),
    ensures
        forall|i: int|
            #![auto]
            0 <= i < (update_steps(running, updated) + removal_steps(names, to_map(updated))).len()
                ==> step_name(
                (update_steps(running, updated) + removal_steps(names, to_map(updated)))[i],
            ) != name,
{
    to_map_holds_pairs(updated);
    update_leaves_alone(running, updated, to_map(updated), name);
    removal_leaves_alone(names, to_map(updated), name);
}

proof fn update_leaves_alone<S: PartialEq>(
    running: Map<Seq<char>, S>,
    updated: Seq<(Seq<char>, S)>,
    wish: Map<Seq<char>, S>,
    name: Seq<char>,
)
    requires
        running.contains_key(name),
        running[name].eq_spec(&wish[name]),
        forall|i: int|
            0 <= i < updated.len() && (#[trigger] updated[i]).0 == name ==> updated[i].1
                == wish[name],
    ensures
        forall|i: int|
            0 <= i < update_steps(running, updated).len() ==> step_name(
                #[trigger] update_steps(running, updated)[i],
            ) != name,
    decreases updated.len(),
{
    if updated.len() > 0 {
        let head = updated.drop_last();
        assert forall|i: int| 0 <= i < head.len() && (#[trigger] head[i]).0
            == name implies head[i].1 == wish[name] by {
            assert(updated[i] == head[i]);
        }
        update_leaves_alone(running, head, wish, name);
        let (last, config) = updated[updated.len() - 1];
        let earlier = update_steps(running, head);
        let more = steps_for(running, last, config);
        let all = update_steps(running, updated);
        assert(all == earlier + more);
        assert forall|i: int| 0 <= i < all.len() implies step_name(#[trigger] all[i]) != name by {
            if i < earlier.len() {
                assert(all[i] == earlier[i]);
            } else {
                assert(all[i] == more[i - earlier.len()]);
                assert(step_name(more[i - earlier.len()]) == last);
            }
        }
    }
}

proof fn removal_leaves_alone<S>(
    names: Seq<Seq<char>>,
    updated: Map<Seq<char>, S>,
    name: Seq<char>,
)
    requires
        updated.contains_key(name),
    ensures
        forall|i: int|
            0 <= i < removal_steps(names, updated).len() ==> step_name(
                #[trigger] removal_steps(names, updated)[i],
            ) != name,
    decreases names.len(),
{
    if names.len() > 0 {
        removal_leaves_alone(names.drop_last(), updated, name);
        let earlier = removal_steps(names.drop_last(), updated);
        let all = removal_steps(names, updated);
        assert forall|i: int| 0 <= i < all.len() implies step_name(#[trigger] all[i]) != name by {
            if i < earlier.len() {
                assert(all[i] == earlier[i]);
            }
        }
    }
}

/// After the steps of a reload a service runs exactly if the new configuration names it, and it
/// runs under the new configuration of it, or under the old one where the two are equal.
pub proof fn reload_gives_equal_configurations<S: PartialEq>(
    running: Map<Seq<char>, S>,
    names: Seq<Seq<char>>,
    updated: Seq<(Seq<char>, S)>,
    i: int,
)
    requires
        names.no_duplicates(),
        names.to_set() == running.dom(),
        distinct(updated),
        0 <= i < updated.len(),
    ensures
        ({
            let runs = after(
                running,
                update_steps(running, updated) + removal_steps(names, to_map(updated)),
            );
            &&& runs.contains_key(updated[i].0)
            &&& runs[updated[i].0] == updated[i].1 || running.contains_key(updated[i].0)
                && runs[updated[i].0] == running[updated[i].0] && running[updated[i].0].eq_spec(
                &updated[i].1,
            )
            &&& forall|name: Seq<char>| #[trigger]
                runs.contains_key(name) ==> exists|k: int|
                    0 <= k < updated.len() && updated[k].0 == name
        }),
{
    reload_runs_the_wanted_services(running, names, updated);
    to_map_holds_pairs(updated);
    assert(to_map(updated).contains_key(updated[i].0));
    assert(to_map(updated)[updated[i].0] == updated[i].1);
}

/// Stopping a service takes it out and launching one puts it in, under the configuration that
/// it is launched with; other services stay as they are.
pub proof fn steps_do_what_they_say<S>(
    running: Map<Seq<char>, S>,
    steps: Seq<Step<S>>,
    name: Seq<char>,
    config: S,
    other: Seq<char>,
)
    requires
        other != name,
    ensures
        ({
            let before = after(running, steps);
            let stopped = after(running, steps.push(Step::Stop(name)));
            let launched = after(running, steps.push(Step::Launch(name, config)));
            &&& after(running, Seq::empty()) == running
            &&& !stopped.contains_key(name)
            &&& launched.contains_key(name) && launched[name] == config
            &&& stopped.contains_key(other) == before.contains_key(other)
            &&& launched.contains_key(other) == before.contains_key(other)
            &&& before.contains_key(other) ==> stopped[other] == before[other] && launched[other]
                == before[other]
        }),
{
    assert(steps.push(Step::Stop(name)).drop_last() =~= steps);
    assert(steps.push(Step::Launch(name, config)).drop_last() =~= steps);
}

/// The steps that are about a service.
pub open spec fn about<S>(steps: Seq<Step<S>>, name: Seq<char>) -> Seq<Step<S>> {
    steps.filter(|step: Step<S>| step_name(step) == name)
}

proof fn about_steps_for<S: PartialEq>(
    running: Map<Seq<char>, S>,
    last: Seq<char>,
    config: S,
    name: Seq<char>,
)
    ensures
        about(steps_for(running, last, config), name) == if last == name {
            steps_for(running, last, config)
        } else {
            Seq::empty()
        },
{
    let stop = Step::<S>::Stop(last);
    let launch = Step::Launch(last, config);
    reveal_with_fuel(Seq::filter, 3);
    assert(seq![stop, launch].drop_last() =~= seq![stop]);
    assert(seq![stop].drop_last() =~= Seq::empty());
    assert(seq![launch].drop_last() =~= Seq::empty());
    assert(about(steps_for(running, last, config), name) =~= if last == name {
        steps_for(running, last, config)
    } else {
        Seq::empty()
    });
}

proof fn about_update<S: PartialEq>(
    running: Map<Seq<char>, S>,
    updated: Seq<(Seq<char>, S)>,
    name: Seq<char>,
)
    requires
        distinct(updated),
    ensures
        about(update_steps(running, updated), name) == if to_map(updated).contains_key(name) {
            steps_for(running, name, to_map(updated)[name])
        } else {
            Seq::empty()
        },
    decreases updated.len(),
{
    if updated.len() == 0 {
        reveal(Seq::filter);
    } else {
        let head = updated.drop_last();
        let (last, config) = updated.last();
        about_update(running, head, name);
        about_steps_for(running, last, config, name);
        Seq::filter_distributes_over_add(
            update_steps(running, head),
            steps_for(running, last, config),
            |step: Step<S>| step_name(step) == name,
        );
        assert(!to_map(head).contains_key(last)) by {
            to_map_holds_pairs(head);
            if to_map(head).contains_key(last) {
                let i = choose|i: int| 0 <= i < head.len() && head[i].0 == last;
                assert(updated[i].0 != updated[updated.len() - 1].0);
            }
        }
        assert(about(update_steps(running, updated), name) =~= about(
            update_steps(running, head),
            name,
        ) + about(steps_for(running, last, config), name));
    }
}

proof fn about_removal<S>(names: Seq<Seq<char>>, updated: Map<Seq<char>, S>, name: Seq<char>)
    requires
        names.no_duplicates(),
    ensures
        about(removal_steps(names, updated), name) == if names.contains(name)
            && !updated.contains_key(name) {
            seq![Step::<S>::Stop(name)]
        } else {
            Seq::empty()
        },
    decreases names.len(),
{
    reveal(Seq::filter);
    if names.len() > 0 {
        let head = names.drop_last();
        let last = names.last();
        about_removal(head, updated, name);
        assert(names[names.len() - 1] == last);
        assert(names.contains(name) <==> head.contains(name) || last == name) by {
            if head.contains(name) {
                let i = choose|i: int| 0 <= i < head.len() && head[i] == name;
                assert(names[i] == name);
            }
            if names.contains(name) && last != name {
                let i = choose|i: int| 0 <= i < names.len() && names[i] == name;
                assert(head[i] == name);
            }
        }
        if last == name && head.contains(name) {
            let i = choose|i: int| 0 <= i < head.len() && head[i] == name;
            assert(names[i] == names[names.len() - 1]);
        }
        if !updated.contains_key(last) {
            let rest = removal_steps(head, updated);
            assert(removal_steps(names, updated).drop_last() =~= rest);
            if last == name {
                assert(about(removal_steps(names, updated), name) =~= seq![Step::<S>::Stop(name)]);
            }
        }
    }
}

/// What a reload does about a service: one that is new is launched, one that is no longer wanted
/// is stopped, one whose configuration has changed is stopped and then launched under the new
/// one, and nothing is done about any other.
pub proof fn what_a_reload_does_about_a_service<S: PartialEq>(
    running: Map<Seq<char>, S>,
    names: Seq<Seq<char>>,
    updated: Seq<(Seq<char>, S)>,
    name: Seq<char>,
)
    requires
        names.no_duplicates(),
        names.to_set() == running.dom(),
        distinct(updated),
    ensures
        ({
            let steps = update_steps(running, updated) + removal_steps(names, to_map(updated));
            let now = running.contains_key(name);
            let then = to_map(updated).contains_key(name);
            about(steps, name) == if then && !now {
                seq![Step::Launch(name, to_map(updated)[name])]
            } else if now && !then {
                seq![Step::Stop(name)]
            } else if now && then && !running[name].eq_spec(&to_map(updated)[name]) {
                seq![Step::Stop(name), Step::Launch(name, to_map(updated)[name])]
            } else {
                Seq::empty()
            }
        }),
{
    let pred = |step: Step<S>| step_name(step) == name;
    let first = update_steps(running, updated);
    let second = removal_steps(names, to_map(updated));
    about_update(running, updated, name);
    about_removal(names, to_map(updated), name);
    Seq::filter_distributes_over_add(first, second, pred);
    assert(running.dom().contains(name) <==> names.to_set().contains(name));
    assert(about(first + second, name) =~= about(first, name) + about(second, name));
}

/// Services are stopped for good only after all others have been launched.
pub proof fn removed_services_are_stopped_last<S: PartialEq>(
    running: Map<Seq<char>, S>,
    names: Seq<Seq<char>>,
    updated: Seq<(Seq<char>, S)>,
    i: int,
    j: int,
)
    requires
        distinct(updated),
        ({
            let steps = update_steps(running, updated) + removal_steps(names, to_map(updated));
            &&& 0 <= i < steps.len()
            &&& 0 <= j < steps.len()
            &&& steps[i] is Launch
            &&& steps[j] is Stop
            &&& !to_map(updated).contains_key(steps[j]->Stop_0)
        }),
    ensures
        i < j,
{
    let first = update_steps(running, updated);
    to_map_holds_pairs(updated);
    update_is_about_updated(running, updated);
    removal_only_stops(names, to_map(updated));
    if j < first.len() {
        assert((first + removal_steps(names, to_map(updated)))[j] == first[j]);
    }
    if i >= first.len() {
        assert((first + removal_steps(names, to_map(updated)))[i] == removal_steps(
            names,
            to_map(updated),
        )[i - first.len()]);
    }
}

proof fn update_is_about_updated<S: PartialEq>(
    running: Map<Seq<char>, S>,
    updated: Seq<(Seq<char>, S)>,
)
    ensures
        forall|k: int|
            0 <= k < update_steps(running, updated).len() ==> to_map(updated).contains_key(
                step_name(#[trigger] update_steps(running, updated)[k]),
            ),
    decreases updated.len(),
{
    if updated.len() > 0 {
        update_is_about_updated(running, updated.drop_last());
        let earlier = update_steps(running, updated.drop_last());
        let more = steps_for(running, updated.last().0, updated.last().1);
        let all = update_steps(running, updated);
        assert forall|k: int| 0 <= k < all.len() implies to_map(updated).contains_key(
            step_name(#[trigger] all[k]),
        ) by {
            if k < earlier.len() {
                assert(all[k] == earlier[k]);
            } else {
                assert(all[k] == more[k - earlier.len()]);
            }
        }
    }
}

proof fn removal_only_stops<S>(names: Seq<Seq<char>>, updated: Map<Seq<char>, S>)
    ensures
        forall|k: int|
            0 <= k < removal_steps(names, updated).len() ==> #[trigger] removal_steps(
                names,
                updated,
            )[k] is Stop,
    decreases names.len(),
{
    if names.len() > 0 {
        removal_only_stops(names.drop_last(), updated);
        let earlier = removal_steps(names.drop_last(), updated);
        let all = removal_steps(names, updated);
        assert forall|k: int| 0 <= k < all.len() implies #[trigger] all[k] is Stop by {
            if k < earlier.len() {
                assert(all[k] == earlier[k]);
            }
        }
    }
}

/// What a step says is what stands in it: the name, and the configuration to launch with.
pub proof fn steps_are_read_as_they_stand<'a, S>(steps: Seq<ServiceStep<'a, S>>, i: int)
    requires
        0 <= i < steps.len(),
    ensures
        step_views(steps).len() == steps.len(),
        steps[i] matches ServiceStep::Stop(name) ==> step_views(steps)[i] == Step::<S>::Stop(name@),
        steps[i] matches ServiceStep::Launch { name, config } ==> step_views(steps)[i]
            == Step::Launch(name@, *config),
{
}

/// The configurations of services are those that they run under, name by name.
pub proof fn configs_are_those_of_the_services<S, T>(
    services: Map<Seq<char>, (S, T)>,
    name: Seq<char>,
)
    ensures
        configs_of(services).contains_key(name) <==> services.contains_key(name),
        services.contains_key(name) ==> configs_of(services)[name] == services[name].0,
{
}

} // verus!
