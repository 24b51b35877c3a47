//! The handles of a task that runs in the background: how it is told to stop, and how its end is
//! awaited.
use vstd::prelude::*;

verus! {

/// What a request to shut a task down comes to.
pub enum ShutdownStep<S, J> {
    /// Tell the task to stop, and await its end.
    SignalAndJoin(S, J),
    /// Tell the task to stop; its end has already been awaited, so the request fails.
    SignalOnly(S),
    /// The task has been told before, so the request fails.
    AlreadyShutDown,
}

/// The handles of a task: `S` tells it to stop, `J` awaits its end. Each is used once.
pub struct TaskWrapper<S, J> {
    shutdown: Option<S>,
    task: Option<J>,
}

/// What a request to shut down comes to with the given handles.
pub open spec fn shutdown_step<S, J>(signal: Option<S>, task: Option<J>) -> ShutdownStep<S, J> {
    match (signal, task) {
        (Some(s), Some(j)) => ShutdownStep::SignalAndJoin(s, j),
        (Some(s), None) => ShutdownStep::SignalOnly(s),
        (None, _) => ShutdownStep::AlreadyShutDown,
    }
}

/// The handles that are left after a request to shut down.
pub open spec fn after_shutdown<S, J>(signal: Option<S>, task: Option<J>) -> (
    Option<S>,
    Option<J>,
) {
    (
        None,
        if signal is Some {
            None
        } else {
            task
        },
    )
}

impl<S, J> TaskWrapper<S, J> {
    /// The handle that tells the task to stop, while it has not been used.
    pub closed spec fn signal(&self) -> Option<S> {
        self.shutdown
    }

    /// The handle that awaits the end of the task, while that has not been awaited.
    pub closed spec fn task(&self) -> Option<J> {
        self.task
    }

    /// Wraps the handles of a task that has just been started.
    pub fn new(shutdown: S, task: J) -> (wrapper: TaskWrapper<S, J>)
        ensures
            wrapper.signal() == Some(shutdown),
            wrapper.task() == Some(task),
    {
        TaskWrapper { shutdown: Some(shutdown), task: Some(task) }
    }

    /// Takes the handles out for shutting the task down. A task can be shut down once.
    pub fn shutdown(&mut self) -> (step: ShutdownStep<S, J>)
        ensures
            step == shutdown_step(old(self).signal(), old(self).task()),
            (final(self).signal(), final(self).task()) == after_shutdown(
                old(self).signal(),
                old(self).task(),
            ),
    {
        match self.shutdown.take() {
            Some(signal) => match self.task.take() {
                Some(task) => ShutdownStep::SignalAndJoin(signal, task),
                None => ShutdownStep::SignalOnly(signal),
            },
            None => ShutdownStep::AlreadyShutDown,
        }
    }

    /// The handle that awaits the end of the task, while that has not been awaited. It stays in
    /// place, so that awaiting can be broken off and taken up again.
    pub fn waiting(&mut self) -> (task: Option<&mut J>)
        ensures
            final(self).signal() == old(self).signal(),
            match task {
                Some(j) => old(self).task() == Some(*j) && final(self).task() == Some(*final(j)),
                None => old(self).task() is None && final(self).task() is None,
            },
    {
        match &mut self.task {
            Some(task) => Some(task),
            None => None,
        }
    }

    /// Takes note that the end of the task has been awaited.
    pub fn joined(&mut self)
        ensures
            final(self).signal() == old(self).signal(),
            final(self).task() is None,
    {
        self.task = None;
    }

    /// Takes the handle out that tells the task to stop, for a wrapper that is let go of.
    pub fn release(&mut self) -> (signal: Option<S>)
        ensures
            signal == old(self).signal(),
            final(self).signal() is None,
            final(self).task() == old(self).task(),
    {
        self.shutdown.take()
    }
}

/// A task is shut down once, and its end is awaited once: after a request to shut down, the next
/// one finds the task already shut down, and where the first one awaited its end, there is
/// nothing left to wait for. A task whose end has been awaited is told to stop, but the request
/// fails.
pub proof fn shut_down_and_joined_once<S, J>(signal: Option<S>, task: Option<J>)
    ensures
        ({
            let (next_signal, next_task) = after_shutdown(signal, task);
            &&& shutdown_step::<S, J>(next_signal, next_task) is AlreadyShutDown
            &&& shutdown_step(signal, task) is SignalAndJoin ==> next_task is None
            &&& task is None ==> !(shutdown_step(signal, task) is SignalAndJoin)
        }),
{
}

/// A task with both handles is told to stop and awaited with just these handles; one that was
/// awaited before is only told; one that was told before is left alone, and can still be
/// awaited.
pub proof fn shutdown_uses_the_handles<S, J>(signal: S, task: J, rest: Option<J>)
    ensures
        shutdown_step(Some(signal), Some(task)) == ShutdownStep::SignalAndJoin(signal, task),
        shutdown_step(Some(signal), None::<J>) == ShutdownStep::<S, J>::SignalOnly(signal),
        shutdown_step(None::<S>, rest) is AlreadyShutDown,
        after_shutdown(Some(signal), Some(task)) == (None::<S>, None::<J>),
        after_shutdown(None::<S>, rest) == (None::<S>, rest),
{
}

} // verus!
