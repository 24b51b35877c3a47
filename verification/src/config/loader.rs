//! Loads the configuration when the program starts, and again whenever it is asked to.
use vstd::prelude::*;

verus! {

/// Why a configuration could not be loaded.
#[derive(Debug)]
pub enum ReloadError<E> {
    /// The file could not be read.
    Read(E),
    /// The file holds no configuration.
    Parse(E),
}

impl<E> ReloadError<E> {
    /// What was being done when loading failed.
    pub fn context(&self) -> (text: &'static str)
        ensures
            text@ == match self {
                ReloadError::Read(_) => "failed to read config file"@,
                ReloadError::Parse(_) => "failed to parse config file"@,
            },
    {
        match self {
            ReloadError::Read(_) => "failed to read config file",
            ReloadError::Parse(_) => "failed to parse config file",
        }
    }
}

/// Why a loader ends with an error.
#[derive(Debug)]
pub enum LoaderError<E> {
    /// It cannot hear the signal that asks for a reload.
    Signal(E),
    /// The first configuration could not be loaded.
    InitialReload(ReloadError<E>),
}

impl<E> LoaderError<E> {
    /// What was being done when the loader ended.
    pub fn context(&self) -> (text: &'static str)
        ensures
            text@ == match self {
                LoaderError::Signal(_) => "failed to install signal handler"@,
                LoaderError::InitialReload(_) => "initial reload failed"@,
            },
    {
        match self {
            LoaderError::Signal(_) => "failed to install signal handler",
            LoaderError::InitialReload(_) => "initial reload failed",
        }
    }
}

/// What a loader has to react to.
#[derive(Debug, Clone, Copy, PartialEq, Eq, Structural)]
pub enum Event {
    Shutdown,
    Reload,
}

/// What a loader wants done.
pub enum LoaderAction<E> {
    /// Load the configuration and hand it on.
    Load,
    /// Wait for the next event.
    Wait,
    /// End.
    Done(Result<(), LoaderError<E>>),
}

/// How far a loader has come.
#[derive(Debug, Clone, Copy, PartialEq, Eq, Structural)]
pub enum Phase {
    /// It is getting ready to hear the signal that asks for a reload.
    Starting,
    /// It loads the first configuration.
    FirstLoad,
    /// It waits.
    Waiting,
    /// It loads the configuration again.
    Reloading,
    /// It is done.
    Ended,
}

/// Loads configurations.
pub struct ConfigLoader {
    phase: Phase,
}

impl ConfigLoader {
    /// How far the loader has come.
    pub closed spec fn phase(&self) -> Phase {
        self.phase
    }

    /// A loader that has yet to start.
    pub fn new() -> (loader: ConfigLoader)
        ensures
            loader.phase() == Phase::Starting,
    {
        ConfigLoader { phase: Phase::Starting }
    }

    /// Goes on when the signal can be heard, or not.
    pub fn installed<E>(&mut self, installed: Result<(), E>) -> (action: LoaderAction<E>)
        requires
            old(self).phase() == Phase::Starting,
        ensures
            match installed {
                Ok(_) => final(self).phase() == Phase::FirstLoad && action is Load,
                Err(error) => final(self).phase() == Phase::Ended && action == LoaderAction::Done(
                    Err(LoaderError::Signal(error)),
                ),
            },
    {
        match installed {
            Ok(_) => {
                self.phase = Phase::FirstLoad;
                LoaderAction::Load
            },
            Err(error) => {
                self.phase = Phase::Ended;
                LoaderAction::Done(Err(LoaderError::Signal(error)))
            },
        }
    }

    /// Goes on after a configuration was loaded, or not. Without a first configuration there is
    /// nothing to do; later on, what was loaded before stays in force.
    pub fn loaded<E>(&mut self, loaded: Result<(), ReloadError<E>>) -> (action: LoaderAction<E>)
        requires
            old(self).phase() == Phase::FirstLoad || old(self).phase() == Phase::Reloading,
        ensures
            match loaded {
                Err(error) => if old(self).phase() == Phase::FirstLoad {
                    final(self).phase() == Phase::Ended && action == LoaderAction::Done(
                        Err(LoaderError::InitialReload(error)),
                    )
                } else {
                    final(self).phase() == Phase::Waiting && action is Wait
                },
                Ok(_) => final(self).phase() == Phase::Waiting && action is Wait,
            },
    {
        match loaded {
            Err(error) => {
                if self.phase == Phase::FirstLoad {
                    self.phase = Phase::Ended;
                    LoaderAction::Done(Err(LoaderError::InitialReload(error)))
                } else {
                    self.phase = Phase::Waiting;
                    LoaderAction::Wait
                }
            },
            Ok(_) => {
                self.phase = Phase::Waiting;
                LoaderAction::Wait
            },
        }
    }

    /// Reacts to an event.
    pub fn on_event<E>(&mut self, event: Event) -> (action: LoaderAction<E>)
        requires
            old(self).phase() == Phase::Waiting,
        ensures
            match event {
                Event::Shutdown => final(self).phase() == Phase::Ended && action
                    == LoaderAction::<E>::Done(Ok(())),
                Event::Reload => final(self).phase() == Phase::Reloading && action is Load,
            },
    {
        match event {
            Event::Shutdown => {
                self.phase = Phase::Ended;
                LoaderAction::Done(Ok(()))
            },
            Event::Reload => {
                self.phase = Phase::Reloading;
                LoaderAction::Load
            },
        }
    }
}

/// What shutting a loader down comes to: the result of the loader, where it could be awaited,
/// and success where it could not.
pub fn shutdown_result<E, F>(joined: Result<Result<(), E>, F>) -> (result: Result<(), E>)
    ensures
        result == match joined {
            Ok(result) => result,
            Err(_) => Ok(()),
        },
{
    match joined {
        Ok(result) => result,
        Err(_) => Ok(()),
    }
}

} // verus!
