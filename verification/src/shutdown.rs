use crate::error::ServiceError;
use crate::message::{Async, Canceled};
use vstd::prelude::*;

verus! {

/// What an observer of the shutdown signal sees: the state of the shared
/// one-shot at the time it was looked at.
pub struct ShutdownFuture {
    pub shared: Result<Async<Result<(), ServiceError>>, Canceled>,
}

impl ShutdownFuture {
    /// The signal as long as nothing has resolved it.
    pub fn pending() -> (future: ShutdownFuture)
        ensures
            future.shared == Ok::<Async<Result<(), ServiceError>>, Canceled>(Async::NotReady),
    {
        ShutdownFuture { shared: Ok(Async::NotReady) }
    }

    /// What polling yields: not ready while unresolved, ready after a clean
    /// shutdown, the recorded error after a fatal one, and `Unknown` where
    /// the signal was given up without a result.
    pub open spec fn outcome(self) -> Result<Async<()>, ServiceError> {
        match self.shared {
            Ok(Async::Ready(Ok(_))) => Ok(Async::Ready(())),
            Ok(Async::Ready(Err(error))) => Err(error),
            Ok(Async::NotReady) => Ok(Async::NotReady),
            Err(_) => Err(ServiceError::Unknown),
        }
    }

    pub open spec fn is_resolved(self) -> bool {
        !(self.shared == Ok::<Async<Result<(), ServiceError>>, Canceled>(Async::NotReady))
    }

    pub fn poll(&self) -> (polled: Result<Async<()>, ServiceError>)
        ensures
            polled == self.outcome(),
    {
        match &self.shared {
            Ok(Async::Ready(Ok(_))) => Ok(Async::Ready(())),
            Ok(Async::Ready(Err(error))) => Err(error.share()),
            Ok(Async::NotReady) => Ok(Async::NotReady),
            Err(_) => Err(ServiceError::Unknown),
        }
    }

    /// Another observer of the same signal.
    pub fn observer(&self) -> (other: ShutdownFuture)
        ensures
            other == *self,
    {
        let shared = match &self.shared {
            Ok(Async::Ready(Ok(done))) => Ok(Async::Ready(Ok(*done))),
            Ok(Async::Ready(Err(error))) => Ok(Async::Ready(Err(error.share()))),
            Ok(Async::NotReady) => Ok(Async::NotReady),
            Err(canceled) => Err(*canceled),
        };
        ShutdownFuture { shared }
    }
}

/// The supervisor of the four tasks. It owns the sending end of the
/// shutdown signal, which can be used once: `signal` is `None` while that
/// end is still there, and holds the terminal result from then on.
pub struct Service {
    pub signal: Option<Result<(), ServiceError>>,
}

impl Service {
    pub fn new() -> (service: Service)
        ensures
            service.signal.is_none(),
    {
        Service { signal: None }
    }

    /// The signal after an attempt to resolve it with `result`: the first
    /// result stays.
    pub open spec fn resolved_with(self, result: Result<(), ServiceError>) -> Service {
        match self.signal {
            Some(_) => self,
            None => Service { signal: Some(result) },
        }
    }

    /// Clean shutdown. Does nothing where the signal is resolved already.
    pub fn shutdown(&mut self)
        ensures
            *final(self) == old(self).resolved_with(Ok(())),
    {
        if self.signal.is_none() {
            self.signal = Some(Ok(()));
        }
    }

    /// Shutdown after a fatal error of a task. Does nothing where the signal
    /// is resolved already: the first cause stays.
    pub fn shutdown_error(&mut self, error: ServiceError)
        ensures
            *final(self) == old(self).resolved_with(Err(error)),
    {
        if self.signal.is_none() {
            self.signal = Some(Err(error));
        }
    }

    /// Takes what a task's poll returned. An error resolves the signal; the
    /// result says whether the task is to be polled again, which it is only
    /// as long as it is unfinished and the signal unresolved.
    pub fn task_polled(&mut self, polled: Result<Async<()>, ServiceError>) -> (again: bool)
        ensures
            *final(self) == (match polled {
                Err(error) => old(self).resolved_with(Err(error)),
                Ok(_) => *old(self),
            }),
            again == (polled == Ok::<Async<()>, ServiceError>(Async::NotReady)
                && old(self).signal.is_none()),
    {
        match polled {
            Err(error) => {
                self.shutdown_error(error);
                false
            },
            Ok(Async::Ready(_)) => false,
            Ok(Async::NotReady) => self.signal.is_none(),
        }
    }

    pub fn is_shut_down(&self) -> (down: bool)
        ensures
            down == self.signal.is_some(),
    {
        self.signal.is_some()
    }

    /// What observers of the signal see now.
    pub open spec fn observed(self) -> ShutdownFuture {
        match self.signal {
            Some(result) => ShutdownFuture { shared: Ok(Async::Ready(result)) },
            None => ShutdownFuture { shared: Ok(Async::NotReady) },
        }
    }

    pub fn shutdown_future(&self) -> (future: ShutdownFuture)
        ensures
            future == self.observed(),
    {
        match &self.signal {
            Some(Ok(done)) => ShutdownFuture { shared: Ok(Async::Ready(Ok(*done))) },
            Some(Err(error)) => ShutdownFuture { shared: Ok(Async::Ready(Err(error.share()))) },
            None => ShutdownFuture { shared: Ok(Async::NotReady) },
        }
    }
}

/// The shutdown signal resolves at most once: after any two attempts the
/// result is that of the first, and every observer polls the same outcome.
pub proof fn lemma_first_resolution_stays(
    service: Service,
    first: Result<(), ServiceError>,
    second: Result<(), ServiceError>,
)
    ensures
        service.resolved_with(first).resolved_with(second) == service.resolved_with(first),
        service.resolved_with(first).signal.is_some(),
        service.signal.is_none() ==> service.resolved_with(first).signal == Some(first),
        service.resolved_with(first).observed().is_resolved(),
        service.resolved_with(first).resolved_with(second).observed().outcome()
            == service.resolved_with(first).observed().outcome(),
{
}

} // verus!
