use crate::error::ServiceError;
use crate::message::{Async, AsyncSink, Disconnected, NotificationMessage, OutgoingMessage};
use crate::shutdown::{Service, ShutdownFuture};
use vstd::prelude::*;

verus! {

/// What holders of a service handle can ask of the service.
pub enum ServiceCommand<C> {
    SendNotification(C),
    Shutdown,
}

/// The task that carries out the commands. `current_notification` is the
/// message that waits for room in the write queue.
pub struct CommandHandler<R, E, C> {
    pub current_notification: Option<OutgoingMessage<R, E, C>>,
}

/// The outside work that the command handler asks for next.
pub enum CommandAction<R, E, C> {
    /// Offer this message to the write queue.
    Send(OutgoingMessage<R, E, C>),
    /// Poll the command queue for the next command.
    PollQueue,
}

impl<R, E, C> CommandHandler<R, E, C> {
    pub fn new() -> (handler: Self)
        ensures
            handler.current_notification.is_none(),
    {
        CommandHandler { current_notification: None }
    }

    /// A notification that waits is offered to the write queue before the
    /// next command is fetched.
    pub fn next_action(&mut self) -> (action: CommandAction<R, E, C>)
        ensures
            final(self).current_notification.is_none(),
            action == (match old(self).current_notification {
                Some(notification) => CommandAction::Send(notification),
                None => CommandAction::PollQueue,
            }),
    {
        match self.current_notification.take() {
            Some(notification) => CommandAction::Send(notification),
            None => CommandAction::PollQueue,
        }
    }

    /// Takes the write queue's answer to an offer. A full queue hands the
    /// notification back: it waits again and the task suspends. A queue
    /// whose consumer is gone is fatal.
    pub fn notification_sent(
        &mut self,
        sent: Result<AsyncSink<OutgoingMessage<R, E, C>>, Disconnected>,
    ) -> (done: Result<Async<()>, ServiceError>)
        ensures
            match sent {
                Ok(AsyncSink::Ready) => done == Ok::<Async<()>, ServiceError>(Async::Ready(()))
                    && final(self).current_notification == old(self).current_notification,
                Ok(AsyncSink::NotReady(returned)) => done == Ok::<Async<()>, ServiceError>(
                    Async::NotReady,
                ) && final(self).current_notification == Some(returned),
                Err(_) => done == Err::<Async<()>, ServiceError>(ServiceError::Unknown) && final(self).current_notification == old(self).current_notification,
            },
    {
        match sent {
            Ok(AsyncSink::Ready) => Ok(Async::Ready(())),
            Ok(AsyncSink::NotReady(returned)) => {
                self.current_notification = Some(returned);
                Ok(Async::NotReady)
            },
            Err(_) => Err(ServiceError::Unknown),
        }
    }

    /// Takes what the command queue yielded. A notification becomes the
    /// message to write and the task goes on. A shutdown resolves the
    /// signal cleanly, if nothing has resolved it before, and the task
    /// suspends for good. A queue that ended or failed is fatal.
    pub fn command_polled(
        &mut self,
        service: &mut Service,
        polled: Result<Async<Option<ServiceCommand<C>>>, Disconnected>,
    ) -> (done: Result<Async<()>, ServiceError>)
        ensures
            match polled {
                Ok(Async::Ready(Some(ServiceCommand::SendNotification(notification)))) => done
                    == Ok::<Async<()>, ServiceError>(Async::Ready(())) && final(self).current_notification == Some(
                    OutgoingMessage::<R, E, C>::Notification(
                        NotificationMessage { method: notification },
                    ),
                ) && *final(service) == *old(service),
                Ok(Async::Ready(Some(ServiceCommand::Shutdown))) => done == Ok::<
                    Async<()>,
                    ServiceError,
                >(Async::NotReady) && *final(self) == *old(self) && *final(service) == old(service).resolved_with(Ok(())),
                Ok(Async::Ready(None)) => done == Err::<Async<()>, ServiceError>(
                    ServiceError::Unknown,
                ) && *final(self) == *old(self) && *final(service) == *old(service),
                Ok(Async::NotReady) => done == Ok::<Async<()>, ServiceError>(Async::NotReady)
                    && *final(self) == *old(self) && *final(service) == *old(service),
                Err(_) => done == Err::<Async<()>, ServiceError>(ServiceError::Unknown) && *final(self) == *old(self) && *final(service) == *old(service),
            },
    {
        match polled {
            Ok(Async::Ready(Some(ServiceCommand::SendNotification(notification)))) => {
                self.current_notification = Some(
                    OutgoingMessage::Notification(NotificationMessage { method: notification }),
                );
                Ok(Async::Ready(()))
            },
            Ok(Async::Ready(Some(ServiceCommand::Shutdown))) => {
                service.shutdown();
                Ok(Async::NotReady)
            },
            Ok(Async::Ready(None)) => Err(ServiceError::Unknown),
            Ok(Async::NotReady) => Ok(Async::NotReady),
            Err(_) => Err(ServiceError::Unknown),
        }
    }
}

/// The control surface handed to user code. It observes the shutdown signal
/// and says which command stands for each request to the service; the
/// command is then put into the command queue without waiting.
pub struct ServiceHandle {
    pub shutdown_future: ShutdownFuture,
}

impl ServiceHandle {
    pub fn new(shutdown_future: ShutdownFuture) -> (handle: ServiceHandle)
        ensures
            handle.shutdown_future == shutdown_future,
    {
        ServiceHandle { shutdown_future }
    }

    pub fn get_shutdown_future(&self) -> (future: &ShutdownFuture)
        ensures
            *future == self.shutdown_future,
    {
        &self.shutdown_future
    }

    /// The command that shuts the service down.
    pub fn shutdown<C>(&self) -> (command: ServiceCommand<C>)
        ensures
            command == ServiceCommand::<C>::Shutdown,
    {
        ServiceCommand::Shutdown
    }

    /// The command that sends `notification` to the client.
    pub fn send_notification<C>(&self, notification: C) -> (command: ServiceCommand<C>)
        ensures
            command == ServiceCommand::SendNotification(notification),
    {
        ServiceCommand::SendNotification(notification)
    }
}

} // verus!
