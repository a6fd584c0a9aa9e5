//! Completion ports, the messages posted to them, and the handler that turns
//! the wallet engine's notifications into such messages.

use crate::status::ExitCode;
use vstd::prelude::*;

verus! {

/// The value that a message carries.
#[derive(Copy, Clone, Debug, PartialEq, Eq, Structural)]
pub enum Payload {
    /// Nothing but the fact that the message came: a wait has elapsed.
    Unit,
    /// The balance of the watched account after its state changed.
    Balance(u64),
    /// The outcome of a subscription request: its status and the address of
    /// the new subscription, null where there is none.
    Subscription { code: ExitCode, handle: usize },
}

/// One post to a completion port. The port is an address in the host's own
/// registry; nothing here checks that a sink is still registered under it.
#[derive(Copy, Clone, Debug, PartialEq, Eq, Structural)]
pub struct Message {
    pub port: i64,
    pub payload: Payload,
}

/// What the wallet engine tells a subscription.
#[derive(Copy, Clone, Debug, PartialEq, Eq, Structural)]
pub enum Notification {
    /// A message of the wallet was delivered to the network.
    MessageSent,
    /// A message of the wallet expired before it was delivered.
    MessageExpired,
    /// The state of the account changed; `balance` is its new balance.
    StateChanged { balance: u64 },
    /// New transactions of the account were found.
    TransactionsFound,
}

/// Receives the notifications of one subscription and says what is posted to
/// the subscription's port for each.
///
/// Of the four kinds of notification only a change of the account's state
/// is forwarded. The other three are received and dropped. A handler is open
/// from its creation until it is closed, which happens when its subscription
/// is destroyed; a closed handler posts nothing.
#[derive(Copy, Clone, Debug)]
pub struct TonWalletSubscriptionHandler {
    port: i64,
    open: bool,
}

impl TonWalletSubscriptionHandler {
    /// The port that the handler posts to.
    pub closed spec fn port_of(self) -> i64 {
        self.port
    }

    /// Whether the handler still forwards.
    pub closed spec fn is_open(self) -> bool {
        self.open
    }

    /// What the handler posts when the account's balance has become `balance`.
    pub open spec fn forwarded(self, balance: u64) -> Message {
        Message { port: self.port_of(), payload: Payload::Balance(balance) }
    }

    /// What the handler posts for a notification, if anything.
    pub open spec fn posts(self, notification: Notification) -> Option<Message> {
        match notification {
            Notification::StateChanged { balance } if self.is_open() => Some(
                self.forwarded(balance),
            ),
            _ => None,
        }
    }

    /// An open handler that posts to `port`.
    pub fn new(port: i64) -> (handler: Self)
        ensures
            handler.port_of() == port,
            handler.is_open(),
    {
        Self { port, open: true }
    }

    /// The port that the handler posts to.
    pub fn port(&self) -> (port: i64)
        ensures
            port == self.port_of(),
    {
        self.port
    }

    /// Whether the handler still forwards.
    pub fn open(&self) -> (open: bool)
        ensures
            open == self.is_open(),
    {
        self.open
    }

    /// Closes the handler for good. Its port stays what it was.
    pub fn close(&mut self)
        ensures
            !final(self).is_open(),
            final(self).port_of() == old(self).port_of(),
    {
        self.open = false;
    }

    /// What is posted for a notification, if anything.
    pub fn notify(&self, notification: Notification) -> (post: Option<Message>)
        ensures
            post == self.posts(notification),
    {
        match notification {
            Notification::StateChanged { balance } => self.on_state_changed(balance),
            Notification::MessageSent => self.on_message_sent(),
            Notification::MessageExpired => self.on_message_expired(),
            Notification::TransactionsFound => self.on_transactions_found(),
        }
    }

    /// A message of the wallet was delivered to the network. Nothing is posted.
    pub fn on_message_sent(&self) -> (post: Option<Message>)
        ensures
            post is None,
            post == self.posts(Notification::MessageSent),
    {
        None
    }

    /// A message of the wallet expired before it was delivered. Nothing is
    /// posted.
    pub fn on_message_expired(&self) -> (post: Option<Message>)
        ensures
            post is None,
            post == self.posts(Notification::MessageExpired),
    {
        None
    }

    /// The state of the account changed. An open handler posts the new
    /// balance to its port, a closed one nothing.
    pub fn on_state_changed(&self, balance: u64) -> (post: Option<Message>)
        ensures
            post == self.posts(Notification::StateChanged { balance }),
            self.is_open() ==> post == Some(self.forwarded(balance)),
            !self.is_open() ==> post is None,
    {
        if self.open {
            Some(Message { port: self.port, payload: Payload::Balance(balance) })
        } else {
            None
        }
    }

    /// New transactions of the account were found. Nothing is posted.
    pub fn on_transactions_found(&self) -> (post: Option<Message>)
        ensures
            post is None,
            post == self.posts(Notification::TransactionsFound),
    {
        None
    }
}

/// A closed handler posts nothing, whatever it is told.
pub proof fn closed_handler_is_silent(
    handler: TonWalletSubscriptionHandler,
    notification: Notification,
)
    requires
        !handler.is_open(),
    ensures
        handler.posts(notification) is None,
{
}

/// A handler posts exactly for the changes of state that reach it while it is
/// open, and then to its own port and nowhere else.
pub proof fn only_state_changes_are_forwarded(
    handler: TonWalletSubscriptionHandler,
    notification: Notification,
)
    ensures
        handler.posts(notification) is Some <==> handler.is_open()
            && notification is StateChanged,
        handler.posts(notification) matches Some(message) ==> message.port == handler.port_of()
            && message.payload == Payload::Balance(notification->balance),
{
}

} // verus!
