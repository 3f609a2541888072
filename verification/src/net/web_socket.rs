//! The receiving end of a web socket: the messages that arrived and were
//! not read yet, and whether the connection still stands.
//!
//! The host reports what happens on the wire; the application reads from
//! the queue.
use std::collections::VecDeque;
use vstd::prelude::*;

verus! {

/// One message, as it came over the wire.
pub enum Message {
    Binary(Vec<u8>),
    Text(String),
}

/// The connection is closed, or sending failed.
#[derive(Clone, Copy, Debug, PartialEq, Eq, Structural)]
pub struct WebSocketError;

/// The state of an established connection.
pub struct WebSocket {
    recv: VecDeque<Message>,
    open: bool,
}

impl WebSocket {
    /// The messages that arrived and were not read yet, oldest first.
    pub closed spec fn unread(&self) -> Seq<Message> {
        self.recv@
    }

    /// Whether the connection stands.
    pub closed spec fn open(&self) -> bool {
        self.open
    }

    /// The state of a connection that has just been established.
    pub fn new() -> (socket: WebSocket)
        ensures
            socket.open(),
            socket.unread() == Seq::<Message>::empty(),
    {
        WebSocket { recv: VecDeque::new(), open: true }
    }

    /// A message arrived.
    pub fn message_received(&mut self, message: Message)
        ensures
            final(self).unread() == old(self).unread().push(message),
            final(self).open() == old(self).open(),
    {
        self.recv.push_back(message);
    }

    /// The connection failed.
    pub fn failed(&mut self)
        ensures
            !final(self).open(),
            final(self).unread() == old(self).unread(),
    {
        self.open = false;
    }

    /// Whether the connection stands.
    pub fn is_open(&self) -> (open: bool)
        ensures
            open == self.open(),
    {
        self.open
    }

    /// The connection was closed from this side. Messages that arrived
    /// before can still be read.
    pub fn close(&mut self)
        ensures
            !final(self).open(),
            final(self).unread() == old(self).unread(),
    {
        self.open = false;
    }

    /// Takes the oldest unread message. Without one, the answer tells
    /// whether more can come: `Ok(None)` while the connection stands, the
    /// error once it is closed.
    pub fn read(&mut self) -> (r: Result<Option<Message>, WebSocketError>)
        ensures
            final(self).open() == old(self).open(),
            old(self).unread().len() > 0 ==> {
                &&& r == Ok::<Option<Message>, WebSocketError>(Some(old(self).unread()[0]))
                &&& final(self).unread() == old(self).unread().drop_first()
            },
            old(self).unread().len() == 0 ==> {
                &&& final(self).unread() == old(self).unread()
                &&& old(self).open() ==> r == Ok::<Option<Message>, WebSocketError>(None)
                &&& !old(self).open() ==> r == Err::<Option<Message>, WebSocketError>(
                    WebSocketError,
                )
            },
    {
        match self.recv.pop_front() {
            Some(message) => Ok(Some(message)),
            None => {
                if self.open {
                    Ok(None)
                } else {
                    Err(WebSocketError)
                }
            },
        }
    }

    /// The host tried to send: `accepted` tells whether it took the data.
    /// A refused send closes the connection.
    pub fn sent(&mut self, accepted: bool) -> (r: Result<(), WebSocketError>)
        ensures
            final(self).unread() == old(self).unread(),
            accepted ==> r == Ok::<(), WebSocketError>(()) && final(self).open() == old(
                self,
            ).open(),
            !accepted ==> r == Err::<(), WebSocketError>(WebSocketError) && !final(self).open(),
    {
        if accepted {
            Ok(())
        } else {
            self.open = false;
            Err(WebSocketError)
        }
    }
}

} // verus!
