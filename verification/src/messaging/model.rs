//! The in-process fabric as mathematics: what it holds, and what each
//! operation makes of it.

use crate::messaging::{Inbox, MessageView, Outlet};
use vstd::prelude::*;

verus! {

/// A channel's queue and which of its ends are held.
pub struct PipeView {
    pub queue: Seq<MessageView>,
    pub sender_held: bool,
    pub receiver_held: bool,
}

/// A subscriber's queue and whether it is still subscribed.
pub struct CursorView {
    pub queue: Seq<MessageView>,
    pub active: bool,
}

/// A topic's name and the subscribers it ever had, in the order in which
/// they subscribed.
pub struct TopicView {
    pub name: Seq<char>,
    pub cursors: Seq<CursorView>,
}

/// Everything a fabric holds.
pub struct FabricView {
    pub pipes: Seq<PipeView>,
    pub topics: Seq<TopicView>,
}

impl PipeView {
    /// A channel as `create` makes it.
    pub open spec fn fresh() -> PipeView {
        PipeView { queue: Seq::empty(), sender_held: true, receiver_held: true }
    }

    /// Whether a message sent now is accepted.
    pub open spec fn connected(self) -> bool {
        self.sender_held && self.receiver_held
    }
}

impl CursorView {
    /// A subscriber as `subscribe` makes it.
    pub open spec fn fresh() -> CursorView {
        CursorView { queue: Seq::empty(), active: true }
    }

    /// A subscriber after `unsubscribe`.
    pub open spec fn gone() -> CursorView {
        CursorView { queue: Seq::empty(), active: false }
    }

    /// The subscriber after one message was published on its topic.
    pub open spec fn offer(self, message: MessageView) -> CursorView {
        if self.active {
            CursorView { queue: self.queue.push(message), active: true }
        } else {
            self
        }
    }
}

impl TopicView {
    /// A topic as it is first made: named, without subscribers.
    pub open spec fn fresh(name: Seq<char>) -> TopicView {
        TopicView { name, cursors: Seq::empty() }
    }

    /// The topic after one message was published on it.
    pub open spec fn offer(self, message: MessageView) -> TopicView {
        TopicView {
            name: self.name,
            cursors: Seq::new(self.cursors.len(), |s: int| self.cursors[s].offer(message)),
        }
    }
}

impl FabricView {
    /// A fabric without channels or topics.
    pub open spec fn empty() -> FabricView {
        FabricView { pipes: Seq::empty(), topics: Seq::empty() }
    }

    /// Whether `c` is a channel of this fabric.
    pub open spec fn has_pipe(self, c: int) -> bool {
        0 <= c < self.pipes.len()
    }

    /// Whether `t` is a topic of this fabric.
    pub open spec fn has_topic(self, t: int) -> bool {
        0 <= t < self.topics.len()
    }

    /// Whether `s` is a subscriber, present or past, of topic `t`.
    pub open spec fn has_cursor(self, t: int, s: int) -> bool {
        self.has_topic(t) && 0 <= s < self.topics[t].cursors.len()
    }

    /// What the receiving end of channel `c` observes.
    pub open spec fn pipe_inbox(self, c: int) -> Inbox {
        if self.has_pipe(c) && self.pipes[c].receiver_held {
            Inbox { pending: self.pipes[c].queue, closed: !self.pipes[c].sender_held }
        } else {
            Inbox::shut()
        }
    }

    /// What the sending end of channel `c` observes.
    pub open spec fn pipe_outlet(self, c: int) -> Outlet {
        if self.has_pipe(c) && self.pipes[c].sender_held {
            Outlet { queued: self.pipes[c].queue, receiver_gone: !self.pipes[c].receiver_held }
        } else {
            Outlet { queued: Seq::empty(), receiver_gone: true }
        }
    }

    /// What subscriber `s` of topic `t` observes.
    pub open spec fn cursor_inbox(self, t: int, s: int) -> Inbox {
        if self.has_cursor(t, s) && self.topics[t].cursors[s].active {
            Inbox { pending: self.topics[t].cursors[s].queue, closed: false }
        } else {
            Inbox::shut()
        }
    }

    /// The fabric with one more channel.
    pub open spec fn open_pipe(self) -> FabricView {
        FabricView { pipes: self.pipes.push(PipeView::fresh()), topics: self.topics }
    }

    /// Whether a message sent on channel `c` is accepted.
    pub open spec fn can_send(self, c: int) -> bool {
        self.has_pipe(c) && self.pipes[c].connected()
    }

    /// The fabric after `message` was sent on channel `c`.
    pub open spec fn send(self, c: int, message: MessageView) -> FabricView {
        if self.can_send(c) {
            FabricView {
                pipes: self.pipes.update(
                    c,
                    PipeView {
                        queue: self.pipes[c].queue.push(message),
                        sender_held: true,
                        receiver_held: true,
                    },
                ),
                topics: self.topics,
            }
        } else {
            self
        }
    }

    /// The fabric after the messages of `messages` were sent on channel `c`
    /// one after the other.
    pub open spec fn send_all(self, c: int, messages: Seq<MessageView>) -> FabricView
        decreases messages.len(),
    {
        if messages.len() == 0 {
            self
        } else {
            self.send_all(c, messages.drop_last()).send(c, messages.last())
        }
    }

    /// The fabric after the receiving end of channel `c` took what it could.
    pub open spec fn take_from_pipe(self, c: int) -> FabricView {
        if self.has_pipe(c) && self.pipes[c].receiver_held && self.pipes[c].queue.len() > 0 {
            FabricView {
                pipes: self.pipes.update(
                    c,
                    PipeView {
                        queue: self.pipes[c].queue.drop_first(),
                        sender_held: self.pipes[c].sender_held,
                        receiver_held: true,
                    },
                ),
                topics: self.topics,
            }
        } else {
            self
        }
    }

    /// The fabric after the sending end of channel `c` was given up.
    pub open spec fn close_sender(self, c: int) -> FabricView {
        if self.has_pipe(c) {
            FabricView {
                pipes: self.pipes.update(
                    c,
                    PipeView {
                        queue: self.pipes[c].queue,
                        sender_held: false,
                        receiver_held: self.pipes[c].receiver_held,
                    },
                ),
                topics: self.topics,
            }
        } else {
            self
        }
    }

    /// The fabric after the receiving end of channel `c` was given up.
    pub open spec fn close_receiver(self, c: int) -> FabricView {
        if self.has_pipe(c) {
            FabricView {
                pipes: self.pipes.update(
                    c,
                    PipeView {
                        queue: Seq::empty(),
                        sender_held: self.pipes[c].sender_held,
                        receiver_held: false,
                    },
                ),
                topics: self.topics,
            }
        } else {
            self
        }
    }

    /// Whether a topic bears `name`.
    pub open spec fn knows(self, name: Seq<char>) -> bool {
        exists|t: int| self.has_topic(t) && #[trigger] self.topics[t].name == name
    }

    /// Whether `t` is the first topic that bears `name`.
    pub open spec fn first_named(self, t: int, name: Seq<char>) -> bool {
        &&& self.has_topic(t)
        &&& self.topics[t].name == name
        &&& forall|u: int| 0 <= u < t ==> #[trigger] self.topics[u].name != name
    }

    /// Whether no two topics bear the same name.
    pub open spec fn names_distinct(self) -> bool {
        forall|t: int, u: int|
            self.has_topic(t) && self.has_topic(u) && #[trigger] self.topics[t].name
                == #[trigger] self.topics[u].name ==> t == u
    }

    /// The fabric with one more topic.
    pub open spec fn open_topic(self, name: Seq<char>) -> FabricView {
        FabricView { pipes: self.pipes, topics: self.topics.push(TopicView::fresh(name)) }
    }

    /// The fabric after `topic` was asked for `name`.
    pub open spec fn topic(self, name: Seq<char>) -> FabricView {
        if self.knows(name) {
            self
        } else {
            self.open_topic(name)
        }
    }

    /// The fabric after `message` was published on topic `t`.
    pub open spec fn publish(self, t: int, message: MessageView) -> FabricView {
        if self.has_topic(t) {
            FabricView {
                pipes: self.pipes,
                topics: self.topics.update(t, self.topics[t].offer(message)),
            }
        } else {
            self
        }
    }

    /// The fabric after one more subscriber joined topic `t`.
    pub open spec fn subscribe(self, t: int) -> FabricView {
        if self.has_topic(t) {
            FabricView {
                pipes: self.pipes,
                topics: self.topics.update(
                    t,
                    TopicView {
                        name: self.topics[t].name,
                        cursors: self.topics[t].cursors.push(CursorView::fresh()),
                    },
                ),
            }
        } else {
            self
        }
    }

    /// The fabric after subscriber `s` of topic `t` unsubscribed.
    pub open spec fn unsubscribe(self, t: int, s: int) -> FabricView {
        if self.has_cursor(t, s) {
            FabricView {
                pipes: self.pipes,
                topics: self.topics.update(
                    t,
                    TopicView {
                        name: self.topics[t].name,
                        cursors: self.topics[t].cursors.update(s, CursorView::gone()),
                    },
                ),
            }
        } else {
            self
        }
    }

    /// The fabric after subscriber `s` of topic `t` took what it could.
    pub open spec fn take_from_cursor(self, t: int, s: int) -> FabricView {
        if self.has_cursor(t, s) && self.topics[t].cursors[s].active
            && self.topics[t].cursors[s].queue.len() > 0 {
            FabricView {
                pipes: self.pipes,
                topics: self.topics.update(
                    t,
                    TopicView {
                        name: self.topics[t].name,
                        cursors: self.topics[t].cursors.update(
                            s,
                            CursorView {
                                queue: self.topics[t].cursors[s].queue.drop_first(),
                                active: true,
                            },
                        ),
                    },
                ),
            }
        } else {
            self
        }
    }
}

/// One operation on a fabric, as far as it can change what the fabric
/// holds.
pub enum Event {
    /// `create` on the channel factory.
    Create,
    /// `send` of a message on a channel.
    Send(int, MessageView),
    /// One of the three receiving operations on a channel.
    Receive(int),
    /// `close` on the sending end of a channel.
    CloseSender(int),
    /// `close` on the receiving end of a channel.
    CloseReceiver(int),
    /// `topic` with a name.
    Topic(Seq<char>),
    /// `publish` of a message on a topic.
    Publish(int, MessageView),
    /// `subscribe` on a topic.
    Subscribe(int),
    /// `unsubscribe` on a subscriber of a topic.
    Unsubscribe(int, int),
    /// One of the three receiving operations on a subscriber of a topic.
    Take(int, int),
}

impl FabricView {
    /// The fabric after one operation.
    pub open spec fn step(self, event: Event) -> FabricView {
        match event {
            Event::Create => self.open_pipe(),
            Event::Send(c, message) => self.send(c, message),
            Event::Receive(c) => self.take_from_pipe(c),
            Event::CloseSender(c) => self.close_sender(c),
            Event::CloseReceiver(c) => self.close_receiver(c),
            Event::Topic(name) => self.topic(name),
            Event::Publish(t, message) => self.publish(t, message),
            Event::Subscribe(t) => self.subscribe(t),
            Event::Unsubscribe(t, s) => self.unsubscribe(t, s),
            Event::Take(t, s) => self.take_from_cursor(t, s),
        }
    }

    /// The fabric after a sequence of operations.
    pub open spec fn run(self, events: Seq<Event>) -> FabricView
        decreases events.len(),
    {
        if events.len() == 0 {
            self
        } else {
            self.run(events.drop_last()).step(events.last())
        }
    }
}

} // verus!
