//! The queue through which the two reading tasks reach the single consumer.
//!
//! [`MergeChannel`] is the sequential core of a thread-safe queue: a caller
//! that shares it between threads keeps it behind a lock and waits while
//! [`MergeChannel::receive`] answers [`Delivery::Pending`]. Each reading task
//! holds one end of it, named by the task's [`Origin`]; the consumer holds the
//! other.
//!
//! [`ChannelView`] is what the queue is to a proof: the lines that wait, which
//! ends are still held, and the history of what was accepted and delivered.

use crate::line::{Origin, TaggedLine, TaggedLineView};
use crate::reader::ReadStep;
use std::collections::VecDeque;
use vstd::prelude::*;

verus! {

/// The state of a merge channel, with its history.
pub ghost struct ChannelView {
    /// Lines accepted and not yet delivered, oldest first.
    pub pending: Seq<TaggedLineView>,
    /// Every line the channel ever accepted, in the order of acceptance.
    pub accepted: Seq<TaggedLineView>,
    /// Every line the channel ever delivered, in the order of delivery.
    pub delivered: Seq<TaggedLineView>,
    /// Whether the reading task of standard output still holds its end.
    pub stdout_open: bool,
    /// Whether the reading task of standard error still holds its end.
    pub stderr_open: bool,
    /// Whether the consumer is still there.
    pub attached: bool,
}

impl ChannelView {
    /// A channel as it is created: both reading tasks and the consumer hold
    /// their ends, and nothing was sent yet.
    pub open spec fn fresh() -> ChannelView {
        ChannelView {
            pending: Seq::empty(),
            accepted: Seq::empty(),
            delivered: Seq::empty(),
            stdout_open: true,
            stderr_open: true,
            attached: true,
        }
    }

    /// Whether the reading task of `origin` still holds its end.
    pub open spec fn producing(self, origin: Origin) -> bool {
        match origin {
            Origin::StandardOutput => self.stdout_open,
            Origin::StandardError => self.stderr_open,
        }
    }

    /// Whether a line of `origin` would be accepted: its reading task holds
    /// its end and the consumer is there.
    pub open spec fn accepts(self, origin: Origin) -> bool {
        self.attached && self.producing(origin)
    }

    /// The channel after `line` was offered to it.
    pub open spec fn send(self, line: TaggedLineView) -> ChannelView {
        if self.accepts(line.origin) {
            ChannelView {
                pending: self.pending.push(line),
                accepted: self.accepted.push(line),
                ..self
            }
        } else {
            self
        }
    }

    /// The channel after the reading task of `origin` let go of its end.
    pub open spec fn finish(self, origin: Origin) -> ChannelView {
        match origin {
            Origin::StandardOutput => ChannelView { stdout_open: false, ..self },
            Origin::StandardError => ChannelView { stderr_open: false, ..self },
        }
    }

    /// The channel after the consumer went away.
    pub open spec fn detach(self) -> ChannelView {
        ChannelView { attached: false, ..self }
    }

    /// Whether a line can be handed to the consumer now.
    pub open spec fn ready(self) -> bool {
        self.attached && self.pending.len() > 0
    }

    /// Whether nothing will ever be handed to the consumer again: nothing
    /// waits and no reading task holds its end, or the consumer is gone.
    pub open spec fn exhausted(self) -> bool {
        !self.attached || (self.pending.len() == 0 && !self.stdout_open && !self.stderr_open)
    }

    /// The channel after the consumer asked for a line.
    pub open spec fn receive(self) -> ChannelView {
        if self.ready() {
            ChannelView {
                pending: self.pending.drop_first(),
                delivered: self.delivered.push(self.pending.first()),
                ..self
            }
        } else {
            self
        }
    }

    /// The channel after the reading task of `origin` made one read with the
    /// given outcome: the task lets go of its end when the stream is over or
    /// the line is refused, and otherwise the line is queued.
    pub open spec fn advance(self, origin: Origin, forwarded: Option<Seq<char>>) -> ChannelView {
        match forwarded {
            Some(text) if self.accepts(origin) => self.send(TaggedLineView { origin, text }),
            _ => self.finish(origin),
        }
    }

    /// Whether the reading task of `origin` goes on reading after such a read.
    pub open spec fn keeps_reading(self, origin: Origin, forwarded: Option<Seq<char>>) -> bool {
        forwarded is Some && self.accepts(origin)
    }

    /// Whether the history adds up: what was accepted is what was delivered,
    /// followed by what still waits.
    pub open spec fn accounted(self) -> bool {
        self.accepted == self.delivered + self.pending
    }
}

/// A fresh channel is accounted for, and no operation loses, repeats or
/// reorders a line: whatever is done to an accounted channel leaves it
/// accounted.
pub proof fn lemma_account_is_kept(
    channel: ChannelView,
    line: TaggedLineView,
    origin: Origin,
    forwarded: Option<Seq<char>>,
)
    requires
        channel.accounted(),
    ensures
        ChannelView::fresh().accounted(),
        channel.send(line).accounted(),
        channel.finish(origin).accounted(),
        channel.detach().accounted(),
        channel.receive().accounted(),
        channel.advance(origin, forwarded).accounted(),
{
    assert(ChannelView::fresh().accepted =~= ChannelView::fresh().delivered
        + ChannelView::fresh().pending);
    assert(channel.accepted.push(line) =~= channel.delivered + channel.pending.push(line));
    if channel.ready() {
        assert(channel.delivered.push(channel.pending.first()) + channel.pending.drop_first()
            =~= channel.delivered + channel.pending);
    }
    if let Some(text) = forwarded {
        let tagged = TaggedLineView { origin, text };
        assert(channel.accepted.push(tagged) =~= channel.delivered + channel.pending.push(tagged));
    }
}

/// The values of a sequence of tagged lines.
pub open spec fn line_views(lines: Seq<TaggedLine>) -> Seq<TaggedLineView> {
    Seq::new(lines.len(), |i: int| lines[i]@)
}

/// What the consumer gets when it asks the channel for a line.
#[derive(Clone, Debug, PartialEq, Eq)]
pub enum Delivery {
    /// The oldest waiting line.
    Line(TaggedLine),
    /// Nothing waits, but a reading task may still send: ask again later.
    Pending,
    /// Nothing waits and nothing will come.
    Closed,
}

/// A first-in first-out queue of tagged lines with two producers, one for
/// each origin, and one consumer.
pub struct MergeChannel {
    queue: VecDeque<TaggedLine>,
    stdout_open: bool,
    stderr_open: bool,
    attached: bool,
    accepted: Ghost<Seq<TaggedLineView>>,
    delivered: Ghost<Seq<TaggedLineView>>,
}

impl View for MergeChannel {
    type V = ChannelView;

    closed spec fn view(&self) -> ChannelView {
        ChannelView {
            pending: line_views(self.queue@),
            accepted: self.accepted@,
            delivered: self.delivered@,
            stdout_open: self.stdout_open,
            stderr_open: self.stderr_open,
            attached: self.attached,
        }
    }
}

impl MergeChannel {
    /// Creates a channel for one drain: both reading tasks and the consumer
    /// hold their ends, and no line waits.
    pub fn new() -> (channel: MergeChannel)
        ensures
            channel@ == ChannelView::fresh(),
    {
        let channel = MergeChannel {
            queue: VecDeque::new(),
            stdout_open: true,
            stderr_open: true,
            attached: true,
            accepted: Ghost(Seq::empty()),
            delivered: Ghost(Seq::empty()),
        };
        assert(channel@.pending =~= Seq::empty());
        channel
    }

    /// Whether the reading task of `origin` still holds its end.
    pub fn is_producing(&self, origin: Origin) -> (producing: bool)
        ensures
            producing == self@.producing(origin),
    {
        match origin {
            Origin::StandardOutput => self.stdout_open,
            Origin::StandardError => self.stderr_open,
        }
    }

    /// Whether the consumer is still there.
    pub fn is_attached(&self) -> (attached: bool)
        ensures
            attached == self@.attached,
    {
        self.attached
    }

    /// How many lines wait for the consumer.
    pub fn pending_len(&self) -> (count: usize)
        ensures
            count == self@.pending.len(),
    {
        self.queue.len()
    }

    /// Offers a line to the channel. The line is queued behind all lines
    /// accepted before it if the reading task of its origin still holds its
    /// end and the consumer is there; otherwise it is dropped and the channel
    /// is unchanged.
    pub fn send(&mut self, line: TaggedLine) -> (accepted: bool)
        ensures
            accepted == old(self)@.accepts(line.origin),
            final(self)@ == old(self)@.send(line@),
    {
        if self.attached && self.is_producing(line.origin) {
            let ghost before = self.queue@;
            proof {
                self.accepted@ = self.accepted@.push(line@);
            }
            self.queue.push_back(line);
            assert(line_views(self.queue@) =~= line_views(before).push(line@));
            true
        } else {
            false
        }
    }

    /// Lets go of the end held by the reading task of `origin`. Lines it sent
    /// before stay queued. Doing so twice changes nothing more.
    pub fn finish(&mut self, origin: Origin)
        ensures
            final(self)@ == old(self)@.finish(origin),
    {
        match origin {
            Origin::StandardOutput => {
                self.stdout_open = false;
            },
            Origin::StandardError => {
                self.stderr_open = false;
            },
        }
    }

    /// Records that the consumer went away: from now on every line is
    /// refused and nothing is delivered.
    pub fn detach(&mut self)
        ensures
            final(self)@ == old(self)@.detach(),
    {
        self.attached = false;
    }

    /// Asks for the next line. Hands out the oldest waiting line if there is
    /// one; otherwise says whether one may still come.
    pub fn receive(&mut self) -> (delivery: Delivery)
        ensures
            final(self)@ == old(self)@.receive(),
            match delivery {
                Delivery::Line(line) => old(self)@.ready() && line@ == old(self)@.pending.first(),
                Delivery::Pending => !old(self)@.ready() && !old(self)@.exhausted(),
                Delivery::Closed => !old(self)@.ready() && old(self)@.exhausted(),
            },
    {
        if !self.attached {
            return Delivery::Closed;
        }
        let ghost before = self.queue@;
        match self.queue.pop_front() {
            Some(line) => {
                proof {
                    self.delivered@ = self.delivered@.push(line@);
                }
                assert(line_views(self.queue@) =~= line_views(before).drop_first());
                Delivery::Line(line)
            },
            None => {
                if self.stdout_open || self.stderr_open {
                    Delivery::Pending
                } else {
                    Delivery::Closed
                }
            },
        }
    }

    /// Applies one step of the reading task of `origin` and says whether the
    /// task goes on reading. A forwarded text is tagged with `origin` and
    /// sent. The task stops, and lets go of its end, when the step says that
    /// the stream is over or when the line is refused.
    pub fn advance(&mut self, origin: Origin, step: ReadStep) -> (keep_reading: bool)
        ensures
            keep_reading == old(self)@.keeps_reading(origin, step@),
            final(self)@ == old(self)@.advance(origin, step@),
    {
        match step {
            ReadStep::Finish => {
                self.finish(origin);
                false
            },
            ReadStep::Forward(text) => {
                if self.send(TaggedLine { origin, text }) {
                    true
                } else {
                    self.finish(origin);
                    false
                }
            },
        }
    }
}

} // verus!
