//! The drain of a child's two streams as a whole.
//!
//! Two reading tasks and one consumer take turns at a [`ChannelView`] in an
//! order that nobody controls. [`DrainView`] describes where such a drain
//! stands, [`DrainView::run`] where it stands after any sequence of turns,
//! and the lemmas of this module say what holds of every such sequence: no
//! line is lost, repeated or moved past another line of its own stream.

use crate::channel::ChannelView;
use crate::line::{
    lemma_texts_of_concat, lemma_texts_of_partition, lemma_texts_of_push, texts_of, trim_end,
    Origin, TaggedLineView,
};
use crate::reader::{ends_stream, step_after};
use vstd::prelude::*;

verus! {

/// What one read of a stream brings: whether it failed, and the raw line.
pub ghost struct Read {
    pub failed: bool,
    pub raw: Seq<char>,
}

impl Read {
    /// Whether this read ends its stream.
    pub open spec fn ends(self) -> bool {
        ends_stream(self.failed, self.raw)
    }
}

/// How many reads of a stream come before the first one that ends it.
pub open spec fn reads_before_end(reads: Seq<Read>) -> nat
    decreases reads.len(),
{
    if reads.len() == 0 || reads.first().ends() {
        0
    } else {
        1 + reads_before_end(reads.drop_first())
    }
}

/// The lines that a stream produces: one for each read before the first that
/// ends the stream, without its trailing whitespace.
pub open spec fn produced(reads: Seq<Read>) -> Seq<Seq<char>> {
    Seq::new(reads_before_end(reads), |i: int| trim_end(reads[i].raw))
}

/// A child process, as far as a drain can tell: what the reads of each of its
/// two streams bring, in turn.
pub ghost struct Child {
    pub stdout: Seq<Read>,
    pub stderr: Seq<Read>,
}

impl Child {
    /// Whether both streams come to an end: each has a read that ends it.
    pub open spec fn closes(self) -> bool {
        &&& reads_before_end(self.stdout) < self.stdout.len()
        &&& reads_before_end(self.stderr) < self.stderr.len()
    }

    /// The reads of one stream.
    pub open spec fn reads(self, origin: Origin) -> Seq<Read> {
        match origin {
            Origin::StandardOutput => self.stdout,
            Origin::StandardError => self.stderr,
        }
    }
}

/// One turn of a drain.
pub ghost enum Turn {
    /// The reading task of this origin makes its next read and acts on it.
    Read(Origin),
    /// The consumer asks for a line.
    Receive,
}

/// Where a drain stands.
pub ghost struct DrainView {
    pub channel: ChannelView,
    /// How many reads the reading task of standard output has made.
    pub stdout_reads: nat,
    /// How many reads the reading task of standard error has made.
    pub stderr_reads: nat,
}

impl DrainView {
    /// A drain before its first turn.
    pub open spec fn start() -> DrainView {
        DrainView { channel: ChannelView::fresh(), stdout_reads: 0, stderr_reads: 0 }
    }

    /// How many reads the reading task of `origin` has made.
    pub open spec fn reads_made(self, origin: Origin) -> nat {
        match origin {
            Origin::StandardOutput => self.stdout_reads,
            Origin::StandardError => self.stderr_reads,
        }
    }

    /// The drain after the reading task of `origin` made one more read and
    /// left the channel as `channel`.
    pub open spec fn after_read(self, origin: Origin, channel: ChannelView) -> DrainView {
        match origin {
            Origin::StandardOutput => DrainView {
                channel,
                stdout_reads: self.stdout_reads + 1,
                ..self
            },
            Origin::StandardError => DrainView {
                channel,
                stderr_reads: self.stderr_reads + 1,
                ..self
            },
        }
    }

    /// The drain after one turn. A reading task that has let go of its end
    /// reads no more, and one whose stream has nothing to say yet waits.
    pub open spec fn turn(self, child: Child, turn: Turn) -> DrainView {
        match turn {
            Turn::Receive => DrainView { channel: self.channel.receive(), ..self },
            Turn::Read(origin) => {
                let reads = child.reads(origin);
                let made = self.reads_made(origin);
                if self.channel.producing(origin) && made < reads.len() {
                    let read = reads[made as int];
                    self.after_read(
                        origin,
                        self.channel.advance(origin, step_after(read.failed, read.raw)),
                    )
                } else {
                    self
                }
            },
        }
    }

    /// The drain after a sequence of turns from the start.
    pub open spec fn run(child: Child, turns: Seq<Turn>) -> DrainView
        decreases turns.len(),
    {
        if turns.len() == 0 {
            DrainView::start()
        } else {
            DrainView::run(child, turns.drop_last()).turn(child, turns.last())
        }
    }

    /// What holds of one stream at every moment of a drain: while its task
    /// reads, the channel has accepted one line for each read made; once the
    /// task has let go, the channel has accepted all that the stream
    /// produces.
    pub open spec fn in_step(self, child: Child, origin: Origin) -> bool {
        let reads = child.reads(origin);
        let made = self.reads_made(origin);
        let sent = texts_of(self.channel.accepted, origin);
        if self.channel.producing(origin) {
            made <= reads_before_end(reads) && sent == produced(reads).take(made as int)
        } else {
            made == reads_before_end(reads) + 1 && made <= reads.len() && sent == produced(reads)
        }
    }

    /// How many reads the reading task of `origin` has yet to make before it
    /// lets go of its end.
    pub open spec fn reads_left(self, child: Child, origin: Origin) -> nat {
        if self.channel.producing(origin) {
            (reads_before_end(child.reads(origin)) + 1 - self.reads_made(origin)) as nat
        } else {
            0
        }
    }

    /// How much is left to do before the drain is over: each read to come
    /// counts twice, once for the read and once for the delivery it may ask
    /// for, and each waiting line counts once.
    pub open spec fn work_left(self, child: Child) -> nat {
        2 * self.reads_left(child, Origin::StandardOutput) + 2 * self.reads_left(
            child,
            Origin::StandardError,
        ) + self.channel.pending.len()
    }

    /// What holds at every moment of a drain.
    pub open spec fn sound(self, child: Child) -> bool {
        &&& self.channel.attached
        &&& self.channel.accounted()
        &&& self.in_step(child, Origin::StandardOutput)
        &&& self.in_step(child, Origin::StandardError)
    }
}

/// No read before the end of a stream ends it, and the read at the end does.
pub proof fn lemma_reads_before_end(reads: Seq<Read>)
    ensures
        reads_before_end(reads) <= reads.len(),
        forall|i: int| 0 <= i < reads_before_end(reads) ==> !(#[trigger] reads[i]).ends(),
        reads_before_end(reads) < reads.len() ==> reads[reads_before_end(reads) as int].ends(),
    decreases reads.len(),
{
    if reads.len() > 0 && !reads.first().ends() {
        let rest = reads.drop_first();
        lemma_reads_before_end(rest);
        assert forall|i: int| 0 <= i < reads_before_end(reads) implies !(#[trigger] reads[i]).ends() by {
            if i > 0 {
                assert(reads[i] == rest[i - 1]);
            }
        }
        if reads_before_end(reads) < reads.len() {
            assert(reads[reads_before_end(reads) as int] == rest[reads_before_end(rest) as int]);
        }
    }
}

/// One turn leaves a sound drain sound.
proof fn lemma_turn_keeps_sound(drain: DrainView, child: Child, turn: Turn)
    requires
        drain.sound(child),
    ensures
        drain.turn(child, turn).sound(child),
{
    let next = drain.turn(child, turn);
    let channel = drain.channel;
    match turn {
        Turn::Receive => {
            if channel.ready() {
                assert(channel.delivered.push(channel.pending.first()) + channel.pending.drop_first()
                    =~= channel.delivered + channel.pending);
            }
        },
        Turn::Read(origin) => {
            let reads = child.reads(origin);
            let made = drain.reads_made(origin);
            if channel.producing(origin) && made < reads.len() {
                let read = reads[made as int];
                let other = match origin {
                    Origin::StandardOutput => Origin::StandardError,
                    Origin::StandardError => Origin::StandardOutput,
                };
                lemma_reads_before_end(reads);
                if read.ends() {
                    assert(made == reads_before_end(reads));
                    assert(produced(reads).take(made as int) =~= produced(reads));
                    assert(next.in_step(child, origin));
                    assert(next.in_step(child, other));
                } else {
                    let line = TaggedLineView { origin, text: trim_end(read.raw) };
                    assert(made < reads_before_end(reads));
                    assert(next.channel == channel.send(line));
                    lemma_texts_of_push(channel.accepted, line, origin);
                    lemma_texts_of_push(channel.accepted, line, other);
                    assert(produced(reads).take(made as int).push(line.text) =~= produced(
                        reads,
                    ).take(made as int + 1));
                    assert(channel.accepted.push(line) =~= channel.delivered + channel.pending.push(
                        line,
                    ));
                    assert(next.in_step(child, origin));
                    assert(next.in_step(child, other));
                }
            }
        },
    }
}

/// Every drain is sound, whatever the child writes and in whatever order the
/// turns come.
pub proof fn lemma_run_is_sound(child: Child, turns: Seq<Turn>)
    ensures
        DrainView::run(child, turns).sound(child),
    decreases turns.len(),
{
    if turns.len() == 0 {
        let start = DrainView::start();
        assert(start.channel.accepted =~= start.channel.delivered + start.channel.pending);
        assert(produced(child.stdout).take(0) =~= Seq::empty());
        assert(produced(child.stderr).take(0) =~= Seq::empty());
    } else {
        lemma_run_is_sound(child, turns.drop_last());
        lemma_turn_keeps_sound(DrainView::run(child, turns.drop_last()), child, turns.last());
    }
}

/// At every moment of every drain, the lines delivered so far are, for each
/// stream, the first lines that the stream produces, in the order in which it
/// produces them: none is repeated, none is skipped and none overtakes
/// another of the same stream.
pub proof fn lemma_delivery_follows_production(child: Child, turns: Seq<Turn>, origin: Origin)
    ensures
        texts_of(DrainView::run(child, turns).channel.delivered, origin).is_prefix_of(
            produced(child.reads(origin)),
        ),
{
    let drain = DrainView::run(child, turns);
    let channel = drain.channel;
    lemma_run_is_sound(child, turns);
    lemma_texts_of_concat(channel.delivered, channel.pending, origin);
    assert(drain.in_step(child, origin));
    assert(texts_of(channel.delivered, origin).is_prefix_of(texts_of(channel.accepted, origin)));
}

/// When a drain is over, every line that either stream produces has been
/// delivered exactly once and in the order of its stream, and nothing else
/// has been delivered.
pub proof fn lemma_finished_drain_is_complete(child: Child, turns: Seq<Turn>)
    requires
        DrainView::run(child, turns).channel.exhausted(),
    ensures
        texts_of(DrainView::run(child, turns).channel.delivered, Origin::StandardOutput)
            == produced(child.stdout),
        texts_of(DrainView::run(child, turns).channel.delivered, Origin::StandardError)
            == produced(child.stderr),
        DrainView::run(child, turns).channel.delivered.len() == produced(child.stdout).len()
            + produced(child.stderr).len(),
{
    let drain = DrainView::run(child, turns);
    let channel = drain.channel;
    lemma_run_is_sound(child, turns);
    assert(channel.accepted =~= channel.delivered);
    assert(drain.in_step(child, Origin::StandardOutput));
    assert(drain.in_step(child, Origin::StandardError));
    lemma_texts_of_partition(channel.delivered);
}

/// A reading task lets go of its end in the very turn in which its read ends
/// the stream, so a stream that closes without a line holds nothing up.
pub proof fn lemma_end_of_stream_releases(drain: DrainView, child: Child, origin: Origin)
    requires
        drain.channel.producing(origin),
        drain.reads_made(origin) < child.reads(origin).len(),
        child.reads(origin)[drain.reads_made(origin) as int].ends(),
    ensures
        !drain.turn(child, Turn::Read(origin)).channel.producing(origin),
        drain.turn(child, Turn::Read(origin)).channel.pending == drain.channel.pending,
{
}

/// No turn adds work, and the drain is over exactly when no work is left.
pub proof fn lemma_work_never_grows(drain: DrainView, child: Child, turn: Turn)
    requires
        drain.sound(child),
    ensures
        drain.turn(child, turn).work_left(child) <= drain.work_left(child),
        drain.work_left(child) == 0 <==> drain.channel.exhausted(),
{
    lemma_reads_before_end(child.stdout);
    lemma_reads_before_end(child.stderr);
}

/// A drain cannot hang: as long as it is not over and both streams of the
/// child come to an end, some turn does part of the work that is left. One
/// silent stream does not keep the other from being drained.
pub proof fn lemma_drain_can_go_on(drain: DrainView, child: Child) -> (turn: Turn)
    requires
        drain.sound(child),
        child.closes(),
        !drain.channel.exhausted(),
    ensures
        drain.turn(child, turn).work_left(child) < drain.work_left(child),
{
    lemma_reads_before_end(child.stdout);
    lemma_reads_before_end(child.stderr);
    if drain.channel.pending.len() > 0 {
        Turn::Receive
    } else if drain.channel.stdout_open {
        Turn::Read(Origin::StandardOutput)
    } else {
        Turn::Read(Origin::StandardError)
    }
}

} // verus!
