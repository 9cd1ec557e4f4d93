use stream_mux::channel::{Delivery, MergeChannel};
use stream_mux::line::{Origin, TaggedLine};
use stream_mux::reader::{read_step, ReadStep};

fn tagged(origin: Origin, text: &str) -> TaggedLine {
    TaggedLine { origin, text: text.to_string() }
}

fn other(origin: Origin) -> Origin {
    match origin {
        Origin::StandardOutput => Origin::StandardError,
        Origin::StandardError => Origin::StandardOutput,
    }
}

/// A child that has written `stdout` and `stderr`, raw line by raw line, and
/// then closed both streams. The reading tasks and the consumer take turns
/// as `pick` says: 0 and 1 let a reading task read, anything else lets the
/// consumer ask. Returns what the consumer got, in order.
fn drain_scripted(stdout: &[String], stderr: &[String], mut pick: impl FnMut() -> u32) -> Vec<TaggedLine> {
    let mut channel = MergeChannel::new();
    let mut next_read = [0usize, 0usize];
    let mut delivered = Vec::new();
    let mut turns = 0usize;
    loop {
        turns += 1;
        assert!(turns < 1_000_000, "the drain does not come to an end");
        let choice = pick();
        if choice < 2 {
            let (origin, script) = if choice == 0 {
                (Origin::StandardOutput, stdout)
            } else {
                (Origin::StandardError, stderr)
            };
            if !channel.is_producing(origin) {
                continue;
            }
            let at = next_read[choice as usize];
            let raw = if at < script.len() { script[at].as_str() } else { "" };
            next_read[choice as usize] = at + 1;
            let keep = channel.advance(origin, read_step(false, raw));
            assert_eq!(keep, at < script.len() && !script[at].is_empty());
            assert_eq!(channel.is_producing(origin), keep);
        } else {
            match channel.receive() {
                Delivery::Line(line) => delivered.push(line),
                Delivery::Pending => {
                    assert!(
                        channel.is_producing(Origin::StandardOutput)
                            || channel.is_producing(Origin::StandardError)
                    );
                }
                Delivery::Closed => break,
            }
        }
    }
    delivered
}

fn texts_of(lines: &[TaggedLine], origin: Origin) -> Vec<String> {
    lines.iter().filter(|line| line.origin == origin).map(|line| line.text.clone()).collect()
}

#[test]
fn new_channel_has_both_producers_and_nothing_pending() {
    let mut channel = MergeChannel::new();
    assert!(channel.is_producing(Origin::StandardOutput));
    assert!(channel.is_producing(Origin::StandardError));
    assert!(channel.is_attached());
    assert_eq!(channel.pending_len(), 0);
    assert_eq!(channel.receive(), Delivery::Pending);
}

#[test]
fn lines_come_out_in_the_order_they_went_in() {
    let mut channel = MergeChannel::new();
    assert!(channel.send(tagged(Origin::StandardOutput, "one")));
    assert!(channel.send(tagged(Origin::StandardError, "two")));
    assert!(channel.send(tagged(Origin::StandardOutput, "three")));
    assert_eq!(channel.pending_len(), 3);
    assert_eq!(channel.receive(), Delivery::Line(tagged(Origin::StandardOutput, "one")));
    assert_eq!(channel.receive(), Delivery::Line(tagged(Origin::StandardError, "two")));
    assert_eq!(channel.pending_len(), 1);
    assert_eq!(channel.receive(), Delivery::Line(tagged(Origin::StandardOutput, "three")));
    assert_eq!(channel.pending_len(), 0);
    assert_eq!(channel.receive(), Delivery::Pending);
}

#[test]
fn channel_stays_pending_until_both_producers_finish() {
    let mut channel = MergeChannel::new();
    assert_eq!(channel.receive(), Delivery::Pending);
    channel.finish(Origin::StandardOutput);
    assert!(!channel.is_producing(Origin::StandardOutput));
    assert!(channel.is_producing(Origin::StandardError));
    assert_eq!(channel.receive(), Delivery::Pending);
    channel.finish(Origin::StandardError);
    assert_eq!(channel.receive(), Delivery::Closed);
    assert_eq!(channel.receive(), Delivery::Closed);
}

#[test]
fn lines_sent_before_finish_are_still_delivered() {
    let mut channel = MergeChannel::new();
    assert!(channel.send(tagged(Origin::StandardError, "last words")));
    channel.finish(Origin::StandardError);
    channel.finish(Origin::StandardOutput);
    assert_eq!(channel.receive(), Delivery::Line(tagged(Origin::StandardError, "last words")));
    assert_eq!(channel.receive(), Delivery::Closed);
}

#[test]
fn finish_twice_changes_nothing_more() {
    let mut channel = MergeChannel::new();
    channel.finish(Origin::StandardOutput);
    channel.finish(Origin::StandardOutput);
    assert!(!channel.is_producing(Origin::StandardOutput));
    assert!(channel.is_producing(Origin::StandardError));
    assert!(channel.send(tagged(Origin::StandardError, "still here")));
    assert_eq!(channel.pending_len(), 1);
}

#[test]
fn send_after_finish_is_refused() {
    let mut channel = MergeChannel::new();
    channel.finish(Origin::StandardOutput);
    assert!(!channel.send(tagged(Origin::StandardOutput, "too late")));
    assert_eq!(channel.pending_len(), 0);
    assert!(channel.send(tagged(Origin::StandardError, "in time")));
    assert_eq!(channel.pending_len(), 1);
}

#[test]
fn send_after_detach_is_refused() {
    let mut channel = MergeChannel::new();
    assert!(channel.send(tagged(Origin::StandardOutput, "before")));
    channel.detach();
    assert!(!channel.is_attached());
    assert!(!channel.send(tagged(Origin::StandardOutput, "after")));
    assert!(!channel.send(tagged(Origin::StandardError, "after")));
    assert_eq!(channel.pending_len(), 1);
}

#[test]
fn nothing_is_delivered_after_detach() {
    let mut channel = MergeChannel::new();
    assert!(channel.send(tagged(Origin::StandardOutput, "unread")));
    channel.detach();
    assert_eq!(channel.receive(), Delivery::Closed);
    assert_eq!(channel.pending_len(), 1);
}

#[test]
fn advance_forwards_a_line_under_the_tasks_origin() {
    let mut channel = MergeChannel::new();
    assert!(channel.advance(Origin::StandardError, ReadStep::Forward("warning".to_string())));
    assert!(channel.is_producing(Origin::StandardError));
    assert_eq!(channel.receive(), Delivery::Line(tagged(Origin::StandardError, "warning")));
}

#[test]
fn advance_on_end_of_stream_lets_go_of_the_tasks_end_only() {
    let mut channel = MergeChannel::new();
    assert!(!channel.advance(Origin::StandardOutput, ReadStep::Finish));
    assert!(!channel.is_producing(Origin::StandardOutput));
    assert!(channel.is_producing(Origin::StandardError));
    assert_eq!(channel.pending_len(), 0);
}

#[test]
fn reading_task_stops_when_the_consumer_is_gone() {
    let mut channel = MergeChannel::new();
    channel.detach();
    assert!(!channel.advance(Origin::StandardOutput, ReadStep::Forward("unheard".to_string())));
    assert!(!channel.is_producing(Origin::StandardOutput));
    assert!(channel.is_producing(Origin::StandardError));
    assert_eq!(channel.pending_len(), 0);
}

#[test]
fn draining_an_exited_child_delivers_nothing() {
    let mut channel = MergeChannel::new();
    assert!(!channel.advance(Origin::StandardOutput, read_step(false, "")));
    assert!(!channel.advance(Origin::StandardError, read_step(false, "")));
    assert_eq!(channel.receive(), Delivery::Closed);
    assert_eq!(channel.pending_len(), 0);

    let mut turn = 0u32;
    let delivered = drain_scripted(&[], &[], || {
        turn += 1;
        turn % 3
    });
    assert!(delivered.is_empty());
}

#[test]
fn child_that_exits_before_the_first_read_is_drained_in_either_order() {
    for first in [Origin::StandardOutput, Origin::StandardError] {
        let mut channel = MergeChannel::new();
        assert_eq!(channel.receive(), Delivery::Pending);
        assert!(!channel.advance(first, read_step(false, "")));
        assert_eq!(channel.receive(), Delivery::Pending);
        assert!(!channel.advance(other(first), read_step(false, "")));
        assert_eq!(channel.receive(), Delivery::Closed);
    }
}

#[test]
fn silent_stream_does_not_hold_up_the_busy_one() {
    let mut channel = MergeChannel::new();
    assert!(!channel.advance(Origin::StandardError, read_step(false, "")));
    assert!(!channel.is_producing(Origin::StandardError));
    for n in 0..50 {
        let raw = format!("line {}\n", n);
        assert!(channel.advance(Origin::StandardOutput, read_step(false, &raw)));
        assert_eq!(
            channel.receive(),
            Delivery::Line(tagged(Origin::StandardOutput, &format!("line {}", n)))
        );
        assert_eq!(channel.receive(), Delivery::Pending);
    }
    assert!(!channel.advance(Origin::StandardOutput, read_step(false, "")));
    assert_eq!(channel.receive(), Delivery::Closed);
}

#[test]
fn failed_read_on_one_stream_leaves_the_other_draining() {
    let mut channel = MergeChannel::new();
    assert!(channel.advance(Origin::StandardOutput, read_step(false, "first\n")));
    assert!(!channel.advance(Origin::StandardOutput, read_step(true, "")));
    assert!(channel.advance(Origin::StandardError, read_step(false, "second\n")));
    assert!(channel.advance(Origin::StandardError, read_step(false, "third\n")));
    assert!(!channel.advance(Origin::StandardError, read_step(false, "")));
    assert_eq!(channel.receive(), Delivery::Line(tagged(Origin::StandardOutput, "first")));
    assert_eq!(channel.receive(), Delivery::Line(tagged(Origin::StandardError, "second")));
    assert_eq!(channel.receive(), Delivery::Line(tagged(Origin::StandardError, "third")));
    assert_eq!(channel.receive(), Delivery::Closed);
}

#[test]
fn a_then_b_are_each_delivered_once() {
    let mut channel = MergeChannel::new();
    assert!(channel.advance(Origin::StandardOutput, read_step(false, "A\n")));
    assert!(channel.advance(Origin::StandardError, read_step(false, "B\n")));
    assert!(!channel.advance(Origin::StandardOutput, read_step(false, "")));
    assert!(!channel.advance(Origin::StandardError, read_step(false, "")));
    let mut delivered = Vec::new();
    loop {
        match channel.receive() {
            Delivery::Line(line) => delivered.push(line),
            Delivery::Pending => panic!("both reading tasks have finished"),
            Delivery::Closed => break,
        }
    }
    assert_eq!(
        delivered,
        vec![tagged(Origin::StandardOutput, "A"), tagged(Origin::StandardError, "B")]
    );
}

#[test]
fn a_and_b_are_each_delivered_once_whoever_is_read_first() {
    let stdout = vec!["A\n".to_string()];
    let stderr = vec!["B\n".to_string()];
    let orders: [[u32; 7]; 4] = [
        [0, 1, 0, 1, 2, 2, 2],
        [1, 0, 1, 0, 2, 2, 2],
        [2, 1, 2, 1, 0, 2, 0],
        [0, 2, 0, 2, 1, 2, 1],
    ];
    for order in orders {
        let mut at = 0;
        let delivered = drain_scripted(&stdout, &stderr, || {
            let choice = if at < order.len() { order[at] } else { 2 };
            at += 1;
            choice
        });
        assert_eq!(delivered.len(), 2);
        assert_eq!(texts_of(&delivered, Origin::StandardOutput), vec!["A".to_string()]);
        assert_eq!(texts_of(&delivered, Origin::StandardError), vec!["B".to_string()]);
    }
}

#[test]
fn thousand_lines_on_standard_output_arrive_in_write_order() {
    let mut channel = MergeChannel::new();
    assert!(!channel.advance(Origin::StandardError, read_step(false, "")));
    for n in 0..1000 {
        let raw = format!("line {}\n", n);
        assert!(channel.advance(Origin::StandardOutput, read_step(false, &raw)));
    }
    assert!(!channel.advance(Origin::StandardOutput, read_step(false, "")));
    assert_eq!(channel.pending_len(), 1000);
    for n in 0..1000 {
        assert_eq!(
            channel.receive(),
            Delivery::Line(tagged(Origin::StandardOutput, &format!("line {}", n)))
        );
    }
    assert_eq!(channel.receive(), Delivery::Closed);
}

#[test]
fn every_line_is_delivered_once_in_the_order_of_its_stream() {
    let mut seed: u64 = 0x2545_F491_4F6C_DD1D;
    for round in 0..200u64 {
        let mut next = || {
            seed ^= seed << 13;
            seed ^= seed >> 7;
            seed ^= seed << 17;
            seed
        };
        let out_count = (next() % 40) as usize;
        let err_count = (next() % 40) as usize;
        let stdout: Vec<String> = (0..out_count).map(|n| format!("out {} of round {} \r\n", n, round)).collect();
        let stderr: Vec<String> = (0..err_count).map(|n| format!("err {} of round {}\n", n, round)).collect();
        let delivered = drain_scripted(&stdout, &stderr, || (next() % 3) as u32);

        assert_eq!(delivered.len(), out_count + err_count);
        let want_out: Vec<String> = (0..out_count).map(|n| format!("out {} of round {}", n, round)).collect();
        let want_err: Vec<String> = (0..err_count).map(|n| format!("err {} of round {}", n, round)).collect();
        assert_eq!(texts_of(&delivered, Origin::StandardOutput), want_out);
        assert_eq!(texts_of(&delivered, Origin::StandardError), want_err);
    }
}

#[test]
fn stream_ends_at_its_first_empty_read() {
    let stdout = vec!["kept\n".to_string(), String::new(), "never read\n".to_string()];
    let mut turn = 0u32;
    let delivered = drain_scripted(&stdout, &[], || {
        turn += 1;
        turn % 3
    });
    assert_eq!(delivered, vec![tagged(Origin::StandardOutput, "kept")]);
}
