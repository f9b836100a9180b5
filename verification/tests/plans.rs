use hidctl::plan::Action;
use hidctl::record::apply_settings_plan;
use hidctl::record::enable_profile_plan;
use hidctl::record::record_pass_plan;

/// Counts the transfers a plan asks of a transport, in order.
struct MockTransport {
    writes: Vec<Vec<u8>>,
    reads: usize,
}

impl MockTransport {
    fn new() -> MockTransport {
        MockTransport { writes: Vec::new(), reads: 0 }
    }

    fn run(&mut self, plan: Vec<Action>) {
        for action in plan {
            match action {
                Action::Send(frame) => self.writes.push(frame),
                Action::Read => self.reads += 1,
            }
        }
    }
}

fn sent_frame(plan: &[Action], i: usize) -> &Vec<u8> {
    match &plan[i] {
        Action::Send(frame) => frame,
        Action::Read => panic!("expected a send at index {}", i),
    }
}

#[test]
fn single_pass_counts_and_order() {
    let dpi: Vec<u16> = vec![400, 800, 1600, 3200, 0];
    let plan = record_pass_plan(1, 0x1c, 1000, &dpi);
    assert_eq!(plan.len(), 38);
    assert!(matches!(plan[0], Action::Send(_)));
    assert!(matches!(plan[1], Action::Read));
    for k in 0..16 {
        assert!(matches!(plan[2 * k + 2], Action::Send(_)));
        assert!(matches!(plan[2 * k + 3], Action::Read));
    }
    assert!(matches!(plan[34], Action::Send(_)));
    assert!(matches!(plan[35], Action::Read));
    assert!(matches!(plan[36], Action::Read));
    assert!(matches!(plan[37], Action::Read));

    let mut transport = MockTransport::new();
    transport.run(plan);
    assert_eq!(transport.writes.len(), 18);
    assert_eq!(transport.reads, 20);
}

#[test]
fn pass_frames_carry_the_transaction() {
    let dpi: Vec<u16> = vec![400, 800, 1600, 3200, 0];
    let plan = record_pass_plan(2, 0x1c, 1000, &dpi);
    let begin = sent_frame(&plan, 0);
    assert_eq!(begin[0], 0x11);
    assert_eq!(begin[3], 0x6a);
    assert_eq!(begin[5], 2);
    let line0 = sent_frame(&plan, 2);
    assert_eq!(line0[3], 0x7a);
    assert_eq!(&line0[4..20], &build_line0()[..]);
    let end = sent_frame(&plan, 34);
    assert_eq!(end, &vec![0x10, 0xff, 0x0f, 0x8a, 0x00, 0x00, 0x00]);
}

fn build_line0() -> Vec<u8> {
    vec![0x01, 0x01, 0x00, 0x90, 0x01, 0x20, 0x03, 0x40, 0x06, 0x80, 0x0c, 0x00, 0x00, 0xff, 0xff, 0xff]
}

#[test]
fn two_phase_write_runs_the_pass_twice_with_distinct_ids() {
    let dpi: Vec<u16> = vec![400, 800, 1600, 3200, 0];
    let plan = apply_settings_plan(1, 1000, &dpi);
    assert_eq!(plan.len(), 78);
    // line 1 of each pass carries the write identifier at frame byte 6
    let first = sent_frame(&plan, 4);
    let second = sent_frame(&plan, 42);
    assert_eq!(first[6], 0x1c);
    assert_eq!(second[6], 0x1d);
    // both passes open with the same target profile
    assert_eq!(sent_frame(&plan, 0)[5], 1);
    assert_eq!(sent_frame(&plan, 38)[5], 1);
    // a closing status query follows the second pass
    assert_eq!(sent_frame(&plan, 76), &vec![0x10, 0xff, 0x0f, 0x4a, 0x00, 0x00, 0x00]);
    assert!(matches!(plan[77], Action::Read));

    let mut transport = MockTransport::new();
    transport.run(plan);
    assert_eq!(transport.writes.len(), 37);
    assert_eq!(transport.reads, 41);
}

#[test]
fn enable_plan_shape() {
    let plan = enable_profile_plan(&[true, false, false, false, false]);
    assert_eq!(plan.len(), 38);
    // an enable transaction opens for profile zero
    assert_eq!(sent_frame(&plan, 0)[5], 0);
    // line 0 carries the first slot's enable byte at frame byte 10
    assert_eq!(sent_frame(&plan, 2)[10], 1);
    // the closing frame is followed by the three queued responses
    assert!(matches!(plan[34], Action::Send(_)));
    assert!(matches!(plan[35], Action::Read));
    assert!(matches!(plan[36], Action::Read));
    assert!(matches!(plan[37], Action::Read));
    let mut transport = MockTransport::new();
    transport.run(plan);
    assert_eq!(transport.writes.len(), 18);
    assert_eq!(transport.reads, 20);
}
