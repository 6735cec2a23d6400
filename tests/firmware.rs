use keyboard_bridge::ansi::{simple_kr, translate_char, StateMachine};
use keyboard_bridge::queue::{OverwriteQueue, ReportQueue};
use keyboard_bridge::report::WhyNoDeriveDeserializeManSadFaceHere;
use keyboard_bridge::scheduler::DeliveryScheduler;
use usbd_hid::descriptor::KeyboardUsage;

fn report(modifier: u8, keys: [u8; 6]) -> WhyNoDeriveDeserializeManSadFaceHere {
    WhyNoDeriveDeserializeManSadFaceHere { modifier, keys }
}

fn key(usage: u8) -> WhyNoDeriveDeserializeManSadFaceHere {
    report(0, [usage, 0, 0, 0, 0, 0])
}

fn feed(state: &mut StateMachine, bytes: &[u8]) -> Vec<WhyNoDeriveDeserializeManSadFaceHere> {
    bytes.iter().filter_map(|b| state.step(*b)).collect()
}

#[test]
fn ansi_arrow_sequence_gives_one_report() {
    let mut state = StateMachine::Start;
    assert_eq!(
        feed(&mut state, &[0x1B, 0x5B, 0x41]),
        vec![key(KeyboardUsage::KeyboardUpArrow as u8)]
    );
    assert_eq!(state, StateMachine::Start);
    assert_eq!(feed(&mut state, &[0x1B, 0x5B, 0x42]), vec![key(0x51)]);
    assert_eq!(feed(&mut state, &[0x1B, 0x5B, 0x43]), vec![key(0x4F)]);
    assert_eq!(feed(&mut state, &[0x1B, 0x5B, 0x44]), vec![key(0x50)]);
}

#[test]
fn ansi_escape_without_bracket_is_dropped() {
    let mut state = StateMachine::Start;
    assert_eq!(feed(&mut state, &[0x1B, 0x41]), vec![]);
    assert_eq!(state, StateMachine::Start);
    assert_eq!(feed(&mut state, b"a"), vec![key(0x04)]);
}

#[test]
fn ansi_unknown_control_sequence_is_dropped() {
    let mut state = StateMachine::default();
    assert_eq!(feed(&mut state, &[0x1B, 0x5B, 0x5A, b'b']), vec![key(0x05)]);
}

#[test]
fn ansi_characters() {
    assert_eq!(translate_char(b'z'), Some(key(0x1D)));
    assert_eq!(translate_char(b'A'), Some(report(0x02, [0x04, 0, 0, 0, 0, 0])));
    assert_eq!(translate_char(b'1'), Some(key(0x1E)));
    assert_eq!(translate_char(b'9'), Some(key(0x26)));
    assert_eq!(translate_char(b'0'), Some(key(0x27)));
    assert_eq!(translate_char(b'"'), Some(report(0x02, [0x1F, 0, 0, 0, 0, 0])));
    assert_eq!(translate_char(b'|'), Some(report(0x02, [0x31, 0, 0, 0, 0, 0])));
    assert_eq!(translate_char(b' '), Some(key(0x2C)));
    assert_eq!(translate_char(b'\r'), Some(key(0x28)));
    assert_eq!(translate_char(b'\t'), Some(key(0x2B)));
    assert_eq!(translate_char(127), Some(key(0x2A)));
    assert_eq!(translate_char(b'#'), None);
    assert_eq!(translate_char(0x80), None);
    assert_eq!(simple_kr(0x02, 0x2D), Some(report(0x02, [0x2D, 0, 0, 0, 0, 0])));
}

#[test]
fn report_queue_refuses_when_full() {
    let mut queue = ReportQueue::new();
    for i in 0..31u8 {
        assert!(queue.enqueue(key(i + 1)));
    }
    assert_eq!(queue.len(), 31);
    assert!(!queue.enqueue(key(0x40)));
    assert_eq!(queue.len(), 31);
    assert_eq!(queue.dequeue(), Some(key(1)));
    assert_eq!(queue.peek(), Some(key(2)));
    assert_eq!(queue.len(), 30);
}

#[test]
fn drain_with_repeat_keeps_the_last_report() {
    let mut queue = ReportQueue::new();
    let idle = queue.next_delivery();
    assert_eq!(idle.report, WhyNoDeriveDeserializeManSadFaceHere::idle());
    assert!(!idle.backlog);
    queue.enqueue(key(0x04));
    queue.enqueue(key(0x05));
    let d = queue.next_delivery();
    assert_eq!(d.report, key(0x04));
    assert!(d.backlog);
    for _ in 0..3 {
        let d = queue.next_delivery();
        assert_eq!(d.report, key(0x05));
        assert!(!d.backlog);
    }
    assert_eq!(queue.len(), 1);
}

#[test]
fn overwrite_queue_drops_the_oldest() {
    let mut ring = OverwriteQueue::new();
    for i in 0..25u8 {
        ring.push(key(i + 1));
        assert!(ring.len() <= 20);
    }
    assert_eq!(ring.len(), 20);
    assert_eq!(ring.pop(), Some(key(6)));
    let d = ring.next_delivery();
    assert_eq!(d.report, key(7));
    assert!(d.backlog);
    while ring.pop().is_some() {}
    let d = ring.next_delivery();
    assert_eq!(d.report, WhyNoDeriveDeserializeManSadFaceHere::idle());
    assert!(!d.backlog);
}

#[test]
fn scheduler_configures_once_per_transition() {
    let mut scheduler = DeliveryScheduler::new();
    assert!(!scheduler.configured());
    let a = scheduler.observe_device(false);
    assert!(!a.configure_bus && !a.check_timer);
    let a = scheduler.observe_device(true);
    assert!(a.configure_bus && a.check_timer);
    let a = scheduler.observe_device(true);
    assert!(!a.configure_bus && a.check_timer);
    let a = scheduler.observe_device(false);
    assert!(!a.configure_bus && !a.check_timer);
    let a = scheduler.observe_device(true);
    assert!(a.configure_bus);
}

#[test]
fn scheduler_delivers_only_when_configured_and_elapsed() {
    let mut scheduler = DeliveryScheduler::new();
    let mut queue = ReportQueue::new();
    queue.enqueue(key(0x04));
    queue.enqueue(key(0x05));
    assert_eq!(scheduler.deliver_from_queue(true, &mut queue), None);
    scheduler.observe_device(true);
    assert_eq!(scheduler.deliver_from_queue(false, &mut queue), None);
    assert_eq!(queue.len(), 2);
    let d = scheduler.deliver_from_queue(true, &mut queue).unwrap();
    assert_eq!(d.report, key(0x04));

    let mut ring = OverwriteQueue::new();
    assert_eq!(
        scheduler.deliver_from_ring(true, &mut ring).unwrap().report,
        WhyNoDeriveDeserializeManSadFaceHere::idle()
    );
    ring.push(key(0x06));
    assert_eq!(scheduler.deliver_from_ring(true, &mut ring).unwrap().report, key(0x06));
}
