use arcade_stream::command::{parse_key_arg, Command, CommandAction, EmuInputEvent, InputKind};
use arcade_stream::idle::IdleGate;
use arcade_stream::queue::{BoundedQueue, CHANNEL_BUF_SIZE};

fn command(cmd: &str, args: &[&str]) -> Command {
    Command { cmd: cmd.to_string(), args: args.iter().map(|s| s.to_string()).collect() }
}

#[test]
fn key_command_down() {
    assert_eq!(
        command("key", &["053d"]).action(),
        CommandAction::Input(EmuInputEvent { value: 53, kind: InputKind::INPUT_KEY_DOWN })
    );
}

#[test]
fn key_command_up() {
    assert_eq!(
        command("key", &["001u"]).action(),
        CommandAction::Input(EmuInputEvent { value: 1, kind: InputKind::INPUT_KEY_UP })
    );
}

#[test]
fn key_argument_edges() {
    assert_eq!(parse_key_arg("255d"), Some(EmuInputEvent { value: 255, kind: InputKind::INPUT_KEY_DOWN }));
    assert_eq!(parse_key_arg("000u"), Some(EmuInputEvent { value: 0, kind: InputKind::INPUT_KEY_UP }));
    assert_eq!(parse_key_arg("256d"), None);
    assert_eq!(parse_key_arg("53d"), None);
    assert_eq!(parse_key_arg("053x"), None);
    assert_eq!(parse_key_arg("05ad"), None);
    assert_eq!(parse_key_arg("053dd"), None);
    assert_eq!(parse_key_arg(""), None);
}

#[test]
fn malformed_key_commands_give_no_event() {
    assert_eq!(command("key", &[]).action(), CommandAction::Malformed);
    assert_eq!(command("key", &["999d"]).action(), CommandAction::Malformed);
    assert_eq!(command("ctrl", &[]).action(), CommandAction::Malformed);
}

#[test]
fn pause_then_resume() {
    assert_eq!(command("ctrl", &["pause"]).action(), CommandAction::Pause);
    assert_eq!(command("ctrl", &["resume"]).action(), CommandAction::Resume);
    assert_eq!(command("ctrl", &["stop"]).action(), CommandAction::UnknownControl);
}

#[test]
fn unknown_command_is_ignored() {
    assert_eq!(command("reboot", &["now"]).action(), CommandAction::UnknownCommand);
    assert_eq!(command("", &[]).action(), CommandAction::UnknownCommand);
}

#[test]
fn idle_after_three_silent_seconds_with_two_second_timeout() {
    let mut gate = IdleGate::new(2, 10_000_000);
    assert!(gate.admits_capture(11_000_000));
    assert!(gate.admits_capture(12_000_000));
    assert!(!gate.admits_capture(13_000_000));
    assert!(gate.is_idle(13_000_000));
    // a key command re-enables ingress on the next capture tick
    gate.record_input(13_000_000);
    assert!(gate.admits_capture(13_033_333));
}

#[test]
fn one_second_timeout_quiesced_for_two_seconds() {
    let mut gate = IdleGate::new(1, 0);
    assert!(gate.is_idle(2_000_000));
    gate.record_input(2_000_000);
    assert!(!gate.is_idle(2_000_000 + 1_000_000));
    assert!(gate.is_idle(2_000_000 + 1_000_001));
}

#[test]
fn zero_timeout_disables_the_gate() {
    let gate = IdleGate::new(0, 0);
    assert!(!gate.is_idle(u64::MAX));
    assert!(gate.admits_capture_now());
    let mut started = IdleGate::start(5);
    assert!(started.admits_capture_now());
    started.record_input_now();
    assert_eq!(started.threshold_secs, 5);
}

#[test]
fn queue_keeps_order() {
    let mut q: BoundedQueue<u64> = BoundedQueue::with_default_capacity();
    for tag in 0..40u64 {
        assert!(q.try_push(tag).is_ok());
    }
    let mut seen = Vec::new();
    while let Some(tag) = q.pop() {
        seen.push(tag);
    }
    assert_eq!(seen, (0..40u64).collect::<Vec<_>>());
}

#[test]
fn full_queue_hands_the_item_back() {
    let mut q: BoundedQueue<u32> = BoundedQueue::with_default_capacity();
    for i in 0..CHANNEL_BUF_SIZE as u32 {
        assert!(q.try_push(i).is_ok());
    }
    assert!(q.is_full());
    assert_eq!(q.try_push(999), Err(999));
    assert_eq!(q.len(), CHANNEL_BUF_SIZE);
    assert_eq!(q.pop(), Some(0));
    assert!(q.try_push(64).is_ok());
    let mut small: BoundedQueue<u8> = BoundedQueue::new(0);
    assert_eq!(small.try_push(1), Err(1));
    assert!(small.is_empty());
    assert_eq!(small.pop(), None);
}

#[test]
fn key_command_counts_as_input_and_ctrl_does_not() {
    let mut gate = IdleGate::new(2, 1_000);
    assert_eq!(command("ctrl", &["pause"]).dispatch(&mut gate, 9_000_000), CommandAction::Pause);
    assert_eq!(gate.last_input, 1_000);
    assert!(gate.is_idle(9_000_000));
    let action = command("key", &["100d"]).dispatch(&mut gate, 9_000_000);
    assert_eq!(action, CommandAction::Input(EmuInputEvent { value: 100, kind: InputKind::INPUT_KEY_DOWN }));
    assert_eq!(gate.last_input, 9_000_000);
    assert!(!gate.is_idle(9_033_333));
    assert_eq!(command("key", &["x"]).dispatch(&mut gate, 20_000_000), CommandAction::Malformed);
    assert_eq!(gate.last_input, 9_000_000);
    assert_eq!(gate.threshold_secs, 2);
}
