use serial_flash::reader::LineAccumulator;
use serial_flash::reader::MonitorConfig;
use serial_flash::reader::ReadEvent;
use serial_flash::reader::ReaderAction;
use serial_flash::reader::open_failure_action;
use serial_flash::reader::reader_step;
use serial_flash::reader::start_monitor;
use serial_flash::reader::BAUD_RATE;
use serial_flash::reader::EMIT_PAUSE_MS;
use serial_flash::reader::IDLE_PAUSE_MS;
use serial_flash::reader::READ_TIMEOUT_MS;
use serial_flash::registry::PortRegistry;

#[test]
fn lines_in_one_read_are_emitted_in_order() {
    let mut acc = LineAccumulator::new();
    let msgs = acc.process_chunk("first\nsecond\nthird\n");
    assert_eq!(msgs, vec!["first".to_string(), "second".to_string(), "third".to_string()]);
}

#[test]
fn line_split_across_two_reads_is_one_message() {
    let mut acc = LineAccumulator::new();
    let msgs = acc.process_chunk("hel");
    assert_eq!(msgs, Vec::<String>::new());
    let msgs = acc.process_chunk("lo\nworld\n");
    assert_eq!(msgs, vec!["hello".to_string(), "world".to_string()]);
}

#[test]
fn chunking_does_not_change_what_is_emitted() {
    let stream = "alpha\r\nbeta\ngam";
    let mut one = LineAccumulator::new();
    let all_at_once = one.process_chunk(stream);
    let mut split = LineAccumulator::new();
    let mut piecewise: Vec<String> = Vec::new();
    for piece in ["al", "pha\r", "\nbe", "ta\ngam"] {
        piecewise.extend(split.process_chunk(piece));
    }
    assert_eq!(all_at_once, piecewise);
    assert_eq!(all_at_once, vec!["alpha".to_string(), "beta".to_string()]);
}

#[test]
fn trailing_whitespace_is_trimmed_leading_kept() {
    let mut acc = LineAccumulator::new();
    let msgs = acc.process_chunk("  value \t\r\n");
    assert_eq!(msgs, vec!["  value".to_string()]);
}

#[test]
fn unicode_whitespace_is_trimmed_like_std() {
    let mut acc = LineAccumulator::new();
    // no-break space, em space and vertical tab before the newline are
    // whitespace; the leading no-break space is kept
    let msgs = acc.process_chunk("\u{A0}value\u{A0}\u{2003}\u{B}\r\n");
    assert_eq!(msgs, vec!["\u{A0}value".to_string()]);
    assert_eq!(msgs[0], "\u{A0}value\u{A0}\u{2003}\u{B}\r".trim_end());
}

#[test]
fn empty_line_is_emitted_as_empty_message() {
    let mut acc = LineAccumulator::new();
    let msgs = acc.process_chunk("\n");
    assert_eq!(msgs, vec![String::new()]);
}

#[test]
fn oversized_buffer_is_discarded_without_garbage_messages() {
    let mut acc = LineAccumulator::new();
    let noise = "a".repeat(4500);
    let msgs = acc.process_chunk(&noise);
    assert_eq!(msgs, Vec::<String>::new());
    // the discarded content is gone entirely: a newline now ends only
    // what arrived after the overflow
    let msgs = acc.process_chunk("fresh\n");
    assert_eq!(msgs, vec!["fresh".to_string()]);
}

#[test]
fn overflow_discards_even_complete_lines_in_the_oversized_whole() {
    let mut acc = LineAccumulator::new();
    let mut chunk = String::from("early\n");
    chunk.push_str(&"b".repeat(4100));
    let msgs = acc.process_chunk(&chunk);
    assert_eq!(msgs, Vec::<String>::new());
}

#[test]
fn buffer_at_exactly_the_ceiling_is_kept() {
    let mut acc = LineAccumulator::new();
    let msgs = acc.process_chunk(&"c".repeat(4000));
    assert_eq!(msgs, Vec::<String>::new());
    let msgs = acc.process_chunk("\n");
    // 4001 chars total now exceeds the ceiling: discarded
    assert_eq!(msgs, Vec::<String>::new());
}

#[test]
fn reader_step_paces_each_emission() {
    let mut acc = LineAccumulator::new();
    let acts = reader_step(&mut acc, ReadEvent::Data(b"one\ntwo\nthree\n".to_vec()));
    assert_eq!(acts.len(), 6);
    let mut emitted: Vec<String> = Vec::new();
    for (idx, act) in acts.iter().enumerate() {
        if idx % 2 == 0 {
            match act {
                ReaderAction::Emit(m) => emitted.push(m.clone()),
                _ => panic!("expected an emission at even positions"),
            }
        } else {
            match act {
                ReaderAction::Pause(ms) => assert_eq!(*ms, EMIT_PAUSE_MS),
                _ => panic!("expected a pause after each emission"),
            }
        }
    }
    assert_eq!(emitted, vec!["one".to_string(), "two".to_string(), "three".to_string()]);
}

#[test]
fn invalid_bytes_are_replaced_not_fatal() {
    let mut acc = LineAccumulator::new();
    let acts = reader_step(&mut acc, ReadEvent::Data(vec![0xFF, 0xFE, b'o', b'k', b'\n']));
    assert_eq!(acts.len(), 2);
    match &acts[0] {
        ReaderAction::Emit(m) => assert_eq!(m, "\u{FFFD}\u{FFFD}ok"),
        _ => panic!("expected the decoded line to be emitted"),
    }
}

#[test]
fn reader_step_idle_just_pauses() {
    let mut acc = LineAccumulator::new();
    let acts = reader_step(&mut acc, ReadEvent::Idle);
    assert_eq!(acts.len(), 1);
    match &acts[0] {
        ReaderAction::Pause(ms) => assert_eq!(*ms, IDLE_PAUSE_MS),
        _ => panic!("expected a pause on an idle read"),
    }
}

#[test]
fn stop_then_start_succeeds_and_open_failure_names_the_port() {
    let mut registry = PortRegistry::new();
    registry.request_stop();
    let cfg: MonitorConfig = start_monitor(&mut registry, "/dev/ttyUSB7".to_string());
    // start succeeds immediately: the session is active and configured
    assert!(registry.is_active());
    assert_eq!(cfg.port, "/dev/ttyUSB7");
    assert_eq!(cfg.baud, BAUD_RATE);
    assert_eq!(cfg.read_timeout_ms, READ_TIMEOUT_MS);
    // with no board connected the open fails and the single error
    // notice references the requested port
    match open_failure_action(&cfg.port) {
        ReaderAction::EmitError(m) => {
            assert_eq!(m, "could not open serial port /dev/ttyUSB7");
        },
        _ => panic!("expected an error emission"),
    }
}

#[test]
fn registry_stop_is_idempotent() {
    let mut registry = PortRegistry::new();
    assert!(!registry.is_active());
    registry.activate();
    assert!(registry.is_active());
    registry.request_stop();
    registry.request_stop();
    assert!(!registry.is_active());
}
