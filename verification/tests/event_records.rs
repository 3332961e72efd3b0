use epoll::flags::{EDGE_TRIGGERED, HANG_UP, ONE_SHOT, READ, WRITE};
use epoll::{Event, Events, Interest};

#[test]
fn blank_record_is_all_zero() {
    let blank = Event::blank();
    assert_eq!(blank.config, 0);
    assert_eq!(blank.data, 0);
    assert_eq!(blank.fd(), 0);
    assert!(blank.events().is_empty());
    assert_eq!(blank, Event { config: 0, data: 0 });
}

#[test]
fn new_record_carries_interest_and_payload() {
    let interest = Interest::empty().readable().edge_triggered();
    let event = Event::new(interest, 0xdead_beef_0000_002a);
    assert_eq!(event.config, 0x8000_0001);
    assert_eq!(event.config, interest.bits());
    assert_eq!(event.data, 0xdead_beef_0000_002a);
    let event = Event::new(Interest::empty(), u64::MAX);
    assert_eq!(event.config, 0);
    assert_eq!(event.data, u64::MAX);
}

#[test]
fn payload_round_trips_any_tag() {
    for tag in [0u64, 1, 42, 0xffff_ffff, 0x1_0000_0000, u64::MAX, 0x8000_0000_0000_0000] {
        assert_eq!(Event::new(Interest::empty().readable(), tag).data, tag);
    }
}

#[test]
fn fd_reads_the_payload_as_a_descriptor() {
    assert_eq!(Event { config: 0, data: 7 }.fd(), 7);
    assert_eq!(Event { config: 0, data: 0x7fff_ffff }.fd(), i32::MAX);
    assert_eq!(Event { config: 0, data: 0xffff_ffff_ffff_ffff }.fd(), -1);
    assert_eq!(Event { config: 0, data: 0x0000_0000_ffff_ffff }.fd(), -1);
    assert_eq!(Event { config: 0, data: 0x0000_0001_0000_0007 }.fd(), 7);
    assert_eq!(Event { config: 0, data: 0x0000_0000_8000_0000 }.fd(), i32::MIN);
}

#[test]
fn descriptor_round_trips_through_the_payload() {
    for fd in [0, 1, 2, 7, 1023, 65_536, i32::MAX, -1, -2, i32::MIN] {
        let event = Event::new(Interest::empty(), fd as u64);
        assert_eq!(event.fd(), fd);
    }
}

#[test]
fn events_of_a_report() {
    let event = Event { config: READ | HANG_UP, data: 3 };
    let events = event.events();
    assert!(events.is_readable());
    assert!(events.is_hang_up());
    assert!(!events.is_writable());
    assert_eq!(events.bits(), 0x11);
    assert_eq!(events, Events::from_bits_truncate(0x11));
}

#[test]
fn events_ignore_control_flags_and_unknown_bits() {
    let event = Event { config: READ | WRITE | ONE_SHOT | EDGE_TRIGGERED | 0x40, data: 0 };
    assert_eq!(event.events().bits(), READ | WRITE);
    let event = Event { config: u32::MAX, data: 0 };
    assert_eq!(event.events().bits(), 0x201f);
}

#[test]
fn events_of_a_registration_are_its_conditions() {
    let interest = Interest::empty().readable().closed().one_shot().exclusive().wake_up();
    let events = Event::new(interest, 9).events();
    assert!(events.is_readable());
    assert!(events.is_read_closed());
    assert!(!events.is_writable());
    assert!(!events.is_urgent());
    assert!(!events.is_error());
    assert!(!events.is_hang_up());
    assert_eq!(events.bits(), 0x2001);
}

#[test]
fn records_compare_by_both_fields() {
    assert_eq!(Event { config: 1, data: 2 }, Event { config: 1, data: 2 });
    assert_ne!(Event { config: 1, data: 2 }, Event { config: 1, data: 3 });
    assert_ne!(Event { config: 1, data: 2 }, Event { config: 4, data: 2 });
    let event = Event { config: 5, data: 6 };
    let copy = event;
    assert_eq!(copy, event);
}
