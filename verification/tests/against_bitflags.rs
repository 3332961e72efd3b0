use bitflags::Flags;
use epoll::{Events, Interest};

/// An interest set as the `bitflags` crate keeps one, with the platform's
/// constants as its flags.
#[derive(Clone, Copy, Debug, PartialEq, Eq)]
struct PlatformInterest(u32);

impl Flags for PlatformInterest {
    const FLAGS: &'static [bitflags::Flag<PlatformInterest>] = &[
        bitflags::Flag::new("READ", PlatformInterest(libc::EPOLLIN as u32)),
        bitflags::Flag::new("WRITE", PlatformInterest(libc::EPOLLOUT as u32)),
        bitflags::Flag::new("URGENT", PlatformInterest(libc::EPOLLPRI as u32)),
        bitflags::Flag::new("ERROR", PlatformInterest(libc::EPOLLERR as u32)),
        bitflags::Flag::new("HANG_UP", PlatformInterest(libc::EPOLLHUP as u32)),
        bitflags::Flag::new("CLOSED", PlatformInterest(libc::EPOLLRDHUP as u32)),
        bitflags::Flag::new("EDGE_TRIGGERED", PlatformInterest(libc::EPOLLET as u32)),
        bitflags::Flag::new("ONE_SHOT", PlatformInterest(libc::EPOLLONESHOT as u32)),
        bitflags::Flag::new("EXCLUSIVE", PlatformInterest(libc::EPOLLEXCLUSIVE as u32)),
        bitflags::Flag::new("WAKE_UP", PlatformInterest(libc::EPOLLWAKEUP as u32)),
    ];

    type Bits = u32;

    fn bits(&self) -> u32 {
        self.0
    }

    fn from_bits_retain(bits: u32) -> PlatformInterest {
        PlatformInterest(bits)
    }
}

/// A result set as the `bitflags` crate keeps one.
#[derive(Clone, Copy, Debug, PartialEq, Eq)]
struct PlatformEvents(u32);

impl Flags for PlatformEvents {
    const FLAGS: &'static [bitflags::Flag<PlatformEvents>] = &[
        bitflags::Flag::new("READABLE", PlatformEvents(libc::EPOLLIN as u32)),
        bitflags::Flag::new("WRITABLE", PlatformEvents(libc::EPOLLOUT as u32)),
        bitflags::Flag::new("URGENT", PlatformEvents(libc::EPOLLPRI as u32)),
        bitflags::Flag::new("ERROR", PlatformEvents(libc::EPOLLERR as u32)),
        bitflags::Flag::new("HANG_UP", PlatformEvents(libc::EPOLLHUP as u32)),
        bitflags::Flag::new("READ_CLOSED", PlatformEvents(libc::EPOLLRDHUP as u32)),
    ];

    type Bits = u32;

    fn bits(&self) -> u32 {
        self.0
    }

    fn from_bits_retain(bits: u32) -> PlatformEvents {
        PlatformEvents(bits)
    }
}

/// Every combination of the ten flag bits, each also with unknown bits set.
fn masks() -> Vec<u32> {
    let bit = [
        0x1u32,
        0x2,
        0x4,
        0x8,
        0x10,
        0x2000,
        0x1000_0000,
        0x2000_0000,
        0x4000_0000,
        0x8000_0000,
    ];
    let mut masks = Vec::new();
    for choice in 0u32..1024 {
        let mut mask = 0;
        for (index, value) in bit.iter().enumerate() {
            if choice & (1 << index) != 0 {
                mask |= value;
            }
        }
        masks.push(mask);
        masks.push(mask | 0x0fff_dfe0);
        masks.push(mask | 0x0000_0400);
    }
    masks
}

/// A smaller family for the tests that pair masks up.
fn few_masks() -> Vec<u32> {
    masks().into_iter().step_by(37).collect()
}

#[test]
fn interest_truncates_as_bitflags_does() {
    assert_eq!(PlatformInterest::all().bits(), epoll::flags::INTEREST_ALL);
    assert_eq!(PlatformInterest::empty().bits(), Interest::empty().bits());
    for bits in masks() {
        let expected = PlatformInterest::from_bits_truncate(bits);
        let interest = Interest::from_bits_truncate(bits);
        assert_eq!(interest.bits(), expected.bits());
        assert_eq!(interest.is_empty(), expected.is_empty());
    }
}

#[test]
fn events_truncate_as_bitflags_does() {
    assert_eq!(PlatformEvents::all().bits(), epoll::flags::EVENTS_ALL);
    assert_eq!(PlatformEvents::empty().bits(), Events::empty().bits());
    for bits in masks() {
        let expected = PlatformEvents::from_bits_truncate(bits);
        let events = Events::from_bits_truncate(bits);
        assert_eq!(events.bits(), expected.bits());
        assert_eq!(events.is_empty(), expected.is_empty());
    }
}

#[test]
fn interest_operations_agree_with_bitflags() {
    let masks = few_masks();
    for &x in &masks {
        for &y in &masks {
            let a = Interest::from_bits_truncate(x);
            let b = Interest::from_bits_truncate(y);
            let expected_a = PlatformInterest::from_bits_truncate(x);
            let expected_b = PlatformInterest::from_bits_truncate(y);
            assert_eq!(a.union(b).bits(), expected_a.union(expected_b).bits());
            assert_eq!(a.contains(b), expected_a.contains(expected_b));
            assert_eq!(a.intersects(b), expected_a.intersects(expected_b));
        }
    }
}

#[test]
fn events_operations_agree_with_bitflags() {
    let masks = few_masks();
    for &x in &masks {
        for &y in &masks {
            let a = Events::from_bits_truncate(x);
            let b = Events::from_bits_truncate(y);
            let expected_a = PlatformEvents::from_bits_truncate(x);
            let expected_b = PlatformEvents::from_bits_truncate(y);
            assert_eq!(a.union(b).bits(), expected_a.union(expected_b).bits());
            assert_eq!(a.contains(b), expected_a.contains(expected_b));
            assert_eq!(a.intersects(b), expected_a.intersects(expected_b));
        }
    }
}

#[test]
fn builders_agree_with_bitflags_insert() {
    let named: [(fn(Interest) -> Interest, &str); 10] = [
        (Interest::readable, "READ"),
        (Interest::writable, "WRITE"),
        (Interest::urgent, "URGENT"),
        (Interest::error, "ERROR"),
        (Interest::hang_up, "HANG_UP"),
        (Interest::closed, "CLOSED"),
        (Interest::edge_triggered, "EDGE_TRIGGERED"),
        (Interest::one_shot, "ONE_SHOT"),
        (Interest::exclusive, "EXCLUSIVE"),
        (Interest::wake_up, "WAKE_UP"),
    ];
    for (builder, name) in named {
        let flag = PlatformInterest::from_name(name).unwrap();
        for bits in few_masks() {
            let mut expected = PlatformInterest::from_bits_truncate(bits);
            expected.insert(flag);
            assert_eq!(builder(Interest::from_bits_truncate(bits)).bits(), expected.bits());
        }
    }
}

#[test]
fn predicates_agree_with_bitflags_contains() {
    let named: [(fn(Events) -> bool, &str); 6] = [
        (Events::is_readable, "READABLE"),
        (Events::is_writable, "WRITABLE"),
        (Events::is_urgent, "URGENT"),
        (Events::is_error, "ERROR"),
        (Events::is_hang_up, "HANG_UP"),
        (Events::is_read_closed, "READ_CLOSED"),
    ];
    for (predicate, name) in named {
        let flag = PlatformEvents::from_name(name).unwrap();
        for bits in masks() {
            let expected = PlatformEvents::from_bits_truncate(bits);
            assert_eq!(predicate(Events::from_bits_truncate(bits)), expected.contains(flag));
        }
    }
    let closed = PlatformEvents::from_name("HANG_UP")
        .unwrap()
        .union(PlatformEvents::from_name("READ_CLOSED").unwrap());
    for bits in masks() {
        let expected = PlatformEvents::from_bits_truncate(bits);
        assert_eq!(Events::from_bits_truncate(bits).is_closed(), expected.intersects(closed));
    }
}
