use edp::pid_allocator::PidAllocator;

const MAX_PROCESSES_PER_NODE: u32 = 1_048_576;

//
// Sequential Allocation Tests
//

#[test]
fn test_allocate_sequential() {
    let mut allocator = PidAllocator::new("test@localhost", 1);

    let pid1 = allocator.allocate().unwrap();
    assert_eq!(pid1.id, 1);
    assert_eq!(pid1.serial, 0);
    assert_eq!(pid1.creation, 1);
    assert_eq!(pid1.node.as_str(), "test@localhost");

    let pid2 = allocator.allocate().unwrap();
    assert_eq!(pid2.id, 2);
    assert_eq!(pid2.serial, 0);
    assert_eq!(pid2.creation, 1);
}

#[test]
fn test_allocate_wraparound() {
    let mut allocator = PidAllocator::new("test@localhost", 1);

    *allocator.next_id_test_only() = MAX_PROCESSES_PER_NODE - 1;

    let pid1 = allocator.allocate().unwrap();
    assert_eq!(pid1.id, MAX_PROCESSES_PER_NODE - 1);
    assert_eq!(pid1.serial, 0);

    let pid2 = allocator.allocate().unwrap();
    assert_eq!(pid2.id, MAX_PROCESSES_PER_NODE);

    let pid3 = allocator.allocate().unwrap();
    assert_eq!(pid3.id, 1);
    assert_eq!(pid3.serial, 1);
}

//
// Concurrent Allocation Tests
//

#[test]
fn test_wraparound_increments_serial() {
    let mut allocator = PidAllocator::new("test@localhost", 1);

    *allocator.next_id_test_only() = 1_048_575;

    let pid1 = allocator.allocate().unwrap();
    assert_eq!(pid1.id, 1_048_575);
    assert_eq!(pid1.serial, 0);

    let pid2 = allocator.allocate().unwrap();
    assert_eq!(pid2.id, 1_048_576);
    assert_eq!(pid2.serial, 1);

    let pid3 = allocator.allocate().unwrap();
    assert_eq!(pid3.id, 1);
    assert_eq!(pid3.serial, 1);
}

#[test]
fn test_pid_wraps_at_max_processes() {
    let mut allocator = PidAllocator::new("node@host", 1);

    let max_id = 1_048_576u32;
    *allocator.next_id_test_only() = max_id - 1;

    let pid1 = allocator.allocate().unwrap();
    assert_eq!(pid1.id, max_id - 1);
    assert_eq!(pid1.serial, 0);

    let pid2 = allocator.allocate().unwrap();
    assert_eq!(pid2.id, max_id, "Allocates max_id with incremented serial");
    assert_eq!(
        pid2.serial, 1,
        "Serial increments when id >= MAX_PROCESSES_PER_NODE"
    );

    let pid3 = allocator.allocate().unwrap();
    assert_eq!(pid3.id, 1, "PID wraps to 1 after max_id");
    assert_eq!(pid3.serial, 1, "Serial remains at 1 after wrap");
}

#[test]
fn test_pid_does_not_allocate_zero() {
    let mut allocator = PidAllocator::new("node@host", 1);

    for _ in 0..10 {
        let pid = allocator.allocate().unwrap();
        assert_ne!(pid.id, 0, "PID ID should never be 0");
    }
}

#[test]
fn test_pid_serial_increments_on_each_wrap() {
    let mut allocator = PidAllocator::new("node@host", 1);

    let max_id = 1_048_576u32;
    *allocator.next_id_test_only() = max_id;

    let pid1 = allocator.allocate().unwrap();
    assert_eq!(pid1.id, max_id, "First wrap allocates max_id");
    assert_eq!(pid1.serial, 1, "Serial increments on first wrap");

    *allocator.next_id_test_only() = max_id;

    let pid2 = allocator.allocate().unwrap();
    assert_eq!(pid2.id, max_id, "Second wrap allocates max_id again");
    assert_eq!(pid2.serial, 2, "Serial increments on second wrap");
}

#[test]
fn test_pid_creation_value_persists() {
    let mut allocator = PidAllocator::new("node@host", 42);

    for _ in 0..5 {
        let pid = allocator.allocate().unwrap();
        assert_eq!(pid.creation, 42);
    }
}

#[test]
fn test_pid_set_creation_updates_value() {
    let mut allocator = PidAllocator::new("node@host", 1);

    let pid1 = allocator.allocate().unwrap();
    assert_eq!(pid1.creation, 1);

    allocator.set_creation(5);

    let pid2 = allocator.allocate().unwrap();
    assert_eq!(pid2.creation, 5);
}

#[test]
fn test_pid_serial_overflow_wraps_correctly() {
    let mut allocator = PidAllocator::new("node@host", 1);

    for i in 0..5 {
        *allocator.next_id_test_only() = MAX_PROCESSES_PER_NODE;

        let serial_value = u32::MAX as u64 - 2 + i;
        *allocator.next_serial_test_only() = serial_value;

        let pid = allocator.allocate().unwrap();

        let expected_serial = ((serial_value + 1) % (u32::MAX as u64 + 1)) as u32;
        assert_eq!(
            pid.serial, expected_serial,
            "Serial should wrap at u32::MAX boundary (iteration {})",
            i
        );
    }
}
