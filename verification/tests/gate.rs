use coord_core::gate::ReadWriteLock;

/// Five readers and two writers contend for the lock: every writer's active
/// interval is disjoint from every reader's, while the readers overlap
/// freely. The calls replay one interleaving the concurrent launch can
/// produce, one atomic step at a time, checking at each instant that no
/// reader and writer are active together.
#[test]
fn scenario_readers_and_writers_disjoint() {
    let mut gate = ReadWriteLock::new();

    // The first writer wins the race and writes alone.
    gate.begin_write();
    assert!(gate.writer_is_active());
    assert_eq!(gate.reader_count(), 0);
    assert!(!gate.read_enabled());
    assert!(!gate.write_enabled());
    gate.end_write();

    // The five readers pile in; only the first takes the writer token.
    assert!(gate.read_enabled());
    assert!(gate.begin_read());
    for _ in 0..4 {
        assert!(!gate.begin_read());
    }
    assert_eq!(gate.reader_count(), 5);
    assert!(!gate.writer_is_active());

    // The second writer must wait while any reader is active.
    assert!(!gate.write_enabled());

    // Readers finish in some order; the last one re-admits writers.
    for expected_last in [false, false, false, false, true] {
        assert!(!gate.writer_is_active());
        assert_eq!(gate.end_read(), expected_last);
    }
    assert_eq!(gate.reader_count(), 0);

    // Now the second writer gets its disjoint interval.
    assert!(gate.write_enabled());
    gate.begin_write();
    assert!(gate.writer_is_active());
    assert_eq!(gate.reader_count(), 0);
    gate.end_write();
    assert!(!gate.writer_is_active());
}

/// Readers never block one another: while a reader is active, further reads
/// stay enabled.
#[test]
fn readers_overlap_freely() {
    let mut gate = ReadWriteLock::new();
    assert!(gate.begin_read());
    assert!(gate.read_enabled());
    assert!(!gate.begin_read());
    assert!(gate.read_enabled());
    assert_eq!(gate.reader_count(), 2);
    gate.end_read();
    gate.end_read();
}

/// An active writer shuts out readers and writers alike until it ends.
#[test]
fn writer_excludes_all() {
    let mut gate = ReadWriteLock::new();
    gate.begin_write();
    assert!(!gate.read_enabled());
    assert!(!gate.write_enabled());
    gate.end_write();
    assert!(gate.read_enabled());
    assert!(gate.write_enabled());
}

/// The first reader in and the last reader out are the ones that hold the
/// writer token on behalf of all readers.
#[test]
fn first_and_last_reader_carry_the_token() {
    let mut gate = ReadWriteLock::new();
    assert!(gate.begin_read());
    assert!(!gate.begin_read());
    assert!(!gate.begin_read());
    assert!(!gate.end_read());
    assert!(!gate.end_read());
    assert!(!gate.write_enabled());
    assert!(gate.end_read());
    assert!(gate.write_enabled());
}
