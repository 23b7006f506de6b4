use serial_bridge::reader::{ReadOutcome, ReaderAction, ReaderState, READ_CHUNK};

/// Runs the reader's decisions over a scripted transport: each pass finds the
/// closing flag as given and, if it reads, gets the given outcome. Returns
/// the callbacks fired and the number of reads made.
fn drive(script: &[(bool, ReadOutcome)]) -> (Vec<ReaderAction>, usize) {
    let mut state = ReaderState::start();
    let mut fired = Vec::new();
    let mut reads = 0;
    for &(closing, outcome) in script {
        if !state.poll(closing) {
            break;
        }
        reads += 1;
        match state.handle_read(outcome) {
            ReaderAction::Continue => {}
            a => fired.push(a),
        }
    }
    (fired, reads)
}

#[test]
fn chunk_size_is_1024() {
    assert_eq!(READ_CHUNK, 1024);
}

#[test]
fn closing_flag_before_first_read_fires_nothing() {
    let (fired, reads) = drive(&[(true, ReadOutcome::Received(5)), (false, ReadOutcome::Failed)]);
    assert!(fired.is_empty());
    assert_eq!(reads, 0);
}

#[test]
fn three_bytes_once_then_timeouts() {
    let transport: Vec<Vec<u8>> = vec![vec![0x01, 0x02, 0x03]];
    let mut script = vec![(false, ReadOutcome::Received(3))];
    for _ in 0..100 {
        script.push((false, ReadOutcome::TimedOut));
    }
    let (fired, reads) = drive(&script);
    assert_eq!(fired, vec![ReaderAction::Deliver(3)]);
    assert_eq!(reads, 101);
    match fired[0] {
        ReaderAction::Deliver(n) => assert_eq!(&transport[0][..n], &[0x01, 0x02, 0x03]),
        _ => unreachable!(),
    }
}

#[test]
fn timeouts_then_data_still_delivered() {
    let mut script = Vec::new();
    for _ in 0..7 {
        script.push((false, ReadOutcome::TimedOut));
    }
    script.push((false, ReadOutcome::Received(12)));
    let (fired, reads) = drive(&script);
    assert_eq!(fired, vec![ReaderAction::Deliver(12)]);
    assert_eq!(reads, 8);
}

#[test]
fn pipe_closure_notifies_once_and_stops() {
    let script = [
        (false, ReadOutcome::Received(2)),
        (false, ReadOutcome::PipeClosed),
        (false, ReadOutcome::Received(4)),
        (false, ReadOutcome::PipeClosed),
    ];
    let (fired, reads) = drive(&script);
    assert_eq!(fired, vec![ReaderAction::Deliver(2), ReaderAction::NotifyDisconnect]);
    assert_eq!(reads, 2);
}

#[test]
fn other_errors_notify_and_continue() {
    let script = [
        (false, ReadOutcome::Failed),
        (false, ReadOutcome::Failed),
        (false, ReadOutcome::Received(1)),
        (true, ReadOutcome::Received(9)),
    ];
    let (fired, reads) = drive(&script);
    assert_eq!(
        fired,
        vec![
            ReaderAction::NotifyDisconnect,
            ReaderAction::NotifyDisconnect,
            ReaderAction::Deliver(1)
        ]
    );
    assert_eq!(reads, 3);
}

#[test]
fn empty_read_fires_nothing() {
    let mut state = ReaderState::start();
    assert!(state.poll(false));
    assert_eq!(state.handle_read(ReadOutcome::Received(0)), ReaderAction::Continue);
    assert!(state.is_running());
}

#[test]
fn handle_read_per_outcome() {
    let mut state = ReaderState::start();
    assert_eq!(state.handle_read(ReadOutcome::TimedOut), ReaderAction::Continue);
    assert_eq!(state, ReaderState::Running);
    assert_eq!(state.handle_read(ReadOutcome::Failed), ReaderAction::NotifyDisconnect);
    assert_eq!(state, ReaderState::Running);
    assert_eq!(state.handle_read(ReadOutcome::Received(1024)), ReaderAction::Deliver(1024));
    assert_eq!(state.handle_read(ReadOutcome::PipeClosed), ReaderAction::NotifyDisconnect);
    assert_eq!(state, ReaderState::Terminated);
}

#[test]
fn terminated_reader_never_reads_again() {
    let mut state = ReaderState::start();
    assert!(!state.poll(true));
    assert!(!state.is_running());
    assert!(!state.poll(false));
    assert_eq!(state, ReaderState::Terminated);
}
