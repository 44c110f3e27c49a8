use voice_chat::transport::{
    classify_read, FaultClass, IoFault, ReadOutcome, SendCursor, SendOutcome, SendStep,
};

#[test]
fn faults_fall_into_three_classes() {
    assert_eq!(IoFault::WouldBlock.classify(), FaultClass::Transient);
    assert_eq!(IoFault::Interrupted.classify(), FaultClass::Transient);
    assert_eq!(IoFault::TimedOut.classify(), FaultClass::Transient);
    assert_eq!(IoFault::ConnectionReset.classify(), FaultClass::Disconnected);
    assert_eq!(IoFault::ConnectionAborted.classify(), FaultClass::Disconnected);
    assert_eq!(IoFault::BrokenPipe.classify(), FaultClass::Disconnected);
    assert_eq!(IoFault::NotConnected.classify(), FaultClass::Disconnected);
    assert_eq!(IoFault::UnexpectedEof.classify(), FaultClass::Disconnected);
    assert_eq!(IoFault::WriteZero.classify(), FaultClass::Hard);
    assert_eq!(IoFault::Other.classify(), FaultClass::Hard);
}

#[test]
fn full_read_yields_the_whole_buffer() {
    assert_eq!(classify_read(Ok(4), vec![1, 2, 3, 4]), ReadOutcome::Data(vec![1, 2, 3, 4]));
}

#[test]
fn short_read_yields_the_bytes_that_arrived() {
    assert_eq!(classify_read(Ok(3), vec![1, 2, 3, 0, 0, 0, 0, 0]), ReadOutcome::Data(vec![1, 2, 3]));
    assert_eq!(classify_read(Ok(1), vec![9, 0]), ReadOutcome::Data(vec![9]));
}

#[test]
fn read_count_beyond_the_buffer_yields_the_buffer() {
    assert_eq!(classify_read(Ok(9), vec![1, 2]), ReadOutcome::Data(vec![1, 2]));
}

#[test]
fn zero_bytes_into_a_buffer_with_room_is_the_end_of_the_stream() {
    assert_eq!(classify_read(Ok(0), vec![0; 8]), ReadOutcome::Closed);
}

#[test]
fn zero_bytes_into_an_empty_buffer_is_an_empty_read() {
    assert_eq!(classify_read(Ok(0), Vec::new()), ReadOutcome::Data(Vec::new()));
}

#[test]
fn read_faults_map_to_outcomes() {
    assert_eq!(classify_read(Err(IoFault::WouldBlock), vec![0; 4]), ReadOutcome::WouldBlock);
    assert_eq!(classify_read(Err(IoFault::Interrupted), vec![0; 4]), ReadOutcome::WouldBlock);
    assert_eq!(classify_read(Err(IoFault::TimedOut), vec![0; 4]), ReadOutcome::WouldBlock);
    assert_eq!(classify_read(Err(IoFault::ConnectionReset), vec![0; 4]), ReadOutcome::Closed);
    assert_eq!(classify_read(Err(IoFault::BrokenPipe), vec![0; 4]), ReadOutcome::Closed);
    assert_eq!(classify_read(Err(IoFault::UnexpectedEof), vec![0; 4]), ReadOutcome::Closed);
    assert_eq!(classify_read(Err(IoFault::Other), vec![0; 4]), ReadOutcome::Failed);
    assert_eq!(classify_read(Err(IoFault::WriteZero), vec![0; 4]), ReadOutcome::Failed);
}

#[test]
fn empty_frame_needs_no_write() {
    let cursor = SendCursor::new(0, 3);
    assert_eq!(cursor.next_step(), SendStep::Finished(SendOutcome::Nothing));
}

#[test]
fn frame_written_in_one_call_is_complete() {
    let mut cursor = SendCursor::new(88200, 3);
    assert_eq!(cursor.next_step(), SendStep::Write { from: 0 });
    assert_eq!(cursor.record(Ok(88200)), SendStep::Finished(SendOutcome::Complete));
    assert_eq!(cursor, SendCursor { total: 88200, sent: 88200, retries: 3 });
}

#[test]
fn partial_writes_are_continued_not_taken_for_the_frame() {
    let mut cursor = SendCursor::new(10, 0);
    assert_eq!(cursor.record(Ok(4)), SendStep::Write { from: 4 });
    assert_eq!(cursor.record(Ok(1)), SendStep::Write { from: 5 });
    assert_eq!(cursor.record(Ok(4)), SendStep::Write { from: 9 });
    assert_eq!(cursor.record(Ok(1)), SendStep::Finished(SendOutcome::Complete));
    assert_eq!(cursor.sent, 10);
}

#[test]
fn write_count_beyond_the_frame_stops_at_its_end() {
    let mut cursor = SendCursor::new(10, 0);
    assert_eq!(cursor.record(Ok(usize::MAX)), SendStep::Finished(SendOutcome::Complete));
    assert_eq!(cursor.sent, 10);
}

#[test]
fn transient_faults_are_retried_while_retries_last() {
    let mut cursor = SendCursor::new(10, 2);
    assert_eq!(cursor.record(Ok(6)), SendStep::Write { from: 6 });
    assert_eq!(cursor.record(Err(IoFault::WouldBlock)), SendStep::Write { from: 6 });
    assert_eq!(cursor.record(Err(IoFault::Interrupted)), SendStep::Write { from: 6 });
    assert_eq!(cursor.retries, 0);
    assert_eq!(cursor.record(Err(IoFault::WouldBlock)), SendStep::Finished(SendOutcome::Abandoned));
    assert_eq!(cursor.sent, 6);
}

#[test]
fn write_that_takes_nothing_counts_as_a_retry() {
    let mut cursor = SendCursor::new(10, 1);
    assert_eq!(cursor.record(Ok(0)), SendStep::Write { from: 0 });
    assert_eq!(cursor.record(Ok(0)), SendStep::Finished(SendOutcome::Abandoned));
}

#[test]
fn disconnection_ends_the_write_as_closed() {
    for fault in [
        IoFault::ConnectionReset,
        IoFault::ConnectionAborted,
        IoFault::BrokenPipe,
        IoFault::NotConnected,
        IoFault::UnexpectedEof,
    ] {
        let mut cursor = SendCursor::new(10, 5);
        assert_eq!(cursor.record(Ok(3)), SendStep::Write { from: 3 });
        assert_eq!(cursor.record(Err(fault)), SendStep::Finished(SendOutcome::Closed));
    }
}

#[test]
fn hard_fault_ends_the_write_as_failed() {
    let mut cursor = SendCursor::new(10, 5);
    assert_eq!(cursor.record(Err(IoFault::Other)), SendStep::Finished(SendOutcome::Failed));
    let mut cursor = SendCursor::new(10, 5);
    assert_eq!(cursor.record(Err(IoFault::WriteZero)), SendStep::Finished(SendOutcome::Failed));
}

#[test]
fn writing_ends_within_the_budget() {
    let mut cursor = SendCursor::new(5, 3);
    let results = [Ok(1), Err(IoFault::WouldBlock), Ok(0), Ok(1), Err(IoFault::TimedOut), Ok(1), Ok(1), Ok(1)];
    let mut calls = 0;
    let mut step = cursor.next_step();
    for result in results {
        if let SendStep::Finished(_) = step {
            break;
        }
        step = cursor.record(result);
        calls += 1;
    }
    assert_eq!(step, SendStep::Finished(SendOutcome::Complete));
    assert_eq!(calls, 8);
    assert!(calls <= 5 + 3);
}
