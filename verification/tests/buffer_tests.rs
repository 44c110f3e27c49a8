use std::sync::Mutex;
use voice_chat::buffer::{try_append, try_fill, CaptureBuffer, PlaybackBuffer};

#[test]
fn capture_buffer_starts_empty() {
    let mut buffer = CaptureBuffer::new(4);
    assert_eq!(buffer.len(), 0);
    assert_eq!(buffer.take_and_clear(), None);
}

#[test]
fn capture_buffer_grows_within_the_window() {
    let mut buffer = CaptureBuffer::new(8);
    assert_eq!(buffer.append(&[1, 2, 3]), 3);
    assert_eq!(buffer.append(&[4, 5]), 2);
    assert_eq!(buffer.len(), 5);
    assert_eq!(buffer.take_and_clear(), Some(vec![1, 2, 3, 4, 5]));
}

#[test]
fn capture_buffer_drops_what_exceeds_the_window() {
    let mut buffer = CaptureBuffer::new(4);
    assert_eq!(buffer.append(&[1, 2, 3]), 3);
    assert_eq!(buffer.append(&[4, 5, 6]), 1);
    assert_eq!(buffer.append(&[7]), 0);
    assert_eq!(buffer.len(), 4);
    assert_eq!(buffer.take_and_clear(), Some(vec![1, 2, 3, 4]));
}

#[test]
fn capture_buffer_without_room_takes_nothing() {
    let mut buffer = CaptureBuffer::new(0);
    assert_eq!(buffer.append(&[1, 2]), 0);
    assert_eq!(buffer.take_and_clear(), None);
}

#[test]
fn take_and_clear_empties_the_buffer() {
    let mut buffer = CaptureBuffer::new(4);
    buffer.append(&[9, 8]);
    assert_eq!(buffer.take_and_clear(), Some(vec![9, 8]));
    assert_eq!(buffer.len(), 0);
    assert_eq!(buffer.take_and_clear(), None);
    assert_eq!(buffer.append(&[1, 2, 3, 4, 5]), 4);
    assert_eq!(buffer.take_and_clear(), Some(vec![1, 2, 3, 4]));
}

#[test]
fn appending_nothing_changes_nothing() {
    let mut buffer = CaptureBuffer::new(4);
    assert_eq!(buffer.append(&[]), 0);
    assert_eq!(buffer.take_and_clear(), None);
}

#[test]
fn playback_buffer_plays_silence_when_empty() {
    let mut buffer = PlaybackBuffer::new();
    assert_eq!(buffer.pop_for_playback(), 0);
    assert_eq!(buffer.fill(3), vec![0, 0, 0]);
}

#[test]
fn playback_buffer_pops_in_order_then_silence() {
    let mut buffer = PlaybackBuffer::new();
    buffer.push_for_playback(vec![5, 6, 7]);
    assert_eq!(buffer.pop_for_playback(), 5);
    assert_eq!(buffer.pop_for_playback(), 6);
    assert_eq!(buffer.pop_for_playback(), 7);
    assert_eq!(buffer.pop_for_playback(), 0);
    assert_eq!(buffer.pop_for_playback(), 0);
}

#[test]
fn playback_buffer_fills_callbacks_then_silence() {
    let mut buffer = PlaybackBuffer::new();
    buffer.push_for_playback(vec![1, 2, 3, 4, 5]);
    assert_eq!(buffer.fill(2), vec![1, 2]);
    assert_eq!(buffer.fill(0), Vec::<u32>::new());
    assert_eq!(buffer.fill(4), vec![3, 4, 5, 0]);
    assert_eq!(buffer.fill(2), vec![0, 0]);
}

#[test]
fn playback_buffer_mixes_pop_and_fill() {
    let mut buffer = PlaybackBuffer::new();
    buffer.push_for_playback(vec![1, 2, 3]);
    assert_eq!(buffer.pop_for_playback(), 1);
    assert_eq!(buffer.fill(1), vec![2]);
    assert_eq!(buffer.pop_for_playback(), 3);
    assert_eq!(buffer.fill(1), vec![0]);
}

#[test]
fn new_block_replaces_what_was_left() {
    let mut buffer = PlaybackBuffer::new();
    buffer.push_for_playback(vec![1, 2, 3]);
    assert_eq!(buffer.pop_for_playback(), 1);
    buffer.push_for_playback(vec![9]);
    assert_eq!(buffer.fill(3), vec![9, 0, 0]);
    buffer.push_for_playback(Vec::new());
    assert_eq!(buffer.pop_for_playback(), 0);
}

#[test]
fn try_append_with_the_buffer_in_hand_appends() {
    let mut buffer = CaptureBuffer::new(3);
    assert_eq!(try_append(Some(&mut buffer), &[1, 2]), 2);
    assert_eq!(try_append(Some(&mut buffer), &[3, 4]), 1);
    assert_eq!(buffer.take_and_clear(), Some(vec![1, 2, 3]));
}

#[test]
fn try_append_without_the_buffer_drops_the_samples() {
    assert_eq!(try_append(None, &[1, 2, 3]), 0);
    assert_eq!(try_append(None, &[]), 0);
}

#[test]
fn try_append_on_a_held_lock_returns_with_the_samples_dropped() {
    let shared = Mutex::new(CaptureBuffer::new(8));
    {
        let mut held = shared.lock().unwrap();
        held.append(&[1, 2]);
        let mut contended = shared.try_lock().ok();
        assert_eq!(try_append(contended.as_deref_mut(), &[3, 4]), 0);
        assert_eq!(held.len(), 2);
    }
    let mut free = shared.try_lock().ok();
    assert_eq!(try_append(free.as_deref_mut(), &[5, 6]), 2);
    drop(free);
    assert_eq!(shared.lock().unwrap().take_and_clear(), Some(vec![1, 2, 5, 6]));
}

#[test]
fn try_fill_with_the_buffer_in_hand_plays_the_block() {
    let mut buffer = PlaybackBuffer::new();
    buffer.push_for_playback(vec![4, 5, 6]);
    assert_eq!(try_fill(Some(&mut buffer), 2), vec![4, 5]);
    assert_eq!(try_fill(Some(&mut buffer), 2), vec![6, 0]);
}

#[test]
fn try_fill_without_the_buffer_plays_silence() {
    assert_eq!(try_fill(None, 4), vec![0, 0, 0, 0]);
    assert_eq!(try_fill(None, 0), Vec::<u32>::new());
}

#[test]
fn try_fill_on_a_held_lock_leaves_the_block_for_later() {
    let shared = Mutex::new(PlaybackBuffer::new());
    {
        let mut held = shared.lock().unwrap();
        held.push_for_playback(vec![7, 8]);
        let mut contended = shared.try_lock().ok();
        assert_eq!(try_fill(contended.as_deref_mut(), 2), vec![0, 0]);
    }
    let mut free = shared.try_lock().ok();
    assert_eq!(try_fill(free.as_deref_mut(), 3), vec![7, 8, 0]);
}
