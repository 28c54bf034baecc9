use friend_rs::audio::{mono_frame_count, CaptureState, ChunkAction};

#[test]
fn mono_frames_round_partial_frames_up() {
    assert_eq!(mono_frame_count(5, 2), 3);
    assert_eq!(mono_frame_count(4, 2), 2);
    assert_eq!(mono_frame_count(7, 1), 7);
    assert_eq!(mono_frame_count(0, 3), 0);
    assert_eq!(mono_frame_count(1, 6), 1);
}

#[test]
fn quiet_chunks_before_speech_are_discarded() {
    let mut s = CaptureState::new(2, 4, 100, 3);
    assert_eq!(s.push_input(4, false), ChunkAction::Discard);
    assert!(!s.is_started());
    assert_eq!(s.speech_frames(), 0);
    assert_eq!(s.push_input(0, true), ChunkAction::Discard);
    assert!(!s.is_started());
}

#[test]
fn utterance_ends_after_enough_speech_and_silence() {
    let mut s = CaptureState::new(2, 4, 100, 3);
    assert_eq!(s.push_input(4, true), ChunkAction::Keep);
    assert!(s.is_started());
    assert_eq!(s.speech_frames(), 2);
    assert_eq!(s.push_input(4, false), ChunkAction::Keep);
    assert_eq!(s.speech_frames(), 4);
    assert_eq!(s.push_input(3, false), ChunkAction::KeepAndFinish);
    assert_eq!(s.speech_frames(), 6);
    assert!(s.is_finished());
    assert_eq!(s.push_input(3, true), ChunkAction::Discard);
    assert_eq!(s.speech_frames(), 6);
}

#[test]
fn loud_chunk_resets_the_silence() {
    let mut s = CaptureState::new(1, 2, 100, 3);
    assert_eq!(s.push_input(2, true), ChunkAction::Keep);
    assert_eq!(s.push_input(2, false), ChunkAction::Keep);
    assert_eq!(s.push_input(1, true), ChunkAction::Keep);
    assert_eq!(s.push_input(2, false), ChunkAction::Keep);
    assert_eq!(s.push_input(1, false), ChunkAction::KeepAndFinish);
}

#[test]
fn silence_too_early_does_not_end_the_utterance() {
    let mut s = CaptureState::new(1, 10, 100, 2);
    assert_eq!(s.push_input(1, true), ChunkAction::Keep);
    assert_eq!(s.push_input(5, false), ChunkAction::Keep);
    assert_eq!(s.push_input(3, false), ChunkAction::Keep);
    assert_eq!(s.push_input(1, false), ChunkAction::KeepAndFinish);
}

#[test]
fn utterance_is_cut_at_the_maximum_length() {
    let mut s = CaptureState::new(1, 2, 5, 100);
    assert_eq!(s.push_input(3, true), ChunkAction::Keep);
    assert_eq!(s.push_input(2, true), ChunkAction::KeepAndFinish);
    assert!(s.is_finished());
}

#[test]
fn the_first_loud_chunk_never_ends_the_utterance() {
    let mut s = CaptureState::new(1, 0, 1, 0);
    assert_eq!(s.push_input(10, true), ChunkAction::Keep);
    assert!(!s.is_finished());
    assert_eq!(s.push_input(1, false), ChunkAction::KeepAndFinish);
}
