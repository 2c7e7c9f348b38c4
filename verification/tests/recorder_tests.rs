//! Tests for the frame recorder.

use rust_mario::recorder::GameRecorder;
use rust_mario::world::SimpleLevel;

#[test]
fn test_recording_functionality() {
    // A fresh recorder starts with no frames.
    let recorder = GameRecorder::new(100);
    assert_eq!(recorder.frame_count(), 0);

    // The game can be initialized alongside it.
    let game = SimpleLevel::new();
    assert!(!game.game_won);

    println!("Recording test infrastructure verified");
}

#[test]
fn test_frame_delay_is_hundredths_of_a_second() {
    assert_eq!(GameRecorder::new(100).frame_delay(), 10);
    assert_eq!(GameRecorder::new(95).frame_delay(), 9);
    assert_eq!(GameRecorder::new(5).frame_delay(), 0);
}

#[test]
fn test_capture_frame_strips_alpha() {
    let mut recorder = GameRecorder::new(100);
    let rgba: Vec<u8> = vec![1, 2, 3, 255, 4, 5, 6, 128];
    recorder.capture_frame(&rgba, 2, 1);
    assert_eq!(recorder.frame_count(), 1);
    assert_eq!(recorder.frames()[0], vec![1, 2, 3, 4, 5, 6]);
}

#[test]
fn test_dimensions_fixed_by_first_frame() {
    let mut recorder = GameRecorder::new(100);
    assert_eq!(recorder.width(), 0);
    assert_eq!(recorder.height(), 0);

    let first: Vec<u8> = vec![0, 0, 0, 0, 0, 0, 0, 0];
    recorder.capture_frame(&first, 2, 1);
    assert_eq!(recorder.width(), 2);
    assert_eq!(recorder.height(), 1);

    let second: Vec<u8> = vec![9, 9, 9, 9];
    recorder.capture_frame(&second, 7, 7);
    assert_eq!(recorder.width(), 2);
    assert_eq!(recorder.height(), 1);
    assert_eq!(recorder.frame_count(), 2);
}

#[test]
fn test_capture_empty_frame() {
    let mut recorder = GameRecorder::new(50);
    let empty: Vec<u8> = Vec::new();
    recorder.capture_frame(&empty, 0, 0);
    assert_eq!(recorder.frame_count(), 1);
    assert!(recorder.frames()[0].is_empty());
}
