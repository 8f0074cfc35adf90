use capture_blocks::capture_message::CaptureMessageBlock;
use capture_blocks::consume_capture::ConsumeCaptureBlock;
use capture_blocks::move_capture::MoveCaptureBlock;
use capture_blocks::non_capture::NonCaptureBlock;
use capture_blocks::protocol::{Call, CallMut, CallOnce};
use capture_blocks::return_capture::ReturnCaptureBlock;

#[test]
fn non_capture_fixed_output_in_every_mode() {
    let mut block = NonCaptureBlock::new();
    assert_eq!(block.call(()), "Hello");
    assert_eq!(block.call_mut(()), "Hello");
    assert_eq!(block.call_once(()), "Hello");
}

#[test]
fn non_capture_repeated_reads_agree() {
    let block = NonCaptureBlock::new();
    let first = block.call(());
    for _ in 0..10 {
        assert_eq!(block.call(()), first);
    }
}

#[test]
fn capture_message_reads_referent() {
    let message = String::from("Hi");
    let block = CaptureMessageBlock::new(&message);
    assert_eq!(block.call(()), "Hi");
    assert_eq!(block.call(()), "Hi");
    drop(block);
    assert_eq!(message, "Hi");
}

#[test]
fn capture_message_all_modes_agree() {
    let message = String::from("Hi");
    let mut block = CaptureMessageBlock::new(&message);
    assert_eq!(block.call(()), "Hi");
    assert_eq!(block.call_mut(()), "Hi");
    assert_eq!(block.call_once(()), "Hi");
}

#[test]
fn capture_message_empty_referent() {
    let message = String::new();
    let block = CaptureMessageBlock::new(&message);
    assert_eq!(block.call(()), "");
}

#[test]
fn move_capture_renders_name_and_message() {
    let block = MoveCaptureBlock::new(String::from("Binboy"));
    assert_eq!(block.call("You are awesome!"), "Binboy, You are awesome!");
}

#[test]
fn move_capture_name_survives_different_arguments() {
    let block = MoveCaptureBlock::new(String::from("Binboy"));
    assert_eq!(block.call("first"), "Binboy, first");
    assert_eq!(block.call("second"), "Binboy, second");
    assert_eq!(block.call("first"), "Binboy, first");
}

#[test]
fn move_capture_all_modes_agree() {
    let mut block = MoveCaptureBlock::new(String::from("Binboy"));
    assert_eq!(block.call("hey"), "Binboy, hey");
    assert_eq!(block.call_mut("hey"), "Binboy, hey");
    assert_eq!(block.call_once("hey"), "Binboy, hey");
}

#[test]
fn move_capture_empty_name_and_message() {
    let block = MoveCaptureBlock::new(String::new());
    assert_eq!(block.call(""), ", ");
}

#[test]
fn return_capture_counts_two_four_six() {
    let delta: u32 = 2;
    let mut block = ReturnCaptureBlock::new(0, &delta);
    assert_eq!(block.call_mut(()), 2);
    assert_eq!(block.call_mut(()), 4);
    assert_eq!(block.call_mut(()), 6);
}

#[test]
fn return_capture_consume_after_mutations() {
    let delta: u32 = 2;
    let mut block = ReturnCaptureBlock::new(0, &delta);
    assert_eq!(block.call_mut(()), 2);
    assert_eq!(block.call_mut(()), 4);
    assert_eq!(block.call_once(()), 6);
}

#[test]
fn return_capture_zero_delta_stands_still() {
    let delta: u32 = 0;
    let mut block = ReturnCaptureBlock::new(7, &delta);
    assert_eq!(block.call_mut(()), 7);
    assert_eq!(block.call_mut(()), 7);
}

#[test]
fn return_capture_reaches_the_counter_limit() {
    let delta: u32 = 2;
    let mut block = ReturnCaptureBlock::new(u32::MAX - 2, &delta);
    assert_eq!(block.call_mut(()), u32::MAX);
}

#[test]
fn consume_capture_doubles_then_sums() {
    let block = ConsumeCaptureBlock::new(vec![0, 1, 2, 3, 4, 5]);
    assert_eq!(block.call_once(()), 30);
}

#[test]
fn consume_capture_empty_sequence_sums_to_zero() {
    let block = ConsumeCaptureBlock::new(Vec::new());
    assert_eq!(block.call_once(()), 0);
}

#[test]
fn consume_capture_single_element() {
    let block = ConsumeCaptureBlock::new(vec![21]);
    assert_eq!(block.call_once(()), 42);
}

#[test]
fn consume_capture_largest_doubling_that_fits() {
    let block = ConsumeCaptureBlock::new(vec![u32::MAX / 2]);
    assert_eq!(block.call_once(()), u32::MAX - 1);
}
