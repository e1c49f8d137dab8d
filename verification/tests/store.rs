use dualcam::format::{FrameFormat, PixelEncoding};
use dualcam::store::{FrameSlot, SharedFrameStore};

fn rgb(width: u32, height: u32) -> FrameFormat {
    FrameFormat { width, height, encoding: PixelEncoding::RawRGB }
}

#[test]
fn new_slot_is_empty() {
    let slot = FrameSlot::new(rgb(2, 2));
    assert!(slot.is_empty());
    assert_eq!(slot.snapshot(), Vec::<u8>::new());
    assert_eq!(slot.format(), rgb(2, 2));
}

#[test]
fn slot_takes_one_whole_frame() {
    let mut slot = FrameSlot::new(rgb(2, 1));
    assert!(slot.replace(vec![1, 2, 3, 4, 5, 6]));
    assert!(!slot.is_empty());
    assert_eq!(slot.snapshot(), vec![1, 2, 3, 4, 5, 6]);
    assert_eq!(slot.format(), rgb(2, 1));
}

#[test]
fn slot_refuses_partial_and_oversized_frames() {
    let mut slot = FrameSlot::new(rgb(2, 1));
    assert!(!slot.replace(vec![1, 2, 3, 4, 5]));
    assert!(slot.is_empty());
    assert!(!slot.replace(vec![1, 2, 3, 4, 5, 6, 7]));
    assert!(slot.is_empty());
    assert!(slot.replace(vec![9; 6]));
    assert!(!slot.replace(vec![1, 2, 3]));
    assert_eq!(slot.snapshot(), vec![9; 6]);
}

#[test]
fn slot_is_not_emptied_again() {
    let mut slot = FrameSlot::new(rgb(1, 1));
    assert!(slot.replace(vec![7, 8, 9]));
    assert!(!slot.replace(Vec::new()));
    assert_eq!(slot.snapshot(), vec![7, 8, 9]);
}

#[test]
fn slot_overwrites_and_never_appends() {
    let mut slot = FrameSlot::new(rgb(1, 2));
    assert!(slot.replace(vec![1, 1, 1, 2, 2, 2]));
    assert!(slot.replace(vec![3, 3, 3, 4, 4, 4]));
    assert_eq!(slot.snapshot(), vec![3, 3, 3, 4, 4, 4]);
}

#[test]
fn snapshot_is_a_copy() {
    let mut slot = FrameSlot::new(rgb(1, 1));
    slot.replace(vec![1, 2, 3]);
    let mut copy = slot.snapshot();
    copy[0] = 99;
    assert_eq!(slot.snapshot(), vec![1, 2, 3]);
}

#[test]
fn new_store_is_empty() {
    let store = SharedFrameStore::new(rgb(4, 4));
    assert_eq!(store.format(), rgb(4, 4));
    assert_eq!(store.snapshot(), Vec::<u8>::new());
    assert_eq!(store.snapshot(), Vec::<u8>::new());
}

#[test]
fn shared_store_publishes_whole_frames_only() {
    let store = SharedFrameStore::new(rgb(2, 1));
    assert!(!store.publish(vec![1, 2, 3]));
    assert_eq!(store.snapshot(), Vec::<u8>::new());
    assert!(store.publish(vec![1, 2, 3, 4, 5, 6]));
    assert_eq!(store.snapshot(), vec![1, 2, 3, 4, 5, 6]);
    assert!(!store.publish(Vec::new()));
    assert!(!store.publish(vec![0; 7]));
    assert_eq!(store.snapshot(), vec![1, 2, 3, 4, 5, 6]);
    assert!(store.publish(vec![6, 5, 4, 3, 2, 1]));
    assert_eq!(store.snapshot(), vec![6, 5, 4, 3, 2, 1]);
}

#[test]
fn readers_never_see_part_of_a_frame() {
    let format = rgb(16, 16);
    let size = 16 * 16 * 3;
    let store = SharedFrameStore::new(format);
    let write = || {
        for round in 0..400u32 {
            let fill = (round % 251) as u8;
            assert!(store.publish(vec![fill; size]));
            // Frames of a wrong size arrive in between and are dropped.
            assert!(!store.publish(vec![fill; size - 1]));
        }
    };
    let read = || {
        for _ in 0..400 {
            let copy = store.snapshot();
            assert!(copy.is_empty() || copy.len() == size);
            // A frame is one fill value throughout: no mix of two frames.
            assert!(copy.iter().all(|byte| *byte == copy[0]));
        }
    };
    rayon::join(write, read);
    assert_eq!(store.snapshot(), vec![(399 % 251) as u8; size]);
}

#[test]
fn reads_between_writes_see_the_latest_frame() {
    let store = SharedFrameStore::new(rgb(2, 2));
    for round in 0..50u8 {
        assert!(store.publish(vec![round; 12]));
        assert_eq!(store.snapshot(), vec![round; 12]);
        assert!(!store.publish(vec![round; 5]));
        assert_eq!(store.snapshot(), vec![round; 12]);
    }
}

#[test]
fn two_stores_are_independent() {
    let first = SharedFrameStore::new(rgb(1, 1));
    let second = SharedFrameStore::new(rgb(2, 1));
    assert!(first.publish(vec![1, 2, 3]));
    assert_eq!(second.snapshot(), Vec::<u8>::new());
    assert!(!second.publish(vec![1, 2, 3]));
    assert!(second.publish(vec![1, 2, 3, 4, 5, 6]));
    assert_eq!(first.snapshot(), vec![1, 2, 3]);
}
