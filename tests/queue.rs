use ffplay_lite::playback::{write_audio, write_audio_shared};
use ffplay_lite::queue::SampleQueue;

fn bits(xs: &[f32]) -> Vec<u32> {
    xs.iter().map(|x| x.to_bits()).collect()
}

#[test]
fn new_queue_is_empty() {
    let q = SampleQueue::new(8192);
    assert_eq!(q.capacity(), 8192);
    assert_eq!(q.len(), 0);
    assert_eq!(q.free_len(), 8192);
    assert!(q.is_empty());
}

#[test]
fn pushes_and_pops_come_out_in_order() {
    let mut q = SampleQueue::new(8);
    assert_eq!(q.push(&[1, 2, 3]), 3);
    let mut out = vec![0u32; 2];
    assert_eq!(q.pop(&mut out), 2);
    assert_eq!(out, vec![1, 2]);
    assert_eq!(q.push(&[4, 5]), 2);
    let mut out = vec![0u32; 3];
    assert_eq!(q.pop(&mut out), 3);
    assert_eq!(out, vec![3, 4, 5]);
    assert!(q.is_empty());
}

#[test]
fn push_beyond_free_room_takes_the_prefix_that_fits() {
    let mut q = SampleQueue::new(4);
    assert_eq!(q.push(&[9, 8]), 2);
    assert_eq!(q.free_len(), 2);
    assert_eq!(q.push(&[1, 2, 3, 4, 5]), 2);
    assert_eq!(q.len(), 4);
    assert_eq!(q.free_len(), 0);
    assert_eq!(q.push(&[7]), 0);
    let mut out = vec![0u32; 4];
    assert_eq!(q.pop(&mut out), 4);
    assert_eq!(out, vec![9, 8, 1, 2]);
}

#[test]
fn pop_into_a_longer_buffer_leaves_the_rest_untouched() {
    let mut q = SampleQueue::new(4);
    q.push(&[10, 11]);
    let mut out = vec![77u32; 5];
    assert_eq!(q.pop(&mut out), 2);
    assert_eq!(out, vec![10, 11, 77, 77, 77]);
    assert_eq!(q.pop(&mut out), 0);
}

#[test]
fn callback_fills_shortfall_with_silence() {
    let mut q = SampleQueue::new(16);
    q.push(&bits(&[0.5, -0.5, 0.25]));
    let mut out = vec![0xFFFF_FFFFu32; 6];
    assert_eq!(write_audio(&mut out, &mut q), 3);
    let heard: Vec<f32> = out.iter().map(|b| f32::from_bits(*b)).collect();
    assert_eq!(heard, vec![0.5, -0.5, 0.25, 0.0, 0.0, 0.0]);
    assert!(q.is_empty());
}

#[test]
fn callback_takes_only_what_the_buffer_holds() {
    let mut q = SampleQueue::new(16);
    q.push(&[1, 2, 3, 4, 5]);
    let mut out = vec![0u32; 3];
    assert_eq!(write_audio(&mut out, &mut q), 3);
    assert_eq!(out, vec![1, 2, 3]);
    assert_eq!(q.len(), 2);
}

#[test]
fn push_from_resumes_where_the_last_push_stopped() {
    let mut q = SampleQueue::new(3);
    let frame = [1u32, 2, 3, 4, 5];
    let next = q.push_from(&frame, 0);
    assert_eq!(next, 3);
    let mut out = vec![0u32; 2];
    q.pop(&mut out);
    assert_eq!(out, vec![1, 2]);
    let next = q.push_from(&frame, next);
    assert_eq!(next, 5);
    let mut out = vec![0u32; 3];
    assert_eq!(q.pop(&mut out), 3);
    assert_eq!(out, vec![3, 4, 5]);
    assert_eq!(q.push_from(&frame, 5), 5);
}

#[test]
fn queue_never_holds_more_than_its_capacity() {
    let mut q = SampleQueue::new(5);
    for round in 0..10u32 {
        let n = q.push(&[round; 3]);
        assert!(n <= 5);
        assert!(q.len() <= q.capacity());
        if round % 3 == 0 {
            let mut out = vec![0u32; 2];
            q.pop(&mut out);
        }
    }
    assert_eq!(q.len(), 3);
}

#[test]
fn split_halves_hand_samples_over_in_order() {
    let (mut producer, mut consumer) = SampleQueue::new(4).split();
    let frame = [5u32, 6, 7, 8, 9, 10];
    let next = producer.push_from(&frame, 0);
    assert_eq!(next, 4);
    let mut out = vec![1u32; 3];
    assert_eq!(consumer.pop(&mut out), 3);
    assert_eq!(out, vec![5, 6, 7]);
    assert_eq!(producer.push_from(&frame, next), 6);
    let mut out = vec![1u32; 5];
    assert_eq!(write_audio_shared(&mut out, &mut consumer), 3);
    assert_eq!(out, vec![8, 9, 10, 0, 0]);
}

#[test]
fn split_consumer_of_empty_queue_plays_silence() {
    let (_producer, mut consumer) = SampleQueue::new(8).split();
    let mut out = vec![3u32; 4];
    assert_eq!(write_audio_shared(&mut out, &mut consumer), 0);
    assert_eq!(out, vec![0, 0, 0, 0]);
}
