use audio_visualizer::pow2::nearest_power_of_two;
use audio_visualizer::rolling::RollingSampleBuffer;

#[test]
fn rounds_capacity_up_to_power_of_two() {
    assert_eq!(RollingSampleBuffer::<f32>::new(5).capacity(), 8);
    assert_eq!(RollingSampleBuffer::<f32>::new(8).capacity(), 8);
    assert_eq!(RollingSampleBuffer::<f32>::new(1).capacity(), 1);
    assert_eq!(RollingSampleBuffer::<f32>::new(0).capacity(), 1);
    assert_eq!(RollingSampleBuffer::<f32>::new(1024).capacity(), 1024);
    assert_eq!(RollingSampleBuffer::<f32>::new(1025).capacity(), 2048);
}

#[test]
fn nearest_power_of_two_values() {
    assert_eq!(nearest_power_of_two(0), 1);
    assert_eq!(nearest_power_of_two(2), 2);
    assert_eq!(nearest_power_of_two(3), 4);
    assert_eq!(nearest_power_of_two(1000), 1024);
    assert_eq!(nearest_power_of_two(usize::MAX / 2 + 1), usize::MAX / 2 + 1);
}

#[test]
fn window_keeps_most_recent_samples() {
    let mut b: RollingSampleBuffer<f32> = RollingSampleBuffer::new(4);
    assert_eq!(b.snapshot(), Vec::<f32>::new());
    b.push(1.0);
    b.push(2.0);
    assert_eq!(b.snapshot(), vec![1.0, 2.0]);
    for i in 3..=10 {
        b.push(i as f32);
    }
    assert_eq!(b.len(), 4);
    assert_eq!(b.snapshot(), vec![7.0, 8.0, 9.0, 10.0]);
}

#[test]
fn window_shorter_than_capacity() {
    let mut b: RollingSampleBuffer<f32> = RollingSampleBuffer::new(5);
    for i in 0..7 {
        b.push(i as f32 * 0.5);
    }
    assert_eq!(b.capacity(), 8);
    assert_eq!(b.snapshot(), vec![0.0, 0.5, 1.0, 1.5, 2.0, 2.5, 3.0]);
    b.push(3.5);
    b.push(4.0);
    assert_eq!(b.snapshot(), vec![0.5, 1.0, 1.5, 2.0, 2.5, 3.0, 3.5, 4.0]);
}

#[test]
fn capacity_one_holds_last_sample() {
    let mut b: RollingSampleBuffer<f32> = RollingSampleBuffer::new(1);
    b.push(-1.0);
    b.push(0.25);
    assert_eq!(b.snapshot(), vec![0.25]);
}
