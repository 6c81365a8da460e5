use drift::viz::{key_action, SampleBuffer, VizAction, VizKey};

#[test]
fn test_sample_buffer_new() {
    let buffer = SampleBuffer::new(100, 0.0f32);
    assert_eq!(buffer.capacity(), 100);
    assert_eq!(buffer.get_samples().len(), 100);
}

#[test]
fn test_sample_buffer_push() {
    let mut buffer = SampleBuffer::new(5, 0.0f32);
    buffer.push(1.0);
    buffer.push(2.0);
    buffer.push(3.0);

    let samples = buffer.get_samples();
    // Oldest first: the two slots not yet written, then the three pushed.
    assert_eq!(samples[0], 0.0);
    assert_eq!(samples[1], 0.0);
    assert_eq!(samples[2], 1.0);
    assert_eq!(samples[3], 2.0);
    assert_eq!(samples[4], 3.0);
}

#[test]
fn test_sample_buffer_wrap() {
    let mut buffer = SampleBuffer::new(3, 0.0f32);
    buffer.push(1.0);
    buffer.push(2.0);
    buffer.push(3.0);
    buffer.push(4.0); // Wraps, overwrites first

    let samples = buffer.get_samples();
    assert_eq!(samples, vec![2.0, 3.0, 4.0]);
}

#[test]
fn test_sample_buffer_get_recent() {
    let mut buffer = SampleBuffer::new(10, 0.0f32);
    for i in 0..10 {
        buffer.push(i as f32);
    }

    let recent = buffer.get_recent(3);
    assert_eq!(recent, vec![7.0, 8.0, 9.0]);
}

#[test]
fn sample_buffer_recent_is_capped_and_partial_fill_keeps_the_fill() {
    let mut buffer = SampleBuffer::new(3, 0u8);
    buffer.push(7);
    assert_eq!(buffer.get_samples(), vec![0, 0, 7]);
    assert_eq!(buffer.get_recent(5), vec![0, 0, 7]);
    assert_eq!(buffer.get_recent(0), Vec::<u8>::new());
    assert_eq!(buffer.get_recent(1), vec![7]);
    let empty = SampleBuffer::new(0, 0u8);
    assert!(empty.get_samples().is_empty());
    assert!(empty.get_recent(2).is_empty());
}

#[test]
fn display_keys() {
    assert_eq!(key_action(VizKey::Char { key: 'q', control: false }), VizAction::Quit);
    assert_eq!(key_action(VizKey::Char { key: 'q', control: true }), VizAction::Quit);
    assert_eq!(key_action(VizKey::Escape), VizAction::Quit);
    assert_eq!(key_action(VizKey::Char { key: 'c', control: true }), VizAction::Quit);
    assert_eq!(key_action(VizKey::Char { key: 'c', control: false }), VizAction::Ignore);
    assert_eq!(key_action(VizKey::Char { key: ' ', control: false }), VizAction::TogglePause);
    assert_eq!(key_action(VizKey::Char { key: ' ', control: true }), VizAction::TogglePause);
    assert_eq!(key_action(VizKey::Char { key: 'Q', control: false }), VizAction::Ignore);
    assert_eq!(key_action(VizKey::Other), VizAction::Ignore);
}
