use friday::recorder::{start_step, SampleBuffer, SampleKind, StartAction, StartEvent, StartStage};

fn finish(a: StartAction) -> Result<(), String> {
    match a {
        StartAction::Finish(r) => r,
        _ => panic!("expected an outcome"),
    }
}

#[test]
fn buffer_collects_and_hands_out() {
    let mut b: SampleBuffer<i32> = SampleBuffer::new();
    b.extend_from_slice(&[1, 2]);
    b.extend_from_slice(&[]);
    b.extend_from_slice(&[3]);
    assert_eq!(b.len(), 3);
    assert_eq!(b.take_all(), vec![1, 2, 3]);
    assert_eq!(b.len(), 0);
    assert_eq!(b.take_all(), Vec::<i32>::new());
}

#[test]
fn clear_forgets() {
    let mut b: SampleBuffer<u8> = SampleBuffer::new();
    b.extend_from_slice(&[9, 9]);
    b.clear();
    b.extend_from_slice(&[7]);
    assert_eq!(b.take_all(), vec![7]);
}

#[test]
fn successful_start() {
    let (s, a) = start_step(StartStage::AwaitingDevice, StartEvent::DeviceFound);
    assert!(matches!(a, StartAction::QueryConfig));
    let (s, a) = start_step(s, StartEvent::ConfigFound(SampleKind::I16));
    assert!(matches!(a, StartAction::ClearBuffer));
    let (s, a) = start_step(s, StartEvent::BufferCleared);
    assert!(matches!(a, StartAction::BuildStream(SampleKind::I16)));
    let (s, a) = start_step(s, StartEvent::StreamBuilt);
    assert!(matches!(a, StartAction::Play));
    let (s, a) = start_step(s, StartEvent::Playing);
    assert!(matches!(s, StartStage::Done));
    assert_eq!(finish(a), Ok(()));
}

#[test]
fn start_failures() {
    let (_, a) = start_step(StartStage::AwaitingDevice, StartEvent::NoDevice);
    assert_eq!(finish(a), Err("No input device detected.".to_string()));
    let (_, a) = start_step(StartStage::AwaitingConfig, StartEvent::ConfigFailed("busy".to_string()));
    assert_eq!(finish(a), Err("Failed to fetch default audio config: busy".to_string()));
    let (_, a) = start_step(StartStage::ClearingBuffer(SampleKind::Other), StartEvent::BufferCleared);
    assert_eq!(finish(a), Err("Unsupported audio sample format.".to_string()));
    let (_, a) = start_step(StartStage::AwaitingStream, StartEvent::BuildFailed("x".to_string()));
    assert_eq!(finish(a), Err("Failed to build audio input stream: x".to_string()));
    let (_, a) = start_step(StartStage::AwaitingPlay, StartEvent::PlayFailed("y".to_string()));
    assert_eq!(finish(a), Err("Failed to start audio stream: y".to_string()));
}

#[test]
fn out_of_turn_events_are_ignored() {
    let (s, a) = start_step(StartStage::AwaitingDevice, StartEvent::Playing);
    assert!(matches!(s, StartStage::AwaitingDevice));
    assert!(matches!(a, StartAction::Ignore));
    let (s, a) = start_step(StartStage::Done, StartEvent::DeviceFound);
    assert!(matches!(s, StartStage::Done));
    assert!(matches!(a, StartAction::Ignore));
}
