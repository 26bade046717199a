use rplayer::channel::{FeatureChannel, FeatureFrame, LOUDNESS_CAPACITY, SPECTRUM_CAPACITY};

fn loudness_of(frame: &FeatureFrame) -> u64 {
    match frame {
        FeatureFrame::Loudness(v) => *v,
        FeatureFrame::Spectrum(_) => panic!("expected a loudness frame"),
    }
}

#[test]
fn capacities_match_the_design() {
    assert_eq!(LOUDNESS_CAPACITY, 220);
    assert_eq!(SPECTRUM_CAPACITY, 22000);
}

#[test]
fn sending_up_to_capacity_never_blocks() {
    let cap: usize = 16;
    let mut ch = FeatureChannel::new(cap);
    for i in 0..cap {
        assert!(ch.try_send(FeatureFrame::Loudness(i as u64)).is_ok());
    }
    assert_eq!(ch.len(), cap);
}

#[test]
fn send_past_capacity_blocks_until_a_receive() {
    let cap: usize = 4;
    let mut ch = FeatureChannel::new(cap);
    for i in 0..cap {
        assert!(ch.try_send(FeatureFrame::Loudness(i as u64)).is_ok());
    }
    // The (cap + 1)-th send is held up and the frame handed back intact.
    let held = ch.try_send(FeatureFrame::Loudness(99));
    let frame = match held {
        Err(frame) => frame,
        Ok(()) => panic!("a full channel must not accept a frame"),
    };
    assert_eq!(loudness_of(&frame), 99);
    assert_eq!(ch.len(), cap);
    // One receive makes room; the held frame then goes through.
    let oldest = ch.receive().unwrap();
    assert_eq!(loudness_of(&oldest), 0);
    assert!(ch.try_send(frame).is_ok());
}

#[test]
fn frames_leave_in_arrival_order() {
    let mut ch = FeatureChannel::new(8);
    for v in [5u64, 1, 4, 1, 5, 9, 2, 6] {
        ch.try_send(FeatureFrame::Loudness(v)).unwrap();
    }
    let mut seen: Vec<u64> = Vec::new();
    while let Some(frame) = ch.receive() {
        seen.push(loudness_of(&frame));
    }
    assert_eq!(seen, vec![5, 1, 4, 1, 5, 9, 2, 6]);
    assert_eq!(ch.len(), 0);
}

#[test]
fn empty_channel_reports_no_data() {
    let mut ch = FeatureChannel::new(3);
    assert!(ch.receive().is_none());
    ch.try_send(FeatureFrame::Loudness(1)).unwrap();
    assert!(ch.receive().is_some());
    assert!(ch.receive().is_none());
}

#[test]
fn spectrum_frames_travel_whole() {
    let mut ch = FeatureChannel::new(2);
    ch.try_send(FeatureFrame::Spectrum(vec![1, 2, 3, 4])).unwrap();
    match ch.receive().unwrap() {
        FeatureFrame::Spectrum(bins) => assert_eq!(bins, vec![1, 2, 3, 4]),
        FeatureFrame::Loudness(_) => panic!("expected a spectrum frame"),
    }
    assert_eq!(ch.capacity(), 2);
}
