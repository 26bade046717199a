use rplayer::channel::FeatureFrame;
use rplayer::engine::{transform_frame, VisualEngine};
use rplayer::history::{LoudnessHistory, WaterfallHistory, RMS_SIZE, WF_SIZE};
use rplayer::trace::{SpectrumTrace, MAG_MAX, PEAK_MAX};

#[test]
fn transform_drops_artifact_bin_and_reverses() {
    // Raw frame of length 4 plots 2 bins: bin i is raw bin (len - 1 - i).
    let raw: Vec<u64> = vec![7, 1, 5, 2];
    let bins = transform_frame(&raw, 2);
    assert_eq!(bins, vec![2, 5]);
}

#[test]
fn rising_input_tracks_exactly() {
    // Strictly rising inputs at one bin: the fast-attack envelope equals
    // each arriving value and never exceeds the most recent one.
    let mut t = SpectrumTrace::new(1);
    let mut last: u64 = 0;
    for v in [10u64, 20, 35, 400, 401] {
        t.apply_frame(&vec![v]);
        assert_eq!(t.current_bins()[0], v);
        assert!(t.current_bins()[0] <= v);
        assert!(t.current_bins()[0] >= last);
        last = v;
    }
}

#[test]
fn release_and_idle_decay_sequences_are_exact() {
    // Start a bin at 100000 fixed-point units, then starve it.
    let mut t = SpectrumTrace::new(1);
    t.apply_frame(&vec![100_000]);
    assert_eq!(t.current_bins()[0], 100_000);
    assert_eq!(t.peak_bins()[0], 105_000);

    // Five silent frames: the release branch multiplies current by 97/100
    // (rounded down) exactly once per frame, and peak by 998/1000.
    let mut want_current: u64 = 100_000;
    let mut want_peak: u64 = 105_000;
    for _ in 0..5 {
        t.apply_frame(&vec![0]);
        want_current = want_current * 97 / 100;
        want_peak = want_peak * 998 / 1000;
        assert_eq!(t.current_bins()[0], want_current);
        assert_eq!(t.peak_bins()[0], want_peak);
    }
    assert_eq!(t.current_bins()[0], 85_872);

    // Five frameless ticks: both envelopes keep 94/100 per tick, exactly.
    for _ in 0..5 {
        t.decay_idle();
        want_current = want_current * 94 / 100;
        want_peak = want_peak * 94 / 100;
        assert_eq!(t.current_bins()[0], want_current);
        assert_eq!(t.peak_bins()[0], want_peak);
    }
    assert!(t.current_bins()[0] < 85_872);
}

#[test]
fn idle_decay_from_ten_units() {
    // 100000 units at a scale of 10^4 stands for 10.0; five idle ticks of
    // 94% land just above 7.2339 at that scale.
    let mut t = SpectrumTrace::new(1);
    t.apply_frame(&vec![100_000]);
    for _ in 0..5 {
        t.decay_idle();
    }
    assert_eq!(t.current_bins()[0], 73_389);
}

#[test]
fn overshoot_at_the_magnitude_bound_stays_in_range() {
    let mut t = SpectrumTrace::new(1);
    t.apply_frame(&vec![MAG_MAX]);
    assert_eq!(t.current_bins()[0], MAG_MAX);
    assert_eq!(t.peak_bins()[0], MAG_MAX * 105 / 100);
    assert!(t.peak_bins()[0] <= PEAK_MAX);
    t.decay_idle();
    assert_eq!(t.current_bins()[0], MAG_MAX * 94 / 100);
}

#[test]
fn waterfall_keeps_newest_rows_in_order() {
    let mut w = WaterfallHistory::new();
    let extra = 7;
    for k in 0..(WF_SIZE + extra) {
        w.push(vec![k as u64]);
        assert!(w.len() <= WF_SIZE);
    }
    assert_eq!(w.len(), WF_SIZE);
    // Newest first; the oldest `extra` rows are gone.
    for i in 0..WF_SIZE {
        assert_eq!(w.row_at(i)[0], (WF_SIZE + extra - 1 - i) as u64);
    }
}

#[test]
fn loudness_history_keeps_exact_length() {
    let mut h = LoudnessHistory::new();
    assert_eq!(h.samples_vec().len(), RMS_SIZE);
    assert!(h.samples_vec().iter().all(|&v| v == 0));
    h.push(42);
    assert_eq!(h.samples_vec().len(), RMS_SIZE);
    assert_eq!(h.samples_vec()[RMS_SIZE - 1], 42);
    for i in 0..RMS_SIZE {
        h.push(i as u64);
    }
    assert_eq!(h.samples_vec().len(), RMS_SIZE);
    assert_eq!(h.samples_vec()[0], 0);
    assert_eq!(h.samples_vec()[RMS_SIZE - 1], (RMS_SIZE - 1) as u64);
}

#[test]
fn three_spectral_frames_end_to_end() {
    // Three raw frames of length 4 (2 plotted bins), at a fixed-point scale
    // of 10^4 units per magnitude unit: 5.0, 8.0, 3.0 in the louder bin.
    let mut e = VisualEngine::new(4);

    e.tick(Some(FeatureFrame::Spectrum(vec![0, 0, 50_000, 0])));
    assert_eq!(e.current_bins(), &vec![0, 50_000]);
    assert_eq!(e.peak_bins(), &vec![0, 52_500]);
    assert_eq!(e.waterfall_len(), 1);
    assert_eq!(e.waterfall_row(0), &vec![0, 0]);

    e.tick(Some(FeatureFrame::Spectrum(vec![0, 0, 80_000, 0])));
    assert_eq!(e.current_bins(), &vec![0, 80_000]);
    assert_eq!(e.peak_bins(), &vec![0, 84_000]);
    assert_eq!(e.waterfall_len(), 2);
    assert_eq!(e.waterfall_row(0), &vec![0, 50_000]);

    e.tick(Some(FeatureFrame::Spectrum(vec![0, 0, 30_000, 0])));
    assert_eq!(e.current_bins(), &vec![0, 77_600]);
    assert_eq!(e.peak_bins(), &vec![0, 83_832]);
    assert_eq!(e.waterfall_len(), 3);
    assert_eq!(e.waterfall_row(0), &vec![0, 80_000]);
    assert_eq!(e.waterfall_row(1), &vec![0, 50_000]);
    assert_eq!(e.waterfall_row(2), &vec![0, 0]);

    // A loudness frame rolls only the loudness history.
    e.tick(Some(FeatureFrame::Loudness(123)));
    assert_eq!(e.current_bins(), &vec![0, 77_600]);
    assert_eq!(e.loudness_vec()[RMS_SIZE - 1], 123);

    // A frameless tick fades both envelopes by 94/100.
    e.tick(None);
    assert_eq!(e.current_bins(), &vec![0, 77_600 * 94 / 100]);
    assert_eq!(e.peak_bins(), &vec![0, 83_832 * 94 / 100]);
    assert_eq!(e.waterfall_len(), 3);
}

#[test]
fn engine_starts_silent() {
    let e = VisualEngine::new(8);
    assert_eq!(e.current_bins(), &vec![0, 0, 0, 0]);
    assert_eq!(e.peak_bins(), &vec![0, 0, 0, 0]);
    assert_eq!(e.waterfall_len(), 0);
    assert_eq!(e.loudness_vec().len(), RMS_SIZE);
}
