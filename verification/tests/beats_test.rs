use openmix::beats::{beat_label, pick_onset_frames, BeatLabel};

#[test]
fn every_fourth_beat_is_a_downbeat() {
    let labels: Vec<BeatLabel> = (0..9).map(beat_label).collect();
    assert_eq!(
        labels,
        vec![
            BeatLabel::Downbeat,
            BeatLabel::Beat,
            BeatLabel::Beat,
            BeatLabel::Beat,
            BeatLabel::Downbeat,
            BeatLabel::Beat,
            BeatLabel::Beat,
            BeatLabel::Beat,
            BeatLabel::Downbeat,
        ]
    );
}

#[test]
fn onset_picking_keeps_minimum_gap() {
    let above = [true, true, false, true, true, true, false, true];
    assert_eq!(pick_onset_frames(&above, 3), vec![0, 3, 7]);
    assert_eq!(pick_onset_frames(&above, 1), vec![0, 1, 3, 4, 5, 7]);
    assert_eq!(pick_onset_frames(&above, 0), vec![0, 1, 3, 4, 5, 7]);
}

#[test]
fn onset_picking_of_silence_is_empty() {
    assert!(pick_onset_frames(&[false; 64], 2).is_empty());
    assert!(pick_onset_frames(&[], 2).is_empty());
}

#[test]
fn onset_picking_gap_counts_from_last_pick() {
    // frame 2 is too close to 0, frame 4 is 4 after 0, frame 5 too close to 4
    let above = [true, false, true, false, true, true, false, false, true];
    assert_eq!(pick_onset_frames(&above, 4), vec![0, 4, 8]);
}
