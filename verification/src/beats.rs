//! Beat labels and onset picking: the integer decisions of beat tracking.
use vstd::prelude::*;

verus! {

/// Whether a beat opens a bar.
#[derive(Debug, Clone, Copy, PartialEq, Eq, Structural)]
pub enum BeatLabel {
    Downbeat,
    Beat,
}

/// Beats are grouped in bars of four: grid line `index` (counted from the
/// first grid line) is a downbeat exactly when it is a multiple of four.
pub open spec fn label_of(index: int) -> BeatLabel {
    if index % 4 == 0 { BeatLabel::Downbeat } else { BeatLabel::Beat }
}

/// The label of the beat on grid line `index`.
pub fn beat_label(index: usize) -> (label: BeatLabel)
    ensures
        label == label_of(index as int),
{
    if index % 4 == 0 { BeatLabel::Downbeat } else { BeatLabel::Beat }
}

/// Bars have four beats: labels repeat every four grid lines, and exactly
/// one of any four consecutive grid lines is a downbeat.
pub proof fn law_labels_repeat_every_bar(index: int)
    requires
        index >= 0,
    ensures
        label_of(index + 4) == label_of(index),
        label_of(index) == BeatLabel::Downbeat <==> index % 4 == 0,
        (label_of(index) == BeatLabel::Downbeat) ^ (label_of(index + 1) == BeatLabel::Downbeat)
            ^ (label_of(index + 2) == BeatLabel::Downbeat) ^ (label_of(index + 3)
            == BeatLabel::Downbeat),
{
}

/// Onset picking over detection frames: scanning the frames in order, frame
/// `i` is picked when it is above the detection threshold and no frame was
/// picked yet or the last picked frame lies at least `min_gap` frames before.
pub open spec fn picked_onsets(above: Seq<bool>, min_gap: nat) -> Seq<int>
    decreases above.len(),
{
    if above.len() == 0 {
        Seq::<int>::empty()
    } else {
        let prev = picked_onsets(above.drop_last(), min_gap);
        let i = above.len() - 1;
        if above[i] && (prev.len() == 0 || i - prev.last() >= min_gap) {
            prev.push(i)
        } else {
            prev
        }
    }
}

/// Picks onset frames: `above[i]` tells whether frame `i`'s detection value
/// exceeds the threshold; picked frames are at least `min_gap` frames apart.
pub fn pick_onset_frames(above: &[bool], min_gap: usize) -> (frames: Vec<usize>)
    ensures
        frames@.len() == picked_onsets(above@, min_gap as nat).len(),
        forall|j: int|
            0 <= j < frames@.len() ==> frames@[j] as int == #[trigger] picked_onsets(
                above@,
                min_gap as nat,
            )[j],
{
    let mut frames: Vec<usize> = Vec::new();
    let mut i: usize = 0;
    while i < above.len()
        invariant
            i <= above.len(),
            frames@.len() == picked_onsets(above@.take(i as int), min_gap as nat).len(),
            forall|j: int|
                0 <= j < frames@.len() ==> frames@[j] as int == #[trigger] picked_onsets(
                    above@.take(i as int),
                    min_gap as nat,
                )[j],
            forall|j: int| 0 <= j < frames@.len() ==> #[trigger] frames@[j] < i,
        decreases above.len() - i,
    {
        let ghost prev = picked_onsets(above@.take(i as int), min_gap as nat);
        assert(above@.take(i as int + 1).drop_last() =~= above@.take(i as int));
        assert(above@.take(i as int + 1)[i as int] == above@[i as int]);
        if above[i] {
            let n = frames.len();
            if n == 0 || i - frames[n - 1] >= min_gap {
                frames.push(i);
            }
        }
        proof {
            let next = picked_onsets(above@.take(i as int + 1), min_gap as nat);
            if frames@.len() > 0 && prev.len() > 0 {
                assert(frames@.len() == prev.len() ==> frames@[frames@.len() - 1] as int
                    == prev.last());
            }
            assert(frames@.len() == next.len());
            assert forall|j: int| 0 <= j < frames@.len() implies frames@[j] as int
                == #[trigger] next[j] by {
                if j < prev.len() {
                    assert(next[j] == prev[j]);
                }
            }
        }
        i = i + 1;
    }
    assert(above@.take(above.len() as int) =~= above@);
    frames
}

/// Every picked frame is above the threshold, the picked frames are strictly
/// increasing and consecutive ones lie at least `min_gap` frames apart.
pub proof fn law_picked_onsets_are_spaced(above: Seq<bool>, min_gap: nat)
    ensures
        forall|j: int|
            0 <= j < picked_onsets(above, min_gap).len() ==> {
                let f = #[trigger] picked_onsets(above, min_gap)[j];
                0 <= f < above.len() && above[f]
            },
        forall|j: int|
            0 <= j && j + 1 < picked_onsets(above, min_gap).len() ==> {
                &&& #[trigger] picked_onsets(above, min_gap)[j] < picked_onsets(above, min_gap)[j
                    + 1]
                &&& picked_onsets(above, min_gap)[j + 1] - picked_onsets(above, min_gap)[j]
                    >= min_gap
            },
    decreases above.len(),
{
    if above.len() > 0 {
        law_picked_onsets_are_spaced(above.drop_last(), min_gap);
        let prev = picked_onsets(above.drop_last(), min_gap);
        assert(forall|j: int| 0 <= j < prev.len() ==> #[trigger] prev[j] < above.len() - 1);
    }
}

/// No frame above the threshold is skipped without cause: a frame above the
/// threshold that was not picked lies less than `min_gap` frames after some
/// picked frame before it.
pub proof fn law_skipped_onsets_are_too_close(above: Seq<bool>, min_gap: nat, i: int)
    requires
        0 <= i < above.len(),
        above[i],
        !picked_onsets(above, min_gap).contains(i),
    ensures
        exists|j: int|
            0 <= j < picked_onsets(above, min_gap).len() && #[trigger] picked_onsets(
                above,
                min_gap,
            )[j] < i && i - picked_onsets(above, min_gap)[j] < min_gap,
    decreases above.len(),
{
    law_picked_onsets_are_spaced(above, min_gap);
    let prev = picked_onsets(above.drop_last(), min_gap);
    let cur = picked_onsets(above, min_gap);
    if i == above.len() - 1 {
        if prev.len() == 0 || i - prev.last() >= min_gap {
            assert(cur.last() == i);
            assert(cur.contains(i));
        }
        let j = prev.len() - 1;
        assert(cur[j] == prev[j]);
        law_picked_onsets_are_spaced(above.drop_last(), min_gap);
    } else {
        assert(above.drop_last()[i] == above[i]);
        if prev.contains(i) {
            let k = choose|k: int| 0 <= k < prev.len() && prev[k] == i;
            assert(cur[k] == prev[k]);
        }
        law_skipped_onsets_are_too_close(above.drop_last(), min_gap, i);
        let j = choose|j: int|
            0 <= j < prev.len() && #[trigger] prev[j] < i && i - prev[j] < min_gap;
        assert(cur[j] == prev[j]);
    }
}

} // verus!
