//! What holds of every run of the decorator and of every frame.
use vstd::prelude::*;
use crate::progress::{run, Bounded, ProgressDisplay, Unbounded};
use crate::render::{bar_frame, blank_count, bracket_frame, counter_frame, filled_segments, marker_frame, percent};

verus! {

/// Pulling a sequence of `n` items to exhaustion draws `n + 1` frames: the
/// `i`-th item comes out unchanged and in order, with the frame for count
/// `start + i`, and the pull that finds the sequence empty draws the frame for
/// `start + n`.
pub proof fn lemma_run_frames<B: ProgressDisplay, T>(mode: B, markers: bool, start: nat, items: Seq<T>)
    ensures
        run(mode, markers, start, items).len() == items.len() + 1,
        forall|i: int|
            0 <= i < items.len() ==> #[trigger] run(mode, markers, start, items)[i] == (
            mode.frame(start + i as nat, markers),
            Some(items[i]),
        ),
        run(mode, markers, start, items)[items.len() as int] == (
            mode.frame(start + items.len(), markers),
            None::<T>,
        ),
    decreases items.len(),
{
    if items.len() > 0 {
        let rest = items.drop_first();
        lemma_run_frames(mode, markers, start + 1, rest);
        assert forall|i: int| 0 <= i < items.len() implies #[trigger] run(mode, markers, start, items)[i]
            == (mode.frame(start + i as nat, markers), Some(items[i])) by {
            if i > 0 {
                assert(run(mode, markers, start, items)[i] == run(mode, markers, start + 1, rest)[i - 1]);
                assert(start + 1 + (i - 1) as nat == start + i as nat);
            }
        }
        assert(run(mode, markers, start, items)[items.len() as int] == run(mode, markers, start + 1, rest)[rest.len() as int]);
    }
}

/// Without a bound, the first `k` pulls of any longer (or endless) sequence
/// draw the counts `0 .. k` and hand out its first `k` items; no total enters
/// the frames.
pub proof fn lemma_unbounded_prefix<T>(markers: bool, items: Seq<T>, k: nat)
    requires
        k <= items.len(),
    ensures
        forall|i: int|
            0 <= i < k ==> #[trigger] run(Unbounded, markers, 0, items)[i] == (
            if markers {
                marker_frame(i as nat)
            } else {
                counter_frame(i as nat)
            },
            Some(items[i]),
        ),
{
    lemma_run_frames(Unbounded, markers, 0, items);
}

/// With the bound taken from the sequence itself, the frame drawn with its
/// last item shows count `n - 1` of `n`: the bar is never full there, and the
/// percentage stays under a hundred while rounding cannot lift it there.
pub proof fn lemma_last_item_frame<T>(mode: Bounded, items: Seq<T>)
    requires
        items.len() == mode.total_spec(),
        items.len() > 0,
    ensures
        ({
            let n = items.len();
            let w = mode.style_spec().total_length as nat;
            &&& run(mode, false, 0, items)[n - 1] == (
                bar_frame(
                    (n - 1) as nat,
                    n,
                    mode.style_spec().filled_char,
                    mode.style_spec().unfilled_char,
                    w,
                ),
                Some(items[n - 1]),
            )
            &&& run(mode, true, 0, items)[n - 1].0 == bracket_frame(
                (n - 1) as nat,
                n,
                mode.frame_delimiters().0,
                mode.frame_delimiters().1,
            )
            &&& 100 * (n - 1) < 100 * n
            &&& n < 200 ==> percent((n - 1) as nat, n) < 100
            &&& w > 0 ==> filled_segments((n - 1) as nat, n, w) < w
        }),
{
    let n = items.len();
    let w = mode.style_spec().total_length as nat;
    lemma_run_frames(mode, false, 0, items);
    lemma_run_frames(mode, true, 0, items);
    assert(run(mode, false, 0, items)[n - 1] == (mode.frame((n - 1) as nat, false), Some(items[n - 1])));
    assert(run(mode, true, 0, items)[n - 1].0 == mode.frame((n - 1) as nat, true));
    let c = (n - 1) as nat;
    if n < 200 {
        let q = 100 * c / n;
        let r = 100 * c % n;
        assert(100 * c == 100 * n - 100);
        assert(q <= 99 && (q == 99 ==> r == n - 100)) by (nonlinear_arith)
            requires
                q == 100 * c / n,
                r == 100 * c % n,
                100 * c == 100 * n - 100,
                n > 0,
        ;
        if q == 99 {
            assert(2 * r < n);
        }
    }
    if w > 0 {
        assert(c * w / n < w) by (nonlinear_arith)
            requires
                c + 1 == n,
                w > 0,
        ;
    }
}

/// Segments and padding never go negative: the bar never holds more filled
/// segments than its width, and once the count reaches the total the bar is
/// full and no blank markers remain.
pub proof fn lemma_clamped(count: nat, total: nat, width: nat)
    ensures
        filled_segments(count, total, width) <= width,
        blank_count(count, total) <= total,
        count >= total ==> filled_segments(count, total, width) == width,
        count >= total ==> blank_count(count, total) == 0,
{
    if count >= total && total > 0 {
        assert(count * width / total >= width) by (nonlinear_arith)
            requires
                count >= total,
                total > 0,
        ;
    }
}

} // verus!
