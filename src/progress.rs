//! The progress decorator: a counter and a rendering mode wrapped around an
//! iterator, with the builder steps that configure it.
use vstd::prelude::*;
use vstd::std_specs::iter::IteratorSpec;
use crate::render::{
    bar_frame, bar_line, bracket_frame, bracket_line, counter_frame, counter_line, marker_frame,
    marker_line,
};

verus! {

/// Escape sequence that clears the terminal and homes the cursor; written
/// before every frame.
pub const CLEAR: &'static str = "\x1B[2J\x1B[1;1H";

/// Rendering mode with no known total: frames show the running count.
#[derive(Clone, Copy, Debug)]
pub struct Unbounded;

/// Characters and width of the percentage bar.
#[derive(Clone, Copy, Debug, PartialEq, Eq, Structural)]
pub struct ProgressBarStyle {
    pub filled_char: char,
    pub unfilled_char: char,
    pub total_length: usize,
}

impl ProgressBarStyle {
    pub fn new(filled_char: char, unfilled_char: char, total_length: usize) -> (r: Self)
        ensures
            r == (ProgressBarStyle { filled_char, unfilled_char, total_length }),
    {
        ProgressBarStyle { filled_char, unfilled_char, total_length }
    }
}

/// The default bar: fifty full blocks wide, blank where unfilled.
pub open spec fn default_style() -> ProgressBarStyle {
    ProgressBarStyle { filled_char: '\u{2588}', unfilled_char: ' ', total_length: 50 }
}

impl Default for ProgressBarStyle {
    fn default() -> (r: Self)
        ensures
            r == default_style(),
    {
        ProgressBarStyle { filled_char: '\u{2588}', unfilled_char: ' ', total_length: 50 }
    }
}

/// Rendering mode with a known total: frames show a bar.
#[derive(Clone, Copy, Debug)]
pub struct Bounded {
    bound: usize,
    delimiters: Option<(char, char)>,
    progress_bar_style: ProgressBarStyle,
}

impl Bounded {
    /// The total fixed when the bound was attached.
    pub closed spec fn total_spec(&self) -> nat {
        self.bound as nat
    }

    /// The delimiters set by `with_delimiters`, if any.
    pub closed spec fn delimiters_spec(&self) -> Option<(char, char)> {
        self.delimiters
    }

    /// The style of the percentage bar.
    pub closed spec fn style_spec(&self) -> ProgressBarStyle {
        self.progress_bar_style
    }

    /// The delimiters framing the marker line: `[` and `]` unless set.
    pub open spec fn frame_delimiters(&self) -> (char, char) {
        match self.delimiters_spec() {
            Some(d) => d,
            None => ('[', ']'),
        }
    }

    pub fn with_progress_bar_style(self, style: ProgressBarStyle) -> (r: Self)
        ensures
            r.total_spec() == self.total_spec(),
            r.delimiters_spec() == self.delimiters_spec(),
            r.style_spec() == style,
    {
        Bounded { progress_bar_style: style, ..self }
    }
}

/// A rendering mode: how a frame is drawn for a given count.
pub trait ProgressDisplay: Sized {
    /// The frame for `count`; `markers` selects the marker-line layout.
    spec fn frame(&self, count: nat, markers: bool) -> Seq<char>;

    fn display(&self, count: usize, markers: bool) -> (r: String)
        ensures
            r@ == self.frame(count as nat, markers),
    ;
}

impl ProgressDisplay for Unbounded {
    open spec fn frame(&self, count: nat, markers: bool) -> Seq<char> {
        if markers {
            marker_frame(count)
        } else {
            counter_frame(count)
        }
    }

    fn display(&self, count: usize, markers: bool) -> (r: String) {
        if markers {
            marker_line(count)
        } else {
            counter_line(count)
        }
    }
}

impl ProgressDisplay for Bounded {
    open spec fn frame(&self, count: nat, markers: bool) -> Seq<char> {
        if markers {
            bracket_frame(count, self.total_spec(), self.frame_delimiters().0, self.frame_delimiters().1)
        } else {
            bar_frame(
                count,
                self.total_spec(),
                self.style_spec().filled_char,
                self.style_spec().unfilled_char,
                self.style_spec().total_length as nat,
            )
        }
    }

    fn display(&self, count: usize, markers: bool) -> (r: String) {
        if markers {
            let (open, close) = match self.delimiters {
                Some(d) => d,
                None => ('[', ']'),
            };
            bracket_line(count, self.bound, open, close)
        } else {
            bar_line(
                count,
                self.bound,
                self.progress_bar_style.filled_char,
                self.progress_bar_style.unfilled_char,
                self.progress_bar_style.total_length,
            )
        }
    }
}

/// A progress decorator over `iter`: `count` items pulled so far, frames
/// drawn by `bound`, in the marker-line layout when `markers` is set.
pub struct Progress<Iter, Bound> {
    iter: Iter,
    count: usize,
    bound: Bound,
    markers: bool,
}

impl<Iter, Bound> Progress<Iter, Bound> {
    /// Pulls counted so far.
    pub closed spec fn count_spec(&self) -> nat {
        self.count as nat
    }

    /// The rendering mode.
    pub closed spec fn mode(&self) -> Bound {
        self.bound
    }

    /// Whether frames use the marker-line layout.
    pub closed spec fn markers_spec(&self) -> bool {
        self.markers
    }

    /// The wrapped iterator.
    pub closed spec fn source(&self) -> Iter {
        self.iter
    }

    /// The frame the next pull would draw.
    pub open spec fn next_frame(&self) -> Seq<char>
        where Bound: ProgressDisplay
    {
        self.mode().frame(self.count_spec(), self.markers_spec())
    }

    /// Switches frames to the marker-line layout.
    pub fn with_markers(self) -> (r: Self)
        ensures
            r.count_spec() == self.count_spec(),
            r.mode() == self.mode(),
            r.markers_spec(),
            r.source() == self.source(),
    {
        Progress { markers: true, ..self }
    }
}

impl<Iter> Progress<Iter, Unbounded> {
    pub fn new(iter: Iter) -> (r: Self)
        ensures
            r.count_spec() == 0,
            !r.markers_spec(),
            r.source() == iter,
    {
        Progress { iter, count: 0, bound: Unbounded, markers: false }
    }
}

/// Relies on ExactSizeIterator::len: the exact number of items the iterator
/// will still yield.
#[verifier::external_body]
fn items_left<I: ExactSizeIterator>(iter: &I) -> (r: usize)
    ensures
        iter.obeys_prophetic_iter_laws() ==> r == iter.remaining().len(),
{
    iter.len()
}

impl<Iter: ExactSizeIterator> Progress<Iter, Unbounded> {
    /// Attaches the number of items left as the total, with default
    /// delimiters and bar style.
    pub fn with_bound(self) -> (r: Progress<Iter, Bounded>)
        ensures
            r.count_spec() == self.count_spec(),
            r.markers_spec() == self.markers_spec(),
            r.source() == self.source(),
            self.source().obeys_prophetic_iter_laws() ==> r.mode().total_spec() == self.source().remaining().len(),
            r.mode().delimiters_spec() is None,
            r.mode().style_spec() == default_style(),
    {
        let bound = Bounded {
            bound: items_left(&self.iter),
            delimiters: None,
            progress_bar_style: ProgressBarStyle::default(),
        };
        Progress { iter: self.iter, count: self.count, bound, markers: self.markers }
    }
}

impl<Iter> Progress<Iter, Bounded> {
    /// Sets the characters framing the marker line, replacing earlier ones.
    pub fn with_delimiters(self, delimiters: (char, char)) -> (r: Self)
        ensures
            r.count_spec() == self.count_spec(),
            r.markers_spec() == self.markers_spec(),
            r.source() == self.source(),
            r.mode().total_spec() == self.mode().total_spec(),
            r.mode().style_spec() == self.mode().style_spec(),
            r.mode().delimiters_spec() == Some(delimiters),
    {
        let mut p = self;
        p.bound.delimiters = Some(delimiters);
        p
    }

    /// Sets the style of the percentage bar, replacing the earlier one.
    pub fn with_style(self, style: ProgressBarStyle) -> (r: Self)
        ensures
            r.count_spec() == self.count_spec(),
            r.markers_spec() == self.markers_spec(),
            r.source() == self.source(),
            r.mode().total_spec() == self.mode().total_spec(),
            r.mode().delimiters_spec() == self.mode().delimiters_spec(),
            r.mode().style_spec() == style,
    {
        let Progress { iter, count, bound, markers } = self;
        Progress { iter, count, bound: bound.with_progress_bar_style(style), markers }
    }
}

impl<Iter, Bound: ProgressDisplay> Progress<Iter, Bound> {
    /// Draws the frame for the current count, changing nothing.
    pub fn render(&self) -> (r: String)
        ensures
            r@ == self.next_frame(),
    {
        self.bound.display(self.count, self.markers)
    }

    /// Draws the frame for the current count, then counts one more pull.
    pub fn step(&mut self) -> (r: String)
        requires
            old(self).count_spec() < usize::MAX,
        ensures
            r@ == old(self).next_frame(),
            final(self).count_spec() == old(self).count_spec() + 1,
            final(self).mode() == old(self).mode(),
            final(self).markers_spec() == old(self).markers_spec(),
            final(self).source() == old(self).source(),
    {
        let r = self.bound.display(self.count, self.markers);
        self.count = self.count + 1;
        r
    }
}

impl<Iter: Iterator, Bound> Progress<Iter, Bound> {
    /// Pulls the next item from the wrapped iterator; the count is left as is.
    pub fn pull(&mut self) -> (r: Option<Iter::Item>)
        ensures
            final(self).count_spec() == old(self).count_spec(),
            final(self).mode() == old(self).mode(),
            final(self).markers_spec() == old(self).markers_spec(),
            old(self).source().obeys_prophetic_iter_laws() ==> {
                &&& final(self).source().obeys_prophetic_iter_laws()
                &&& if old(self).source().remaining().len() > 0 {
                    &&& r == Some(old(self).source().remaining()[0])
                    &&& final(self).source().remaining() == old(self).source().remaining().drop_first()
                } else {
                    &&& r is None
                    &&& final(self).source().remaining() == old(self).source().remaining()
                }
            },
    {
        self.iter.next()
    }
}

/// The frames and items of pulling `items` to exhaustion, starting at
/// `count`: one event per pull, the last one finding the iterator empty.
pub open spec fn run<B: ProgressDisplay, T>(mode: B, markers: bool, count: nat, items: Seq<T>) -> Seq<
    (Seq<char>, Option<T>),
>
    decreases items.len(),
{
    if items.len() == 0 {
        seq![(mode.frame(count, markers), None)]
    } else {
        seq![(mode.frame(count, markers), Some(items[0]))] + run(
            mode,
            markers,
            count + 1,
            items.drop_first(),
        )
    }
}

impl<Iter: Iterator, Bound: ProgressDisplay> Progress<Iter, Bound> {
    /// One pull of the decorator: draws the frame for the current count,
    /// counts the pull, then takes the next item.
    pub fn advance(&mut self) -> (r: (String, Option<Iter::Item>))
        requires
            old(self).count_spec() < usize::MAX,
        ensures
            r.0@ == old(self).next_frame(),
            final(self).count_spec() == old(self).count_spec() + 1,
            final(self).mode() == old(self).mode(),
            final(self).markers_spec() == old(self).markers_spec(),
            old(self).source().obeys_prophetic_iter_laws() ==> {
                let events = run(
                    old(self).mode(),
                    old(self).markers_spec(),
                    old(self).count_spec(),
                    old(self).source().remaining(),
                );
                &&& final(self).source().obeys_prophetic_iter_laws()
                &&& events[0] == (r.0@, r.1)
                &&& r.1 is Some ==> events == seq![(r.0@, r.1)] + run(
                    final(self).mode(),
                    final(self).markers_spec(),
                    final(self).count_spec(),
                    final(self).source().remaining(),
                )
            },
    {
        let frame = self.step();
        let item = self.pull();
        (frame, item)
    }
}

/// Wraps any iterator in a progress decorator.
pub trait ProgressIteratorExtention: Sized {
    fn progress(self) -> (r: Progress<Self, Unbounded>)
        ensures
            r.count_spec() == 0,
            !r.markers_spec(),
            r.source() == self,
    ;
}

impl<Iter: Iterator> ProgressIteratorExtention for Iter {
    fn progress(self) -> (r: Progress<Self, Unbounded>) {
        Progress::new(self)
    }
}

impl<Iter, Bound> Progress<Iter, Bound> {
    /// Pulls counted so far.
    pub fn count(&self) -> (r: usize)
        ensures
            r == self.count_spec(),
    {
        self.count
    }

    /// The rendering mode.
    pub fn bound(&self) -> (r: &Bound)
        ensures
            *r == self.mode(),
    {
        &self.bound
    }

    /// Whether frames use the marker-line layout.
    pub fn markers(&self) -> (r: bool)
        ensures
            r == self.markers_spec(),
    {
        self.markers
    }
}

impl Bounded {
    /// The total fixed when the bound was attached.
    pub fn total(&self) -> (r: usize)
        ensures
            r == self.total_spec(),
    {
        self.bound
    }

    /// The delimiters set by `with_delimiters`, if any.
    pub fn delimiters(&self) -> (r: Option<(char, char)>)
        ensures
            r == self.delimiters_spec(),
    {
        self.delimiters
    }

    /// The style of the percentage bar.
    pub fn style(&self) -> (r: &ProgressBarStyle)
        ensures
            *r == self.style_spec(),
    {
        &self.progress_bar_style
    }
}

} // verus!
