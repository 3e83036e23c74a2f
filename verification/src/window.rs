//! Bounded bar history feeding the indicator computations, and the index
//! spans over it that each indicator reads.
use vstd::prelude::*;
use std::collections::VecDeque;

verus! {

/// The history after appending `bar` to `s` and dropping the oldest bar
/// if the history then holds more than `max` bars.
pub open spec fn window_push<B>(s: Seq<B>, bar: B, max: nat) -> Seq<B> {
    if s.len() + 1 > max {
        s.push(bar).drop_first()
    } else {
        s.push(bar)
    }
}

/// A half-open range `start..end` of bar positions, oldest bar first.
#[derive(Debug, Clone, Copy, PartialEq, Eq, Structural)]
pub struct Span {
    pub start: usize,
    pub end: usize,
}

/// The bar positions the relative-strength index reads when evaluated over
/// the first `end` bars: the seed average over `start+1..=first_end`, then
/// smoothing over `first_end+1..end`.
#[derive(Debug, Clone, Copy, PartialEq, Eq, Structural)]
pub struct RsiSpan {
    pub start: usize,
    pub first_end: usize,
    pub end: usize,
}

/// The RSI span for `period` over the first `end` of `len` bars, if there
/// are enough bars.
pub open spec fn rsi_span_spec(len: int, period: int, end: int) -> Option<(int, int, int)> {
    if end < period + 1 || end > len {
        None
    } else {
        let first_end = if end > period * 2 {
            end - period
        } else {
            period + 1
        };
        Some((first_end - period, first_end, end))
    }
}

/// A bounded history of bars: pushing beyond the capacity drops the
/// oldest bar.
pub struct Indicators<B> {
    bars: VecDeque<B>,
    max_bars: usize,
}

impl<B> View for Indicators<B> {
    type V = Seq<B>;

    closed spec fn view(&self) -> Seq<B> {
        self.bars@
    }
}

impl<B> Indicators<B> {
    /// The most bars the history keeps.
    pub closed spec fn capacity(&self) -> nat {
        self.max_bars as nat
    }

    #[verifier::type_invariant]
    closed spec fn inv(self) -> bool {
        self.bars@.len() <= self.max_bars
    }

    /// An empty history keeping up to 500 bars.
    pub fn new() -> (r: Self)
        ensures
            r@ == Seq::<B>::empty(),
            r.capacity() == 500,
    {
        Indicators { bars: VecDeque::new(), max_bars: 500 }
    }

    /// An empty history keeping up to `max_bars` bars.
    pub fn with_capacity(max_bars: usize) -> (r: Self)
        ensures
            r@ == Seq::<B>::empty(),
            r.capacity() == max_bars,
    {
        Indicators { bars: VecDeque::new(), max_bars }
    }

    /// Appends a bar, dropping the oldest one if the capacity is exceeded.
    pub fn push(&mut self, bar: B)
        ensures
            final(self)@ == window_push(old(self)@, bar, old(self).capacity()),
            final(self).capacity() == old(self).capacity(),
    {
        proof {
            use_type_invariant(&*self);
        }
        let mut bars = VecDeque::new();
        std::mem::swap(&mut bars, &mut self.bars);
        bars.push_back(bar);
        if bars.len() > self.max_bars {
            bars.pop_front();
        }
        self.bars = bars;
    }

    /// Number of bars held.
    pub fn len(&self) -> (n: usize)
        ensures
            n == self@.len(),
    {
        self.bars.len()
    }

    /// The bars held, oldest first.
    pub fn bars(&self) -> (r: &VecDeque<B>)
        ensures
            r@ == self@,
    {
        &self.bars
    }

    /// The most recent bar, if any.
    pub fn last(&self) -> (r: Option<&B>)
        ensures
            r == (if self@.len() == 0 {
                None
            } else {
                Some(&self@.last())
            }),
    {
        let n = self.bars.len();
        if n == 0 {
            None
        } else {
            Some(&self.bars[n - 1])
        }
    }

    /// The span of the most recent `count` bars, if at least that many are held.
    /// The true range, average true range, average volume and trend strength
    /// read such a tail of the history.
    pub fn tail_span(&self, count: usize) -> (r: Option<Span>)
        ensures
            r is Some <==> self@.len() >= count,
            r is Some ==> r->0.start == self@.len() - count && r->0.end == self@.len(),
    {
        let n = self.bars.len();
        if n < count {
            None
        } else {
            Some(Span { start: n - count, end: n })
        }
    }

    /// The positions read by the relative-strength index over the first
    /// `end` bars, or `None` when fewer than `period + 1` bars are available.
    pub fn rsi_span(&self, period: usize, end: usize) -> (r: Option<RsiSpan>)
        requires
            period < usize::MAX,
        ensures
            r is Some <==> rsi_span_spec(self@.len() as int, period as int, end as int) is Some,
            r matches Some(s) ==> rsi_span_spec(self@.len() as int, period as int, end as int)
                == Some((s.start as int, s.first_end as int, s.end as int)),
    {
        let n = self.bars.len();
        if end < period + 1 || end > n {
            return None;
        }
        let first_end = if end - period > period {
            end - period
        } else {
            period + 1
        };
        Some(RsiSpan { start: first_end - period, first_end, end })
    }

    /// The end position for the previous bar's relative-strength index, or
    /// `None` when fewer than `period + 2` bars are held.
    pub fn rsi_prev_end(&self, period: usize) -> (r: Option<usize>)
        requires
            period < usize::MAX - 1,
        ensures
            r is Some <==> self@.len() >= period + 2,
            r is Some ==> r->0 == self@.len() - 1,
    {
        let n = self.bars.len();
        if n < period + 2 {
            None
        } else {
            Some(n - 1)
        }
    }
}

/// A history never holds more bars than its capacity, and after a push the
/// newest bar is the one pushed (for a non-zero capacity).
pub proof fn lemma_window_push_bounded<B>(s: Seq<B>, bar: B, max: nat)
    requires
        s.len() <= max,
    ensures
        window_push(s, bar, max).len() <= max,
        max > 0 ==> window_push(s, bar, max).last() == bar,
        max > 0 ==> window_push(s, bar, max).len() == if s.len() < max { s.len() + 1 } else { max },
{
}

/// Pushing keeps the most recent bars in order: the new history is the
/// old history followed by the new bar, minus the oldest bar when full.
pub proof fn lemma_window_push_suffix<B>(s: Seq<B>, bar: B, max: nat)
    requires
        s.len() <= max,
    ensures
        window_push(s, bar, max) == s.push(bar).skip(s.len() + 1 - window_push(s, bar, max).len()),
{
    assert(s.push(bar).skip(0) =~= s.push(bar));
    assert(s.push(bar).skip(1) =~= s.push(bar).drop_first());
}

} // verus!
