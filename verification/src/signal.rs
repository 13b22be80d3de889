//! Fixed-length windows over endless streams of samples.

use vstd::prelude::*;

verus! {

/// An endless stream of samples. Each call hands out the next sample and
/// moves the stream on by one; a stream never runs dry and is never rewound.
pub trait SampleSource {
    type Item;

    fn next_sample(&mut self) -> Self::Item;
}

/// Takes `count` samples from the source, in the order it produces them.
pub fn draw<S: SampleSource>(source: &mut S, count: usize) -> (fresh: Vec<S::Item>)
    ensures
        fresh@.len() == count,
{
    let mut fresh: Vec<S::Item> = Vec::new();
    let mut taken: usize = 0;
    while taken < count
        invariant
            taken <= count,
            fresh@.len() == taken,
        decreases count - taken,
    {
        let sample = source.next_sample();
        fresh.push(sample);
        taken = taken + 1;
    }
    fresh
}

/// The window after the oldest `fresh.len()` samples have left at the front
/// and `fresh` has joined at the back.
pub open spec fn slid<T>(window: Seq<T>, fresh: Seq<T>) -> Seq<T> {
    window.skip(fresh.len() as int) + fresh
}

/// The window after one slide for each batch of fresh samples, in order.
pub open spec fn slid_all<T>(window: Seq<T>, batches: Seq<Seq<T>>) -> Seq<T>
    decreases batches.len(),
{
    if batches.len() == 0 {
        window
    } else {
        slid(slid_all(window, batches.drop_last()), batches.last())
    }
}

/// A slide keeps the length of the window, and the samples that stay keep
/// their order at its front.
pub proof fn lemma_slid_keeps_rest<T>(window: Seq<T>, fresh: Seq<T>)
    requires
        fresh.len() <= window.len(),
    ensures
        slid(window, fresh).len() == window.len(),
        slid(window, fresh).subrange(0, window.len() - fresh.len()) == window.skip(
            fresh.len() as int,
        ),
        slid(window, fresh).skip(window.len() - fresh.len()) == fresh,
{
    let after = slid(window, fresh);
    assert(after.subrange(0, window.len() - fresh.len()) =~= window.skip(fresh.len() as int));
    assert(after.skip(window.len() - fresh.len()) =~= fresh);
}

/// However many ticks pass, each bringing `step` fresh samples to a window
/// of at least `step` samples, the window has the length it started with.
pub proof fn lemma_window_length_constant<T>(window: Seq<T>, batches: Seq<Seq<T>>, step: nat)
    requires
        step <= window.len(),
        forall|i: int| 0 <= i < batches.len() ==> (#[trigger] batches[i]).len() == step,
    ensures
        slid_all(window, batches).len() == window.len(),
    decreases batches.len(),
{
    if batches.len() > 0 {
        lemma_window_length_constant(window, batches.drop_last(), step);
        assert(batches.last() == batches[batches.len() - 1]);
    }
}

/// Drops as many of the oldest samples as there are fresh ones and appends
/// the fresh ones in their order.
pub fn slide<T>(window: &mut Vec<T>, fresh: Vec<T>)
    requires
        fresh@.len() <= old(window)@.len(),
    ensures
        final(window)@ == slid(old(window)@, fresh@),
        final(window)@.len() == old(window)@.len(),
{
    let count: usize = fresh.len();
    let mut dropped: usize = 0;
    while dropped < count
        invariant
            dropped <= count,
            count <= old(window)@.len(),
            window@ == old(window)@.skip(dropped as int),
        decreases count - dropped,
    {
        let _ = window.remove(0);
        dropped = dropped + 1;
        assert(window@ =~= old(window)@.skip(dropped as int));
    }
    let mut fresh = fresh;
    window.append(&mut fresh);
}

/// A stream together with a window of its most recent samples. Every tick
/// replaces the oldest `step` samples; the window never changes its length.
/// A signal is well formed when its window holds at least `step` samples.
pub struct Signal<S: SampleSource> {
    source: S,
    points: Vec<S::Item>,
    tick_rate: usize,
}

impl<S: SampleSource> Signal<S> {
    /// The window holds at least as many samples as a tick replaces.
    pub closed spec fn well_formed(&self) -> bool {
        self.tick_rate <= self.points@.len()
    }

    /// What well-formedness means in terms of window and step.
    pub proof fn lemma_well_formed(&self)
        ensures
            self.well_formed() <==> self.step() <= self.window().len(),
    {
    }

    /// The samples in the window, oldest first.
    pub closed spec fn window(&self) -> Seq<S::Item> {
        self.points@
    }

    /// The number of samples replaced per tick.
    pub closed spec fn step(&self) -> nat {
        self.tick_rate as nat
    }

    /// A signal whose window holds the first `window_len` samples of the
    /// source and moves by `tick_rate` samples per tick.
    pub fn new(source: S, window_len: usize, tick_rate: usize) -> (signal: Self)
        requires
            tick_rate <= window_len,
        ensures
            signal.well_formed(),
            signal.window().len() == window_len,
            signal.step() == tick_rate,
    {
        let mut source = source;
        let points = draw(&mut source, window_len);
        Signal { source, points, tick_rate }
    }

    /// The samples in the window, oldest first.
    pub fn points(&self) -> (points: &Vec<S::Item>)
        ensures
            points@ == self.window(),
    {
        &self.points
    }

    /// The number of samples replaced per tick.
    pub fn tick_rate(&self) -> (rate: usize)
        ensures
            rate == self.step(),
    {
        self.tick_rate
    }

    /// Moves the window on by one tick: the oldest `step` samples leave, the
    /// rest move to the front in their order, and the next `step` samples of
    /// the source fill the back. The length of the window stays as it was.
    pub fn on_tick(&mut self)
        requires
            old(self).well_formed(),
        ensures
            final(self).well_formed(),
            final(self).step() == old(self).step(),
            final(self).window().len() == old(self).window().len(),
            final(self).window().subrange(0, old(self).window().len() - old(self).step())
                == old(self).window().skip(old(self).step() as int),
    {
        let fresh = draw(&mut self.source, self.tick_rate);
        slide(&mut self.points, fresh);
        assert(self.points@.subrange(0, old(self).points@.len() - old(self).tick_rate)
            =~= old(self).points@.skip(old(self).tick_rate as int));
    }
}

/// Two signals drawn over one shared stretch of the x-axis, which moves on
/// by one unit per tick.
pub struct Signals<S: SampleSource> {
    pub sin1: Signal<S>,
    pub sin2: Signal<S>,
    pub window: (u64, u64),
}

impl<S: SampleSource> Signals<S> {
    /// Ticks both signals and moves both ends of the x-axis stretch up by one.
    pub fn on_tick(&mut self)
        requires
            old(self).sin1.well_formed(),
            old(self).sin2.well_formed(),
            old(self).window.0 < u64::MAX,
            old(self).window.1 < u64::MAX,
        ensures
            final(self).window == (
                (old(self).window.0 + 1) as u64,
                (old(self).window.1 + 1) as u64,
            ),
            ticked(old(self).sin1, final(self).sin1),
            ticked(old(self).sin2, final(self).sin2),
    {
        self.sin1.on_tick();
        self.sin2.on_tick();
        self.window = (self.window.0 + 1, self.window.1 + 1);
    }
}

/// What one tick does to a signal: step and window length stay, and the
/// samples that were not dropped now stand at the front, in their order.
pub open spec fn ticked<S: SampleSource>(before: Signal<S>, after: Signal<S>) -> bool {
    &&& after.well_formed()
    &&& after.step() == before.step()
    &&& after.window().len() == before.window().len()
    &&& after.window().subrange(0, before.window().len() - before.step())
        == before.window().skip(before.step() as int)
}

} // verus!
