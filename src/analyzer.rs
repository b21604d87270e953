//! The stream analyzer: samples arrive one at a time into a rolling window;
//! on request, a frame is derived afresh from the window's spectrum.
//!
//! The spectrum itself is computed by the caller from `frame_window`; it is
//! handed back as `(bucket index, fixed-point magnitude)` points to
//! `get_frame`, which re-buckets them and lays out the bars.
use vstd::prelude::*;
use crate::buckets::{add_all, zeros, LogFrequenciesContainer};
use crate::pow2::is_next_pow2;
use crate::render::{Frame, Visualizer};
use crate::rolling::{push_window, RollingSampleBuffer};

verus! {

/// Why no spectrum can be computed.
#[derive(Clone, Copy, Debug, PartialEq, Eq, Structural)]
pub enum AnalysisError {
    /// The window holds no samples.
    EmptyInput,
}

pub struct AudioAnalyzer<T, V> {
    buffer: RollingSampleBuffer<T>,
    visualizer: Option<V>,
    frequencies: LogFrequenciesContainer,
    cnt: usize,
}

impl<T, V: Visualizer> AudioAnalyzer<T, V> {
    pub closed spec fn wf(&self) -> bool {
        &&& self.buffer.wf()
        &&& self.visualizer matches Some(v) ==> v.fits(self.frequencies@.len())
    }

    /// The samples currently in the window, oldest first.
    pub closed spec fn window(&self) -> Seq<T> {
        self.buffer@
    }

    /// The window's capacity.
    pub closed spec fn window_capacity(&self) -> nat {
        self.buffer.cap()
    }

    /// The current bucket values.
    pub closed spec fn buckets(&self) -> Seq<u64> {
        self.frequencies@
    }

    /// How many samples have been pushed (held at `usize::MAX`).
    pub closed spec fn count(&self) -> nat {
        self.cnt as nat
    }

    pub closed spec fn visualizer_spec(&self) -> Option<V> {
        self.visualizer
    }

    /// An analyzer whose window holds `buffer_size` samples rounded up to a
    /// power of two. Without a visualizer it only tracks samples.
    pub fn new(
        buffer_size: usize,
        visualizer: Option<V>,
        frequency_container: LogFrequenciesContainer,
    ) -> (r: Self)
        requires
            buffer_size <= usize::MAX / 2 + 1,
            visualizer matches Some(v) ==> v.fits(frequency_container@.len()),
        ensures
            r.wf(),
            r.window() == Seq::<T>::empty(),
            is_next_pow2(buffer_size as nat, r.window_capacity()),
            1 <= r.window_capacity(),
            r.buckets() == frequency_container@,
            r.count() == 0,
            r.visualizer_spec() == visualizer,
    {
        AudioAnalyzer {
            buffer: RollingSampleBuffer::new(buffer_size),
            visualizer,
            frequencies: frequency_container,
            cnt: 0,
        }
    }

    /// The window never holds more than its capacity, which is at least 1.
    pub proof fn lemma_window_bounded(&self)
        requires
            self.wf(),
        ensures
            self.window().len() <= self.window_capacity(),
            1 <= self.window_capacity(),
    {
        self.buffer.lemma_bounded();
    }

    /// Takes one sample into the window and advances the progress count.
    pub fn push_audio(&mut self, byte: T)
        requires
            old(self).wf(),
        ensures
            final(self).wf(),
            final(self).window() == push_window(
                old(self).window(),
                byte,
                old(self).window_capacity(),
            ),
            final(self).window_capacity() == old(self).window_capacity(),
            final(self).window().len() <= final(self).window_capacity(),
            final(self).count() == if old(self).count() == usize::MAX {
                usize::MAX as nat
            } else {
                old(self).count() + 1
            },
            final(self).buckets() == old(self).buckets(),
            final(self).visualizer_spec() == old(self).visualizer_spec(),
    {
        self.cnt = self.cnt.saturating_add(1);
        self.buffer.push(byte);
    }

    /// How many samples have been pushed.
    pub fn progress(&self) -> (r: usize)
        ensures
            r == self.count(),
    {
        self.cnt
    }

    /// The current bucket values.
    pub fn buckets_snapshot(&self) -> (r: Vec<u64>)
        ensures
            r@ == self.buckets(),
    {
        self.frequencies.values().clone()
    }

    /// Ends the stream: true when a visualizer is attached, whose display
    /// resources the caller then releases (once).
    pub fn off(&self) -> (r: bool)
        ensures
            r == self.visualizer_spec().is_some(),
    {
        self.visualizer.is_some()
    }

    /// Clears the buckets, then adds each `(bucket index, magnitude)` point.
    pub fn update_frequencies(&mut self, points: &Vec<(usize, u64)>)
        requires
            old(self).wf(),
        ensures
            final(self).wf(),
            final(self).buckets() == add_all(zeros(old(self).buckets().len()), points@),
            final(self).buckets().len() == old(self).buckets().len(),
            final(self).window() == old(self).window(),
            final(self).window_capacity() == old(self).window_capacity(),
            final(self).count() == old(self).count(),
            final(self).visualizer_spec() == old(self).visualizer_spec(),
    {
        self.frequencies.clear();
        self.frequencies.update_all(points);
        proof {
            lemma_add_all_keeps_len(zeros(old(self).buckets().len()), points@);
        }
    }

    /// The frame for the current spectrum `points`: `Ok(None)` without a
    /// visualizer and `Err(EmptyInput)` when the window is empty, and in both
    /// cases nothing changes. Otherwise the buckets are rebuilt from `points`
    /// and laid out as bars.
    pub fn get_frame(&mut self, points: &Vec<(usize, u64)>) -> (r: Result<
        Option<Frame>,
        AnalysisError,
    >)
        requires
            old(self).wf(),
        ensures
            final(self).wf(),
            final(self).window() == old(self).window(),
            final(self).window_capacity() == old(self).window_capacity(),
            final(self).count() == old(self).count(),
            final(self).visualizer_spec() == old(self).visualizer_spec(),
            final(self).buckets().len() == old(self).buckets().len(),
            old(self).visualizer_spec().is_none() ==> r matches Ok(None),
            old(self).visualizer_spec().is_some() && old(self).window().len() == 0 ==> r
                == Err::<Option<Frame>, AnalysisError>(AnalysisError::EmptyInput),
            !(old(self).visualizer_spec().is_some() && old(self).window().len() > 0)
                ==> final(self).buckets() == old(self).buckets(),
            old(self).visualizer_spec().is_some() && old(self).window().len() > 0 ==> (r matches Ok(
                Some(f),
            ) && final(self).buckets() == add_all(zeros(old(self).buckets().len()), points@)
                && old(self).visualizer_spec().unwrap().is_frame_of(final(self).buckets(), f)),
    {
        if self.visualizer.is_none() {
            return Ok(None);
        }
        if self.buffer.len() == 0 {
            return Err(AnalysisError::EmptyInput);
        }
        self.update_frequencies(points);
        match &self.visualizer {
            Some(v) => Ok(Some(v.next_frame(self.frequencies.values()))),
            None => Ok(None),
        }
    }
}

impl<T: Copy, V: Visualizer> AudioAnalyzer<T, V> {
    /// The samples the spectrum of the next frame is computed over: `Ok(None)`
    /// without a visualizer, `Err(EmptyInput)` when the window is empty.
    pub fn frame_window(&self) -> (r: Result<Option<Vec<T>>, AnalysisError>)
        requires
            self.wf(),
        ensures
            self.visualizer_spec().is_none() ==> r == Ok::<Option<Vec<T>>, AnalysisError>(None),
            self.visualizer_spec().is_some() && self.window().len() == 0 ==> r
                == Err::<Option<Vec<T>>, AnalysisError>(AnalysisError::EmptyInput),
            self.visualizer_spec().is_some() && self.window().len() > 0 ==> (r matches Ok(Some(w))
                && w@ == self.window()),
    {
        if self.visualizer.is_none() {
            Ok(None)
        } else if self.buffer.len() == 0 {
            Err(AnalysisError::EmptyInput)
        } else {
            Ok(Some(self.buffer.snapshot()))
        }
    }
}

/// A frame is due at sample index `t` when `t` is a multiple of `step` and
/// the window has filled past `warmup` samples.
pub fn frame_due(t: usize, step: usize, warmup: usize) -> (r: bool)
    requires
        step > 0,
    ensures
        r == (t % step == 0 && t > warmup),
{
    t % step == 0 && t > warmup
}

/// Adding points never changes the number of buckets.
pub proof fn lemma_add_all_keeps_len(b: Seq<u64>, points: Seq<(usize, u64)>)
    ensures
        add_all(b, points).len() == b.len(),
    decreases points.len(),
{
    if points.len() > 0 {
        lemma_add_all_keeps_len(b, points.drop_last());
    }
}

} // verus!
