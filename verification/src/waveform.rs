//! The sample history behind a waveform display: two channels, each a
//! window over the latest samples.

use vstd::prelude::*;
use std::collections::VecDeque;

verus! {

/// A new sample for one of the two channels.
pub enum WaveformViewEvent<T> {
    AddSample1(T),
    AddSample2(T),
}

/// The histories of the two channels and the number of samples that a
/// display spans. A new view holds exactly that many samples in each
/// history and keeps doing so, however many come in; with a span of zero a
/// history holds the newest sample, once there is one.
pub struct WaveformView<T> {
    buffer1: VecDeque<T>,
    buffer2: VecDeque<T>,
    max_samples: usize,
}

/// The histories as mathematical values, oldest sample first.
pub struct WaveformHistory<T> {
    pub buffer1: Seq<T>,
    pub buffer2: Seq<T>,
    pub max_samples: nat,
}

impl<T> View for WaveformView<T> {
    type V = WaveformHistory<T>;

    closed spec fn view(&self) -> WaveformHistory<T> {
        WaveformHistory {
            buffer1: self.buffer1@,
            buffer2: self.buffer2@,
            max_samples: self.max_samples as nat,
        }
    }
}

/// Whether a window spans `max_samples` samples; a window without span may
/// hold one sample.
pub open spec fn spans<T>(buffer: Seq<T>, max_samples: nat) -> bool {
    buffer.len() == max_samples || (max_samples == 0 && buffer.len() == 1)
}

/// A window after a sample has come in: the sample is the newest, and the
/// oldest has left if the window held `max_samples` or more.
pub open spec fn pushed<T>(buffer: Seq<T>, max_samples: nat, sample: T) -> Seq<T> {
    if buffer.len() >= max_samples && buffer.len() > 0 {
        buffer.skip(1).push(sample)
    } else {
        buffer.push(sample)
    }
}

impl<T> WaveformHistory<T> {
    /// Whether both channels span `max_samples` samples.
    pub open spec fn wf(self) -> bool {
        spans(self.buffer1, self.max_samples) && spans(self.buffer2, self.max_samples)
    }

    /// Both channels filled with `silence` over the whole span.
    pub open spec fn silent(max_samples: nat, silence: T) -> WaveformHistory<T> {
        WaveformHistory {
            buffer1: Seq::new(max_samples, |i: int| silence),
            buffer2: Seq::new(max_samples, |i: int| silence),
            max_samples,
        }
    }

    /// The histories after an event: the sample enters its channel, the
    /// other channel stays.
    pub open spec fn step(self, event: WaveformViewEvent<T>) -> WaveformHistory<T> {
        match event {
            WaveformViewEvent::AddSample1(sample) => WaveformHistory {
                buffer1: pushed(self.buffer1, self.max_samples, sample),
                ..self
            },
            WaveformViewEvent::AddSample2(sample) => WaveformHistory {
                buffer2: pushed(self.buffer2, self.max_samples, sample),
                ..self
            },
        }
    }
}

/// Pushes `sample` into `buffer`, letting the oldest sample go if the buffer
/// holds `max_samples` or more.
fn push_sample<T>(buffer: &mut VecDeque<T>, max_samples: usize, sample: T)
    ensures
        final(buffer)@ == pushed(old(buffer)@, max_samples as nat, sample),
{
    if buffer.len() >= max_samples {
        let _ = buffer.pop_front();
    }
    buffer.push_back(sample);
}

/// A buffer of `count` copies of `value`.
fn filled<T: Copy>(count: usize, value: T) -> (buffer: VecDeque<T>)
    ensures
        buffer@ == Seq::new(count as nat, |i: int| value),
{
    let mut buffer: VecDeque<T> = VecDeque::new();
    let mut i: usize = 0;
    while i < count
        invariant
            i <= count,
            buffer@ == Seq::new(i as nat, |k: int| value),
        decreases count - i,
    {
        buffer.push_back(value);
        i += 1;
    }
    buffer
}

impl<T: Copy> WaveformView<T> {
    /// Histories that span `max_samples` samples, both filled with
    /// `silence`.
    pub fn new(max_samples: usize, silence: T) -> (view: WaveformView<T>)
        ensures
            view@ == WaveformHistory::silent(max_samples as nat, silence),
            view@.wf(),
    {
        WaveformView {
            buffer1: filled(max_samples, silence),
            buffer2: filled(max_samples, silence),
            max_samples,
        }
    }
}

impl<T> WaveformView<T> {
    /// Pushes a sample into the first channel.
    pub fn push_sample1(&mut self, sample: T)
        ensures
            final(self)@ == old(self)@.step(WaveformViewEvent::AddSample1(sample)),
            old(self)@.wf() ==> final(self)@.wf(),
    {
        push_sample(&mut self.buffer1, self.max_samples, sample);
    }

    /// Pushes a sample into the second channel.
    pub fn push_sample2(&mut self, sample: T)
        ensures
            final(self)@ == old(self)@.step(WaveformViewEvent::AddSample2(sample)),
            old(self)@.wf() ==> final(self)@.wf(),
    {
        push_sample(&mut self.buffer2, self.max_samples, sample);
    }

    /// Applies one event. The display is to be drawn anew after each.
    pub fn event(&mut self, event: WaveformViewEvent<T>)
        ensures
            final(self)@ == old(self)@.step(event),
            old(self)@.wf() ==> final(self)@.wf(),
    {
        match event {
            WaveformViewEvent::AddSample1(sample) => self.push_sample1(sample),
            WaveformViewEvent::AddSample2(sample) => self.push_sample2(sample),
        }
    }

    /// The history of the first channel, oldest sample first.
    pub fn buffer1(&self) -> (buffer: &VecDeque<T>)
        ensures
            buffer@ == self@.buffer1,
    {
        &self.buffer1
    }

    /// The history of the second channel, oldest sample first.
    pub fn buffer2(&self) -> (buffer: &VecDeque<T>)
        ensures
            buffer@ == self@.buffer2,
    {
        &self.buffer2
    }

    /// The number of samples that a display spans.
    pub fn max_samples(&self) -> (max_samples: usize)
        ensures
            max_samples == self@.max_samples,
    {
        self.max_samples
    }
}

/// A window that holds exactly its span, and at least one sample, keeps its
/// length when a sample comes in: every sample moves one place towards the
/// front, the oldest leaves and the new one is last.
pub proof fn full_window_slides<T>(buffer: Seq<T>, max_samples: nat, sample: T)
    requires
        buffer.len() == max_samples,
        max_samples > 0,
    ensures
        pushed(buffer, max_samples, sample).len() == max_samples,
        pushed(buffer, max_samples, sample).last() == sample,
        forall|i: int|
            0 <= i < max_samples - 1 ==> #[trigger] pushed(buffer, max_samples, sample)[i]
                == buffer[i + 1],
{
}

/// A window that spans its samples still does after a sample has come in,
/// and the sample is its newest.
pub proof fn window_keeps_its_span<T>(buffer: Seq<T>, max_samples: nat, sample: T)
    requires
        spans(buffer, max_samples),
    ensures
        spans(pushed(buffer, max_samples, sample), max_samples),
        pushed(buffer, max_samples, sample).last() == sample,
{
}

} // verus!
