use vstd::prelude::*;
use crate::ir::pulse::{pulse_of_micros, Pulse};
use crate::ir::signal::{signal_of_pulses, Signal};
use std::collections::VecDeque;

verus! {

/// The pulses that remain queued after `pulse` arrived on top of
/// `queue`: a start pulse or an unrecognized pulse begins a new
/// sequence, and a sequence of 32 pulses is taken out for decoding.
pub open spec fn queue_after(queue: Seq<Pulse>, pulse: Pulse) -> Seq<Pulse> {
    let s = if pulse == Pulse::Start || pulse == Pulse::Unrecognized {
        Seq::<Pulse>::empty()
    } else {
        queue.push(pulse)
    };
    if s.len() == 32 {
        Seq::<Pulse>::empty()
    } else {
        s
    }
}

/// The signal that completes when `pulse` arrives on top of `queue`.
pub open spec fn signal_after(queue: Seq<Pulse>, pulse: Pulse) -> Option<Signal> {
    if pulse != Pulse::Start && pulse != Pulse::Unrecognized && queue.len() + 1 == 32 {
        Some(signal_of_pulses(queue.push(pulse)))
    } else {
        None
    }
}

/// Collects the pulses that an IR sensor on a GPIO pin sees and decodes
/// complete pulse sequences into signals.
pub struct IRPulseReader {
    gpio_pin: u32,
    pulse_seq: VecDeque<Pulse>,
}

impl IRPulseReader {
    /// The pin that the sensor is connected to.
    pub closed spec fn pin(&self) -> u32 {
        self.gpio_pin
    }

    /// The pulses of the sequence that is being received.
    pub closed spec fn pulses(&self) -> Seq<Pulse> {
        self.pulse_seq@
    }

    /// Between two pulses, the queue holds fewer than 32 pulses, all of
    /// them short or long.
    pub open spec fn wf(&self) -> bool {
        &&& self.pulses().len() < 32
        &&& forall|i: int|
            0 <= i < self.pulses().len() ==> (#[trigger] self.pulses()[i] == Pulse::Short
                || self.pulses()[i] == Pulse::Long)
    }

    pub fn new(gpio_pin: u32) -> (r: IRPulseReader)
        ensures
            r.pin() == gpio_pin,
            r.pulses() == Seq::<Pulse>::empty(),
            r.wf(),
    {
        IRPulseReader {
            gpio_pin: gpio_pin,
            pulse_seq: VecDeque::new(),
        }
    }

    /// Handles the pulse that was queued last.  The queue of pulses is
    /// cleared whenever an unrecognized pulse is received (signal
    /// broken) or the explicit start of a signal is announced with the
    /// start pulse.  Once 32 short/long pulses have been gathered they
    /// are decoded into a signal and taken out of the queue.
    fn handle_pulse(&mut self) -> (r: Option<Signal>)
        requires
            old(self).pulses().len() > 0,
            old(self).pulses().len() <= 32,
        ensures
            final(self).pin() == old(self).pin(),
            ({
                let q = old(self).pulses();
                let last = q.last();
                let s = if last == Pulse::Start || last == Pulse::Unrecognized {
                    Seq::<Pulse>::empty()
                } else {
                    q
                };
                &&& final(self).pulses() == if s.len() == 32 {
                    Seq::<Pulse>::empty()
                } else {
                    s
                }
                &&& r == if s.len() == 32 {
                    Some(signal_of_pulses(s))
                } else {
                    None
                }
            }),
    {
        let len = self.pulse_seq.len();
        let last_pulse = self.pulse_seq[len - 1];
        if last_pulse == Pulse::Start || last_pulse == Pulse::Unrecognized {
            self.pulse_seq.clear();
        }
        if self.pulse_seq.len() == 32 {
            let mut seq: Vec<Pulse> = Vec::new();
            let mut i: usize = 0;
            while i < 32
                invariant
                    self.pulse_seq@.len() == 32,
                    0 <= i <= 32,
                    seq@ == self.pulse_seq@.take(i as int),
                decreases 32 - i,
            {
                seq.push(self.pulse_seq[i]);
                i = i + 1;
            }
            assert(seq@ =~= self.pulse_seq@);
            self.pulse_seq.clear();
            let signal = Signal::from_pulse_seq(&seq);
            return Some(signal);
        }
        None
    }

    /// Takes the next pulse and returns the signal that it completes,
    /// if any.
    pub fn push_pulse(&mut self, pulse: Pulse) -> (r: Option<Signal>)
        requires
            old(self).wf(),
        ensures
            final(self).pin() == old(self).pin(),
            final(self).pulses() == queue_after(old(self).pulses(), pulse),
            r == signal_after(old(self).pulses(), pulse),
            final(self).wf(),
    {
        self.pulse_seq.push_back(pulse);
        let r = self.handle_pulse();
        proof {
            let q = old(self).pulses();
            assert(q.push(pulse).last() == pulse);
            assert(forall|i: int| 0 <= i < q.len() ==> q.push(pulse)[i] == q[i]);
        }
        r
    }

    /// Handles a change of the sensor level: when a high level of
    /// `micros` microseconds ends (`prev_val == 1`), that was a pulse.
    pub fn level_changed(&mut self, prev_val: u8, micros: u128) -> (r: Option<Signal>)
        requires
            old(self).wf(),
        ensures
            final(self).pin() == old(self).pin(),
            prev_val == 1 ==> final(self).pulses() == queue_after(old(self).pulses(), pulse_of_micros(micros))
                && r == signal_after(old(self).pulses(), pulse_of_micros(micros)),
            prev_val != 1 ==> final(self).pulses() == old(self).pulses() && r is None,
            final(self).wf(),
    {
        if prev_val == 1 {
            self.push_pulse(Pulse::from_micros(micros))
        } else {
            None
        }
    }
}

/// The queue after feeding `pulses` one by one into an empty queue.
pub open spec fn fed(pulses: Seq<Pulse>) -> Seq<Pulse>
    decreases pulses.len(),
{
    if pulses.len() == 0 {
        Seq::<Pulse>::empty()
    } else {
        queue_after(fed(pulses.drop_last()), pulses.last())
    }
}

/// A start pulse or a broken pulse always begins a new sequence.
pub proof fn lemma_start_resets(queue: Seq<Pulse>)
    ensures
        queue_after(queue, Pulse::Start) == Seq::<Pulse>::empty(),
        queue_after(queue, Pulse::Unrecognized) == Seq::<Pulse>::empty(),
        signal_after(queue, Pulse::Start) is None,
        signal_after(queue, Pulse::Unrecognized) is None,
{
}

/// Short and long pulses fed into a fresh reader are collected in
/// order until 32 of them have arrived; the 32nd completes the signal
/// that the whole sequence encodes and empties the queue.
pub proof fn lemma_full_sequence(pulses: Seq<Pulse>)
    requires
        pulses.len() <= 32,
        forall|i: int| 0 <= i < pulses.len() ==> (#[trigger] pulses[i] == Pulse::Short || pulses[i] == Pulse::Long),
    ensures
        pulses.len() < 32 ==> fed(pulses) == pulses,
        pulses.len() == 32 ==> fed(pulses) == Seq::<Pulse>::empty(),
        pulses.len() == 32 ==> signal_after(fed(pulses.drop_last()), pulses.last()) == Some(signal_of_pulses(pulses)),
    decreases pulses.len(),
{
    if pulses.len() > 0 {
        let init = pulses.drop_last();
        assert forall|i: int| 0 <= i < init.len() implies (#[trigger] init[i] == Pulse::Short || init[i] == Pulse::Long) by {
            assert(init[i] == pulses[i]);
        }
        lemma_full_sequence(init);
        assert(pulses.last() == pulses[pulses.len() - 1]);
        assert(init.push(pulses.last()) =~= pulses);
    }
}

} // verus!
