//! PPM pulse-train decoder.
//!
//! A PPM frame carries up to six channel pulses followed by a long
//! synchronizing gap. The decoder is driven once per signal edge with the
//! current hardware timer reading: the elapsed time since the previous edge is
//! either a channel pulse width (stored in the next slot) or a sync gap
//! (which realigns the decoder to channel 0). The hardware interrupt plumbing
//! that reads the timer and masks interrupts lives outside this crate; it
//! feeds `on_edge` one tick value per edge and reads `snapshot` copies back.

use vstd::prelude::*;

verus! {

/// A raw channel pulse width in microseconds.
pub type PositionValue = u16;

/// Timer granularity: one hardware tick lasts this many microseconds.
pub const MICROSECONDS_PER_TICK: u16 = 4;

/// Number of channels carried by one PPM frame.
pub const MAX_NUM_CHANNELS: usize = 6;

/// An elapsed time at least this long (in microseconds, the same unit as the
/// scaled elapsed time it is compared against) is a synchronizing gap rather
/// than a channel pulse.
pub const BLANK_PPM_SIGNAL_IN_MICROSECONDS: u16 = 4000;

/// A consistent copy of the six decoded channel pulse widths,
/// index-addressed 0..5.
pub struct ChannelFrame {
    values: Vec<u16>,
}

impl View for ChannelFrame {
    type V = Seq<u16>;

    closed spec fn view(&self) -> Seq<u16> {
        self.values@
    }
}

impl ChannelFrame {
    /// A frame always holds exactly six channel values.
    pub open spec fn wf(&self) -> bool {
        self@.len() == MAX_NUM_CHANNELS
    }

    /// Builds a frame from six channel values, channel 0 first.
    pub fn new(c0: u16, c1: u16, c2: u16, c3: u16, c4: u16, c5: u16) -> (r: Self)
        ensures
            r@ == seq![c0, c1, c2, c3, c4, c5],
            r.wf(),
    {
        let mut values: Vec<u16> = Vec::new();
        values.push(c0);
        values.push(c1);
        values.push(c2);
        values.push(c3);
        values.push(c4);
        values.push(c5);
        let r = ChannelFrame { values };
        proof {
            assert(r@ =~= seq![c0, c1, c2, c3, c4, c5]);
        }
        r
    }

    /// How many channel values the frame holds.
    pub fn len(&self) -> (n: usize)
        ensures
            n == self@.len(),
    {
        self.values.len()
    }

    /// The pulse width stored for channel `id_channel`.
    pub fn get(&self, id_channel: usize) -> (v: u16)
        requires
            id_channel < self@.len(),
        ensures
            v == self@[id_channel as int],
    {
        self.values[id_channel]
    }
}

/// The mathematical state of the decoder: the timer reading at the previous
/// edge, the slot the next pulse will fill (6 means "frame complete, awaiting
/// sync"), and the six stored pulse widths.
#[verifier::ext_equal]
pub struct PpmView {
    pub last_tick: u16,
    pub channel_index: u8,
    pub channels: Seq<u16>,
}

impl PpmView {
    /// The decoder always holds six channel slots and an index no further
    /// than one past the last channel.
    pub open spec fn wf(&self) -> bool {
        &&& self.channels.len() == MAX_NUM_CHANNELS
        &&& self.channel_index <= MAX_NUM_CHANNELS
    }
}

/// The state the decoder starts in: no pulse stored yet, waiting on
/// channel 0.
pub open spec fn spec_initial() -> PpmView {
    PpmView { last_tick: 1u16, channel_index: 0u8, channels: Seq::new(6, |i: int| 0u16) }
}

/// Microseconds elapsed between two timer readings: the tick difference,
/// scaled by the tick duration, both computed in wrapping 16-bit arithmetic
/// exactly as the free-running hardware counter behaves.
pub open spec fn spec_elapsed_us(last_tick: u16, current_tick: u16) -> u16 {
    vstd::wrapping::u16_specs::wrapping_mul(
        vstd::wrapping::u16_specs::wrapping_sub(current_tick, last_tick),
        MICROSECONDS_PER_TICK,
    )
}

/// One decoder transition, driven by the timer reading at a signal edge.
/// A short elapsed time is a channel pulse: it fills the current slot (if one
/// is left) and advances the index. A long elapsed time is a sync gap: it
/// realigns the index to channel 0 and stores nothing.
pub open spec fn spec_step(v: PpmView, current_tick: u16) -> PpmView {
    let elapsed = spec_elapsed_us(v.last_tick, current_tick);
    if elapsed < BLANK_PPM_SIGNAL_IN_MICROSECONDS {
        if v.channel_index < MAX_NUM_CHANNELS as u8 {
            PpmView {
                last_tick: current_tick,
                channel_index: (v.channel_index + 1) as u8,
                channels: v.channels.update(v.channel_index as int, elapsed),
            }
        } else {
            PpmView { last_tick: current_tick, channel_index: v.channel_index, channels: v.channels }
        }
    } else {
        PpmView { last_tick: current_tick, channel_index: 0u8, channels: v.channels }
    }
}

/// The decoder state after a whole sequence of edges, first edge first.
pub open spec fn spec_run(v: PpmView, ticks: Seq<u16>) -> PpmView
    decreases ticks.len(),
{
    if ticks.len() == 0 {
        v
    } else {
        spec_run(spec_step(v, ticks[0]), ticks.drop_first())
    }
}

/// True when an elapsed time (in microseconds) is a channel pulse, false when
/// it is a synchronizing gap.
pub fn is_reading_channels(time_elapse_in_microseconds: u16) -> (r: bool)
    ensures
        r == (time_elapse_in_microseconds < BLANK_PPM_SIGNAL_IN_MICROSECONDS),
{
    time_elapse_in_microseconds < BLANK_PPM_SIGNAL_IN_MICROSECONDS
}

/// The PPM decoder as an owned state machine. The caller owns exactly one
/// value and is responsible for feeding every edge to it under mutual
/// exclusion with readers, so a snapshot never sees a torn value.
pub struct Ppm {
    last_tick: u16,
    channel_index: u8,
    channels: Vec<u16>,
}

impl View for Ppm {
    type V = PpmView;

    closed spec fn view(&self) -> PpmView {
        PpmView {
            last_tick: self.last_tick,
            channel_index: self.channel_index,
            channels: self.channels@,
        }
    }
}

impl Ppm {
    /// The decoder's structural invariant.
    pub open spec fn wf(&self) -> bool {
        self@.wf()
    }

    /// A decoder in its initial state.
    pub fn new() -> (r: Self)
        ensures
            r@ == spec_initial(),
            r.wf(),
    {
        let mut channels: Vec<u16> = Vec::new();
        channels.push(0);
        channels.push(0);
        channels.push(0);
        channels.push(0);
        channels.push(0);
        channels.push(0);
        let r = Ppm { last_tick: 1, channel_index: 0, channels };
        proof {
            assert(r@.channels =~= spec_initial().channels);
        }
        r
    }

    /// Records the new edge time and returns the microseconds elapsed since
    /// the previous edge, in wrapping 16-bit arithmetic.
    fn get_microseconds_from_last_interruption(&mut self, current_tick: u16) -> (elapsed: u16)
        ensures
            final(self)@ == (PpmView { last_tick: current_tick, ..old(self)@ }),
            elapsed == spec_elapsed_us(old(self)@.last_tick, current_tick),
    {
        let last_tick = self.last_tick;
        self.last_tick = current_tick;
        let elapsed_ticks = current_tick.wrapping_sub(last_tick);
        elapsed_ticks.wrapping_mul(MICROSECONDS_PER_TICK)
    }

    /// Realigns the decoder to channel 0 after a synchronizing gap.
    fn reset_channels(&mut self)
        ensures
            final(self)@ == (PpmView { channel_index: 0u8, ..old(self)@ }),
    {
        self.channel_index = 0;
    }

    /// The slot the next channel pulse will fill (6 when the frame is full).
    pub fn get_current_channel(&self) -> (id_channel: usize)
        ensures
            id_channel == self@.channel_index,
    {
        self.channel_index as usize
    }

    /// Stores `value` into slot `id_channel`; a slot index past the last
    /// channel stores nothing.
    fn set_channel_value(&mut self, id_channel: usize, value: u16)
        requires
            old(self).wf(),
        ensures
            final(self)@ == if id_channel < MAX_NUM_CHANNELS {
                PpmView {
                    channels: old(self)@.channels.update(id_channel as int, value),
                    ..old(self)@
                }
            } else {
                old(self)@
            },
    {
        if id_channel < MAX_NUM_CHANNELS {
            self.channels.set(id_channel, value);
        }
    }

    /// Advances the channel index past slot `id_channel`; an index past the
    /// last channel is left as it is, so extra pulses are dropped.
    fn set_next_channel(&mut self, id_channel: usize)
        requires
            id_channel == old(self)@.channel_index,
        ensures
            final(self)@ == if id_channel < MAX_NUM_CHANNELS {
                PpmView { channel_index: (id_channel + 1) as u8, ..old(self)@ }
            } else {
                old(self)@
            },
    {
        if id_channel < MAX_NUM_CHANNELS {
            self.channel_index = (id_channel as u8) + 1;
        }
    }

    /// Stores one channel pulse width and moves to the next slot; once six
    /// pulses have arrived, further pulses are ignored until the next gap.
    fn process_channel(&mut self, value: u16)
        requires
            old(self).wf(),
        ensures
            final(self)@ == if old(self)@.channel_index < MAX_NUM_CHANNELS as u8 {
                PpmView {
                    channel_index: (old(self)@.channel_index + 1) as u8,
                    channels: old(self)@.channels.update(old(self)@.channel_index as int, value),
                    ..old(self)@
                }
            } else {
                old(self)@
            },
            final(self).wf(),
    {
        let current_id_channel = self.get_current_channel();
        self.set_channel_value(current_id_channel, value);
        self.set_next_channel(current_id_channel);
    }

    /// Drives the decoder with the timer reading taken at one signal edge.
    pub fn on_edge(&mut self, current_tick: u16)
        requires
            old(self).wf(),
        ensures
            final(self)@ == spec_step(old(self)@, current_tick),
            final(self).wf(),
    {
        let time_elapse_in_microseconds = self.get_microseconds_from_last_interruption(
            current_tick,
        );
        if is_reading_channels(time_elapse_in_microseconds) {
            self.process_channel(time_elapse_in_microseconds);
        } else {
            self.reset_channels();
        }
    }

    /// A consistent copy of the current six-channel table.
    pub fn get_channels(&self) -> (r: ChannelFrame)
        requires
            self.wf(),
        ensures
            r@ == self@.channels,
            r.wf(),
    {
        let mut values: Vec<u16> = Vec::new();
        let mut i: usize = 0;
        while i < MAX_NUM_CHANNELS
            invariant
                self.wf(),
                i <= MAX_NUM_CHANNELS,
                values@ == self@.channels.take(i as int),
            decreases MAX_NUM_CHANNELS - i,
        {
            values.push(self.channels[i]);
            proof {
                assert(values@ =~= self@.channels.take(i + 1));
            }
            i = i + 1;
        }
        proof {
            assert(self@.channels.take(6) =~= self@.channels);
        }
        ChannelFrame { values }
    }

    /// A consistent copy of the current six-channel table.
    pub fn snapshot(&self) -> (r: ChannelFrame)
        requires
            self.wf(),
        ensures
            r@ == self@.channels,
            r.wf(),
    {
        self.get_channels()
    }
}

/// One decoder transition keeps the decoder well formed, whatever edge
/// arrives.
pub proof fn lemma_step_preserves_wf(v: PpmView, current_tick: u16)
    requires
        v.wf(),
    ensures
        spec_step(v, current_tick).wf(),
{
}

/// Every edge-time sequence leaves the decoder with exactly six channel
/// slots: a snapshot taken after any sequence of edges always has six
/// values.
pub proof fn lemma_snapshot_always_six(v: PpmView, ticks: Seq<u16>)
    requires
        v.wf(),
    ensures
        spec_run(v, ticks).wf(),
        spec_run(v, ticks).channels.len() == MAX_NUM_CHANNELS,
    decreases ticks.len(),
{
    if ticks.len() > 0 {
        lemma_step_preserves_wf(v, ticks[0]);
        lemma_snapshot_always_six(spec_step(v, ticks[0]), ticks.drop_first());
    }
}

/// A synchronizing gap realigns the decoder to channel 0 at once, and stores
/// nothing: the channel values survive a signal loss untouched.
pub proof fn lemma_gap_resyncs(v: PpmView, current_tick: u16)
    requires
        v.wf(),
        spec_elapsed_us(v.last_tick, current_tick) >= BLANK_PPM_SIGNAL_IN_MICROSECONDS,
    ensures
        spec_step(v, current_tick).channel_index == 0,
        spec_step(v, current_tick).channels == v.channels,
        spec_step(v, current_tick).last_tick == current_tick,
{
}

/// After a synchronizing gap, six channel pulses overwrite slots 0..5 in
/// ascending order, whatever the decoder held before the gap: the decoder is
/// self-synchronizing. `g` is the edge ending the gap and `t1..t6` the edges
/// ending the six pulses.
#[verifier::rlimit(100)]
pub proof fn lemma_resync_then_frame(
    v: PpmView,
    g: u16,
    t1: u16,
    t2: u16,
    t3: u16,
    t4: u16,
    t5: u16,
    t6: u16,
)
    requires
        v.wf(),
        spec_elapsed_us(v.last_tick, g) >= BLANK_PPM_SIGNAL_IN_MICROSECONDS,
        spec_elapsed_us(g, t1) < BLANK_PPM_SIGNAL_IN_MICROSECONDS,
        spec_elapsed_us(t1, t2) < BLANK_PPM_SIGNAL_IN_MICROSECONDS,
        spec_elapsed_us(t2, t3) < BLANK_PPM_SIGNAL_IN_MICROSECONDS,
        spec_elapsed_us(t3, t4) < BLANK_PPM_SIGNAL_IN_MICROSECONDS,
        spec_elapsed_us(t4, t5) < BLANK_PPM_SIGNAL_IN_MICROSECONDS,
        spec_elapsed_us(t5, t6) < BLANK_PPM_SIGNAL_IN_MICROSECONDS,
    ensures
        spec_step(v, g).channel_index == 0,
        ({
            let w = spec_step(
                spec_step(
                    spec_step(
                        spec_step(spec_step(spec_step(spec_step(v, g), t1), t2), t3),
                        t4,
                    ),
                    t5,
                ),
                t6,
            );
            &&& w.last_tick == t6
            &&& w.channel_index == 6
            &&& w.channels == seq![
                spec_elapsed_us(g, t1),
                spec_elapsed_us(t1, t2),
                spec_elapsed_us(t2, t3),
                spec_elapsed_us(t3, t4),
                spec_elapsed_us(t4, t5),
                spec_elapsed_us(t5, t6),
            ]
        }),
{
    let v0 = spec_step(v, g);
    let v1 = spec_step(v0, t1);
    let v2 = spec_step(v1, t2);
    let v3 = spec_step(v2, t3);
    let v4 = spec_step(v3, t4);
    let v5 = spec_step(v4, t5);
    let v6 = spec_step(v5, t6);
    assert(v0.channel_index == 0 && v0.last_tick == g && v0.channels == v.channels);
    assert(v1.channel_index == 1 && v1.last_tick == t1);
    assert(v2.channel_index == 2 && v2.last_tick == t2);
    assert(v3.channel_index == 3 && v3.last_tick == t3);
    assert(v4.channel_index == 4 && v4.last_tick == t4);
    assert(v5.channel_index == 5 && v5.last_tick == t5);
    assert(v6.channel_index == 6 && v6.last_tick == t6);
    assert(v6.channels =~= seq![
        spec_elapsed_us(g, t1),
        spec_elapsed_us(t1, t2),
        spec_elapsed_us(t2, t3),
        spec_elapsed_us(t3, t4),
        spec_elapsed_us(t4, t5),
        spec_elapsed_us(t5, t6),
    ]);
}

} // verus!
