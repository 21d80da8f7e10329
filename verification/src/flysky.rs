//! FlySky transmitter model: logical sticks, per-axis position buckets, and
//! the per-channel classification of a six-channel pulse-width frame.

use vstd::prelude::*;

use crate::ppm::spec_step;
use crate::ppm::ChannelFrame;
use crate::ppm::PositionValue;
use crate::ppm::Ppm;
use crate::ppm::PpmView;

verus! {

// Stick positions middle range
pub const RANGE_MID_POSITION_MAX: u16 = 1550;
pub const RANGE_MID_POSITION_MIN: u16 = 1450;

// Stick positions
pub const MAX_POSITION: u16 = 2000;
pub const MIN_POSITION: u16 = 1000;
pub const MID_POSITION: u16 = 1500;

/// One classified axis reading: which side of center the stick sits on,
/// together with the raw pulse width that produced the bucket.
#[derive(Clone, Copy, Debug, PartialEq, Eq, Structural)]
pub enum Position {
    Up(PositionValue),
    Down(PositionValue),
    Left(PositionValue),
    Right(PositionValue),
    Center(PositionValue),
}

/// The classified state of one physical stick: its vertical axis, its
/// horizontal axis, and the most recent centered reading.
#[derive(Clone, Copy, Debug, PartialEq, Eq, Structural)]
pub struct StickMovement {
    pub up_down: Position,
    pub right_left: Position,
    pub center: Position,
}

/// A logical stick identity carrying its movement. `Right` and `Left` are the
/// drive sticks; `Vra` and `Vrb` are the auxiliary potentiometers.
#[derive(Clone, Copy, Debug, PartialEq, Eq, Structural)]
pub enum Stick {
    Right(StickMovement),
    Left(StickMovement),
    Vra(StickMovement),
    Vrb(StickMovement),
}

/// The whole transmitter state: all four logical sticks.
#[derive(Clone, Copy, Debug, PartialEq, Eq, Structural)]
pub struct FlySky {
    pub right: Stick,
    pub left: Stick,
    pub vra: Stick,
    pub vrb: Stick,
}

impl Stick {
    /// The movement carried by this stick, whichever identity it has.
    pub open spec fn spec_movement(self) -> StickMovement {
        match self {
            Stick::Right(movement) => movement,
            Stick::Left(movement) => movement,
            Stick::Vra(movement) => movement,
            Stick::Vrb(movement) => movement,
        }
    }

    /// The same stick identity carrying `movement` instead.
    pub open spec fn spec_with_movement(self, movement: StickMovement) -> Stick {
        match self {
            Stick::Right(_) => Stick::Right(movement),
            Stick::Left(_) => Stick::Left(movement),
            Stick::Vra(_) => Stick::Vra(movement),
            Stick::Vrb(_) => Stick::Vrb(movement),
        }
    }

    /// Sets the right position value for the stick.
    pub fn set_right_value(&mut self, value: u16)
        ensures
            *final(self) == old(self).spec_with_movement(
                StickMovement {
                    right_left: Position::Right(value),
                    ..old(self).spec_movement()
                },
            ),
    {
        match self {
            Stick::Right(movement) => movement.right_left = Position::Right(value),
            Stick::Left(movement) => movement.right_left = Position::Right(value),
            Stick::Vra(movement) => movement.right_left = Position::Right(value),
            Stick::Vrb(movement) => movement.right_left = Position::Right(value),
        }
    }

    /// Sets the left position value for the stick.
    pub fn set_left_value(&mut self, value: u16)
        ensures
            *final(self) == old(self).spec_with_movement(
                StickMovement {
                    right_left: Position::Left(value),
                    ..old(self).spec_movement()
                },
            ),
    {
        match self {
            Stick::Right(movement) => movement.right_left = Position::Left(value),
            Stick::Left(movement) => movement.right_left = Position::Left(value),
            Stick::Vra(movement) => movement.right_left = Position::Left(value),
            Stick::Vrb(movement) => movement.right_left = Position::Left(value),
        }
    }

    /// Sets the up position value for the stick.
    pub fn set_up_value(&mut self, value: u16)
        ensures
            *final(self) == old(self).spec_with_movement(
                StickMovement { up_down: Position::Up(value), ..old(self).spec_movement() },
            ),
    {
        match self {
            Stick::Right(movement) => movement.up_down = Position::Up(value),
            Stick::Left(movement) => movement.up_down = Position::Up(value),
            Stick::Vra(movement) => movement.up_down = Position::Up(value),
            Stick::Vrb(movement) => movement.up_down = Position::Up(value),
        }
    }

    /// Sets the down position value for the stick.
    pub fn set_down_value(&mut self, value: u16)
        ensures
            *final(self) == old(self).spec_with_movement(
                StickMovement { up_down: Position::Down(value), ..old(self).spec_movement() },
            ),
    {
        match self {
            Stick::Right(movement) => movement.up_down = Position::Down(value),
            Stick::Left(movement) => movement.up_down = Position::Down(value),
            Stick::Vra(movement) => movement.up_down = Position::Down(value),
            Stick::Vrb(movement) => movement.up_down = Position::Down(value),
        }
    }

    /// Sets the center position value for the stick.
    pub fn set_center_value(&mut self, value: u16)
        ensures
            *final(self) == old(self).spec_with_movement(
                StickMovement { center: Position::Center(value), ..old(self).spec_movement() },
            ),
    {
        match self {
            Stick::Right(movement) => {
                movement.center = Position::Center(value);
            }
            Stick::Left(movement) => {
                movement.center = Position::Center(value);
            }
            Stick::Vra(movement) => movement.center = Position::Center(value),
            Stick::Vrb(movement) => movement.center = Position::Center(value),
        }
    }
}

/// The all-centered transmitter state every classification starts from.
pub open spec fn spec_flysky_default() -> FlySky {
    FlySky {
        right: Stick::Right(
            StickMovement {
                right_left: Position::Center(MID_POSITION),
                up_down: Position::Center(MID_POSITION),
                center: Position::Center(MID_POSITION),
            },
        ),
        left: Stick::Left(
            StickMovement {
                right_left: Position::Center(MID_POSITION),
                up_down: Position::Center(MID_POSITION),
                center: Position::Center(MID_POSITION),
            },
        ),
        vra: Stick::Vra(
            StickMovement {
                right_left: Position::Center(MID_POSITION),
                up_down: Position::Center(MID_POSITION),
                center: Position::Center(MID_POSITION),
            },
        ),
        vrb: Stick::Vrb(
            StickMovement {
                right_left: Position::Center(MID_POSITION),
                up_down: Position::Center(MID_POSITION),
                center: Position::Center(MID_POSITION),
            },
        ),
    }
}

impl Default for FlySky {
    /// Returns a default FlySky instance with all sticks centered.
    fn default() -> (r: Self)
        ensures
            r == spec_flysky_default(),
    {
        Self {
            right: Stick::Right(
                StickMovement {
                    right_left: Position::Center(MID_POSITION),
                    up_down: Position::Center(MID_POSITION),
                    center: Position::Center(MID_POSITION),
                },
            ),
            left: Stick::Left(
                StickMovement {
                    right_left: Position::Center(MID_POSITION),
                    up_down: Position::Center(MID_POSITION),
                    center: Position::Center(MID_POSITION),
                },
            ),
            vra: Stick::Vra(
                StickMovement {
                    right_left: Position::Center(MID_POSITION),
                    up_down: Position::Center(MID_POSITION),
                    center: Position::Center(MID_POSITION),
                },
            ),
            vrb: Stick::Vrb(
                StickMovement {
                    right_left: Position::Center(MID_POSITION),
                    up_down: Position::Center(MID_POSITION),
                    center: Position::Center(MID_POSITION),
                },
            ),
        }
    }
}

/// Which input line the PPM signal is read from.
#[derive(Clone, Copy, Debug, PartialEq, Eq, Structural)]
pub enum FlySkyPpmPin {
    D2,
    D3,
}

/// A pulse width above the middle band (used by channels 1, 3, 4 and 5).
pub open spec fn spec_above_band(v: u16) -> bool {
    v > RANGE_MID_POSITION_MAX
}

/// A pulse width below the middle band (used by channels 1, 3, 4 and 5).
pub open spec fn spec_below_band(v: u16) -> bool {
    v < RANGE_MID_POSITION_MIN
}

/// A pulse width above the middle band and inside the physical range (used
/// by channel 0).
pub open spec fn spec_above_band_in_range(v: u16) -> bool {
    v > RANGE_MID_POSITION_MAX && v <= MAX_POSITION
}

/// A pulse width below the middle band and inside the physical range (used
/// by channel 0).
pub open spec fn spec_below_band_in_range(v: u16) -> bool {
    v < RANGE_MID_POSITION_MIN && v >= MIN_POSITION
}

/// A pulse width above the exact center and inside the physical range (used
/// by channel 2).
pub open spec fn spec_above_center_in_range(v: u16) -> bool {
    v > MID_POSITION && v <= MAX_POSITION
}

/// A pulse width below the exact center and inside the physical range (used
/// by channel 2).
pub open spec fn spec_below_center_in_range(v: u16) -> bool {
    v < MID_POSITION && v >= MIN_POSITION
}

/// The classification of a six-channel frame `ch` into the four sticks.
///
/// Channel 0 drives the right stick's horizontal axis, channel 1 its vertical
/// axis; channel 2 drives the left stick's vertical axis (split at the exact
/// center), channel 3 its horizontal axis; channels 4 and 5 drive the two
/// potentiometers' horizontal axes. A channel that falls in neither extreme
/// bucket leaves its axis at the default and records the reading in the
/// stick's `center` slot instead; when both channels of a stick are centered,
/// the later channel's reading wins.
pub open spec fn spec_classify(ch: Seq<u16>) -> FlySky {
    FlySky {
        right: Stick::Right(
            StickMovement {
                up_down: if spec_above_band(ch[1]) {
                    Position::Up(ch[1])
                } else if spec_below_band(ch[1]) {
                    Position::Down(ch[1])
                } else {
                    Position::Center(MID_POSITION)
                },
                right_left: if spec_above_band_in_range(ch[0]) {
                    Position::Right(ch[0])
                } else if spec_below_band_in_range(ch[0]) {
                    Position::Left(ch[0])
                } else {
                    Position::Center(MID_POSITION)
                },
                center: if !spec_above_band(ch[1]) && !spec_below_band(ch[1]) {
                    Position::Center(ch[1])
                } else if !spec_above_band_in_range(ch[0]) && !spec_below_band_in_range(ch[0]) {
                    Position::Center(ch[0])
                } else {
                    Position::Center(MID_POSITION)
                },
            },
        ),
        left: Stick::Left(
            StickMovement {
                up_down: if spec_above_center_in_range(ch[2]) {
                    Position::Up(ch[2])
                } else if spec_below_center_in_range(ch[2]) {
                    Position::Down(ch[2])
                } else {
                    Position::Center(MID_POSITION)
                },
                right_left: if spec_above_band(ch[3]) {
                    Position::Right(ch[3])
                } else if spec_below_band(ch[3]) {
                    Position::Left(ch[3])
                } else {
                    Position::Center(MID_POSITION)
                },
                center: if !spec_above_band(ch[3]) && !spec_below_band(ch[3]) {
                    Position::Center(ch[3])
                } else if !spec_above_center_in_range(ch[2]) && !spec_below_center_in_range(
                    ch[2],
                ) {
                    Position::Center(ch[2])
                } else {
                    Position::Center(MID_POSITION)
                },
            },
        ),
        vra: Stick::Vra(
            StickMovement {
                up_down: Position::Center(MID_POSITION),
                right_left: if spec_above_band(ch[4]) {
                    Position::Right(ch[4])
                } else if spec_below_band(ch[4]) {
                    Position::Left(ch[4])
                } else {
                    Position::Center(MID_POSITION)
                },
                center: if !spec_above_band(ch[4]) && !spec_below_band(ch[4]) {
                    Position::Center(ch[4])
                } else {
                    Position::Center(MID_POSITION)
                },
            },
        ),
        vrb: Stick::Vrb(
            StickMovement {
                up_down: Position::Center(MID_POSITION),
                right_left: if spec_above_band(ch[5]) {
                    Position::Right(ch[5])
                } else if spec_below_band(ch[5]) {
                    Position::Left(ch[5])
                } else {
                    Position::Center(MID_POSITION)
                },
                center: if !spec_above_band(ch[5]) && !spec_below_band(ch[5]) {
                    Position::Center(ch[5])
                } else {
                    Position::Center(MID_POSITION)
                },
            },
        ),
    }
}

/// Anything that can be read as a whole transmitter state.
pub trait StickConverter: Sized {
    /// When the conversion may be asked for.
    spec fn flysky_ready(self) -> bool;

    /// The transmitter state this value denotes.
    spec fn spec_flysky(self) -> FlySky;

    /// Reads the value as a transmitter state.
    fn to_flysky(self) -> (r: FlySky)
        requires
            self.flysky_ready(),
        ensures
            r == self.spec_flysky(),
    ;
}

impl StickConverter for ChannelFrame {
    /// A frame can be classified once it holds its six channels.
    open spec fn flysky_ready(self) -> bool {
        self.wf()
    }

    /// A frame denotes the classification of its six channels.
    open spec fn spec_flysky(self) -> FlySky {
        spec_classify(self@)
    }

    /// Converts the six PPM channel values to a FlySky status struct.
    fn to_flysky(self) -> (r: FlySky) {
        let mut status = FlySky::default();

        let value = self.get(0);
        if value > RANGE_MID_POSITION_MAX && value <= MAX_POSITION {
            status.right.set_right_value(value);
        } else if value < RANGE_MID_POSITION_MIN && value >= MIN_POSITION {
            status.right.set_left_value(value);
        } else {
            status.right.set_center_value(value);
        }

        let value = self.get(1);
        if value > RANGE_MID_POSITION_MAX {
            status.right.set_up_value(value);
        } else if value < RANGE_MID_POSITION_MIN {
            status.right.set_down_value(value);
        } else {
            status.right.set_center_value(value);
        }

        let value = self.get(2);
        if value > MID_POSITION && value <= MAX_POSITION {
            status.left.set_up_value(value);
        } else if value < MID_POSITION && value >= MIN_POSITION {
            status.left.set_down_value(value);
        } else {
            status.left.set_center_value(value);
        }

        let value = self.get(3);
        if value > RANGE_MID_POSITION_MAX {
            status.left.set_right_value(value);
        } else if value < RANGE_MID_POSITION_MIN {
            status.left.set_left_value(value);
        } else {
            status.left.set_center_value(value);
        }

        let value = self.get(4);
        if value > RANGE_MID_POSITION_MAX {
            status.vra.set_right_value(value);
        } else if value < RANGE_MID_POSITION_MIN {
            status.vra.set_left_value(value);
        } else {
            status.vra.set_center_value(value);
        }

        let value = self.get(5);
        if value > RANGE_MID_POSITION_MAX {
            status.vrb.set_right_value(value);
        } else if value < RANGE_MID_POSITION_MIN {
            status.vrb.set_left_value(value);
        } else {
            status.vrb.set_center_value(value);
        }

        proof {
            assert(status.right == spec_classify(self@).right);
            assert(status.left == spec_classify(self@).left);
            assert(status.vra == spec_classify(self@).vra);
            assert(status.vrb == spec_classify(self@).vrb);
        }
        status
    }
}

/// Owns the PPM decoder and reads it out as classified stick positions.
pub struct FlySkyManager {
    ppm: Ppm,
}

impl View for FlySkyManager {
    type V = PpmView;

    closed spec fn view(&self) -> PpmView {
        self.ppm@
    }
}

impl FlySkyManager {
    /// The manager's decoder is well formed.
    pub open spec fn wf(&self) -> bool {
        self@.wf()
    }

    /// Wraps a decoder; the hardware bring-up that routes edge interrupts to
    /// it is done outside.
    pub fn new(ppm: Ppm) -> (r: Self)
        requires
            ppm.wf(),
        ensures
            r@ == ppm@,
            r.wf(),
    {
        FlySkyManager { ppm }
    }

    /// Drives the owned decoder with the timer reading taken at one signal
    /// edge.
    pub fn on_edge(&mut self, current_tick: u16)
        requires
            old(self).wf(),
        ensures
            final(self)@ == spec_step(old(self)@, current_tick),
            final(self).wf(),
    {
        self.ppm.on_edge(current_tick);
    }

    /// Returns the current FlySky status by converting PPM channels to stick
    /// positions.
    pub fn get_status(&self) -> (r: FlySky)
        requires
            self.wf(),
        ensures
            r == spec_classify(self@.channels),
    {
        self.ppm.get_channels().to_flysky()
    }
}

} // verus!
