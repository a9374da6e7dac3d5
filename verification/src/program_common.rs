//! What the tools of the program share: their names, the size of the screen and
//! the pacing of frames.

use vstd::prelude::*;

verus! {

pub const DEFAULT_SCREEN_WIDTH: u32 = 640;

pub const DEFAULT_SCREEN_HEIGHT: u32 = 480;

/// The tools of the program.
#[derive(Clone, Copy, Debug, PartialEq, Eq, Structural)]
pub enum SubProgram {
    NoProgram,
    ProgramSelector,
    DustManip,
    NamingSeedSearch,
    DogiManip,
    Error,
    RNGOverride,
}

impl SubProgram {
    /// The name of the tool as the selector shows it.
    pub open spec fn spec_name(self) -> Seq<char> {
        match self {
            SubProgram::NoProgram => "None"@,
            SubProgram::ProgramSelector => "Program Selector"@,
            SubProgram::DustManip => "Dust Manipulator"@,
            SubProgram::NamingSeedSearch => "Naming Seed Search"@,
            SubProgram::DogiManip => "Marriage Manipulator"@,
            SubProgram::Error => "Error"@,
            SubProgram::RNGOverride => "RNG Seed Override"@,
        }
    }

    pub fn get_name(&self) -> (name: &'static str)
        ensures
            name@ == self.spec_name(),
    {
        match self {
            SubProgram::NoProgram => "None",
            SubProgram::ProgramSelector => "Program Selector",
            SubProgram::DustManip => "Dust Manipulator",
            SubProgram::NamingSeedSearch => "Naming Seed Search",
            SubProgram::DogiManip => "Marriage Manipulator",
            SubProgram::Error => "Error",
            SubProgram::RNGOverride => "RNG Seed Override",
        }
    }
}

/// The tools that the selector offers, in its order.
pub fn selectable_programs() -> (programs: Vec<SubProgram>)
    ensures
        programs@ == seq![
            SubProgram::NamingSeedSearch,
            SubProgram::DogiManip,
            SubProgram::DustManip,
            SubProgram::RNGOverride,
        ],
{
    let mut programs: Vec<SubProgram> = Vec::new();
    programs.push(SubProgram::NamingSeedSearch);
    programs.push(SubProgram::DogiManip);
    programs.push(SubProgram::DustManip);
    programs.push(SubProgram::RNGOverride);
    assert(programs@ =~= seq![
        SubProgram::NamingSeedSearch,
        SubProgram::DogiManip,
        SubProgram::DustManip,
        SubProgram::RNGOverride,
    ]);
    programs
}

/// When a frame started and how many frames a second are wanted.
#[derive(Clone, Copy, Debug, PartialEq, Eq, Structural)]
pub struct FrameTimer {
    frame_start_time: u64,
    target_fps: u32,
}

impl FrameTimer {
    /// The time at which the frame started, in nanoseconds.
    pub closed spec fn frame_start_time(&self) -> u64 {
        self.frame_start_time
    }

    /// The number of frames wanted in a second.
    pub closed spec fn target_fps(&self) -> u32 {
        self.target_fps
    }

    /// The number of frames wanted in a second.
    pub fn get_target_fps(&self) -> (fps: u32)
        ensures
            fps == self.target_fps(),
    {
        self.target_fps
    }

    /// A timer for a frame that starts at `now`, in nanoseconds.
    pub fn start_at(now: u64, target_fps: u32) -> (timer: Self)
        ensures
            timer.frame_start_time() == now,
            timer.target_fps() == target_fps,
    {
        FrameTimer { frame_start_time: now, target_fps }
    }

    /// How long to sleep at `frame_end_time` to fill the frame, in nanoseconds: what
    /// is left of the frame's share of a second, if anything is.
    pub open spec fn spec_delay(&self, frame_end_time: u64) -> Option<u64> {
        let desired = 1_000_000_000int / (self.target_fps() as int) - (frame_end_time
            - self.frame_start_time());
        if desired > 0 {
            Some(desired as u64)
        } else {
            None
        }
    }

    /// How long to sleep at `frame_end_time` to fill the frame.
    pub fn delay_at(&self, frame_end_time: u64) -> (delay: Option<u64>)
        requires
            self.target_fps() > 0,
        ensures
            delay == self.spec_delay(frame_end_time),
    {
        let share: i128 = 1_000_000_000i128 / (self.target_fps as i128);
        let desired_delay: i128 = share - ((frame_end_time as i128) - (self.frame_start_time as i128));
        if desired_delay > 0 {
            Some(desired_delay as u64)
        } else {
            None
        }
    }
}

/// The size of the window at start: the screen's size times the largest of 1 to
/// 5 for which the window stays below half the display in both directions, the
/// factors tried in rising order.
pub open spec fn window_scale(display_width: u32, display_height: u32, tried: nat) -> nat
    decreases 6 - tried,
{
    if 2 <= tried < 6 && display_width / 2 > 640 * tried && display_height / 2 > 480 * tried {
        window_scale(display_width, display_height, tried + 1)
    } else {
        (tried - 1) as nat
    }
}

/// The size of the window at start on a display of the given size.
pub fn default_window_size(display_width: u32, display_height: u32) -> (size: (u32, u32))
    ensures
        size.0 == 640 * window_scale(display_width, display_height, 2),
        size.1 == 480 * window_scale(display_width, display_height, 2),
{
    let mut default_width: u32 = 640;
    let mut default_height: u32 = 480;
    let mut i: u32 = 2;
    while i < 6
        invariant
            2 <= i <= 6,
            default_width == 640 * (i - 1),
            default_height == 480 * (i - 1),
            window_scale(display_width, display_height, 2) == window_scale(
                display_width,
                display_height,
                i as nat,
            ),
        decreases 6 - i,
    {
        let attempt_width: u32 = 640 * i;
        let attempt_height: u32 = 480 * i;
        if (display_width / 2) > attempt_width && (display_height / 2) > attempt_height {
            default_width = attempt_width;
            default_height = attempt_height;
        } else {
            return (default_width, default_height);
        }
        i += 1;
    }
    (default_width, default_height)
}

} // verus!
