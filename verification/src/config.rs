//! The settings of the program and what a runner version says of the generator.

use vstd::prelude::*;

verus! {

/// The runner that the game was built with. A Linux build run on Windows counts by
/// its runner.
#[allow(non_camel_case_types)]
#[derive(Clone, Copy, Debug, PartialEq, Eq, Structural)]
pub enum ConfigRunnerVersion {
    Undertale_Windows_v1_0,
    Undertale_Windows_v1_001,
    Undertale_Linux_v1_001,
    Undertale_Windows_v1_08,
}

impl ConfigRunnerVersion {
    /// Whether the runner seeds its generator in 15-bit mode.
    pub fn rng_15bit(&self) -> (flag: bool)
        ensures
            flag == (*self == ConfigRunnerVersion::Undertale_Windows_v1_0 || *self
                == ConfigRunnerVersion::Undertale_Windows_v1_001),
    {
        match self {
            Self::Undertale_Windows_v1_0 => true,
            Self::Undertale_Windows_v1_001 => true,
            Self::Undertale_Linux_v1_001 => false,
            Self::Undertale_Windows_v1_08 => false,
        }
    }

    /// Whether the runner seeds its generator in signed mode.
    pub fn rng_signed(&self) -> (flag: bool)
        ensures
            flag == (*self == ConfigRunnerVersion::Undertale_Windows_v1_08),
    {
        match self {
            Self::Undertale_Windows_v1_0 => false,
            Self::Undertale_Windows_v1_001 => false,
            Self::Undertale_Linux_v1_001 => false,
            Self::Undertale_Windows_v1_08 => true,
        }
    }

    /// Whether the runner's generator has the legacy polynomial.
    pub fn rng_old_poly(&self) -> (flag: bool)
        ensures
            flag == (*self == ConfigRunnerVersion::Undertale_Windows_v1_0),
    {
        match self {
            Self::Undertale_Windows_v1_0 => true,
            Self::Undertale_Windows_v1_001 => false,
            Self::Undertale_Linux_v1_001 => false,
            Self::Undertale_Windows_v1_08 => false,
        }
    }

    /// By how much the runner draws circles off their centre.
    pub fn circle_draw_offset(&self) -> (offset: i32)
        ensures
            offset == (if *self == ConfigRunnerVersion::Undertale_Linux_v1_001 {
                0i32
            } else {
                1i32
            }),
    {
        match self {
            Self::Undertale_Windows_v1_0 => 1,
            Self::Undertale_Windows_v1_001 => 1,
            Self::Undertale_Linux_v1_001 => 0,
            Self::Undertale_Windows_v1_08 => 1,
        }
    }
}

/// The settings of the program.
pub struct Config {
    pub runner_version: ConfigRunnerVersion,
    pub server_port: u16,
    pub hotkey_1_name: String,
    pub hotkey_2_name: String,
    pub hotkey_3_name: String,
    pub hotkey_4_name: String,
}

} // verus!
