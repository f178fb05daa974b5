use vstd::prelude::*;
use crate::units::{DIFFUSION_SCALE, MAX_FIELD_SIDE};

verus! {

/// How agents are placed when a simulation starts or resets.
#[derive(Clone, Copy, Debug, PartialEq, Eq, Structural)]
pub enum Pattern {
    /// Uniformly over the whole field.
    Random,
    /// All at the centre of the field.
    Center,
    /// Not implemented: selecting it is an error.
    Spherical,
}

/// An RGBA colour with a byte per channel.
#[derive(Clone, Copy, Debug, PartialEq, Eq, Structural)]
pub struct Color {
    pub r: u8,
    pub g: u8,
    pub b: u8,
    pub a: u8,
}

/// The window, whose size in pixels is the size of the trail field in cells.
#[derive(Debug)]
pub struct WindowConfig {
    pub title: String,
    pub width: i32,
    pub height: i32,
    pub background: Color,
    pub show_fps: bool,
    pub fullscreen: bool,
    pub auto_run: bool,
}

/// The tunables of the whole simulation.
#[derive(Clone, Copy, Debug, PartialEq, Eq, Structural)]
pub struct SimulationConfig {
    pub agent_count: u32,
    /// Share of the neighbourhood mean in a diffused cell, out of `DIFFUSION_SCALE`.
    pub diffusion_strength: u32,
    /// Amount subtracted from every channel of every cell per tick.
    pub evaporation_rate: u8,
    pub pattern: Pattern,
}

/// What is wrong with a configuration.
#[derive(Clone, Copy, Debug, PartialEq, Eq, Structural)]
pub enum ConfigProblem {
    /// A field side is zero, negative or above `MAX_FIELD_SIDE`, or the cell
    /// count does not fit a `usize`.
    FieldSize,
    /// The agent count is zero.
    AgentCount,
    /// No species is configured.
    NoSpecies,
    /// The diffusion strength is above `DIFFUSION_SCALE`.
    DiffusionStrength,
    /// The direction table does not hold one vector of length at most `UNIT`
    /// per heading.
    Compass,
}

/// Why a simulation could not be set up.
#[derive(Clone, Copy, Debug, PartialEq, Eq, Structural)]
pub enum SetupError {
    Configuration(ConfigProblem),
    /// The `Spherical` placement was selected.
    UnimplementedPattern,
}

/// A field of `width` by `height` cells can be held.
pub open spec fn field_size_ok(width: int, height: int) -> bool {
    &&& 1 <= width <= MAX_FIELD_SIDE
    &&& 1 <= height <= MAX_FIELD_SIDE
    &&& width * height <= usize::MAX
}

impl WindowConfig {
    pub open spec fn field_ok(&self) -> bool {
        field_size_ok(self.width as int, self.height as int)
    }

    /// Whether the window's size is a field size that can be held.
    pub fn check_field(&self) -> (ok: bool)
        ensures
            ok == self.field_ok(),
    {
        if self.width < 1 || self.height < 1 || self.width as u32 > MAX_FIELD_SIDE || self.height as u32
            > MAX_FIELD_SIDE {
            return false;
        }
        let w = self.width as u64;
        let h = self.height as u64;
        assert(w * h <= 1_000_000_000_000) by (nonlinear_arith)
            requires
                w <= 1_000_000,
                h <= 1_000_000,
        ;
        w * h <= usize::MAX as u64
    }
}

impl SimulationConfig {
    /// The problem with these tunables, if any; the placement pattern is not
    /// looked at.
    pub open spec fn problem(&self) -> Option<ConfigProblem> {
        if self.agent_count == 0 {
            Some(ConfigProblem::AgentCount)
        } else if self.diffusion_strength > DIFFUSION_SCALE {
            Some(ConfigProblem::DiffusionStrength)
        } else {
            None
        }
    }

    pub fn check(&self) -> (p: Option<ConfigProblem>)
        ensures
            p == self.problem(),
    {
        if self.agent_count == 0 {
            Some(ConfigProblem::AgentCount)
        } else if self.diffusion_strength > DIFFUSION_SCALE {
            Some(ConfigProblem::DiffusionStrength)
        } else {
            None
        }
    }
}

} // verus!
