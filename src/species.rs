use vstd::prelude::*;
use crate::trail::Trail;

verus! {

/// The tunables of one species, as configured.
#[derive(Clone, Copy, Debug, PartialEq, Eq, Structural)]
pub struct SpeciesConfig {
    /// Half-width, in cells, of the square window each sensor sums.
    pub sensor_size: u32,
    /// Angle between the forward sensor and each side sensor, in tenths of a degree.
    pub sensor_angle: u32,
    /// Distance, in cells, from the agent to its sensors.
    pub sensor_distance: u32,
    /// Largest turn, in thousandths of a revolution per second.
    pub turn_speed: u32,
    /// Speed, in cells per second.
    pub move_speed: u32,
    /// Added to the uniform draw of a turn, in thousandths.
    pub forward_bias: i32,
    pub left_bias: i32,
    pub right_bias: i32,
    pub color_r: u8,
    pub color_g: u8,
    pub color_b: u8,
}

/// The immutable parameters shared by every agent of one species; the
/// fields mean what they mean in `SpeciesConfig`.
#[derive(Clone, Copy, Debug, PartialEq, Eq, Structural)]
pub struct Species {
    pub sensor_size: u32,
    pub sensor_angle: u32,
    pub sensor_distance: u32,
    pub turn_speed: u32,
    pub move_speed: u32,
    pub forward_bias: i32,
    pub left_bias: i32,
    pub right_bias: i32,
    /// What an agent of this species deposits.
    pub color: Trail,
}

impl Species {
    /// The species of a configuration: every field carried over, the
    /// colour channels gathered into one cell value.
    pub open spec fn of_config(config: SpeciesConfig) -> Species {
        Species {
            sensor_size: config.sensor_size,
            sensor_angle: config.sensor_angle,
            sensor_distance: config.sensor_distance,
            turn_speed: config.turn_speed,
            move_speed: config.move_speed,
            forward_bias: config.forward_bias,
            left_bias: config.left_bias,
            right_bias: config.right_bias,
            color: Trail { r: config.color_r, g: config.color_g, b: config.color_b },
        }
    }

    pub fn new(config: SpeciesConfig) -> (s: Species)
        ensures
            s == Species::of_config(config),
    {
        Species {
            sensor_size: config.sensor_size,
            sensor_angle: config.sensor_angle,
            sensor_distance: config.sensor_distance,
            turn_speed: config.turn_speed,
            move_speed: config.move_speed,
            forward_bias: config.forward_bias,
            left_bias: config.left_bias,
            right_bias: config.right_bias,
            color: Trail::new(config.color_r, config.color_g, config.color_b),
        }
    }
}

/// Builds the species of each configuration in order, and adds their
/// number to `species_count`.
pub fn construct_species(configs: &Vec<SpeciesConfig>, species_count: &mut usize) -> (r: Vec<Species>)
    requires
        *old(species_count) + configs@.len() <= usize::MAX,
    ensures
        r@.len() == configs@.len(),
        forall|i: int| 0 <= i < configs@.len() ==> #[trigger] r@[i] == Species::of_config(configs@[i]),
        *final(species_count) == *old(species_count) + configs@.len(),
{
    let mut data: Vec<Species> = Vec::new();
    let mut i: usize = 0;
    while i < configs.len()
        invariant
            i <= configs@.len(),
            data@.len() == i,
            *species_count == *old(species_count) + i,
            *old(species_count) + configs@.len() <= usize::MAX,
            forall|j: int| 0 <= j < i ==> #[trigger] data@[j] == Species::of_config(configs@[j]),
        decreases configs@.len() - i,
    {
        *species_count = *species_count + 1;
        data.push(Species::new(configs[i]));
        i = i + 1;
    }
    data
}

} // verus!
