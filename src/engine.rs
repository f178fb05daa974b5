use vstd::prelude::*;
use rand::rngs::StdRng;
use crate::config::WindowConfig;
use crate::simulation::{all_placed, ticked, Simulation};

verus! {

/// The keys pressed since the last update.
#[derive(Clone, Copy, Debug, PartialEq, Eq, Structural)]
pub struct Keys {
    pub start: bool,
    pub pause: bool,
    pub restart: bool,
}

/// What a frame shows.
#[derive(Clone, Copy, Debug, PartialEq, Eq, Structural)]
pub enum Screen {
    /// Not started: the instructions.
    Intro,
    /// Paused: the last frame stays.
    Hold,
    /// Running: the field after a fresh tick, and the frame rate if asked for.
    Field { show_fps: bool },
}

/// The run state after the given keys: starting is for good, pausing
/// toggles only once started, and a restart is done only while running
/// unpaused, and unpauses. Returns `(running, paused, restart)`.
pub open spec fn next_state(running: bool, paused: bool, keys: Keys) -> (bool, bool, bool) {
    let running2 = running || keys.start;
    let paused2 = if running2 && keys.pause { !paused } else { paused };
    let restart = running2 && !paused2 && keys.restart;
    (running2, paused2, restart)
}

/// The run state after the given keys, as `next_state` gives it.
pub fn transition(running: bool, paused: bool, keys: Keys) -> (r: (bool, bool, bool))
    ensures
        r == next_state(running, paused, keys),
{
    let mut running = running;
    let mut paused = paused;
    if keys.start {
        running = true;
    }
    if running && keys.pause {
        paused = !paused;
    }
    if !running || paused {
        return (running, paused, false);
    }
    (running, paused, keys.restart)
}

/// The simulation with its start, pause and restart controls.
pub struct Engine {
    pub simulation: Simulation,
    pub window_config: WindowConfig,
    pub running: bool,
    pub paused: bool,
}

impl Engine {
    pub open spec fn wf(&self) -> bool {
        self.simulation.wf()
    }

    /// An engine that starts running at once when the window asks for it.
    pub fn new(simulation: Simulation, window_config: WindowConfig) -> (e: Engine)
        requires
            simulation.wf(),
        ensures
            e.wf(),
            e.simulation == simulation,
            e.window_config == window_config,
            e.running == window_config.auto_run,
            !e.paused,
    {
        let running = window_config.auto_run;
        Engine { simulation, window_config, running, paused: false }
    }

    /// Applies the keys; on a restart the simulation is reset.
    pub fn update(&mut self, keys: Keys, rng: &mut StdRng)
        requires
            old(self).wf(),
        ensures
            final(self).wf(),
            final(self).window_config == old(self).window_config,
            final(self).running == next_state(old(self).running, old(self).paused, keys).0,
            final(self).paused == next_state(old(self).running, old(self).paused, keys).1,
            !next_state(old(self).running, old(self).paused, keys).2 ==> final(self).simulation
                == old(self).simulation,
            next_state(old(self).running, old(self).paused, keys).2 ==> {
                &&& final(self).simulation.config == old(self).simulation.config
                &&& final(self).simulation.width == old(self).simulation.width
                &&& final(self).simulation.height == old(self).simulation.height
                &&& final(self).simulation.species@ == old(self).simulation.species@
                &&& final(self).simulation.compass.directions@ == old(self).simulation.compass.directions@
                &&& final(self).simulation.frame == old(self).simulation.frame
                &&& final(self).simulation.front@ == old(self).simulation.front@.cleared()
                &&& final(self).simulation.back@ == old(self).simulation.back@.cleared()
                &&& all_placed(
                    final(self).simulation.agents@,
                    old(self).simulation.config.pattern,
                    old(self).simulation.width as int,
                    old(self).simulation.height as int,
                    old(self).simulation.species@.len() as int,
                )
            },
    {
        let (running, paused, restart) = transition(self.running, self.paused, keys);
        self.running = running;
        self.paused = paused;
        if restart {
            self.simulation.reset(rng);
        }
    }

    /// Advances the simulation by one tick of `dt` milliseconds when it runs
    /// unpaused, and says what the frame shows.
    pub fn draw(&mut self, dt: u32, rng: &mut StdRng) -> (s: Screen)
        requires
            old(self).wf(),
        ensures
            final(self).wf(),
            final(self).window_config == old(self).window_config,
            final(self).running == old(self).running,
            final(self).paused == old(self).paused,
            !old(self).running ==> s == Screen::Intro && final(self).simulation == old(self).simulation,
            old(self).running && old(self).paused ==> s == Screen::Hold && final(self).simulation
                == old(self).simulation,
            old(self).running && !old(self).paused ==> {
                &&& s == (Screen::Field { show_fps: old(self).window_config.show_fps })
                &&& exists|draws: Seq<(int, int)>|
                    #[trigger] ticked(old(self).simulation, final(self).simulation, dt as int, draws)
            },
    {
        if !self.running {
            return Screen::Intro;
        }
        if self.paused {
            return Screen::Hold;
        }
        self.simulation.tick(dt, rng);
        Screen::Field { show_fps: self.window_config.show_fps }
    }
}

} // verus!
