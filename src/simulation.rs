use vstd::prelude::*;
use rand::rngs::StdRng;
use crate::agent::{deposits, stepped, Agent};
use crate::compass::{directions_ok, Compass};
use crate::config::{ConfigProblem, Pattern, SetupError, SimulationConfig, WindowConfig};
use crate::species::Species;
use crate::trail::{evolve_view, FieldView, TrailMap};
use crate::units::{ANGLE_STEPS, MAX_FIELD_SIDE, UNIT};

verus! {

/// Where an agent placed by `pattern` may stand in a field of `width` by
/// `height` cells, with `species_count` species.
pub open spec fn placed(a: Agent, pattern: Pattern, width: int, height: int, species_count: int) -> bool {
    &&& a.within(width, height)
    &&& a.species < species_count
    &&& pattern == Pattern::Center ==> a.x == width * UNIT / 2 && a.y == height * UNIT / 2
}

/// Every agent of a list is placed by `pattern`.
pub open spec fn all_placed(agents: Seq<Agent>, pattern: Pattern, width: int, height: int, species_count: int) -> bool {
    forall|i: int| 0 <= i < agents.len() ==> placed(#[trigger] agents[i], pattern, width, height, species_count)
}

/// The agents of a fresh simulation: `config.agent_count` of them, each
/// with a uniformly random heading and species, at a uniformly random
/// position (`Random`) or at the centre of the field (`Center`).
/// `Spherical` placement is not implemented and is refused.
pub fn construct_agents(
    config: &SimulationConfig,
    width: u32,
    height: u32,
    species_count: u32,
    rng: &mut StdRng,
) -> (r: Result<Vec<Agent>, SetupError>)
    requires
        1 <= width <= MAX_FIELD_SIDE,
        1 <= height <= MAX_FIELD_SIDE,
        species_count > 0,
    ensures
        config.pattern == Pattern::Spherical <==> r == Err::<Vec<Agent>, SetupError>(SetupError::UnimplementedPattern),
        config.pattern != Pattern::Spherical ==> r is Ok && r->Ok_0@.len() == config.agent_count && all_placed(
            r->Ok_0@,
            config.pattern,
            width as int,
            height as int,
            species_count as int,
        ),
{
    if config.pattern == Pattern::Spherical {
        return Err(SetupError::UnimplementedPattern);
    }
    let mut agents: Vec<Agent> = Vec::new();
    let mut i: u32 = 0;
    while i < config.agent_count
        invariant
            i <= config.agent_count,
            agents@.len() == i,
            config.pattern != Pattern::Spherical,
            1 <= width <= MAX_FIELD_SIDE,
            1 <= height <= MAX_FIELD_SIDE,
            species_count > 0,
            all_placed(agents@, config.pattern, width as int, height as int, species_count as int),
        decreases config.agent_count - i,
    {
        let agent = Agent::default().random_angle(rng);
        let agent = if config.pattern == Pattern::Center {
            let x = width as u64 * UNIT / 2;
            let y = height as u64 * UNIT / 2;
            Agent { x, y, ..agent }
        } else {
            agent.random_position(rng, width, height)
        };
        let agent = agent.random_species(rng, species_count);
        agents.push(agent);
        i = i + 1;
    }
    Ok(agents)
}

/// A cleared trail field the size of the window.
pub fn construct_trail_map(window_config: &WindowConfig) -> (r: Result<TrailMap, SetupError>)
    ensures
        !window_config.field_ok() ==> r == Err::<TrailMap, SetupError>(SetupError::Configuration(ConfigProblem::FieldSize)),
        window_config.field_ok() ==> r is Ok && r->Ok_0.wf() && r->Ok_0.width == window_config.width
            && r->Ok_0.height == window_config.height && r->Ok_0@ == r->Ok_0@.cleared(),
{
    if !window_config.check_field() {
        return Err(SetupError::Configuration(ConfigProblem::FieldSize));
    }
    let m = TrailMap::new(window_config.width as usize, window_config.height as usize);
    assert(m@.cells =~= m@.cleared().cells);
    Ok(m)
}

/// The first problem of a set-up, checked in this order: the field size,
/// the simulation tunables, the species list, the direction table, and
/// last the placement pattern.
pub open spec fn setup_problem(
    config: SimulationConfig,
    window: WindowConfig,
    species: Seq<Species>,
    directions: Seq<(i32, i32)>,
) -> Option<SetupError> {
    if !window.field_ok() {
        Some(SetupError::Configuration(ConfigProblem::FieldSize))
    } else if config.problem() is Some {
        Some(SetupError::Configuration(config.problem()->Some_0))
    } else if species.len() == 0 {
        Some(SetupError::Configuration(ConfigProblem::NoSpecies))
    } else if !directions_ok(directions) {
        Some(SetupError::Configuration(ConfigProblem::Compass))
    } else if config.pattern == Pattern::Spherical {
        Some(SetupError::UnimplementedPattern)
    } else {
        None
    }
}

/// The whole simulation: species table, agents, and the two trail fields.
/// Agents sense `front` and deposit into `back`; the two swap roles once
/// per tick.
pub struct Simulation {
    pub config: SimulationConfig,
    pub width: usize,
    pub height: usize,
    pub species: Vec<Species>,
    pub compass: Compass,
    pub agents: Vec<Agent>,
    /// The field agents sense this tick.
    pub front: TrailMap,
    /// The field agents deposit into this tick.
    pub back: TrailMap,
    pub frame: u64,
}

/// Whether agent `i` of `s` deposits this tick, with draw `d`.
pub open spec fn agent_deposits(s: Simulation, i: int, dt: int, d: (int, int)) -> bool {
    let a = s.agents@[i];
    deposits(s.front@, a, s.compass.directions@, s.species@[a.species as int], dt, d.0)
}

/// Agent `i` of `s` after its tick, with draw `d`: it senses `s.front`,
/// the field as it stood before the tick.
pub open spec fn agent_outcome(s: Simulation, i: int, dt: int, d: (int, int)) -> Agent {
    let a = s.agents@[i];
    stepped(s.front@, a, s.compass.directions@, s.species@[a.species as int], dt, d.0, d.1)
}

/// The field after the deposits of the first `k` agents of `s`, in order,
/// on top of `s.front`: each agent that did not bounce overwrites the cell
/// it stood on with its species' colour.
pub open spec fn deposited_field(s: Simulation, dt: int, draws: Seq<(int, int)>, k: int) -> FieldView
    decreases k,
{
    if k <= 0 {
        s.front@
    } else {
        let prev = deposited_field(s, dt, draws, k - 1);
        let a = s.agents@[k - 1];
        if agent_deposits(s, k - 1, dt, draws[k - 1]) {
            prev.with_deposit(a.cell().0, a.cell().1, s.species@[a.species as int].color)
        } else {
            prev
        }
    }
}

/// One steering draw in `[0, UNIT)` and one heading in `[0, ANGLE_STEPS)`
/// per agent.
pub open spec fn draws_ok(draws: Seq<(int, int)>, n: int) -> bool {
    &&& draws.len() == n
    &&& forall|i: int| 0 <= i < n ==> 0 <= (#[trigger] draws[i]).0 < UNIT && 0 <= draws[i].1 < ANGLE_STEPS
}

/// `new` is `old` after one tick of `dt` milliseconds with the given draws:
/// every agent stepped against the field as it stood before the tick (so no
/// deposit of this tick is sensed within it), the deposits applied in agent
/// order, then one evolution pass; and the frame counter advanced.
pub open spec fn ticked(old: Simulation, new: Simulation, dt: int, draws: Seq<(int, int)>) -> bool {
    &&& draws_ok(draws, old.agents@.len() as int)
    &&& new.agents@.len() == old.agents@.len()
    &&& forall|i: int| 0 <= i < old.agents@.len() ==> #[trigger] new.agents@[i] == agent_outcome(old, i, dt, draws[i])
    &&& new.front@ == evolve_view(
        deposited_field(old, dt, draws, old.agents@.len() as int),
        old.config.diffusion_strength as int,
        old.config.evaporation_rate as int,
    )
    &&& new.back@ == old.front@
    &&& new.frame == if old.frame == u64::MAX { 0 } else { old.frame + 1 }
    &&& new.config == old.config
    &&& new.width == old.width
    &&& new.height == old.height
    &&& new.species@ == old.species@
    &&& new.compass.directions@ == old.compass.directions@
}

impl Simulation {
    pub open spec fn wf(&self) -> bool {
        &&& self.front.wf()
        &&& self.back.wf()
        &&& self.front.width == self.width && self.front.height == self.height
        &&& self.back.width == self.width && self.back.height == self.height
        &&& self.compass.wf()
        &&& 1 <= self.species@.len() <= u32::MAX
        &&& self.config.problem() is None
        &&& self.config.pattern != Pattern::Spherical
        &&& self.agents@.len() == self.config.agent_count
        &&& all_placed(self.agents@, Pattern::Random, self.width as int, self.height as int, self.species@.len() as int)
    }

    /// A fresh simulation: agents placed by the configured pattern, both
    /// fields cleared, frame 0. Fails with the first problem of the set-up.
    pub fn new(
        config: SimulationConfig,
        window_config: &WindowConfig,
        species: Vec<Species>,
        directions: Vec<(i32, i32)>,
        rng: &mut StdRng,
    ) -> (r: Result<Simulation, SetupError>)
        requires
            species@.len() <= u32::MAX,
        ensures
            setup_problem(config, *window_config, species@, directions@) is Some ==> r
                == Err::<Simulation, SetupError>(setup_problem(config, *window_config, species@, directions@)->Some_0),
            setup_problem(config, *window_config, species@, directions@) is None ==> {
                &&& r is Ok
                &&& r->Ok_0.wf()
                &&& r->Ok_0.config == config
                &&& r->Ok_0.width == window_config.width
                &&& r->Ok_0.height == window_config.height
                &&& r->Ok_0.species@ == species@
                &&& r->Ok_0.compass.directions@ == directions@
                &&& all_placed(
                    r->Ok_0.agents@,
                    config.pattern,
                    window_config.width as int,
                    window_config.height as int,
                    species@.len() as int,
                )
                &&& r->Ok_0.front@ == r->Ok_0.front@.cleared()
                &&& r->Ok_0.back@ == r->Ok_0.back@.cleared()
                &&& r->Ok_0.frame == 0
            },
    {
        let front = match construct_trail_map(window_config) {
            Ok(m) => m,
            Err(e) => {
                return Err(e);
            },
        };
        match config.check() {
            Some(p) => {
                return Err(SetupError::Configuration(p));
            },
            None => {},
        }
        if species.len() == 0 {
            return Err(SetupError::Configuration(ConfigProblem::NoSpecies));
        }
        let compass = match Compass::new(directions) {
            Ok(c) => c,
            Err(e) => {
                return Err(e);
            },
        };
        let width = front.width;
        let height = front.height;
        let agents = match construct_agents(&config, width as u32, height as u32, species.len() as u32, rng) {
            Ok(a) => a,
            Err(e) => {
                return Err(e);
            },
        };
        let mut back = TrailMap::new(width, height);
        proof {
            assert(back@.cells =~= back@.cleared().cells);
        }
        let sim = Simulation { config, width, height, species, compass, agents, front, back, frame: 0 };
        proof {
            assert forall|i: int| 0 <= i < sim.agents@.len() implies placed(
                #[trigger] sim.agents@[i],
                Pattern::Random,
                width as int,
                height as int,
                sim.species@.len() as int,
            ) by {
                assert(placed(sim.agents@[i], config.pattern, width as int, height as int, sim.species@.len() as int));
            }
        }
        Ok(sim)
    }

    /// Fresh agents placed by the configured pattern and both fields
    /// cleared; the configuration and frame counter are kept.
    pub fn reset(&mut self, rng: &mut StdRng)
        requires
            old(self).wf(),
        ensures
            final(self).wf(),
            final(self).config == old(self).config,
            final(self).width == old(self).width,
            final(self).height == old(self).height,
            final(self).species@ == old(self).species@,
            final(self).compass.directions@ == old(self).compass.directions@,
            final(self).frame == old(self).frame,
            all_placed(
                final(self).agents@,
                old(self).config.pattern,
                old(self).width as int,
                old(self).height as int,
                old(self).species@.len() as int,
            ),
            final(self).front@ == old(self).front@.cleared(),
            final(self).back@ == old(self).back@.cleared(),
    {
        let agents = match construct_agents(
            &self.config,
            self.width as u32,
            self.height as u32,
            self.species.len() as u32,
            rng,
        ) {
            Ok(a) => a,
            Err(_) => {
                return;
            },
        };
        self.agents = agents;
        self.front.clear();
        self.back.clear();
        proof {
            let s = *self;
            assert forall|i: int| 0 <= i < s.agents@.len() implies placed(
                #[trigger] s.agents@[i],
                Pattern::Random,
                s.width as int,
                s.height as int,
                s.species@.len() as int,
            ) by {
                assert(placed(s.agents@[i], s.config.pattern, s.width as int, s.height as int, s.species@.len() as int));
            }
        }
    }

    /// One tick of `dt` milliseconds: the back field is set to the front
    /// one; each agent in order senses the front field, steers, moves, and
    /// unless it bounced deposits into the back field where it stood; the
    /// back field evolves; the two fields swap; the frame counter advances.
    pub fn tick(&mut self, dt: u32, rng: &mut StdRng)
        requires
            old(self).wf(),
        ensures
            final(self).wf(),
            exists|draws: Seq<(int, int)>| #[trigger] ticked(*old(self), *final(self), dt as int, draws),
    {
        let ghost pre = *self;
        self.back.copy_from(&self.front);
        let n = self.agents.len();
        let ghost mut draws: Seq<(int, int)> = seq![];
        let mut i: usize = 0;
        while i < n
            invariant
                pre.wf(),
                n == pre.agents@.len(),
                i <= n,
                self.config == pre.config,
                self.width == pre.width,
                self.height == pre.height,
                self.species@ == pre.species@,
                self.compass.directions@ == pre.compass.directions@,
                self.front == pre.front,
                self.frame == pre.frame,
                self.back.wf(),
                self.back.width == pre.width,
                self.back.height == pre.height,
                self.agents@.len() == n,
                draws_ok(draws, i as int),
                self.back@ == deposited_field(pre, dt as int, draws, i as int),
                forall|j: int| 0 <= j < i ==> #[trigger] self.agents@[j] == agent_outcome(pre, j, dt as int, draws[j]),
                forall|j: int| i <= j < n ==> #[trigger] self.agents@[j] == pre.agents@[j],
                all_placed(self.agents@, Pattern::Random, pre.width as int, pre.height as int, pre.species@.len() as int),
            decreases n - i,
        {
            let a = self.agents[i];
            assert(placed(a, Pattern::Random, pre.width as int, pre.height as int, pre.species@.len() as int));
            let s = a.species as usize;
            let (next, dep) = a.step(&self.front, &self.compass, &self.species[s], dt, rng);
            let ghost (dr, dh) = choose|r: int, h: int|
                0 <= r < UNIT && 0 <= h < ANGLE_STEPS && next == #[trigger] stepped(
                    pre.front@,
                    a,
                    pre.compass.directions@,
                    pre.species@[s as int],
                    dt as int,
                    r,
                    h,
                ) && dep == deposits(pre.front@, a, pre.compass.directions@, pre.species@[s as int], dt as int, r);
            let ghost d: (int, int) = (dr, dh);
            if dep {
                let cx = (a.x / UNIT) as usize;
                let cy = (a.y / UNIT) as usize;
                self.back.deposit(cx, cy, self.species[s].color);
            }
            self.agents.set(i, next);
            proof {
                let old_draws = draws;
                draws = draws.push(d);
                assert(deposited_field(pre, dt as int, draws, i as int) == deposited_field(
                    pre,
                    dt as int,
                    old_draws,
                    i as int,
                )) by {
                    lemma_deposited_prefix(pre, dt as int, old_draws, draws, i as int);
                }
                assert(agent_outcome(pre, i as int, dt as int, d) == next);
                assert forall|j: int| 0 <= j < i + 1 implies #[trigger] self.agents@[j] == agent_outcome(
                    pre,
                    j,
                    dt as int,
                    draws[j],
                ) by {
                    if j < i {
                        assert(draws[j] == old_draws[j]);
                    }
                }
            }
            i = i + 1;
        }
        self.back.evolve(self.config.diffusion_strength, self.config.evaporation_rate);
        std::mem::swap(&mut self.front, &mut self.back);
        self.frame = if self.frame == u64::MAX {
            0
        } else {
            self.frame + 1
        };
        assert(ticked(pre, *self, dt as int, draws));
    }

    /// The front field as bytes for a renderer, four per cell.
    pub fn pixels(&self) -> (bytes: Vec<u8>)
        requires
            self.wf(),
        ensures
            bytes@.len() == 4 * self.front.cells@.len(),
            forall|p: int|
                0 <= p < bytes@.len() ==> #[trigger] bytes@[p] == crate::trail::pixel_byte(
                    self.front.cells@[p / 4],
                    p % 4,
                ),
    {
        self.front.pixels()
    }
}

/// Double buffering: within a tick every agent steps against the field as
/// it stood before the tick, which the back field holds afterwards; the
/// tick's deposits, evolved, are the front field that the next tick senses.
pub proof fn lemma_tick_senses_previous_field(
    old: Simulation,
    new: Simulation,
    dt: int,
    draws: Seq<(int, int)>,
    i: int,
)
    requires
        ticked(old, new, dt, draws),
        0 <= i < old.agents@.len(),
    ensures
        new.agents@[i] == stepped(
            new.back@,
            old.agents@[i],
            old.compass.directions@,
            old.species@[old.agents@[i].species as int],
            dt,
            draws[i].0,
            draws[i].1,
        ),
        new.back@ == old.front@,
        new.front@ == evolve_view(
            deposited_field(old, dt, draws, old.agents@.len() as int),
            old.config.diffusion_strength as int,
            old.config.evaporation_rate as int,
        ),
        old.frame < u64::MAX ==> new.frame == old.frame + 1,
{
    assert(new.agents@[i] == agent_outcome(old, i, dt, draws[i]));
}

/// `deposited_field` up to `k` reads only the first `k` draws.
proof fn lemma_deposited_prefix(s: Simulation, dt: int, a: Seq<(int, int)>, b: Seq<(int, int)>, k: int)
    requires
        0 <= k <= a.len(),
        k <= b.len(),
        forall|j: int| 0 <= j < k ==> a[j] == b[j],
    ensures
        deposited_field(s, dt, a, k) == deposited_field(s, dt, b, k),
    decreases k,
{
    if k > 0 {
        lemma_deposited_prefix(s, dt, a, b, k - 1);
    }
}

} // verus!
