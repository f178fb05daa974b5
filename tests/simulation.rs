use physarum::agent::Agent;
use physarum::config::{Color, ConfigProblem, Pattern, SetupError, SimulationConfig, WindowConfig};
use physarum::engine::{transition, Engine, Keys, Screen};
use physarum::simulation::{construct_agents, construct_trail_map, Simulation};
use physarum::species::{construct_species, Species, SpeciesConfig};
use physarum::trail::Trail;
use rand::rngs::StdRng;
use rand::SeedableRng;

fn directions() -> Vec<(i32, i32)> {
    (0..3600)
        .map(|i| {
            let a = i as f64 * std::f64::consts::TAU / 3600.0;
            ((a.cos() * 1000.0).round() as i32, (a.sin() * 1000.0).round() as i32)
        })
        .collect()
}

fn window(width: i32, height: i32) -> WindowConfig {
    WindowConfig {
        title: String::from("test"),
        width,
        height,
        background: Color { r: 0, g: 0, b: 0, a: 255 },
        show_fps: true,
        fullscreen: false,
        auto_run: false,
    }
}

fn config(agent_count: u32, pattern: Pattern) -> SimulationConfig {
    SimulationConfig { agent_count, diffusion_strength: 0, evaporation_rate: 0, pattern }
}

fn species_config() -> SpeciesConfig {
    SpeciesConfig {
        sensor_size: 0,
        sensor_angle: 900,
        sensor_distance: 1,
        turn_speed: 1000,
        move_speed: 1,
        forward_bias: 0,
        left_bias: 100,
        right_bias: 100,
        color_r: 255,
        color_g: 128,
        color_b: 0,
    }
}

fn species() -> Species {
    Species::new(species_config())
}

fn cell(sim: &Simulation, x: usize, y: usize) -> Trail {
    sim.front.cells[y * sim.width + x]
}

#[test]
fn one_tick_moves_and_deposits_at_the_old_cell() {
    let mut rng = StdRng::seed_from_u64(1);
    let mut sim = Simulation::new(config(1, Pattern::Center), &window(10, 10), vec![species()], directions(), &mut rng)
        .unwrap();
    sim.agents = vec![Agent { x: 5000, y: 5000, angle: 0, species: 0 }];
    sim.tick(1000, &mut rng);
    assert_eq!(sim.agents[0], Agent { x: 6000, y: 5000, angle: 0, species: 0 });
    assert_eq!(cell(&sim, 5, 5), Trail::new(255, 128, 0));
    assert_eq!(cell(&sim, 6, 5), Trail::new(0, 0, 0));
    assert_eq!(sim.frame, 1);
}

#[test]
fn a_deposit_is_not_sensed_within_its_own_tick() {
    let mut rng = StdRng::seed_from_u64(3);
    let mut sp = species();
    sp.move_speed = 0;
    let mut sim = Simulation::new(config(2, Pattern::Random), &window(10, 10), vec![sp], directions(), &mut rng).unwrap();
    // A stands on the cell that B's right sensor reads, and steps first.
    let a = Agent { x: 5500, y: 4500, angle: 0, species: 0 };
    let b = Agent { x: 5500, y: 5500, angle: 0, species: 0 };
    sim.agents = vec![a, b];
    sim.tick(100, &mut rng);
    // B sensed the stale, empty field and went straight ...
    assert_eq!(sim.agents[1].angle, 0);
    // ... although A's deposit landed where B's right sensor looks.
    assert_eq!(cell(&sim, 5, 4), Trail::new(255, 128, 0));
    // From the next tick on B senses it and turns right.
    sim.tick(100, &mut rng);
    assert_ne!(sim.agents[1].angle, 0);
    assert!(sim.agents[1].angle > 1800);
}

#[test]
fn agents_stay_inside_the_field() {
    let mut rng = StdRng::seed_from_u64(11);
    let mut sp = species();
    sp.move_speed = 40;
    sp.sensor_size = 1;
    sp.sensor_distance = 3;
    let mut cfg = config(200, Pattern::Random);
    cfg.diffusion_strength = 30;
    cfg.evaporation_rate = 3;
    let mut sim = Simulation::new(cfg, &window(17, 9), vec![sp, species()], directions(), &mut rng).unwrap();
    for _ in 0..60 {
        sim.tick(33, &mut rng);
        for a in sim.agents.iter() {
            assert!(a.x < 17_000 && a.y < 9_000);
            assert!(a.angle < 3600);
            assert!(a.species < 2);
        }
    }
    assert_eq!(sim.agents.len(), 200);
    assert_eq!(sim.frame, 60);
}

#[test]
fn the_same_seed_gives_the_same_run() {
    let run = |seed: u64| {
        let mut rng = StdRng::seed_from_u64(seed);
        let mut sp = species();
        sp.move_speed = 25;
        let mut sim = Simulation::new(config(50, Pattern::Random), &window(12, 12), vec![sp], directions(), &mut rng)
            .unwrap();
        for _ in 0..30 {
            sim.tick(40, &mut rng);
        }
        (sim.agents.clone(), sim.front.cells.clone())
    };
    assert_eq!(run(5), run(5));
}

#[test]
fn center_pattern_places_every_agent_at_the_centre() {
    let mut rng = StdRng::seed_from_u64(2);
    let agents = construct_agents(&config(20, Pattern::Center), 9, 4, 3, &mut rng).unwrap();
    assert_eq!(agents.len(), 20);
    for a in agents.iter() {
        assert_eq!((a.x, a.y), (4500, 2000));
        assert!(a.species < 3 && a.angle < 3600);
    }
}

#[test]
fn spherical_pattern_is_refused() {
    let mut rng = StdRng::seed_from_u64(2);
    assert_eq!(construct_agents(&config(5, Pattern::Spherical), 9, 4, 1, &mut rng).err(), Some(SetupError::UnimplementedPattern));
    let r = Simulation::new(config(5, Pattern::Spherical), &window(10, 10), vec![species()], directions(), &mut rng);
    assert_eq!(r.err(), Some(SetupError::UnimplementedPattern));
}

#[test]
fn configuration_errors_are_reported() {
    let mut rng = StdRng::seed_from_u64(2);
    let ok = config(5, Pattern::Random);
    let err = |r: Result<Simulation, SetupError>| r.err();
    assert_eq!(
        err(Simulation::new(ok, &window(0, 10), vec![species()], directions(), &mut rng)),
        Some(SetupError::Configuration(ConfigProblem::FieldSize))
    );
    assert_eq!(
        err(Simulation::new(ok, &window(10, -3), vec![species()], directions(), &mut rng)),
        Some(SetupError::Configuration(ConfigProblem::FieldSize))
    );
    assert_eq!(
        err(Simulation::new(config(0, Pattern::Random), &window(10, 10), vec![species()], directions(), &mut rng)),
        Some(SetupError::Configuration(ConfigProblem::AgentCount))
    );
    let mut strong = ok;
    strong.diffusion_strength = 101;
    assert_eq!(
        err(Simulation::new(strong, &window(10, 10), vec![species()], directions(), &mut rng)),
        Some(SetupError::Configuration(ConfigProblem::DiffusionStrength))
    );
    assert_eq!(
        err(Simulation::new(ok, &window(10, 10), vec![], directions(), &mut rng)),
        Some(SetupError::Configuration(ConfigProblem::NoSpecies))
    );
    assert_eq!(
        err(Simulation::new(ok, &window(10, 10), vec![species()], vec![(1000, 0)], &mut rng)),
        Some(SetupError::Configuration(ConfigProblem::Compass))
    );
    // the field size is checked before the pattern
    assert_eq!(
        err(Simulation::new(config(5, Pattern::Spherical), &window(0, 0), vec![species()], directions(), &mut rng)),
        Some(SetupError::Configuration(ConfigProblem::FieldSize))
    );
}

#[test]
fn species_construction_copies_every_field() {
    let s = Species::new(species_config());
    assert_eq!(s.color, Trail::new(255, 128, 0));
    assert_eq!(s.sensor_angle, 900);
    assert_eq!(s.sensor_size, 0);
    assert_eq!(s.turn_speed, 1000);
    assert_eq!((s.forward_bias, s.left_bias, s.right_bias), (0, 100, 100));

    let mut big = species_config();
    big.sensor_size = 5000;
    assert_eq!(Species::new(big).sensor_size, 5000);

    let mut count: usize = 2;
    let all = construct_species(&vec![species_config(), big], &mut count);
    assert_eq!(all.len(), 2);
    assert_eq!(all[1].sensor_size, 5000);
    assert_eq!(count, 4);
}

#[test]
fn a_wide_sensor_is_accepted() {
    let mut rng = StdRng::seed_from_u64(6);
    let mut wide = species();
    wide.sensor_size = 1200;
    let mut sim = Simulation::new(config(1, Pattern::Random), &window(6, 5), vec![wide], directions(), &mut rng).unwrap();
    sim.tick(16, &mut rng);
    assert!(sim.agents.iter().all(|a| a.x < 6000 && a.y < 5000));
}

#[test]
fn trail_map_follows_the_window() {
    let m = construct_trail_map(&window(4, 3)).unwrap();
    assert_eq!((m.width, m.height, m.cells.len()), (4, 3, 12));
    assert!(m.cells.iter().all(|t| *t == Trail::new(0, 0, 0)));
    assert_eq!(construct_trail_map(&window(4, 0)).err(), Some(SetupError::Configuration(ConfigProblem::FieldSize)));
}

#[test]
fn reset_clears_the_field_and_replaces_the_agents() {
    let mut rng = StdRng::seed_from_u64(9);
    let mut sim = Simulation::new(config(30, Pattern::Center), &window(8, 8), vec![species()], directions(), &mut rng)
        .unwrap();
    for _ in 0..5 {
        sim.tick(500, &mut rng);
    }
    assert!(sim.front.cells.iter().any(|t| *t != Trail::new(0, 0, 0)));
    sim.reset(&mut rng);
    assert!(sim.front.cells.iter().all(|t| *t == Trail::new(0, 0, 0)));
    assert!(sim.back.cells.iter().all(|t| *t == Trail::new(0, 0, 0)));
    assert_eq!(sim.agents.len(), 30);
    assert!(sim.agents.iter().all(|a| a.x == 4000 && a.y == 4000));
    assert_eq!(sim.frame, 5);
}

#[test]
fn pixels_show_the_front_field() {
    let mut rng = StdRng::seed_from_u64(1);
    let mut sim = Simulation::new(config(1, Pattern::Center), &window(10, 10), vec![species()], directions(), &mut rng)
        .unwrap();
    sim.agents = vec![Agent { x: 5000, y: 5000, angle: 0, species: 0 }];
    sim.tick(1000, &mut rng);
    let p = sim.pixels();
    assert_eq!(p.len(), 400);
    let i = (5 * 10 + 5) * 4;
    assert_eq!(&p[i..i + 4], &[255, 128, 0, 255]);
}

#[test]
fn run_state_transitions() {
    let none = Keys { start: false, pause: false, restart: false };
    let start = Keys { start: true, ..none };
    let pause = Keys { pause: true, ..none };
    let restart = Keys { restart: true, ..none };
    assert_eq!(transition(false, false, none), (false, false, false));
    assert_eq!(transition(false, false, pause), (false, false, false));
    assert_eq!(transition(false, false, restart), (false, false, false));
    assert_eq!(transition(false, false, start), (true, false, false));
    assert_eq!(transition(true, false, pause), (true, true, false));
    assert_eq!(transition(true, true, pause), (true, false, false));
    assert_eq!(transition(true, true, restart), (true, true, false));
    assert_eq!(transition(true, false, restart), (true, false, true));
    assert_eq!(transition(true, true, Keys { pause: true, restart: true, start: false }), (true, false, true));
}

#[test]
fn engine_ticks_only_while_running_unpaused() {
    let mut rng = StdRng::seed_from_u64(4);
    let sim = Simulation::new(config(3, Pattern::Center), &window(6, 6), vec![species()], directions(), &mut rng).unwrap();
    let mut engine = Engine::new(sim, window(6, 6));
    assert!(!engine.running);
    assert_eq!(engine.draw(16, &mut rng), Screen::Intro);
    assert_eq!(engine.simulation.frame, 0);
    engine.update(Keys { start: true, pause: false, restart: false }, &mut rng);
    assert_eq!(engine.draw(16, &mut rng), Screen::Field { show_fps: true });
    assert_eq!(engine.simulation.frame, 1);
    engine.update(Keys { start: false, pause: true, restart: false }, &mut rng);
    assert_eq!(engine.draw(16, &mut rng), Screen::Hold);
    assert_eq!(engine.simulation.frame, 1);
    engine.update(Keys { start: false, pause: true, restart: false }, &mut rng);
    engine.draw(500, &mut rng);
    engine.update(Keys { start: false, pause: false, restart: true }, &mut rng);
    assert!(engine.simulation.front.cells.iter().all(|t| *t == Trail::new(0, 0, 0)));
    assert!(engine.simulation.agents.iter().all(|a| a.x == 3000 && a.y == 3000));
}
