use ascii_particles_simulator::app::{App, FrameConfig};
use ascii_particles_simulator::error::{CallError, HostError, LoadError, StateError};
use ascii_particles_simulator::event::{InputEvent, KeyCode, KeyEvent, KeyEventKind, Modifiers};
use ascii_particles_simulator::grid::Grid;
use ascii_particles_simulator::handler::{cycle_index, handle_events, handle_key_events};
use ascii_particles_simulator::lua_sim::{get_should_update, Flag, GuestCall, LuaSim, Reply, ShouldUpdate, MAX_CHAIN};

fn grid_of(width: usize, height: usize, value: f64) -> Grid {
    Grid { rows: vec![vec![value.to_bits(); width]; height] }
}

fn intent(simulation: bool, particles: bool, params: bool, config: bool) -> ShouldUpdate {
    ShouldUpdate { simulation, particles, params, config }
}

fn styles(ramps: &[&[&str]]) -> Vec<Vec<String>> {
    ramps.iter().map(|r| r.iter().map(|g| g.to_string()).collect()).collect()
}

fn config(millis: u64, texture_index: usize) -> FrameConfig {
    FrameConfig { color_enabled: false, millis_per_frame: millis, texture_index }
}

fn no_mods() -> Modifiers {
    Modifiers { shift: false, control: false, alt: false, super_key: false, hyper: false, meta: false }
}

fn shift() -> Modifiers {
    Modifiers { shift: true, ..no_mods() }
}

fn press(code: KeyCode, modifiers: Modifiers) -> KeyEvent {
    KeyEvent { code, modifiers, kind: KeyEventKind::Press }
}

/// Makes each pending call with `guest` and answers it; returns the calls made.
fn drive(
    app: &mut App,
    sim: &mut LuaSim,
    guest: &mut dyn FnMut(&GuestCall) -> Reply,
) -> Result<Vec<GuestCall>, HostError> {
    let mut made = Vec::new();
    while let Some(call) = sim.next_call()? {
        let reply = guest(&call);
        made.push(call);
        sim.answer(app, reply)?;
    }
    Ok(made)
}

/// A guest module with fixed answers; its grid is the one it was set up
/// with, or last handed.
fn module(params: &'static str, ramps: Vec<Vec<String>>, cfg: FrameConfig) -> impl FnMut(&GuestCall) -> Reply {
    let mut grid = Grid { rows: Vec::new() };
    move |call| match call {
        GuestCall::Load(g) | GuestCall::SetParticles(g) => {
            grid = g.clone();
            Reply::Done
        }
        GuestCall::GetParams => Reply::Params(params.to_string()),
        GuestCall::GetTextures => Reply::Textures(ramps.clone()),
        GuestCall::GetConfig => Reply::Config(cfg),
        GuestCall::Simulate | GuestCall::HandleEvents(_) => Reply::Update(intent(false, false, false, false)),
        GuestCall::GetParticles => Reply::Particles(grid.clone()),
        _ => Reply::Done,
    }
}

fn two_modules() -> App {
    let mut app = App::new();
    app.possible_simulations = vec!["mods/noise/simulation.lua".to_string(), "mods/fire/simulation.lua".to_string()];
    app
}

fn loaded(width: usize, height: usize) -> (App, LuaSim) {
    let mut app = two_modules();
    app.change_dimensions(width, height);
    let mut sim = LuaSim::new();
    sim.load_simulation(&app).unwrap();
    drive(&mut app, &mut sim, &mut module("noise: 1", styles(&[&[" ", ".", "#"]]), config(50, 0))).unwrap();
    (app, sim)
}

#[test]
fn new_app_starts_running_with_defaults() {
    let app = App::new();
    assert!(app.running);
    assert!(!app.show_info);
    assert_eq!(app.particles.dimensions(), (1, 1));
    assert_eq!(app.millis_per_frame, 250);
    assert!(app.textures.is_empty());
    assert_eq!(app.current_params, "");
}

#[test]
fn change_dimensions_makes_a_zero_grid() {
    let mut app = App::new();
    app.change_dimensions(4, 3);
    assert_eq!(app.particles.dimensions(), (4, 3));
    assert!(app.particles.rows.iter().all(|r| r.len() == 4 && r.iter().all(|c| *c == 0)));
}

#[test]
fn grid_new_and_dimensions() {
    let g = Grid::new(3, 2);
    assert_eq!(g.rows, vec![vec![0u64; 3]; 2]);
    assert_eq!(g.dimensions(), (3, 2));
    assert_eq!(Grid::new(5, 0).dimensions(), (0, 0));
}

#[test]
fn load_sets_up_then_pulls_params_textures_config() {
    let mut app = two_modules();
    app.change_dimensions(10, 5);
    let mut sim = LuaSim::new();
    sim.load_simulation(&app).unwrap();
    let made = drive(&mut app, &mut sim, &mut module("noise: 1", styles(&[&[" ", ".:", "#"]]), config(50, 0))).unwrap();
    assert_eq!(
        made,
        vec![
            GuestCall::Reset,
            GuestCall::Load(Grid::new(10, 5)),
            GuestCall::GetParticles,
            GuestCall::GetParams,
            GuestCall::GetTextures,
            GuestCall::GetConfig
        ]
    );
    assert!(sim.loaded);
    assert_eq!(app.current_params, "noise: 1");
    assert_eq!(app.textures, vec![vec![' ', '.', '#']]);
    assert_eq!(app.millis_per_frame, 50);
    // The pulled grid keeps the size of the one handed to setup.
    assert_eq!(app.particles.dimensions(), (10, 5));
    assert_eq!(sim.load_left, 0);
}

#[test]
fn switch_keeps_viewport_size() {
    let (mut app, mut sim) = loaded(7, 3);
    app.current_simulation_idx = 1;
    sim.switch_simulation(&mut app).unwrap();
    drive(&mut app, &mut sim, &mut module("fire: 2", styles(&[&["a"]]), config(0, 0))).unwrap();
    assert_eq!(app.particles.dimensions(), (7, 3));
}

#[test]
fn switch_caches_only_the_new_module() {
    let (mut app, mut sim) = loaded(4, 4);
    app.texture_index = 3;
    app.current_simulation_idx = 1;
    sim.switch_simulation(&mut app).unwrap();
    assert_eq!(app.texture_index, 0);
    assert_eq!(app.current_params, "");
    assert!(app.textures.is_empty());
    let made = drive(&mut app, &mut sim, &mut module("fire: 2", styles(&[&["x", "y"], &["z"]]), config(0, 1))).unwrap();
    assert_eq!(
        made,
        vec![
            GuestCall::Reset,
            GuestCall::Load(Grid::new(4, 4)),
            GuestCall::GetParticles,
            GuestCall::GetParams,
            GuestCall::GetTextures,
            GuestCall::GetConfig
        ]
    );
    assert_eq!(sim.current_simulation_idx, 1);
    assert_eq!(app.current_params, "fire: 2");
    assert_eq!(app.textures, vec![vec!['x', 'y'], vec!['z']]);
    assert_eq!(app.texture_index, 1);
    assert_eq!(app.millis_per_frame, 0);
}

#[test]
fn quiet_update_changes_nothing() {
    let (mut app, mut sim) = loaded(3, 2);
    app.particles = grid_of(3, 2, 0.25);
    let before_grid = app.particles.clone();
    let before_params = app.current_params.clone();
    let before_textures = app.textures.clone();
    let before_millis = app.millis_per_frame;
    app.hande_update(&intent(false, false, false, false), &mut sim);
    assert!(sim.pending.is_empty());
    let made = drive(&mut app, &mut sim, &mut |_| panic!("no call expected")).unwrap();
    assert!(made.is_empty());
    assert_eq!(app.particles, before_grid);
    assert_eq!(app.current_params, before_params);
    assert_eq!(app.textures, before_textures);
    assert_eq!(app.millis_per_frame, before_millis);
}

#[test]
fn particles_pull_replaces_whole_grid() {
    let (mut app, mut sim) = loaded(3, 2);
    let mut pulled = grid_of(3, 2, 0.0);
    pulled.rows[1][2] = 0.75f64.to_bits();
    app.hande_update(&intent(false, true, false, false), &mut sim);
    let made = drive(&mut app, &mut sim, &mut |_| Reply::Particles(pulled.clone())).unwrap();
    assert_eq!(made, vec![GuestCall::GetParticles]);
    assert_eq!(app.particles, pulled);
}

#[test]
fn pulled_grid_of_other_size_replaces_it_too() {
    let (mut app, mut sim) = loaded(3, 2);
    app.hande_update(&intent(false, true, false, false), &mut sim);
    drive(&mut app, &mut sim, &mut |_| Reply::Particles(grid_of(1, 4, 0.5))).unwrap();
    assert_eq!(app.particles.dimensions(), (1, 4));
}

#[test]
fn chained_step_runs_before_the_event_pulls() {
    let (mut app, mut sim) = loaded(2, 2);
    let stepped = grid_of(2, 2, 0.9);
    let ev = InputEvent::Key(press(KeyCode::Char('x'), no_mods()));
    handle_events(&ev, &mut app, &mut sim).unwrap();
    let mut guest = |call: &GuestCall| match call {
        GuestCall::HandleEvents(_) => Reply::Update(intent(true, false, true, false)),
        GuestCall::Simulate => Reply::Update(intent(false, true, false, false)),
        GuestCall::GetParticles => Reply::Particles(stepped.clone()),
        GuestCall::GetParams => Reply::Params("after step".to_string()),
        _ => Reply::Done,
    };
    let made = drive(&mut app, &mut sim, &mut guest).unwrap();
    assert!(matches!(made[0], GuestCall::HandleEvents(_)));
    assert_eq!(made[1..].to_vec(), vec![GuestCall::Simulate, GuestCall::GetParticles, GuestCall::GetParams]);
    assert_eq!(app.particles, stepped);
    assert_eq!(app.current_params, "after step");
}

#[test]
fn noise_step_without_particles_keeps_grid_then_pull_stays_in_bounds() {
    let (mut app, mut sim) = loaded(10, 5);
    let snapshot = app.particles.clone();
    // The noise module draws brightness in [-1, 1).
    let mut seed: u64 = 12345;
    let mut noise = |call: &GuestCall| match call {
        GuestCall::Simulate => Reply::Update(intent(false, false, false, false)),
        GuestCall::GetParticles => {
            let mut rows = Vec::new();
            for _ in 0..5 {
                let mut row = Vec::new();
                for _ in 0..10 {
                    seed = seed.wrapping_mul(6364136223846793005).wrapping_add(1442695040888963407);
                    let unit = (seed >> 11) as f64 / (1u64 << 53) as f64;
                    row.push((unit * 2.0 - 1.0).to_bits());
                }
                rows.push(row);
            }
            Reply::Particles(Grid { rows })
        }
        _ => Reply::Done,
    };
    sim.step().unwrap();
    drive(&mut app, &mut sim, &mut noise).unwrap();
    assert_eq!(app.particles, snapshot);

    let mut noise_pull = |call: &GuestCall| match call {
        GuestCall::Simulate => Reply::Update(intent(false, true, false, false)),
        other => noise(other),
    };
    sim.step().unwrap();
    let made = drive(&mut app, &mut sim, &mut noise_pull).unwrap();
    assert_eq!(made, vec![GuestCall::Simulate, GuestCall::GetParticles]);
    assert_eq!(app.particles.dimensions(), (10, 5));
    for row in &app.particles.rows {
        for cell in row {
            let b = f64::from_bits(*cell);
            assert!((-1.0..=1.0).contains(&b));
        }
    }
}

#[test]
fn step_before_load_is_a_state_error() {
    let mut sim = LuaSim::new();
    assert_eq!(sim.step(), Err(HostError::State(StateError::NotLoaded)));
    assert_eq!(sim.set_texture_index(1), Err(HostError::State(StateError::NotLoaded)));
    assert_eq!(sim.handle_events(&InputEvent::FocusGained), Err(HostError::State(StateError::NotLoaded)));
    assert_eq!(sim.update_all_data(), Err(HostError::State(StateError::NotLoaded)));
    assert_eq!(sim.set_particles(&App::new()), Err(HostError::State(StateError::NotLoaded)));
}

#[test]
fn queueing_while_a_call_is_in_flight_is_refused() {
    let (mut app, mut sim) = loaded(2, 2);
    sim.step().unwrap();
    assert_eq!(sim.next_call(), Ok(Some(GuestCall::Simulate)));
    assert_eq!(sim.step(), Err(HostError::State(StateError::Busy)));
    assert_eq!(sim.next_call(), Err(HostError::State(StateError::Busy)));
    assert_eq!(sim.load_simulation(&app), Err(HostError::State(StateError::Busy)));
    assert_eq!(sim.switch_simulation(&mut app), Err(HostError::State(StateError::Busy)));
}

#[test]
fn reply_without_a_call_is_refused() {
    let (mut app, mut sim) = loaded(2, 2);
    assert_eq!(sim.answer(&mut app, Reply::Done), Err(HostError::State(StateError::NoCallPending)));
}

#[test]
fn reply_of_the_wrong_kind_is_refused_and_clears_the_queue() {
    let (mut app, mut sim) = loaded(2, 2);
    sim.update_all_data().unwrap();
    assert_eq!(sim.next_call(), Ok(Some(GuestCall::GetParams)));
    assert_eq!(
        sim.answer(&mut app, Reply::Particles(grid_of(2, 2, 0.0))),
        Err(HostError::State(StateError::UnexpectedReply))
    );
    assert!(sim.pending.is_empty());
    assert_eq!(app.particles, grid_of(2, 2, 0.0));
}

#[test]
fn load_of_unknown_module_is_refused() {
    let mut app = two_modules();
    app.current_simulation_idx = 2;
    let mut sim = LuaSim::new();
    assert_eq!(sim.load_simulation(&app), Err(HostError::State(StateError::NoSuchModule)));
    assert_eq!(sim.switch_simulation(&mut app), Err(HostError::State(StateError::NoSuchModule)));
    assert!(!sim.loaded);
}

#[test]
fn failed_setup_is_a_load_error_and_leaves_no_module() {
    let mut app = two_modules();
    let mut sim = LuaSim::new();
    sim.load_simulation(&app).unwrap();
    let r = drive(&mut app, &mut sim, &mut |_| Reply::Failed("no Simulation table".to_string()));
    assert_eq!(r, Err(HostError::Load(LoadError::Guest("no Simulation table".to_string()))));
    assert!(!sim.loaded);
    assert!(sim.pending.is_empty());
    assert_eq!(sim.step(), Err(HostError::State(StateError::NotLoaded)));
}

#[test]
fn failed_guest_call_is_a_call_error() {
    let (mut app, mut sim) = loaded(2, 2);
    sim.step().unwrap();
    let r = drive(&mut app, &mut sim, &mut |_| Reply::Failed("attempt to call nil".to_string()));
    assert_eq!(r, Err(HostError::Call(CallError::Guest("attempt to call nil".to_string()))));
    assert!(sim.loaded);
}

#[test]
fn endless_chaining_stops_at_the_cap() {
    let (mut app, mut sim) = loaded(2, 2);
    sim.step().unwrap();
    let mut steps = 0usize;
    let r = drive(&mut app, &mut sim, &mut |_| {
        steps += 1;
        Reply::Update(intent(true, false, false, false))
    });
    assert_eq!(r, Err(HostError::Call(CallError::ChainTooLong)));
    assert_eq!(steps, MAX_CHAIN + 1);
    assert!(sim.pending.is_empty());
    // Once drained, the count starts over.
    assert_eq!(sim.next_call(), Ok(None));
    assert_eq!(sim.hops, 0);
}

#[test]
fn empty_glyph_is_a_call_error() {
    let (mut app, mut sim) = loaded(2, 2);
    let before = app.textures.clone();
    sim.update_all_data().unwrap();
    let mut guest = module("p", styles(&[&["a", ""]]), config(0, 0));
    let r = drive(&mut app, &mut sim, &mut guest);
    assert_eq!(r, Err(HostError::Call(CallError::EmptyGlyph)));
    assert!(sim.loaded);
    assert_eq!(app.textures, before);
}

#[test]
fn ragged_grid_is_a_call_error() {
    let (mut app, mut sim) = loaded(2, 2);
    app.hande_update(&intent(false, true, false, false), &mut sim);
    let ragged = Grid { rows: vec![vec![0; 2], vec![0; 3]] };
    let r = drive(&mut app, &mut sim, &mut |_| Reply::Particles(ragged.clone()));
    assert_eq!(r, Err(HostError::Call(CallError::RaggedGrid)));
    assert_eq!(app.particles.dimensions(), (2, 2));
}

#[test]
fn update_helpers_replace_each_cache() {
    let (mut app, sim) = loaded(2, 2);
    sim.update_params(&mut app, "a: 1\nb: 2".to_string());
    assert_eq!(app.current_params, "a: 1\nb: 2");
    sim.update_textures(&mut app, styles(&[&["ab", "c"]])).unwrap();
    assert_eq!(app.textures, vec![vec!['a', 'c']]);
    sim.update_config(&mut app, FrameConfig { color_enabled: true, millis_per_frame: 16, texture_index: 2 });
    assert!(app.color_enabled);
    assert_eq!(app.millis_per_frame, 16);
    assert_eq!(app.texture_index, 2);
    sim.update_particles(&mut app, grid_of(5, 1, 1.0)).unwrap();
    assert_eq!(app.particles, grid_of(5, 1, 1.0));
}

#[test]
fn cycle_index_wraps_both_ways() {
    assert_eq!(cycle_index(0, 3, false), 1);
    assert_eq!(cycle_index(2, 3, false), 0);
    assert_eq!(cycle_index(0, 3, true), 2);
    assert_eq!(cycle_index(1, 3, true), 0);
    assert_eq!(cycle_index(7, 3, false), 2);
    assert_eq!(cycle_index(0, 1, true), 0);
    assert_eq!(cycle_index(usize::MAX, 2, false), 0);
}

#[test]
fn enter_cycles_textures_and_tells_the_guest() {
    let (mut app, mut sim) = loaded(2, 2);
    app.textures = vec![vec!['a'], vec!['b'], vec!['c']];
    app.texture_index = 2;
    handle_key_events(&press(KeyCode::Enter, no_mods()), &mut app, &mut sim).unwrap();
    assert_eq!(app.texture_index, 0);
    assert_eq!(sim.pending, vec![GuestCall::SetTextureIndex(0)]);
    handle_key_events(&press(KeyCode::Enter, shift()), &mut app, &mut sim).unwrap();
    assert_eq!(app.texture_index, 2);
    assert_eq!(sim.pending, vec![GuestCall::SetTextureIndex(2), GuestCall::SetTextureIndex(0)]);
}

#[test]
fn enter_without_textures_does_nothing() {
    let (mut app, mut sim) = loaded(2, 2);
    app.textures = Vec::new();
    handle_key_events(&press(KeyCode::Enter, no_mods()), &mut app, &mut sim).unwrap();
    assert_eq!(app.texture_index, 0);
    assert!(sim.pending.is_empty());
}

#[test]
fn tab_switches_modules_both_ways() {
    let (mut app, mut sim) = loaded(2, 2);
    handle_key_events(&press(KeyCode::Tab, no_mods()), &mut app, &mut sim).unwrap();
    assert_eq!(app.current_simulation_idx, 1);
    assert_eq!(sim.current_simulation_idx, 1);
    assert_eq!(sim.pending.last(), Some(&GuestCall::Reset));
    drive(&mut app, &mut sim, &mut module("fire", styles(&[&["f"]]), config(0, 0))).unwrap();
    handle_key_events(&press(KeyCode::Tab, shift()), &mut app, &mut sim).unwrap();
    assert_eq!(app.current_simulation_idx, 0);
}

#[test]
fn q_quits_and_i_toggles_info() {
    let (mut app, mut sim) = loaded(2, 2);
    handle_key_events(&press(KeyCode::Char('i'), no_mods()), &mut app, &mut sim).unwrap();
    assert!(app.show_info);
    handle_key_events(&press(KeyCode::Char('i'), no_mods()), &mut app, &mut sim).unwrap();
    assert!(!app.show_info);
    handle_key_events(&press(KeyCode::Char('q'), no_mods()), &mut app, &mut sim).unwrap();
    assert!(!app.running);
    app.quit();
    assert!(!app.running);
}

#[test]
fn key_release_is_ignored_by_the_host() {
    let (mut app, mut sim) = loaded(2, 2);
    let release = KeyEvent { code: KeyCode::Char('q'), modifiers: no_mods(), kind: KeyEventKind::Release };
    handle_key_events(&release, &mut app, &mut sim).unwrap();
    assert!(app.running);
    assert!(sim.pending.is_empty());
}

#[test]
fn tab_event_reaches_the_new_module_after_the_switch() {
    let (mut app, mut sim) = loaded(2, 2);
    handle_events(&InputEvent::Key(press(KeyCode::Tab, no_mods())), &mut app, &mut sim).unwrap();
    let made = drive(&mut app, &mut sim, &mut module("fire", styles(&[&["f"]]), config(0, 0))).unwrap();
    assert_eq!(made[0], GuestCall::Reset);
    assert!(matches!(made.last(), Some(GuestCall::HandleEvents(_))));
}

#[test]
fn select_module_prefers_the_first_match() {
    let mut app = App::new();
    app.possible_simulations = vec![
        "simulations_lua/fire/simulation.lua".to_string(),
        "simulations_lua/noise/simulation.lua".to_string(),
        "simulations_lua/noise2/simulation.lua".to_string(),
    ];
    app.select_module("noise");
    assert_eq!(app.current_simulation_idx, 1);
    app.select_module("fire");
    assert_eq!(app.current_simulation_idx, 0);
    app.current_simulation_idx = 2;
    app.select_module("water");
    assert_eq!(app.current_simulation_idx, 0);
}

#[test]
fn failed_pull_while_loading_is_a_load_error() {
    let mut app = two_modules();
    app.change_dimensions(3, 3);
    let mut sim = LuaSim::new();
    sim.load_simulation(&app).unwrap();
    let r = drive(&mut app, &mut sim, &mut module("p", styles(&[&[""]]), config(0, 0)));
    assert_eq!(r, Err(HostError::Load(LoadError::Reply(CallError::EmptyGlyph))));
    assert!(!sim.loaded);
    assert_eq!(sim.load_left, 0);
    assert!(sim.pending.is_empty());

    sim.load_simulation(&app).unwrap();
    let mut inner = module("p", styles(&[&["a"]]), config(0, 0));
    let mut failing = |call: &GuestCall| match call {
        GuestCall::GetTextures => Reply::Failed("get_textures is nil".to_string()),
        other => inner(other),
    };
    let r = drive(&mut app, &mut sim, &mut failing);
    assert_eq!(r, Err(HostError::Load(LoadError::Guest("get_textures is nil".to_string()))));
    assert!(!sim.loaded);
}

#[test]
fn load_refuses_a_grid_of_another_size() {
    let mut app = two_modules();
    app.change_dimensions(4, 2);
    let mut sim = LuaSim::new();
    sim.load_simulation(&app).unwrap();
    let mut guest = |call: &GuestCall| match call {
        GuestCall::GetParticles => Reply::Particles(grid_of(5, 2, 0.1)),
        _ => Reply::Done,
    };
    let r = drive(&mut app, &mut sim, &mut guest);
    assert_eq!(r, Err(HostError::Load(LoadError::Reply(CallError::GridSize))));
    assert!(!sim.loaded);
    assert_eq!(app.particles.dimensions(), (4, 2));
}

#[test]
fn load_sets_up_with_the_grid_as_it_was_when_queued() {
    let mut app = two_modules();
    app.particles = grid_of(2, 1, 0.3);
    let mut sim = LuaSim::new();
    sim.load_simulation(&app).unwrap();
    app.particles = grid_of(7, 7, 0.9);
    assert_eq!(sim.next_call(), Ok(Some(GuestCall::Reset)));
    sim.answer(&mut app, Reply::Done).unwrap();
    assert_eq!(sim.next_call(), Ok(Some(GuestCall::Load(grid_of(2, 1, 0.3)))));
}

#[test]
fn load_drops_calls_queued_for_the_old_module() {
    let (app, mut sim) = loaded(2, 2);
    sim.step().unwrap();
    sim.load_simulation(&app).unwrap();
    assert_eq!(sim.pending.len(), 6);
    assert_eq!(sim.pending.last(), Some(&GuestCall::Reset));
    assert!(!sim.pending.contains(&GuestCall::Simulate));
}

#[test]
fn set_particles_carries_the_current_grid() {
    let (mut app, mut sim) = loaded(2, 2);
    app.particles = grid_of(3, 1, 0.7);
    sim.set_particles(&app).unwrap();
    app.particles = grid_of(1, 1, 0.0);
    assert_eq!(sim.pending, vec![GuestCall::SetParticles(grid_of(3, 1, 0.7))]);
}

#[test]
fn update_flags_must_all_be_booleans() {
    let t = Flag::Bool(true);
    let f = Flag::Bool(false);
    assert_eq!(get_should_update(t, f, t, f), Ok(intent(true, false, true, false)));
    assert_eq!(get_should_update(f, f, f, f), Ok(intent(false, false, false, false)));
    assert_eq!(get_should_update(Flag::Missing, f, f, f), Err(CallError::BadIntent));
    assert_eq!(get_should_update(f, f, f, Flag::Other), Err(CallError::BadIntent));
    assert_eq!(ShouldUpdate::nothing(), intent(false, false, false, false));
}

#[test]
fn malformed_reply_is_a_call_error() {
    let (mut app, mut sim) = loaded(2, 2);
    sim.step().unwrap();
    let r = drive(&mut app, &mut sim, &mut |_| Reply::Invalid(CallError::BadIntent));
    assert_eq!(r, Err(HostError::Call(CallError::BadIntent)));
    assert!(sim.loaded);
}

#[test]
fn chained_step_grid_wins_when_both_intents_pull() {
    let (mut app, mut sim) = loaded(2, 2);
    let stepped = grid_of(2, 2, 0.6);
    let mut stepped_yet = false;
    handle_events(&InputEvent::FocusGained, &mut app, &mut sim).unwrap();
    let mut guest = |call: &GuestCall| match call {
        GuestCall::HandleEvents(_) => Reply::Update(intent(true, true, false, false)),
        GuestCall::Simulate => {
            stepped_yet = true;
            Reply::Update(intent(false, true, false, false))
        }
        GuestCall::GetParticles => {
            assert!(stepped_yet);
            Reply::Particles(stepped.clone())
        }
        _ => Reply::Done,
    };
    let made = drive(&mut app, &mut sim, &mut guest).unwrap();
    assert_eq!(made[1..].to_vec(), vec![GuestCall::Simulate, GuestCall::GetParticles, GuestCall::GetParticles]);
    assert_eq!(app.particles, stepped);
}
