//! The host-owned caches: grid, parameters, textures and frame configuration.

use vstd::prelude::*;

use crate::grid::{Grid, zero_grid};

verus! {

/// The frame configuration a guest declares.
#[derive(Debug, Clone, Copy, PartialEq, Eq, Structural)]
pub struct FrameConfig {
    pub color_enabled: bool,
    /// Milliseconds between automatic steps; zero means event-driven.
    pub millis_per_frame: u64,
    pub texture_index: usize,
}

pub struct App {
    pub running: bool,
    pub particles: Grid,
    pub show_info: bool,
    pub texture_index: usize,
    pub textures: Vec<Vec<char>>,
    pub possible_simulations: Vec<String>,
    pub current_simulation_idx: usize,
    pub current_params: String,
    pub color_enabled: bool,
    pub millis_per_frame: u64,
}

/// The state of [`App`], with strings and vectors as sequences.
pub struct AppView {
    pub running: bool,
    pub particles: Seq<Seq<u64>>,
    pub show_info: bool,
    pub texture_index: usize,
    pub textures: Seq<Seq<char>>,
    pub possible_simulations: Seq<Seq<char>>,
    pub current_simulation_idx: usize,
    pub current_params: Seq<char>,
    pub color_enabled: bool,
    pub millis_per_frame: u64,
}

pub open spec fn textures_view(t: Seq<Vec<char>>) -> Seq<Seq<char>> {
    t.map_values(|r: Vec<char>| r@)
}

pub open spec fn paths_view(p: Seq<String>) -> Seq<Seq<char>> {
    p.map_values(|s: String| s@)
}

impl View for App {
    type V = AppView;

    open spec fn view(&self) -> AppView {
        AppView {
            running: self.running,
            particles: self.particles@,
            show_info: self.show_info,
            texture_index: self.texture_index,
            textures: textures_view(self.textures@),
            possible_simulations: paths_view(self.possible_simulations@),
            current_simulation_idx: self.current_simulation_idx,
            current_params: self.current_params@,
            color_enabled: self.color_enabled,
            millis_per_frame: self.millis_per_frame,
        }
    }
}

/// `part` occurs in `s`.
pub open spec fn has_infix(s: Seq<char>, part: Seq<char>) -> bool {
    exists|i: int| 0 <= i <= s.len() - part.len() && #[trigger] s.subrange(i, i + part.len()) == part
}

/// Relies on `str::contains`: true when `part` occurs in `s`.
#[verifier::external_body]
fn contains(s: &str, part: &str) -> (r: bool)
    ensures
        r == has_infix(s@, part@),
{
    s.contains(part)
}

/// Frame period a fresh host starts with, before any module declares one.
pub const DEFAULT_MILLIS_PER_FRAME: u64 = 250;

impl App {
    pub fn new() -> (app: App)
        ensures
            app.running,
            app.particles@ == zero_grid(1, 1),
            !app.show_info,
            app.texture_index == 0,
            app.textures@.len() == 0,
            app.possible_simulations@.len() == 1,
            app.possible_simulations@[0]@.len() == 0,
            app.current_simulation_idx == 0,
            app.current_params@.len() == 0,
            !app.color_enabled,
            app.millis_per_frame == DEFAULT_MILLIS_PER_FRAME,
    {
        let mut possible_simulations: Vec<String> = Vec::new();
        possible_simulations.push(String::new());
        App {
            running: true,
            particles: Grid::new(1, 1),
            show_info: false,
            texture_index: 0,
            textures: Vec::new(),
            possible_simulations,
            current_simulation_idx: 0,
            current_params: String::new(),
            color_enabled: false,
            millis_per_frame: DEFAULT_MILLIS_PER_FRAME,
        }
    }

    /// Set running to false to quit the application.
    pub fn quit(&mut self)
        ensures
            final(self)@ == (AppView { running: false, ..old(self)@ }),
    {
        self.running = false;
    }

    /// Selects the first module whose path contains `name`, or the first
    /// module when none does.
    pub fn select_module(&mut self, name: &str)
        ensures
            final(self)@ == (AppView {
                current_simulation_idx: final(self).current_simulation_idx,
                ..old(self)@
            }),
            (exists|i: int|
                0 <= i < old(self)@.possible_simulations.len() && has_infix(
                    #[trigger] old(self)@.possible_simulations[i],
                    name@,
                )) ==> {
                let k = final(self).current_simulation_idx as int;
                &&& k < old(self)@.possible_simulations.len()
                &&& has_infix(old(self)@.possible_simulations[k], name@)
                &&& forall|j: int|
                    0 <= j < k ==> !has_infix(#[trigger] old(self)@.possible_simulations[j], name@)
            },
            !(exists|i: int|
                0 <= i < old(self)@.possible_simulations.len() && has_infix(
                    #[trigger] old(self)@.possible_simulations[i],
                    name@,
                )) ==> final(self).current_simulation_idx == 0,
    {
        let mut i: usize = 0;
        while i < self.possible_simulations.len()
            invariant
                *self == *old(self),
                i <= self.possible_simulations@.len(),
                forall|j: int|
                    0 <= j < i ==> !has_infix(#[trigger] self@.possible_simulations[j], name@),
            decreases self.possible_simulations@.len() - i,
        {
            assert(self@.possible_simulations[i as int] == self.possible_simulations@[i as int]@);
            if contains(self.possible_simulations[i].as_str(), name) {
                self.current_simulation_idx = i;
                return;
            }
            i = i + 1;
        }
        self.current_simulation_idx = 0;
    }

    /// Replaces the grid by one of the given size, all cells zero.
    pub fn change_dimensions(&mut self, width: usize, height: usize)
        ensures
            final(self)@ == (AppView {
                particles: zero_grid(width as nat, height as nat),
                ..old(self)@
            }),
    {
        self.particles = Grid::new(width, height);
    }
}

} // verus!
