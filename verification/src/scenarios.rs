//! An earlier, smaller navigation scenario kept alongside the missions: a
//! player and a target on a fixed grid, with movement clamped to the
//! interior.

use vstd::prelude::*;

use crate::rng::rand_in_range;
use crate::util::clamp_add_i32;
use crate::util::clamp_i;

verus! {

/// A running scenario, by kind.
pub enum Scenario {
    Booting,
    Navigation(NavState),
}

impl Scenario {
    /// The navigation state, when one is active.
    pub fn as_nav(&self) -> (r: Option<&NavState>)
        ensures
            match self {
                Scenario::Navigation(s) => r == Some(s),
                Scenario::Booting => r is None,
            },
    {
        match self {
            Scenario::Navigation(s) => Some(s),
            _ => None,
        }
    }
}

/// Player and target positions on a small fixed grid.
pub struct NavState {
    pub player: (i32, i32),
    pub target: (i32, i32),
    pub grid_size: (i32, i32),
}

impl NavState {
    /// A fresh scenario: the player near the corner, the target somewhere in
    /// the interior of a 30 by 18 grid.
    pub fn new() -> (s: NavState)
        ensures
            s.player == (2i32, 2i32),
            s.grid_size == (30i32, 18i32),
            10 <= s.target.0 < 28,
            5 <= s.target.1 < 15,
    {
        let tx = rand_in_range(10, 28);
        let ty = rand_in_range(5, 15);
        NavState { player: (2, 2), target: (tx, ty), grid_size: (30, 18) }
    }

    /// Moves the player one step, clamped to the grid's interior (one cell
    /// in from every border).
    pub fn move_player(&mut self, dx: i32, dy: i32)
        requires
            old(self).grid_size.0 >= 3,
            old(self).grid_size.1 >= 3,
        ensures
            final(self).player.0 as int == clamp_i(
                old(self).player.0 + dx,
                1,
                old(self).grid_size.0 - 2,
            ),
            final(self).player.1 as int == clamp_i(
                old(self).player.1 + dy,
                1,
                old(self).grid_size.1 - 2,
            ),
            final(self).target == old(self).target,
            final(self).grid_size == old(self).grid_size,
    {
        let (w, h) = self.grid_size;
        let (px, py) = self.player;
        self.player = (clamp_add_i32(px, dx, 1, w - 2), clamp_add_i32(py, dy, 1, h - 2));
    }

    /// Whether the player stands on the target.
    pub fn is_at_target(&self) -> (r: bool)
        ensures
            r == (self.player == self.target),
    {
        let (px, py) = self.player;
        let (tx, ty) = self.target;
        px == tx && py == ty
    }
}

} // verus!
