//! The automaton's settings: grid width, current rule and seed mode, and the
//! flags that record which parts of the view still lag a change of rule.
use vstd::prelude::*;
use crate::rule::{decode_rule, rule_table};

verus! {

/// The rule and seed mode that the grid is computed from.
pub struct CellSettings {
    /// Number of columns, and of rows, of the grid.
    pub num_cells: u32,
    /// The Wolfram rule number.
    pub rule_num: u8,
    /// The lookup table of `rule_num`.
    pub rule: [bool; 8],
    /// Whether the seed row is random rather than a single middle cell.
    pub random: bool,
}

impl CellSettings {
    /// The table always matches the rule number.
    pub open spec fn wf(&self) -> bool {
        self.rule@ == rule_table(self.rule_num)
    }

    /// Settings for a `num_cells` wide grid under rule `rule_num`, seeded with
    /// a single middle cell.
    pub fn new(num_cells: u32, rule_num: u8) -> (s: CellSettings)
        ensures
            s.wf(),
            s.num_cells == num_cells,
            s.rule_num == rule_num,
            !s.random,
    {
        CellSettings { num_cells, rule_num, rule: decode_rule(rule_num), random: false }
    }

    /// Moves `amount` rules up (or down, when `up` is false), wrapping around
    /// at 0 and 255, and returns the new rule number.
    pub fn scroll_rule(&mut self, up: bool, amount: u8) -> (r: u8)
        requires
            old(self).wf(),
        ensures
            final(self).wf(),
            r == final(self).rule_num,
            up ==> final(self).rule_num as int == (old(self).rule_num as int + amount as int) % 256,
            !up ==> final(self).rule_num as int == (old(self).rule_num as int - amount as int + 256)
                % 256,
            final(self).num_cells == old(self).num_cells,
            final(self).random == old(self).random,
    {
        if up {
            self.rule_num = self.rule_num.wrapping_add(amount);
        } else {
            self.rule_num = self.rule_num.wrapping_sub(amount);
        }
        self.rule = decode_rule(self.rule_num);
        self.rule_num
    }

    /// Moves to the next rule, 255 wrapping to 0, and returns it.
    pub fn next_rule(&mut self) -> (r: u8)
        requires
            old(self).wf(),
        ensures
            final(self).wf(),
            r == final(self).rule_num,
            final(self).rule_num as int == (old(self).rule_num as int + 1) % 256,
            final(self).num_cells == old(self).num_cells,
            final(self).random == old(self).random,
    {
        self.scroll_rule(true, 1)
    }

    /// Moves to the previous rule, 0 wrapping to 255, and returns it.
    pub fn previous_rule(&mut self) -> (r: u8)
        requires
            old(self).wf(),
        ensures
            final(self).wf(),
            r == final(self).rule_num,
            final(self).rule_num as int == (old(self).rule_num as int + 255) % 256,
            final(self).num_cells == old(self).num_cells,
            final(self).random == old(self).random,
    {
        self.scroll_rule(false, 1)
    }

    /// Switches between the random and the single-cell seed row, and returns
    /// the (unchanged) rule number.
    pub fn toggle_random(&mut self) -> (r: u8)
        requires
            old(self).wf(),
        ensures
            final(self).wf(),
            r == final(self).rule_num,
            final(self).random == !old(self).random,
            final(self).rule_num == old(self).rule_num,
            final(self).num_cells == old(self).num_cells,
    {
        self.random = !self.random;
        self.rule_num
    }
}

/// Which consumers have caught up with the latest change of rule.
#[derive(Clone, Copy, Debug, PartialEq, Eq, Structural)]
pub struct RuleChanged {
    /// The grid has been recomputed for the current rule.
    pub updated_cell_grid: bool,
    /// The sprites show the current grid.
    pub updated_sprites: bool,
}

impl RuleChanged {
    /// Nothing is up to date yet.
    pub fn new() -> (r: RuleChanged)
        ensures
            !r.updated_cell_grid,
            !r.updated_sprites,
    {
        RuleChanged { updated_cell_grid: false, updated_sprites: false }
    }

    /// Records a change of rule or seed mode: grid and sprites are stale.
    pub fn mark_changed(&mut self)
        ensures
            !final(self).updated_cell_grid,
            !final(self).updated_sprites,
    {
        self.updated_cell_grid = false;
        self.updated_sprites = false;
    }
}

} // verus!
