use vstd::prelude::*;
use crate::decimal::{parse_unsigned, unsigned_value};
use crate::state::AppState;
use crate::text::chars_of;

verus! {

/// What a typed count prefix stands for: the number it reads as, or one.
pub open spec fn prefix_count(prefix: Seq<char>) -> int {
    if prefix.len() == 0 {
        1
    } else {
        match unsigned_value(prefix, usize::MAX as int) {
            Some(v) => v,
            None => 1,
        }
    }
}

/// The highlighted row, or the first when none is.
pub open spec fn current_row(s: AppState) -> int {
    match s.products.selected {
        Some(i) => i as int,
        None => 0,
    }
}

/// The rows that a count prefix would move to: that many rows up and down,
/// where such rows exist.
pub open spec fn movement_targets(s: AppState) -> Seq<usize> {
    movement_targets_of(s.ui.number_prefix@, current_row(s), s.products.items@.len() as int)
}

/// The rows that count prefix `prefix` would move to from row `cur` of `total`.
pub open spec fn movement_targets_of(prefix: Seq<char>, cur: int, total: int) -> Seq<usize> {
    if prefix.len() == 0 {
        Seq::empty()
    } else {
        match unsigned_value(prefix, usize::MAX as int) {
            Some(d) if d > 0 => {
                let up: Seq<usize> = if cur >= d {
                    seq![(cur - d) as usize]
                } else {
                    Seq::empty()
                };
                if cur + d < total {
                    up.push((cur + d) as usize)
                } else {
                    up
                }
            },
            _ => Seq::empty(),
        }
    }
}

/// Where moving down by `count` rows lands: there when that row exists, else
/// one row down, stopping at the last row.
pub open spec fn row_down(cur: int, count: int, len: int) -> int {
    if cur + count < len {
        cur + count
    } else if cur + 1 < len - 1 {
        cur + 1
    } else {
        len - 1
    }
}

/// Where moving up by `count` rows lands: there when that row exists, else one
/// row up, stopping at the first row.
pub open spec fn row_up(cur: int, count: int) -> int {
    if cur >= count {
        cur - count
    } else if cur >= 1 {
        cur - 1
    } else {
        0
    }
}

impl AppState {
    /// The rows that the typed count prefix would move to.
    pub fn get_movement_target_indices(&self) -> (r: Vec<usize>)
        requires
            self.wf(),
        ensures
            r@ == movement_targets(*self),
    {
        let mut targets: Vec<usize> = Vec::new();
        let prefix = chars_of(self.ui.number_prefix.as_str());
        if prefix.len() == 0 {
            return targets;
        }
        let current: usize = match self.products.selected {
            Some(i) => i,
            None => 0,
        };
        let total = self.products.items.len();
        match parse_unsigned(&prefix, usize::MAX as u64) {
            Some(d) => {
                let d = d as usize;
                if d > 0 {
                    if current >= d {
                        targets.push(current - d);
                    }
                    if current < total && d < total - current {
                        targets.push(current + d);
                    }
                }
            },
            None => {},
        }
        proof {
            if targets@.len() > 0 {
                assert(targets@ =~= movement_targets(*self));
            }
        }
        assert(targets@ =~= movement_targets(*self));
        targets
    }

    /// Reads and clears the typed count prefix.
    pub fn parse_and_clear_number_prefix(&mut self) -> (r: usize)
        ensures
            r == prefix_count(old(self).ui.number_prefix@),
            final(self).ui.number_prefix@.len() == 0,
            final(self).ui.input == old(self).ui.input,
            final(self).ui.input_mode == old(self).ui.input_mode,
            final(self).ui.mode_stack == old(self).ui.mode_stack,
            final(self).ui.pending_g == old(self).ui.pending_g,
            final(self).config == old(self).config,
            final(self).products == old(self).products,
            final(self).user == old(self).user,
            final(self).modals == old(self).modals,
            final(self).should_quit == old(self).should_quit,
    {
        let prefix = chars_of(self.ui.number_prefix.as_str());
        let count: usize = if prefix.len() == 0 {
            1
        } else {
            match parse_unsigned(&prefix, usize::MAX as u64) {
                Some(v) => v as usize,
                None => 1,
            }
        };
        self.ui.number_prefix = String::new();
        count
    }

    /// Moves the highlight `count` rows down, as `row_down` describes.
    pub fn move_products_down(&mut self, count: usize)
        requires
            old(self).wf(),
        ensures
            final(self).wf(),
            old(self).products.items@.len() > 0 ==> final(self).products.selected == Some(
                row_down(current_row(*old(self)), count as int, old(self).products.items@.len() as int) as usize,
            ),
            old(self).products.items@.len() == 0 ==> final(self).products == old(self).products,
            final(self).products.items == old(self).products.items,
            final(self).ui == old(self).ui,
            final(self).config == old(self).config,
            final(self).user == old(self).user,
            final(self).modals == old(self).modals,
            final(self).should_quit == old(self).should_quit,
    {
        let len = self.products.items.len();
        if len == 0 {
            return;
        }
        let current: usize = match self.products.selected {
            Some(i) => i,
            None => 0,
        };
        if count < len - current {
            self.products.selected = Some(current + count);
        } else {
            let next = if current + 1 < len - 1 {
                current + 1
            } else {
                len - 1
            };
            self.products.selected = Some(next);
        }
    }

    /// Moves the highlight `count` rows up, as `row_up` describes.
    pub fn move_products_up(&mut self, count: usize)
        requires
            old(self).wf(),
        ensures
            final(self).wf(),
            old(self).products.items@.len() > 0 ==> final(self).products.selected == Some(
                row_up(current_row(*old(self)), count as int) as usize,
            ),
            old(self).products.items@.len() == 0 ==> final(self).products == old(self).products,
            final(self).products.items == old(self).products.items,
            final(self).ui == old(self).ui,
            final(self).config == old(self).config,
            final(self).user == old(self).user,
            final(self).modals == old(self).modals,
            final(self).should_quit == old(self).should_quit,
    {
        let len = self.products.items.len();
        if len == 0 {
            return;
        }
        let current: usize = match self.products.selected {
            Some(i) => i,
            None => 0,
        };
        if current >= count {
            self.products.selected = Some(current - count);
        } else {
            let next = if current >= 1 {
                current - 1
            } else {
                0
            };
            self.products.selected = Some(next);
        }
    }

    /// Highlights the first row and clears the count prefix.
    pub fn go_to_top(&mut self)
        requires
            old(self).wf(),
        ensures
            final(self).wf(),
            final(self).products.selected == Some(0usize),
            final(self).ui.number_prefix@.len() == 0,
            final(self).ui.input_mode == old(self).ui.input_mode,
            final(self).ui.mode_stack == old(self).ui.mode_stack,
            final(self).ui.pending_g == old(self).ui.pending_g,
            final(self).products.items == old(self).products.items,
            final(self).config == old(self).config,
            final(self).user == old(self).user,
            final(self).modals == old(self).modals,
            final(self).should_quit == old(self).should_quit,
    {
        self.products.selected = Some(0);
        self.ui.number_prefix = String::new();
    }

    /// Highlights the last row, if any, and clears the count prefix.
    pub fn go_to_bottom(&mut self)
        requires
            old(self).wf(),
        ensures
            final(self).wf(),
            old(self).products.items@.len() > 0 ==> final(self).products.selected == Some(
                (old(self).products.items@.len() - 1) as usize,
            ),
            old(self).products.items@.len() == 0 ==> final(self).products.selected == old(
                self,
            ).products.selected,
            final(self).ui.number_prefix@.len() == 0,
            final(self).ui.input_mode == old(self).ui.input_mode,
            final(self).ui.mode_stack == old(self).ui.mode_stack,
            final(self).ui.pending_g == old(self).ui.pending_g,
            final(self).products.items == old(self).products.items,
            final(self).config == old(self).config,
            final(self).user == old(self).user,
            final(self).modals == old(self).modals,
            final(self).should_quit == old(self).should_quit,
    {
        let len = self.products.items.len();
        if len > 0 {
            self.products.selected = Some(len - 1);
        }
        self.ui.number_prefix = String::new();
    }
}

} // verus!
