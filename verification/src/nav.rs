//! Selection in a list and the moves of the keyboard through it.
use vstd::prelude::*;

verus! {

/// Which row of a list is selected, if any.
pub struct ListState {
    pub selected: Option<usize>,
}

impl ListState {
    /// A list with no row selected.
    pub fn new() -> (s: ListState)
        ensures
            s.selected is None,
    {
        ListState { selected: None }
    }

    /// A list with the given row selected.
    pub fn with_selected(selected: Option<usize>) -> (s: ListState)
        ensures
            s.selected == selected,
    {
        ListState { selected }
    }

    pub fn selected(&self) -> (r: Option<usize>)
        ensures
            r == self.selected,
    {
        self.selected
    }

    pub fn select(&mut self, index: Option<usize>)
        ensures
            final(self).selected == index,
    {
        self.selected = index;
    }
}

/// The selection after moving down one row in a list of `len` rows: the
/// last row stays the last; with nothing selected the first row is taken;
/// an empty list keeps its selection.
pub open spec fn step_down(sel: Option<usize>, len: nat) -> Option<usize> {
    if len == 0 {
        sel
    } else {
        match sel {
            Some(i) => Some(if i + 1 < len {
                (i + 1) as usize
            } else {
                (len - 1) as usize
            }),
            None => Some(0),
        }
    }
}

/// The selection after moving up one row: the first row stays the first;
/// with nothing selected the first row is taken.
pub open spec fn step_up(sel: Option<usize>, len: nat) -> Option<usize> {
    if len == 0 {
        sel
    } else {
        match sel {
            Some(i) => Some(if i == 0 {
                0
            } else {
                (i - 1) as usize
            }),
            None => Some(0),
        }
    }
}

/// The selection after moving down a page of ten rows, stopping at the last.
pub open spec fn page_down_to(sel: Option<usize>, len: nat) -> Option<usize> {
    if len == 0 {
        sel
    } else {
        let i: int = match sel {
            Some(i) => i as int,
            None => 0,
        };
        let j: int = if i + 10 > usize::MAX {
            usize::MAX as int
        } else {
            i + 10
        };
        Some(if j < len {
            j as usize
        } else {
            (len - 1) as usize
        })
    }
}

/// The selection after moving up a page of ten rows, stopping at the first.
pub open spec fn page_up_to(sel: Option<usize>, len: nat) -> Option<usize> {
    if len == 0 {
        sel
    } else {
        let i: int = match sel {
            Some(i) => i as int,
            None => 0,
        };
        Some(if i < 10 {
            0
        } else {
            (i - 10) as usize
        })
    }
}

/// The selection after moving down one row in a list that wraps around.
pub open spec fn wrap_down(sel: Option<usize>, len: nat) -> Option<usize> {
    if len == 0 {
        sel
    } else {
        match sel {
            Some(i) => Some(((i + 1) % (len as int)) as usize),
            None => Some(0),
        }
    }
}

/// The selection after moving up one row in a list that wraps around.
pub open spec fn wrap_up(sel: Option<usize>, len: nat) -> Option<usize> {
    if len == 0 {
        sel
    } else {
        match sel {
            Some(i) => Some(if i == 0 {
                (len - 1) as usize
            } else {
                (i - 1) as usize
            }),
            None => Some((len - 1) as usize),
        }
    }
}

pub fn next_index(sel: Option<usize>, len: usize) -> (r: Option<usize>)
    ensures
        r == step_down(sel, len as nat),
{
    if len == 0 {
        return sel;
    }
    match sel {
        Some(i) => Some(
            if i < len - 1 {
                i + 1
            } else {
                len - 1
            },
        ),
        None => Some(0),
    }
}

pub fn prev_index(sel: Option<usize>, len: usize) -> (r: Option<usize>)
    ensures
        r == step_up(sel, len as nat),
{
    if len == 0 {
        return sel;
    }
    match sel {
        Some(0) | None => Some(0),
        Some(i) => Some(i - 1),
    }
}

pub fn page_down_index(sel: Option<usize>, len: usize) -> (r: Option<usize>)
    ensures
        r == page_down_to(sel, len as nat),
{
    if len == 0 {
        return sel;
    }
    let i = match sel {
        Some(i) => i,
        None => 0,
    };
    let j = i.saturating_add(10);
    Some(
        if j < len {
            j
        } else {
            len - 1
        },
    )
}

pub fn page_up_index(sel: Option<usize>, len: usize) -> (r: Option<usize>)
    ensures
        r == page_up_to(sel, len as nat),
{
    if len == 0 {
        return sel;
    }
    let i = match sel {
        Some(i) => i,
        None => 0,
    };
    Some(i.saturating_sub(10))
}

pub fn wrap_next_index(sel: Option<usize>, len: usize) -> (r: Option<usize>)
    ensures
        r == wrap_down(sel, len as nat),
{
    if len == 0 {
        return sel;
    }
    match sel {
        Some(i) => {
            if i < len - 1 {
                assert((i + 1) % (len as int) == i + 1) by (nonlinear_arith)
                    requires
                        0 <= i + 1 < len,
                ;
                Some(i + 1)
            } else {
                let r = ((i % len) + 1) % len;
                proof {
                    let ii = i as int;
                    let l = len as int;
                    vstd::arithmetic::div_mod::lemma_add_mod_noop(ii, 1, l);
                    vstd::arithmetic::div_mod::lemma_mod_twice(ii, l);
                    if l > 1 {
                        vstd::arithmetic::div_mod::lemma_small_mod(1, l as nat);
                    } else {
                        assert(((ii % l) + 1) % l == 0 && (ii + 1) % l == 0) by (nonlinear_arith)
                            requires
                                l == 1,
                        ;
                    }
                    assert(r == (ii + 1) % l);
                }
                Some(r)
            }
        },
        None => Some(0),
    }
}

pub fn wrap_prev_index(sel: Option<usize>, len: usize) -> (r: Option<usize>)
    ensures
        r == wrap_up(sel, len as nat),
{
    if len == 0 {
        return sel;
    }
    match sel {
        Some(0) | None => Some(len - 1),
        Some(i) => Some(i - 1),
    }
}

/// The moves through a list keep to its rows and undo one another:
/// in a non-empty list every move lands on a row (moving up from a row or
/// from no selection);
/// moving down then up from any row but the last returns to it; moving up
/// then down from any row but the first returns to it; in a wrapping list
/// moving down then up returns to any row; in an empty list no move changes
/// the selection.
pub proof fn lemma_navigation(sel: Option<usize>, len: nat)
    requires
        len <= usize::MAX,
    ensures
        len > 0 ==> (step_down(sel, len) matches Some(j) && j < len),
        len > 0 ==> (page_down_to(sel, len) matches Some(j) && j < len),
        len > 0 ==> (wrap_down(sel, len) matches Some(j) && j < len),
        len > 0 && (sel is None || sel.unwrap() < len) ==> (step_up(sel, len) matches Some(j) && j
            < len),
        len > 0 && (sel is None || sel.unwrap() < len) ==> (page_up_to(sel, len) matches Some(j)
            && j < len),
        len > 0 && (sel is None || sel.unwrap() < len) ==> (wrap_up(sel, len) matches Some(j) && j
            < len),
        sel matches Some(i) && i + 1 < len ==> step_up(step_down(sel, len), len) == sel,
        sel matches Some(i) && 0 < i < len ==> step_down(step_up(sel, len), len) == sel,
        sel matches Some(i) && i < len ==> wrap_up(wrap_down(sel, len), len) == sel,
        sel matches Some(i) && i < len ==> wrap_down(wrap_up(sel, len), len) == sel,
        len == 0 ==> step_down(sel, len) == sel && step_up(sel, len) == sel && page_down_to(
            sel,
            len,
        ) == sel && page_up_to(sel, len) == sel && wrap_down(sel, len) == sel && wrap_up(sel, len)
            == sel,
{
    if len > 0 {
        match sel {
            Some(i) => {
                let l = len as int;
                assert(0 <= (i + 1) % l < l) by (nonlinear_arith)
                    requires
                        l > 0,
                ;
                if i < l {
                    if i + 1 < l {
                        assert((i + 1) % l == i + 1) by (nonlinear_arith)
                            requires
                                0 <= i + 1 < l,
                        ;
                    } else {
                        assert((i + 1) % l == 0) by (nonlinear_arith)
                            requires
                                i + 1 == l,
                        ;
                    }
                    if i == 0 {
                        assert(((l - 1) + 1) % l == 0) by (nonlinear_arith)
                            requires
                                l > 0,
                        ;
                    } else {
                        assert(((i - 1) + 1) % l == i) by (nonlinear_arith)
                            requires
                                0 < i < l,
                        ;
                    }
                }
            },
            None => {},
        }
    }
}

} // verus!
