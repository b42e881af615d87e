//! The changes view: the list of snapd changes and the tasks of the
//! selected one.
use vstd::prelude::*;
use crate::app::App;
use crate::browse::text_or_empty;
use crate::connections::is_named;
use crate::find::{first_index, lemma_first_index_found, lemma_first_index_none};
use crate::model::{ChangeInfo, SnapdError};
use crate::nav::{ListState, next_index, prev_index, step_down, step_up};
use crate::order::{
    KeyPart, SortField, key_view, keys_view, lemma_sorted_positions_distinct,
    lemma_sorted_positions_len, sort_positions, sorted_positions,
};
use crate::text::{chars_of, str_eq};

verus! {

/// The order of the changes list: changes in progress before finished
/// ones, then the most recently spawned first (a missing spawn time counts
/// as empty text).
pub open spec fn change_key(c: ChangeInfo) -> Seq<SortField> {
    seq![SortField::Rank(if c.ready { 1 } else { 0 }), SortField::TextRev(text_or_empty(c.spawn_time))]
}

pub open spec fn change_keys(changes: Seq<ChangeInfo>) -> Seq<Seq<SortField>> {
    changes.map_values(|c: ChangeInfo| change_key(c))
}

/// The changes in list order: a stable sort by `change_key`.
pub open spec fn sorted_changes(changes: Seq<ChangeInfo>) -> Seq<ChangeInfo> {
    sorted_positions(change_keys(changes)).map_values(|p: usize| changes[p as int])
}

/// The change that the selection of the changes list points at.
pub open spec fn selected_change_row(app: App) -> Option<ChangeInfo> {
    match app.changes_list_state.selected {
        Some(i) => if i < app.changes_list@.len() {
            Some(app.changes_list@[i as int])
        } else {
            None
        },
        None => None,
    }
}

/// The number of tasks of the selected change (none selected: zero).
pub open spec fn selected_task_count(app: App) -> nat {
    match selected_change_row(app) {
        Some(c) => c.tasks@.len(),
        None => 0,
    }
}

/// Whether the change at `k` has the id `id`.
pub open spec fn change_with_id(changes: Seq<ChangeInfo>, id: Seq<char>) -> spec_fn(int) -> bool {
    |k: int| changes[k].id@ == id
}

/// The selection after the changes list was replaced by `list`: the change
/// that was selected, found again by id; else the same position; else the
/// first change; kept within the list; nothing when the list is empty.
pub open spec fn polled_selection(
    old_selected: Option<ChangeInfo>,
    old_index: Option<usize>,
    list: Seq<ChangeInfo>,
) -> Option<usize> {
    let found = match old_selected {
        Some(c) => first_index(list.len(), change_with_id(list, c.id@)),
        None => None,
    };
    let idx: Option<int> = match found {
        Some(k) => Some(k),
        None => match old_index {
            Some(i) => Some(i as int),
            None => None,
        },
    };
    if list.len() == 0 {
        None
    } else {
        match idx {
            Some(i) => Some(
                if i < list.len() - 1 {
                    i as usize
                } else {
                    (list.len() - 1) as usize
                },
            ),
            None => Some(0),
        }
    }
}

fn change_key_exec(c: &ChangeInfo) -> (k: Vec<KeyPart>)
    ensures
        key_view(k@) == change_key(*c),
{
    let mut k: Vec<KeyPart> = Vec::new();
    k.push(
        KeyPart::Rank(
            if c.ready {
                1
            } else {
                0
            },
        ),
    );
    let t = match &c.spawn_time {
        Some(s) => chars_of(s.as_str()),
        None => Vec::new(),
    };
    k.push(KeyPart::TextRev(t));
    assert(key_view(k@) =~= change_key(*c));
    k
}

/// Sorts the changes: in progress first, then the most recently spawned
/// first; changes that tie keep their order.
pub fn sort_changes(changes: Vec<ChangeInfo>) -> (sorted: Vec<ChangeInfo>)
    ensures
        sorted@ == sorted_changes(changes@),
{
    let ghost orig = changes@;
    let mut keys: Vec<Vec<KeyPart>> = Vec::new();
    let mut i: usize = 0;
    while i < changes.len()
        invariant
            i <= changes.len(),
            keys@.len() == i,
            forall|m: int| 0 <= m < i ==> key_view(#[trigger] keys@[m]@) == change_key(changes@[m]),
        decreases changes.len() - i,
    {
        keys.push(change_key_exec(&changes[i]));
        i = i + 1;
    }
    assert(keys_view(keys@) =~= change_keys(changes@));
    let order = sort_positions(&keys);
    proof {
        lemma_sorted_positions_len(keys_view(keys@));
        lemma_sorted_positions_distinct(keys_view(keys@));
    }
    let mut slots: Vec<Option<ChangeInfo>> = Vec::new();
    let mut changes = changes;
    while changes.len() > 0
        invariant
            changes@.len() + slots@.len() == orig.len(),
            changes@ == orig.take(changes@.len() as int),
            forall|k: int| 0 <= k < slots@.len() ==> #[trigger] slots@[k] == Some(
                orig[changes@.len() + slots@.len() - 1 - k],
            ),
        decreases changes@.len(),
    {
        let c = changes.pop().unwrap();
        slots.push(Some(c));
        assert(orig.take(changes@.len() as int) =~= orig.take(changes@.len() as int + 1).drop_last());
    }
    let n = slots.len();
    let mut sorted: Vec<ChangeInfo> = Vec::new();
    let mut j: usize = 0;
    while j < order.len()
        invariant
            n == orig.len(),
            slots@.len() == n,
            order@ == sorted_positions(change_keys(orig)),
            order@.len() == n,
            order@.no_duplicates(),
            forall|m: int| 0 <= m < order@.len() ==> (#[trigger] order@[m] as int) < n,
            j <= order.len(),
            sorted@.len() == j,
            forall|k: int| 0 <= k < j ==> #[trigger] sorted@[k] == orig[order@[k] as int],
            forall|q: int|
                0 <= q < n ==> (#[trigger] slots@[n - 1 - q] == Some(orig[q]) || exists|k: int|
                    0 <= k < j && order@[k] as int == q),
        decreases order.len() - j,
    {
        let p = order[j];
        let mut tmp: Option<ChangeInfo> = None;
        let ghost before = slots@;
        assert(slots@[n - 1 - p] == Some(orig[p as int])) by {
            if !(slots@[n - 1 - p] == Some(orig[p as int])) {
                let k = choose|k: int| 0 <= k < j && order@[k] as int == p as int;
                assert(order@[k] == order@[j as int]);
            }
        }
        slots.set_and_swap(n - 1 - p, &mut tmp);
        let c = tmp.unwrap();
        sorted.push(c);
        assert forall|q: int| 0 <= q < n implies (#[trigger] slots@[n - 1 - q] == Some(orig[q])
            || exists|k: int| 0 <= k < j + 1 && order@[k] as int == q) by {
            if q == p as int {
                assert(order@[j as int] as int == q);
            } else {
                assert(slots@[n - 1 - q] == before[n - 1 - q]);
            }
        }
        j = j + 1;
    }
    assert(sorted@ =~= sorted_changes(orig));
    sorted
}

impl App {
    pub fn changes_next(&mut self)
        ensures
            *final(self) == (App {
                changes_list_state: ListState {
                    selected: step_down(
                        old(self).changes_list_state.selected,
                        old(self).changes_list@.len(),
                    ),
                },
                changes_detail_state: if old(self).changes_list@.len() == 0 {
                    old(self).changes_detail_state
                } else {
                    ListState { selected: Some(0) }
                },
                ..*old(self)
            }),
    {
        let len = self.changes_list.len();
        if len == 0 {
            return;
        }
        let i = next_index(self.changes_list_state.selected(), len);
        self.changes_list_state.select(i);
        self.changes_detail_state.select(Some(0));
    }

    pub fn changes_prev(&mut self)
        ensures
            *final(self) == (App {
                changes_list_state: ListState {
                    selected: step_up(
                        old(self).changes_list_state.selected,
                        old(self).changes_list@.len(),
                    ),
                },
                changes_detail_state: if old(self).changes_list@.len() == 0 {
                    old(self).changes_detail_state
                } else {
                    ListState { selected: Some(0) }
                },
                ..*old(self)
            }),
    {
        let len = self.changes_list.len();
        if len == 0 {
            return;
        }
        let i = prev_index(self.changes_list_state.selected(), len);
        self.changes_list_state.select(i);
        self.changes_detail_state.select(Some(0));
    }

    /// The change that the selection of the changes list points at.
    pub fn selected_change(&self) -> (r: Option<&ChangeInfo>)
        ensures
            match r {
                Some(c) => selected_change_row(*self) == Some(*c),
                None => selected_change_row(*self) is None,
            },
    {
        let idx = match self.changes_list_state.selected() {
            Some(i) => i,
            None => return None,
        };
        if idx < self.changes_list.len() {
            Some(&self.changes_list[idx])
        } else {
            None
        }
    }

    fn selected_task_len(&self) -> (n: usize)
        ensures
            n == selected_task_count(*self),
    {
        match self.selected_change() {
            Some(c) => c.tasks.len(),
            None => 0,
        }
    }

    pub fn changes_detail_next(&mut self)
        ensures
            *final(self) == (App {
                changes_detail_state: ListState {
                    selected: step_down(
                        old(self).changes_detail_state.selected,
                        selected_task_count(*old(self)),
                    ),
                },
                ..*old(self)
            }),
    {
        let len = self.selected_task_len();
        let i = next_index(self.changes_detail_state.selected(), len);
        self.changes_detail_state.select(i);
    }

    pub fn changes_detail_prev(&mut self)
        ensures
            *final(self) == (App {
                changes_detail_state: ListState {
                    selected: step_up(
                        old(self).changes_detail_state.selected,
                        selected_task_count(*old(self)),
                    ),
                },
                ..*old(self)
            }),
    {
        let len = self.selected_task_len();
        let i = prev_index(self.changes_detail_state.selected(), len);
        self.changes_detail_state.select(i);
    }

    /// Takes in the list of all changes: it replaces the list, sorted with
    /// changes in progress first and the newest first; the first change and
    /// its first task are selected, the task list loses the focus. A failed
    /// answer shows the error.
    pub fn load_changes(&mut self, result: Result<Vec<ChangeInfo>, SnapdError>)
        ensures
            match result {
                Ok(v) => {
                    let sorted = sorted_changes(v@);
                    &&& final(self).changes_list@ == sorted
                    &&& *final(self) == (App {
                        changes_list: final(self).changes_list,
                        changes_focus_detail: false,
                        changes_list_state: ListState {
                            selected: if sorted.len() > 0 {
                                Some(0)
                            } else {
                                None
                            },
                        },
                        changes_detail_state: ListState {
                            selected: if sorted.len() > 0 && sorted[0].tasks@.len() > 0 {
                                Some(0)
                            } else {
                                None
                            },
                        },
                        loading: false,
                        error: None,
                        ..*old(self)
                    })
                },
                Err(e) => *final(self) == (App {
                    loading: false,
                    error: Some(e.message_of()),
                    ..*old(self)
                }),
            },
    {
        self.error = None;
        match result {
            Ok(changes) => {
                self.changes_list = sort_changes(changes);
                self.changes_focus_detail = false;
                let n = self.changes_list.len();
                self.changes_list_state.select(
                    if n > 0 {
                        Some(0)
                    } else {
                        None
                    },
                );
                let first_tasks = match self.selected_change() {
                    Some(c) => c.tasks.len() > 0,
                    None => false,
                };
                self.changes_detail_state.select(
                    if first_tasks {
                        Some(0)
                    } else {
                        None
                    },
                );
            },
            Err(e) => {
                self.error = Some(e.message());
            },
        }
        self.loading = false;
    }

    /// Takes in a fresh list of all changes: it replaces the list in list
    /// order, and the selection follows the change that was selected. A
    /// failed answer changes nothing.
    pub fn poll_changes(&mut self, result: Result<Vec<ChangeInfo>, SnapdError>)
        ensures
            match result {
                Ok(v) => {
                    &&& final(self).changes_list@ == sorted_changes(v@)
                    &&& *final(self) == (App {
                        changes_list: final(self).changes_list,
                        changes_list_state: ListState {
                            selected: polled_selection(
                                selected_change_row(*old(self)),
                                old(self).changes_list_state.selected,
                                sorted_changes(v@),
                            ),
                        },
                        ..*old(self)
                    })
                },
                Err(_) => *final(self) == *old(self),
            },
    {
        let changes = match result {
            Ok(c) => c,
            Err(_) => return,
        };
        let selected_id = match self.selected_change() {
            Some(c) => Some(c.id.clone()),
            None => None,
        };
        let old_index = self.changes_list_state.selected();
        let sorted = sort_changes(changes);
        let found = match &selected_id {
            Some(id) => find_change(&sorted, id.as_str()),
            None => None,
        };
        let idx = match found {
            Some(k) => Some(k),
            None => old_index,
        };
        let n = sorted.len();
        let new_idx = if n == 0 {
            None
        } else {
            match idx {
                Some(i) => Some(
                    if i < n - 1 {
                        i
                    } else {
                        n - 1
                    },
                ),
                None => Some(0),
            }
        };
        self.changes_list = sorted;
        self.changes_list_state.select(new_idx);
    }

    /// Takes in the changes in progress for the sidebar; a failed answer
    /// changes nothing.
    pub fn poll_sidebar_changes(&mut self, result: Result<Vec<ChangeInfo>, SnapdError>)
        ensures
            match result {
                Ok(v) => *final(self) == (App { sidebar_changes: v, ..*old(self) }),
                Err(_) => *final(self) == *old(self),
            },
    {
        if let Ok(changes) = result {
            self.sidebar_changes = changes;
        }
    }

    /// Starts aborting the selected change: a finished change only shows
    /// so; otherwise the state waits and the id to abort is returned.
    pub fn abort_selected_change(&mut self) -> (id: Option<String>)
        ensures
            match selected_change_row(*old(self)) {
                None => id is None && *final(self) == *old(self),
                Some(c) => if c.ready {
                    &&& id is None
                    &&& is_named(final(self).status_message, "Change already finished"@)
                    &&& *final(self) == (App {
                        status_message: final(self).status_message,
                        ..*old(self)
                    })
                } else {
                    id == Some(c.id) && *final(self) == (App {
                        loading: true,
                        error: None,
                        ..*old(self)
                    })
                },
            },
    {
        let (ready, id) = match self.selected_change() {
            Some(c) => (c.ready, c.id.clone()),
            None => return None,
        };
        if ready {
            self.status_message = Some("Change already finished".to_owned());
            return None;
        }
        self.loading = true;
        self.error = None;
        Some(id)
    }

    /// Takes in snapd's answer to an abort: accepted, the status says so
    /// and the changes must be loaded again (the result is true); refused,
    /// the error is shown.
    pub fn finish_abort_change(&mut self, result: Result<(), SnapdError>) -> (reload: bool)
        ensures
            match result {
                Ok(_) => reload && is_named(final(self).status_message, "Abort requested"@)
                    && *final(self) == (App {
                    status_message: final(self).status_message,
                    loading: false,
                    ..*old(self)
                }),
                Err(e) => !reload && *final(self) == (App {
                    error: Some(e.message_of()),
                    loading: false,
                    ..*old(self)
                }),
            },
    {
        let reload = match result {
            Ok(_) => {
                self.status_message = Some("Abort requested".to_owned());
                true
            },
            Err(e) => {
                self.error = Some(e.message());
                false
            },
        };
        self.loading = false;
        reload
    }
}

fn find_change(changes: &Vec<ChangeInfo>, id: &str) -> (r: Option<usize>)
    ensures
        r matches Some(k) ==> first_index(changes@.len(), change_with_id(changes@, id@)) == Some(
            k as int,
        ) && k < changes@.len(),
        r is None ==> first_index(changes@.len(), change_with_id(changes@, id@)) is None,
{
    let ghost p = change_with_id(changes@, id@);
    let mut i: usize = 0;
    while i < changes.len()
        invariant
            i <= changes.len(),
            p == change_with_id(changes@, id@),
            forall|k: int| 0 <= k < i ==> !#[trigger] p(k),
        decreases changes.len() - i,
    {
        if str_eq(changes[i].id.as_str(), id) {
            proof {
                lemma_first_index_found(changes@.len(), p, i as int);
            }
            return Some(i);
        }
        i = i + 1;
    }
    proof {
        lemma_first_index_none(changes@.len(), p);
    }
    None
}

} // verus!
