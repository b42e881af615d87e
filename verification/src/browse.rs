//! The snap list: what it shows, in which order, and moving through it.
use vstd::prelude::*;
use crate::app::{App, SortMode};
use crate::model::{LocalSnap, StoreSnapInfo, SnapdError};
use crate::nav::{
    ListState, next_index, page_down_index, page_down_to, page_up_index, page_up_to, prev_index,
    step_down, step_up,
};
use crate::order::{
    KeyPart, SortField, key_view, keys_view, lemma_sorted_positions_len, sort_positions,
    sorted_positions,
};
use crate::find::{first_index, lemma_first_index_found, lemma_first_index_none};
use crate::text::{chars_of, lowercase, str_eq, to_lowercase};
use crate::types::{DisplaySnap, display_of_local, display_of_store};

verus! {

/// Whether a snap named `name` is installed.
pub open spec fn is_installed_name(installed: Seq<LocalSnap>, name: Seq<char>) -> bool {
    exists|k: int| 0 <= k < installed.len() && (#[trigger] installed[k]).name@ == name
}

/// The rows of a store search: the results in order, only the installed
/// ones when `only_installed`, each marked installed when a snap of its
/// name is installed.
pub open spec fn store_rows(
    store: Seq<StoreSnapInfo>,
    installed: Seq<LocalSnap>,
    only_installed: bool,
) -> Seq<DisplaySnap>
    decreases store.len(),
{
    if store.len() == 0 {
        seq![]
    } else {
        let rest = store_rows(store.drop_last(), installed, only_installed);
        let s = store.last();
        let inst = is_installed_name(installed, s.name@);
        if !only_installed || inst {
            rest.push(DisplaySnap { installed: inst, ..display_of_store(s) })
        } else {
            rest
        }
    }
}

/// The rows of the installed list.
pub open spec fn local_rows(installed: Seq<LocalSnap>) -> Seq<DisplaySnap> {
    installed.map_values(|s: LocalSnap| display_of_local(s))
}

/// The rows before sorting.
pub open spec fn base_rows(app: App) -> Seq<DisplaySnap> {
    if app.showing_results {
        store_rows(app.store_results@, app.installed@, app.show_installed_only)
    } else {
        local_rows(app.installed@)
    }
}

pub open spec fn text_or_empty(v: Option<String>) -> Seq<char> {
    match v {
        Some(s) => s@,
        None => seq![],
    }
}

/// The sort key of a row. By name: case-insensitive name, then exact name,
/// both ascending or both descending. Newest: version text descending, then
/// name ascending. Search results put installed snaps first.
pub open spec fn display_key(d: DisplaySnap, mode: SortMode, installed_first: bool) -> Seq<
    SortField,
> {
    let main = match mode {
        SortMode::NameAsc => seq![SortField::Text(lowercase(d.name@)), SortField::Text(d.name@)],
        SortMode::NameDesc => seq![
            SortField::TextRev(lowercase(d.name@)),
            SortField::TextRev(d.name@),
        ],
        SortMode::RevisionDesc => seq![
            SortField::TextRev(text_or_empty(d.version)),
            SortField::Text(d.name@),
        ],
    };
    if installed_first {
        seq![SortField::Rank(if d.installed { 0 } else { 1 })] + main
    } else {
        main
    }
}

pub open spec fn row_keys(rows: Seq<DisplaySnap>, mode: SortMode, installed_first: bool) -> Seq<
    Seq<SortField>,
> {
    rows.map_values(|d: DisplaySnap| display_key(d, mode, installed_first))
}

/// The rows of the snap list, in the order they are shown: a stable sort of
/// the base rows by their key.
pub open spec fn display_rows(app: App) -> Seq<DisplaySnap> {
    let base = base_rows(app);
    sorted_positions(row_keys(base, app.sort_mode, app.showing_results)).map_values(
        |p: usize| base[p as int],
    )
}

/// The snap that the selection points at.
pub open spec fn selected_row(app: App) -> Option<DisplaySnap> {
    match app.list_state.selected {
        Some(i) => if i < display_rows(app).len() {
            Some(display_rows(app)[i as int])
        } else {
            None
        },
        None => None,
    }
}

fn installed_has_name(installed: &Vec<LocalSnap>, name: &String) -> (r: bool)
    ensures
        r == is_installed_name(installed@, name@),
{
    let mut i: usize = 0;
    while i < installed.len()
        invariant
            i <= installed.len(),
            forall|k: int| 0 <= k < i ==> (#[trigger] installed@[k]).name@ != name@,
        decreases installed.len() - i,
    {
        if installed[i].name == *name {
            return true;
        }
        i = i + 1;
    }
    false
}

fn display_key_exec(d: &DisplaySnap, mode: SortMode, installed_first: bool) -> (k: Vec<KeyPart>)
    ensures
        key_view(k@) == display_key(*d, mode, installed_first),
{
    let mut k: Vec<KeyPart> = Vec::new();
    if installed_first {
        k.push(
            KeyPart::Rank(
                if d.installed {
                    0
                } else {
                    1
                },
            ),
        );
    }
    match mode {
        SortMode::NameAsc => {
            let lower = to_lowercase(d.name.as_str());
            k.push(KeyPart::Text(chars_of(lower.as_str())));
            k.push(KeyPart::Text(chars_of(d.name.as_str())));
        },
        SortMode::NameDesc => {
            let lower = to_lowercase(d.name.as_str());
            k.push(KeyPart::TextRev(chars_of(lower.as_str())));
            k.push(KeyPart::TextRev(chars_of(d.name.as_str())));
        },
        SortMode::RevisionDesc => {
            let v = match &d.version {
                Some(s) => chars_of(s.as_str()),
                None => Vec::new(),
            };
            k.push(KeyPart::TextRev(v));
            k.push(KeyPart::Text(chars_of(d.name.as_str())));
        },
    }
    assert(key_view(k@) =~= display_key(*d, mode, installed_first));
    k
}

impl App {
    fn base_display_rows(&self) -> (rows: Vec<DisplaySnap>)
        ensures
            rows@ == base_rows(*self),
    {
        let mut rows: Vec<DisplaySnap> = Vec::new();
        if self.showing_results {
            let mut i: usize = 0;
            while i < self.store_results.len()
                invariant
                    self.showing_results,
                    i <= self.store_results.len(),
                    rows@ == store_rows(
                        self.store_results@.take(i as int),
                        self.installed@,
                        self.show_installed_only,
                    ),
                decreases self.store_results.len() - i,
            {
                let s = &self.store_results[i];
                let inst = installed_has_name(&self.installed, &s.name);
                assert(self.store_results@.take(i + 1).drop_last() =~= self.store_results@.take(
                    i as int,
                ));
                if !self.show_installed_only || inst {
                    let mut d = DisplaySnap::from_store(s);
                    d.installed = inst;
                    rows.push(d);
                }
                i = i + 1;
            }
            assert(self.store_results@.take(self.store_results.len() as int)
                =~= self.store_results@);
        } else {
            let mut i: usize = 0;
            while i < self.installed.len()
                invariant
                    !self.showing_results,
                    i <= self.installed.len(),
                    rows@ == local_rows(self.installed@.take(i as int)),
                decreases self.installed.len() - i,
            {
                rows.push(DisplaySnap::from_local(&self.installed[i]));
                assert(local_rows(self.installed@.take(i + 1)) =~= local_rows(
                    self.installed@.take(i as int),
                ).push(display_of_local(self.installed@[i as int])));
                i = i + 1;
            }
            assert(self.installed@.take(self.installed.len() as int) =~= self.installed@);
        }
        rows
    }

    /// The rows of the snap list, in the order they are shown.
    pub fn display_snaps(&self) -> (rows: Vec<DisplaySnap>)
        ensures
            rows@ == display_rows(*self),
    {
        let base = self.base_display_rows();
        let mut keys: Vec<Vec<KeyPart>> = Vec::new();
        let mut i: usize = 0;
        while i < base.len()
            invariant
                i <= base.len(),
                keys@.len() == i,
                forall|k: int|
                    0 <= k < i ==> key_view(#[trigger] keys@[k]@) == display_key(
                        base@[k],
                        self.sort_mode,
                        self.showing_results,
                    ),
            decreases base.len() - i,
        {
            keys.push(display_key_exec(&base[i], self.sort_mode, self.showing_results));
            i = i + 1;
        }
        assert(keys_view(keys@) =~= row_keys(base@, self.sort_mode, self.showing_results));
        let order = sort_positions(&keys);
        proof {
            lemma_sorted_positions_len(keys_view(keys@));
        }
        let mut rows: Vec<DisplaySnap> = Vec::new();
        let mut j: usize = 0;
        while j < order.len()
            invariant
                order@ == sorted_positions(row_keys(base@, self.sort_mode, self.showing_results)),
                order@.len() == base@.len(),
                forall|k: int| 0 <= k < order@.len() ==> (#[trigger] order@[k] as int) < base@.len(),
                j <= order.len(),
                rows@ =~= order@.take(j as int).map_values(|p: usize| base@[p as int]),
            decreases order.len() - j,
        {
            let p = order[j];
            rows.push(base[p].duplicate());
            j = j + 1;
        }
        assert(order@.take(order.len() as int) =~= order@);
        rows
    }

    /// The snap that the selection points at.
    pub fn selected_snap(&self) -> (r: Option<DisplaySnap>)
        ensures
            r == selected_row(*self),
    {
        let snaps = self.display_snaps();
        let idx = match self.list_state.selected() {
            Some(i) => i,
            None => return None,
        };
        if idx < snaps.len() {
            Some(snaps[idx].duplicate())
        } else {
            None
        }
    }

    /// Moves the selection down one row.
    pub fn next(&mut self)
        ensures
            *final(self) == (App {
                list_state: ListState {
                    selected: step_down(
                        old(self).list_state.selected,
                        display_rows(*old(self)).len(),
                    ),
                },
                ..*old(self)
            }),
    {
        let len = self.display_snaps().len();
        let i = next_index(self.list_state.selected(), len);
        self.list_state.select(i);
    }

    /// Moves the selection up one row.
    pub fn prev(&mut self)
        ensures
            *final(self) == (App {
                list_state: ListState {
                    selected: step_up(old(self).list_state.selected, display_rows(*old(self)).len()),
                },
                ..*old(self)
            }),
    {
        let len = self.display_snaps().len();
        let i = prev_index(self.list_state.selected(), len);
        self.list_state.select(i);
    }

    /// Moves the selection down ten rows.
    pub fn page_down(&mut self)
        ensures
            *final(self) == (App {
                list_state: ListState {
                    selected: page_down_to(
                        old(self).list_state.selected,
                        display_rows(*old(self)).len(),
                    ),
                },
                ..*old(self)
            }),
    {
        let len = self.display_snaps().len();
        let i = page_down_index(self.list_state.selected(), len);
        self.list_state.select(i);
    }

    /// Moves the selection up ten rows.
    pub fn page_up(&mut self)
        ensures
            *final(self) == (App {
                list_state: ListState {
                    selected: page_up_to(
                        old(self).list_state.selected,
                        display_rows(*old(self)).len(),
                    ),
                },
                ..*old(self)
            }),
    {
        let len = self.display_snaps().len();
        let i = page_up_index(self.list_state.selected(), len);
        self.list_state.select(i);
    }
}


/// The selection that points at the row named `name`: the first such row,
/// else the first row, else nothing.
pub open spec fn selection_for_name(rows: Seq<DisplaySnap>, name: Option<Seq<char>>) -> Option<
    usize,
> {
    let fallback = if rows.len() > 0 {
        Some(0usize)
    } else {
        None
    };
    match name {
        Some(n) => match first_index(rows.len(), named_at(rows, n)) {
            Some(k) => Some(k as usize),
            None => fallback,
        },
        None => fallback,
    }
}

/// Whether the row at `k` has the name `n`.
pub open spec fn named_at(rows: Seq<DisplaySnap>, n: Seq<char>) -> spec_fn(int) -> bool {
    |k: int| rows[k].name@ == n
}

fn first_named(rows: &Vec<DisplaySnap>, n: &str) -> (r: Option<usize>)
    ensures
        r matches Some(k) ==> first_index(rows@.len(), named_at(rows@, n@)) == Some(k as int),
        r is None ==> first_index(rows@.len(), named_at(rows@, n@)) is None,
{
    let ghost p = named_at(rows@, n@);
    let mut i: usize = 0;
    while i < rows.len()
        invariant
            i <= rows.len(),
            p == named_at(rows@, n@),
            forall|k: int| 0 <= k < i ==> !#[trigger] p(k),
        decreases rows.len() - i,
    {
        if str_eq(rows[i].name.as_str(), n) {
            proof {
                lemma_first_index_found(rows@.len(), p, i as int);
            }
            return Some(i);
        }
        i = i + 1;
    }
    proof {
        lemma_first_index_none(rows@.len(), p);
    }
    None
}

/// Whether a store result named `name` is in `results`.
pub open spec fn has_store_name(results: Seq<StoreSnapInfo>, name: Seq<char>) -> bool {
    exists|k: int| 0 <= k < results.len() && (#[trigger] results[k]).name@ == name
}

/// The results a search shows: the fuzzy results (none if that search
/// failed), with the exact match put first when the fuzzy results do not
/// already hold a snap of its name.
pub open spec fn merged_results(
    fuzzy: Result<Vec<StoreSnapInfo>, SnapdError>,
    exact: Result<Option<StoreSnapInfo>, SnapdError>,
) -> Seq<StoreSnapInfo> {
    let base = match fuzzy {
        Ok(v) => v@,
        Err(_) => seq![],
    };
    match exact {
        Ok(Some(e)) => {
            if has_store_name(base, e.name@) {
                base
            } else {
                seq![e] + base
            }
        },
        _ => base,
    }
}

/// The error a search shows: when it found nothing, the fuzzy search's
/// error, else the exact search's; otherwise the error shown before.
pub open spec fn search_error(
    fuzzy: Result<Vec<StoreSnapInfo>, SnapdError>,
    exact: Result<Option<StoreSnapInfo>, SnapdError>,
    before: Option<String>,
) -> Option<String> {
    if merged_results(fuzzy, exact).len() == 0 {
        match (fuzzy, exact) {
            (Err(e), _) => Some(e.message_of()),
            (_, Err(e)) => Some(e.message_of()),
            _ => before,
        }
    } else {
        before
    }
}

fn store_has_name(results: &Vec<StoreSnapInfo>, name: &String) -> (r: bool)
    ensures
        r == has_store_name(results@, name@),
{
    let mut i: usize = 0;
    while i < results.len()
        invariant
            i <= results.len(),
            forall|k: int| 0 <= k < i ==> (#[trigger] results@[k]).name@ != name@,
        decreases results.len() - i,
    {
        if results[i].name == *name {
            return true;
        }
        i = i + 1;
    }
    false
}

impl App {
    /// Selects the row named `name`, else the first row, else nothing.
    pub fn restore_selection_by_name(&mut self, name: Option<&str>)
        ensures
            *final(self) == (App {
                list_state: ListState {
                    selected: selection_for_name(
                        display_rows(*old(self)),
                        match name {
                            Some(n) => Some(n@),
                            None => None,
                        },
                    ),
                },
                ..*old(self)
            }),
    {
        let snaps = self.display_snaps();
        let fallback = if snaps.len() > 0 {
            Some(0)
        } else {
            None
        };
        let selected = match name {
            Some(n) => match first_named(&snaps, n) {
                Some(k) => Some(k),
                None => fallback,
            },
            None => fallback,
        };
        self.list_state.select(selected);
    }

    /// Starts a search: with an empty query, shows the installed list again
    /// and asks for nothing; otherwise marks the search as loading and
    /// returns the query to send.
    pub fn perform_search(&mut self) -> (q: Option<String>)
        ensures
            old(self).search_query@.len() == 0 ==> q is None && *final(self) == (App {
                showing_results: false,
                list_state: ListState { selected: Some(0) },
                ..*old(self)
            }),
            old(self).search_query@.len() > 0 ==> q == Some(old(self).search_query)
                && *final(self) == (App { loading: true, error: None, ..*old(self) }),
    {
        if self.search_query.as_str().unicode_len() == 0 {
            self.showing_results = false;
            self.list_state.select(Some(0));
            return None;
        }
        self.loading = true;
        self.error = None;
        Some(self.search_query.clone())
    }

    /// Shows the results of a search: the fuzzy results with the exact
    /// match first when it is not among them, the first row selected.
    pub fn finish_search(
        &mut self,
        fuzzy: Result<Vec<StoreSnapInfo>, SnapdError>,
        exact: Result<Option<StoreSnapInfo>, SnapdError>,
    )
        ensures
            final(self).store_results@ == merged_results(fuzzy, exact),
            *final(self) == (App {
                store_results: final(self).store_results,
                showing_results: true,
                list_state: ListState { selected: Some(0) },
                loading: false,
                error: search_error(fuzzy, exact, old(self).error),
                ..*old(self)
            }),
    {
        let ghost f0 = fuzzy;
        let ghost e0 = exact;
        let mut results: Vec<StoreSnapInfo> = Vec::new();
        let mut fuzzy_err: Option<SnapdError> = None;
        match fuzzy {
            Ok(v) => {
                results = v;
            },
            Err(e) => {
                fuzzy_err = Some(e);
            },
        }
        let mut exact_snap: Option<StoreSnapInfo> = None;
        let mut exact_err: Option<SnapdError> = None;
        match exact {
            Ok(s) => {
                exact_snap = s;
            },
            Err(e) => {
                exact_err = Some(e);
            },
        }
        assert(results@ == match f0 {
            Ok(v) => v@,
            Err(_) => seq![],
        });
        let ghost base0 = results@;
        assert(exact_snap == match e0 {
            Ok(o) => o,
            Err(_) => None,
        });
        match exact_snap {
            Some(e) => {
                let present = store_has_name(&results, &e.name);
                if !present {
                    results.insert(0, e);
                    assert(results@ =~= seq![e] + base0);
                }
                assert(results@ == merged_results(f0, e0));
            },
            None => {
                assert(results@ == merged_results(f0, e0));
            },
        }
        if results.len() == 0 {
            match fuzzy_err {
                Some(e) => {
                    self.error = Some(e.message());
                },
                None => match exact_err {
                    Some(e) => {
                        self.error = Some(e.message());
                    },
                    None => {},
                },
            }
        }
        self.store_results = results;
        self.showing_results = true;
        self.list_state.select(Some(0));
        self.loading = false;
    }

    /// Leaves the search: clears the query and the results and shows the
    /// installed list from its first row.
    pub fn clear_search(&mut self)
        ensures
            final(self).search_query@.len() == 0,
            final(self).store_results@.len() == 0,
            *final(self) == (App {
                search_query: final(self).search_query,
                store_results: final(self).store_results,
                showing_results: false,
                list_state: ListState { selected: Some(0) },
                ..*old(self)
            }),
    {
        self.search_query = String::new();
        self.store_results.clear();
        self.showing_results = false;
        self.list_state.select(Some(0));
    }

    /// Takes in the installed snaps that snapd listed: on success they
    /// replace the list, which is shown from its first row; on failure the
    /// error is shown.
    pub fn load_installed(&mut self, result: Result<Vec<LocalSnap>, SnapdError>)
        ensures
            match result {
                Ok(snaps) => *final(self) == (App {
                    installed: snaps,
                    showing_results: false,
                    list_state: ListState { selected: Some(0) },
                    loading: false,
                    error: None,
                    ..*old(self)
                }),
                Err(e) => *final(self) == (App {
                    loading: false,
                    error: Some(e.message_of()),
                    ..*old(self)
                }),
            },
    {
        match result {
            Ok(snaps) => {
                self.installed = snaps;
                self.showing_results = false;
                self.list_state.select(Some(0));
                self.error = None;
            },
            Err(e) => {
                self.error = Some(e.message());
            },
        }
        self.loading = false;
    }

    /// What a reload keeps: the name of the snap to select again (the one
    /// in the manage panel, else the selected one) and whether the search
    /// must run again (results showing for a non-empty query).
    pub fn reload(&self) -> (plan: (Option<String>, bool))
        ensures
            plan.0 == (if self.managed_snap_name is Some {
                self.managed_snap_name
            } else {
                match selected_row(*self) {
                    Some(d) => Some(d.name),
                    None => None,
                }
            }),
            plan.1 == (self.showing_results && self.search_query@.len() > 0),
    {
        let name = match &self.managed_snap_name {
            Some(n) => Some(n.clone()),
            None => match self.selected_snap() {
                Some(d) => Some(d.name),
                None => None,
            },
        };
        (name, self.showing_results && self.search_query.as_str().unicode_len() > 0)
    }
}

} // verus!
