use snap_rat::app::{App, SortMode};
use snap_rat::model::{LocalSnap, SnapdError, StoreAccount, StoreSnapInfo};
use snap_rat::types::DisplaySnap;

fn local(name: &str, version: &str) -> LocalSnap {
    LocalSnap {
        name: name.to_string(),
        title: None,
        version: Some(version.to_string()),
        summary: None,
        description: None,
        publisher: None,
        confinement: None,
        channel: Some("stable".to_string()),
        tracking_channel: None,
        contact: None,
        icon: None,
        installed_size: Some(10),
        install_date: None,
    }
}

fn store(name: &str) -> StoreSnapInfo {
    StoreSnapInfo {
        name: name.to_string(),
        title: None,
        version: Some("1.0".to_string()),
        summary: None,
        description: None,
        publisher: None,
        channel: None,
        icon: None,
        download_size: Some(5),
    }
}

fn names(rows: &[DisplaySnap]) -> Vec<String> {
    rows.iter().map(|d| d.name.clone()).collect()
}

fn app_with(installed: Vec<LocalSnap>) -> App {
    let mut app = App::new();
    app.installed = installed;
    app
}

#[test]
fn sort_by_name_ignores_case_then_exact_name() {
    let app = app_with(vec![local("beta", "1"), local("alpha", "1"), local("Alpha", "1")]);
    assert_eq!(names(&app.display_snaps()), vec!["Alpha", "alpha", "beta"]);
}

#[test]
fn sort_by_name_is_case_insensitive() {
    let mut app = app_with(vec![local("Beta", "1"), local("alpha", "1"), local("Gamma", "1")]);
    assert_eq!(names(&app.display_snaps()), vec!["alpha", "Beta", "Gamma"]);
    app.cycle_sort();
    assert_eq!(names(&app.display_snaps()), vec!["Gamma", "Beta", "alpha"]);
}

#[test]
fn sort_by_name_descending() {
    let mut app = app_with(vec![local("beta", "1"), local("alpha", "1"), local("Alpha", "1")]);
    app.cycle_sort();
    assert_eq!(app.sort_mode, SortMode::NameDesc);
    assert_eq!(names(&app.display_snaps()), vec!["beta", "alpha", "Alpha"]);
}

#[test]
fn sort_newest_by_version_then_name() {
    let mut app = app_with(vec![local("b", "1.0"), local("a", "2.0"), local("c", "1.0")]);
    app.sort_mode = SortMode::RevisionDesc;
    assert_eq!(names(&app.display_snaps()), vec!["a", "b", "c"]);
}

#[test]
fn sort_cycle_returns_after_three_steps() {
    let mut app = App::new();
    app.list_state.select(Some(4));
    app.cycle_sort();
    assert_eq!(app.list_state.selected(), Some(0));
    app.cycle_sort();
    app.cycle_sort();
    assert_eq!(app.sort_mode, SortMode::NameAsc);
}

#[test]
fn sort_mode_labels() {
    assert_eq!(SortMode::NameAsc.label(), "A→Z");
    assert_eq!(SortMode::NameDesc.label(), "Z→A");
    assert_eq!(SortMode::RevisionDesc.label(), "Newest");
}

#[test]
fn focus_toggles_back() {
    let mut app = App::new();
    app.toggle_focus();
    assert!(app.search_focused);
    app.toggle_focus();
    assert!(!app.search_focused);
}

#[test]
fn installed_filter_toggle_resets_selection() {
    let mut app = App::new();
    app.list_state.select(Some(3));
    app.toggle_installed_filter();
    assert!(app.show_installed_only);
    assert_eq!(app.list_state.selected(), Some(0));
    app.toggle_installed_filter();
    assert!(!app.show_installed_only);
}

#[test]
fn changes_sidebar_toggle_clears_when_shown() {
    let mut app = App::new();
    app.toggle_changes_sidebar();
    assert!(app.show_changes_sidebar);
    assert!(app.sidebar_changes.is_empty());
    app.toggle_changes_sidebar();
    assert!(!app.show_changes_sidebar);
}

#[test]
fn search_results_put_installed_first_and_mark_them() {
    let mut app = app_with(vec![local("zed", "1")]);
    app.store_results = vec![store("abc"), store("zed"), store("mid")];
    app.showing_results = true;
    let rows = app.display_snaps();
    assert_eq!(names(&rows), vec!["zed", "abc", "mid"]);
    assert!(rows[0].installed);
    assert!(!rows[1].installed);
}

#[test]
fn installed_only_filter_on_search_results() {
    let mut app = app_with(vec![local("zed", "1")]);
    app.store_results = vec![store("abc"), store("zed")];
    app.showing_results = true;
    app.show_installed_only = true;
    let rows = app.display_snaps();
    assert_eq!(names(&rows), vec!["zed"]);
    assert!(rows.iter().all(|d| d.installed));
}

#[test]
fn moving_through_the_list() {
    let mut app = app_with(vec![local("a", "1"), local("b", "1"), local("c", "1")]);
    app.list_state.select(None);
    app.next();
    assert_eq!(app.list_state.selected(), Some(0));
    app.next();
    app.next();
    app.next();
    assert_eq!(app.list_state.selected(), Some(2));
    app.prev();
    assert_eq!(app.list_state.selected(), Some(1));
    app.page_down();
    assert_eq!(app.list_state.selected(), Some(2));
    app.page_up();
    assert_eq!(app.list_state.selected(), Some(0));
    app.prev();
    assert_eq!(app.list_state.selected(), Some(0));
}

#[test]
fn moving_in_an_empty_list_keeps_the_selection() {
    let mut app = App::new();
    app.list_state.select(Some(5));
    app.next();
    app.prev();
    app.page_down();
    app.page_up();
    assert_eq!(app.list_state.selected(), Some(5));
}

#[test]
fn selected_snap_follows_the_selection() {
    let mut app = app_with(vec![local("b", "1"), local("a", "1")]);
    app.list_state.select(Some(1));
    assert_eq!(app.selected_snap().unwrap().name, "b");
    app.list_state.select(Some(9));
    assert!(app.selected_snap().is_none());
}

#[test]
fn restore_selection_by_name_finds_the_row() {
    let mut app = app_with(vec![local("b", "1"), local("a", "1"), local("c", "1")]);
    app.restore_selection_by_name(Some("c"));
    assert_eq!(app.list_state.selected(), Some(2));
    app.restore_selection_by_name(Some("missing"));
    assert_eq!(app.list_state.selected(), Some(0));
    let mut empty = App::new();
    empty.restore_selection_by_name(None);
    assert_eq!(empty.list_state.selected(), None);
}

#[test]
fn empty_query_shows_installed_list() {
    let mut app = App::new();
    app.showing_results = true;
    assert!(app.perform_search().is_none());
    assert!(!app.showing_results);
    app.search_query = "vlc".to_string();
    assert_eq!(app.perform_search(), Some("vlc".to_string()));
    assert!(app.loading);
}

#[test]
fn search_puts_missing_exact_match_first() {
    let mut app = App::new();
    app.finish_search(Ok(vec![store("vlc-plugin"), store("other")]), Ok(Some(store("vlc"))));
    let found: Vec<String> = app.store_results.iter().map(|s| s.name.clone()).collect();
    assert_eq!(found, vec!["vlc", "vlc-plugin", "other"]);
    assert!(app.showing_results);
    assert!(!app.loading);
}

#[test]
fn search_does_not_repeat_exact_match() {
    let mut app = App::new();
    app.finish_search(Ok(vec![store("a"), store("vlc")]), Ok(Some(store("vlc"))));
    let found: Vec<String> = app.store_results.iter().map(|s| s.name.clone()).collect();
    assert_eq!(found, vec!["a", "vlc"]);
}

#[test]
fn failed_search_with_no_results_shows_error() {
    let mut app = App::new();
    app.finish_search(
        Err(SnapdError::Other { message: "fuzzy failed".to_string() }),
        Err(SnapdError::Other { message: "exact failed".to_string() }),
    );
    assert_eq!(app.error.as_deref(), Some("fuzzy failed"));
    assert!(app.store_results.is_empty());
    let mut app = App::new();
    app.finish_search(Ok(vec![]), Err(SnapdError::Other { message: "exact failed".to_string() }));
    assert_eq!(app.error.as_deref(), Some("exact failed"));
}

#[test]
fn clear_search_goes_back() {
    let mut app = App::new();
    app.search_query = "x".to_string();
    app.store_results = vec![store("x")];
    app.showing_results = true;
    app.clear_search();
    assert!(app.search_query.is_empty());
    assert!(app.store_results.is_empty());
    assert!(!app.showing_results);
}

#[test]
fn load_installed_replaces_list_or_shows_error() {
    let mut app = App::new();
    app.showing_results = true;
    app.load_installed(Ok(vec![local("a", "1")]));
    assert_eq!(app.installed.len(), 1);
    assert!(!app.showing_results);
    app.load_installed(Err(SnapdError::Transport { message: "no socket".to_string() }));
    assert_eq!(app.error.as_deref(), Some("no socket"));
    assert_eq!(app.installed.len(), 1);
}

#[test]
fn reload_prefers_managed_snap() {
    let mut app = app_with(vec![local("a", "1"), local("b", "1")]);
    app.list_state.select(Some(1));
    assert_eq!(app.reload(), (Some("b".to_string()), false));
    app.managed_snap_name = Some("a".to_string());
    app.showing_results = true;
    app.search_query = "q".to_string();
    assert_eq!(app.reload(), (Some("a".to_string()), true));
}

#[test]
fn display_of_installed_snap() {
    let mut s = local("a", "1");
    s.publisher = Some(StoreAccount { username: Some("user".to_string()), display_name: None });
    s.tracking_channel = Some("latest/edge".to_string());
    let d = DisplaySnap::from_local(&s);
    assert_eq!(d.publisher.as_deref(), Some("user"));
    assert_eq!(d.channel.as_deref(), Some("latest/edge"));
    assert!(d.installed);
    assert_eq!(d.size, Some(10));
}

#[test]
fn display_of_store_snap() {
    let mut s = store("a");
    s.publisher = Some(StoreAccount {
        username: Some("user".to_string()),
        display_name: Some("User Name".to_string()),
    });
    s.download_size = Some(-3);
    let d = DisplaySnap::from_store(&s);
    assert_eq!(d.publisher.as_deref(), Some("User Name"));
    assert_eq!(d.size, Some(0));
    assert!(!d.installed);
    assert!(d.install_date.is_none());
}
