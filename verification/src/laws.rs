//! Properties of the interface that hold for every state.
use vstd::prelude::*;
use vstd::relations::sorted_by;
use crate::app::{App, ManageAction, SortMode, focus_toggled, next_sort_mode};
use crate::requests::{RequestView, StepView};
use crate::browse::{
    base_rows, display_key, display_rows, local_rows, row_keys, selection_for_name, store_rows,
    named_at,
};
use crate::find::{first_index, lemma_first_index_props};
use crate::model::{LocalSnap, StoreSnapInfo};
use crate::order::{
    SortField, field_order, key_order, lemma_position_leq_total, lemma_sorted_positions_distinct,
    lemma_sorted_positions_len, position_leq, positions, sorted_positions,
};
use crate::types::DisplaySnap;
use crate::browse::{has_store_name, merged_results, text_or_empty};
use crate::changes::{change_key, change_keys, change_with_id, polled_selection, sorted_changes};
use crate::channels::{channel_key, channel_parts, slash_from};
use crate::connections::{
    connection_rows, is_named, item_key, plug_conn_at, plug_connected, plug_items, raw_items,
    slot_conn_at, slot_items,
};
use crate::app::ConnectionItemView;
use crate::manage::manage_closed;
use crate::model::{ChangeInfo, ConnectionInfo, InterfaceInfo, PlugInfo, SlotInfo, SnapdError};

verus! {

/// Cycling the sort order three times comes back to where it started.
pub proof fn lemma_sort_cycle(m: SortMode)
    ensures
        next_sort_mode(next_sort_mode(next_sort_mode(m))) == m,
        next_sort_mode(m) != m,
{
}

/// Moving the focus twice leaves the state as it was.
pub proof fn lemma_focus_toggle_twice(a: App)
    ensures
        focus_toggled(focus_toggled(a)) == a,
{
}

/// The snap list shows each row of its source exactly once: its rows are
/// the source rows at distinct positions, one for each.
pub proof fn lemma_display_rows_permutation(app: App)
    ensures
        ({
            let base = base_rows(app);
            let shown = display_rows(app);
            let p = sorted_positions(row_keys(base, app.sort_mode, app.showing_results));
            &&& shown.len() == base.len()
            &&& p.len() == base.len()
            &&& p.no_duplicates()
            &&& forall|k: int| 0 <= k < p.len() ==> (#[trigger] p[k] as int) < base.len()
            &&& forall|k: int| 0 <= k < shown.len() ==> #[trigger] shown[k] == base[p[k] as int]
        }),
{
    let base = base_rows(app);
    let keys = row_keys(base, app.sort_mode, app.showing_results);
    lemma_base_rows_len(app);
    lemma_sorted_positions_len(keys);
    lemma_sorted_positions_distinct(keys);
}

proof fn lemma_store_rows_len(store: Seq<StoreSnapInfo>, installed: Seq<LocalSnap>, only: bool)
    ensures
        store_rows(store, installed, only).len() <= store.len(),
    decreases store.len(),
{
    if store.len() > 0 {
        lemma_store_rows_len(store.drop_last(), installed, only);
    }
}

proof fn lemma_base_rows_len(app: App)
    ensures
        base_rows(app).len() <= usize::MAX,
{
    vstd::std_specs::vec::axiom_spec_len(&app.store_results);
    vstd::std_specs::vec::axiom_spec_len(&app.installed);
    assert(app.store_results.len() == app.store_results@.len());
    assert(app.installed.len() == app.installed@.len());
    if app.showing_results {
        lemma_store_rows_len(app.store_results@, app.installed@, app.show_installed_only);
    }
}

proof fn lemma_store_rows_installed(store: Seq<StoreSnapInfo>, installed: Seq<LocalSnap>)
    ensures
        forall|k: int|
            0 <= k < store_rows(store, installed, true).len() ==> (#[trigger] store_rows(
                store,
                installed,
                true,
            )[k]).installed,
    decreases store.len(),
{
    if store.len() > 0 {
        lemma_store_rows_installed(store.drop_last(), installed);
    }
}

/// With "installed only" on, a search shows only installed snaps.
pub proof fn lemma_installed_only(app: App)
    requires
        app.showing_results,
        app.show_installed_only,
    ensures
        forall|k: int| 0 <= k < display_rows(app).len() ==> (#[trigger] display_rows(app)[k]).installed,
{
    lemma_display_rows_permutation(app);
    lemma_store_rows_installed(app.store_results@, app.installed@);
    let base = base_rows(app);
    let p = sorted_positions(row_keys(base, app.sort_mode, app.showing_results));
    assert forall|k: int| 0 <= k < display_rows(app).len() implies (#[trigger] display_rows(
        app,
    )[k]).installed by {
        assert(display_rows(app)[k] == base[p[k] as int]);
    }
}

/// Search results list the installed snaps first.
pub proof fn lemma_installed_first(app: App, i: int, j: int)
    requires
        app.showing_results,
        0 <= i < j < display_rows(app).len(),
        display_rows(app)[j].installed,
    ensures
        display_rows(app)[i].installed,
{
    lemma_display_rows_permutation(app);
    let base = base_rows(app);
    let keys = row_keys(base, app.sort_mode, app.showing_results);
    let p = sorted_positions(keys);
    lemma_position_leq_total(keys);
    positions(keys.len()).lemma_sort_by_ensures(position_leq(keys));
    assert(sorted_by(p, position_leq(keys)));
    assert(position_leq(keys)(p[i], p[j]));
    let a = keys[p[i] as int];
    let b = keys[p[j] as int];
    assert(a == display_key(base[p[i] as int], app.sort_mode, true));
    assert(b == display_key(base[p[j] as int], app.sort_mode, true));
    if !display_rows(app)[i].installed {
        assert(a[0] == SortField::Rank(1));
        assert(b[0] == SortField::Rank(0));
        assert(field_order(a[0], b[0]) == 1);
        assert(key_order(a, b) == 1);
    }
}

/// Selecting by name selects the first row of that name, when there is
/// one.
pub proof fn lemma_selection_for_name(rows: Seq<DisplaySnap>, n: Seq<char>, k: int)
    requires
        rows.len() <= usize::MAX,
        0 <= k < rows.len(),
        rows[k].name@ == n,
    ensures
        selection_for_name(rows, Some(n)) matches Some(j) && j <= k && rows[j as int].name@ == n
            && forall|m: int| 0 <= m < j ==> rows[m].name@ != n,
{
    let p = named_at(rows, n);
    lemma_first_index_props(rows.len(), p);
    assert(p(k));
    let j = first_index(rows.len(), p).unwrap();
    if k < j {
        assert(!p(k));
    }
    assert forall|m: int| 0 <= m < j implies rows[m].name@ != n by {
        assert(!p(m));
    }
}


/// Whether the slot `(snap, slot)` has a connection.
pub open spec fn slot_connected(conns: Seq<ConnectionInfo>, snap: Seq<char>, slot: Seq<char>) -> bool {
    exists|k: int|
        0 <= k < conns.len() && (#[trigger] conns[k]).slot.snap@ == snap && conns[k].slot.slot@
            == slot
}

/// Whether an established connection joins the plug `(plug_snap, plug)`
/// to the slot `(slot_snap, slot)`.
pub open spec fn has_connection(
    conns: Seq<ConnectionInfo>,
    plug_snap: Seq<char>,
    plug: Seq<char>,
    slot_snap: Seq<char>,
    slot: Seq<char>,
) -> bool {
    exists|k: int|
        0 <= k < conns.len() && (#[trigger] conns[k]).plug.snap@ == plug_snap
            && conns[k].plug.plug@ == plug && conns[k].slot.snap@ == slot_snap
            && conns[k].slot.slot@ == slot
}

/// What every row of the connections pane of the snap `name` states: a
/// plug row is a plug of that snap, connected exactly when an established
/// connection has that plug; a slot row is a slot of that snap, connected
/// exactly when an established connection has that slot. A connected row
/// shows as its peer the other end of an established connection of it; an
/// unconnected row shows no peer.
pub open spec fn row_of_snap(c: ConnectionItemView, conns: Seq<ConnectionInfo>, name: Seq<char>) -> bool {
    &&& if c.is_plug {
        &&& c.plug_snap == name
        &&& (c.connected <==> plug_connected(conns, name, c.plug_name))
        &&& !c.connected ==> c.slot_snap.len() == 0 && c.slot_name.len() == 0
    } else {
        &&& c.slot_snap == name
        &&& (c.connected <==> slot_connected(conns, name, c.slot_name))
        &&& !c.connected ==> c.plug_snap.len() == 0 && c.plug_name.len() == 0
    }
    &&& c.connected ==> has_connection(conns, c.plug_snap, c.plug_name, c.slot_snap, c.slot_name)
}

proof fn lemma_plug_items_of_snap(
    iface: Seq<char>,
    plugs: Seq<PlugInfo>,
    conns: Seq<ConnectionInfo>,
    name: Seq<char>,
)
    ensures
        forall|k: int|
            0 <= k < plug_items(iface, plugs, conns, name).len() ==> row_of_snap(
                #[trigger] plug_items(iface, plugs, conns, name)[k],
                conns,
                name,
            ),
    decreases plugs.len(),
{
    if plugs.len() > 0 {
        lemma_plug_items_of_snap(iface, plugs.drop_last(), conns, name);
        let p = plugs.last();
        if is_named(p.snap, name) {
            let pr = plug_conn_at(conns, text_or_empty(p.snap), p.plug@);
            lemma_first_index_props(conns.len(), pr);
            if plug_connected(conns, name, p.plug@) {
                let k = choose|k: int|
                    0 <= k < conns.len() && (#[trigger] conns[k]).plug.snap@ == name
                        && conns[k].plug.plug@ == p.plug@;
                assert(pr(k));
            }
            match first_index(conns.len(), pr) {
                Some(k) => {
                    assert(pr(k));
                    assert(conns[k].plug.snap@ == name);
                },
                None => {},
            }
            let rest = plug_items(iface, plugs.drop_last(), conns, name);
            let all = plug_items(iface, plugs, conns, name);
            assert(all == rest.push(crate::connections::plug_item(iface, p, conns, name)));
            assert(row_of_snap(crate::connections::plug_item(iface, p, conns, name), conns, name));
        }
    }
}

proof fn lemma_slot_items_of_snap(
    iface: Seq<char>,
    slots: Seq<SlotInfo>,
    conns: Seq<ConnectionInfo>,
    name: Seq<char>,
)
    ensures
        forall|k: int|
            0 <= k < slot_items(iface, slots, conns, name).len() ==> row_of_snap(
                #[trigger] slot_items(iface, slots, conns, name)[k],
                conns,
                name,
            ),
    decreases slots.len(),
{
    if slots.len() > 0 {
        lemma_slot_items_of_snap(iface, slots.drop_last(), conns, name);
        let t = slots.last();
        if is_named(t.snap, name) {
            let pr = slot_conn_at(conns, text_or_empty(t.snap), t.slot@);
            lemma_first_index_props(conns.len(), pr);
            if slot_connected(conns, name, t.slot@) {
                let k = choose|k: int|
                    0 <= k < conns.len() && (#[trigger] conns[k]).slot.snap@ == name
                        && conns[k].slot.slot@ == t.slot@;
                assert(pr(k));
            }
            match first_index(conns.len(), pr) {
                Some(k) => {
                    assert(pr(k));
                    assert(conns[k].slot.snap@ == name);
                },
                None => {},
            }
            let rest = slot_items(iface, slots.drop_last(), conns, name);
            let all = slot_items(iface, slots, conns, name);
            assert(all == rest.push(crate::connections::slot_item(iface, t, conns, name)));
            assert(row_of_snap(crate::connections::slot_item(iface, t, conns, name), conns, name));
        }
    }
}

proof fn lemma_raw_items_of_snap(
    ifaces: Seq<InterfaceInfo>,
    conns: Seq<ConnectionInfo>,
    name: Seq<char>,
)
    ensures
        forall|k: int|
            0 <= k < raw_items(ifaces, conns, name).len() ==> row_of_snap(
                #[trigger] raw_items(ifaces, conns, name)[k],
                conns,
                name,
            ),
    decreases ifaces.len(),
{
    if ifaces.len() > 0 {
        let i = ifaces.last();
        lemma_raw_items_of_snap(ifaces.drop_last(), conns, name);
        lemma_plug_items_of_snap(i.name@, i.plugs@, conns, name);
        lemma_slot_items_of_snap(i.name@, i.slots@, conns, name);
        let a = raw_items(ifaces.drop_last(), conns, name);
        let b = plug_items(i.name@, i.plugs@, conns, name);
        let c = slot_items(i.name@, i.slots@, conns, name);
        assert forall|k: int| 0 <= k < (a + b + c).len() implies row_of_snap(
            #[trigger] (a + b + c)[k],
            conns,
            name,
        ) by {
            if k < a.len() {
                assert((a + b + c)[k] == a[k]);
            } else if k < a.len() + b.len() {
                assert((a + b + c)[k] == b[k - a.len()]);
            } else {
                assert((a + b + c)[k] == c[k - a.len() - b.len()]);
            }
        }
    }
}

/// The connections pane of a snap shows only that snap's plugs and
/// slots, each connected exactly when an established connection has it,
/// and a connected row shows the other end of such a connection.
pub proof fn lemma_connection_rows_of_snap(
    ifaces: Seq<InterfaceInfo>,
    conns: Seq<ConnectionInfo>,
    name: Seq<char>,
)
    ensures
        forall|k: int|
            0 <= k < connection_rows(ifaces, conns, name).len() ==> row_of_snap(
                #[trigger] connection_rows(ifaces, conns, name)[k],
                conns,
                name,
            ),
{
    let raw = raw_items(ifaces, conns, name);
    let keys = raw.map_values(|c: ConnectionItemView| item_key(c));
    lemma_raw_items_of_snap(ifaces, conns, name);
    lemma_sorted_positions_len(keys);
    let p = sorted_positions(keys);
    assert forall|k: int| 0 <= k < connection_rows(ifaces, conns, name).len() implies row_of_snap(
        #[trigger] connection_rows(ifaces, conns, name)[k],
        conns,
        name,
    ) by {
        assert(connection_rows(ifaces, conns, name)[k] == raw[p[k] as int]);
    }
}

proof fn lemma_no_slash_from(s: Seq<char>, from: int)
    requires
        0 <= from,
        forall|i: int| from <= i < s.len() ==> s[i] != '/',
    ensures
        slash_from(s, from) is None,
    decreases s.len() - from,
{
    if from < s.len() {
        lemma_no_slash_from(s, from + 1);
    }
}

/// A channel named by its risk alone sorts as that risk on the `latest`
/// track: `stable` sorts with `latest/stable`.
pub proof fn lemma_channel_default_track(risk: Seq<char>)
    requires
        forall|i: int| 0 <= i < risk.len() ==> risk[i] != '/',
    ensures
        channel_key(risk) == channel_key("latest/"@ + risk),
        channel_parts(risk) == ("latest"@, risk, Seq::<char>::empty()),
{
    reveal_strlit("latest/");
    reveal_strlit("latest");
    let c = "latest/"@ + risk;
    lemma_no_slash_from(risk, 0);
    assert forall|i: int| 7 <= i < c.len() implies c[i] != '/' by {
        assert(c[i] == risk[i - 7]);
    }
    lemma_no_slash_from(c, 7);
    assert(c[6] == '/');
    assert(slash_from(c, 6) == Some(6int));
    assert(slash_from(c, 5) == Some(6int));
    assert(slash_from(c, 4) == Some(6int));
    assert(slash_from(c, 3) == Some(6int));
    assert(slash_from(c, 2) == Some(6int));
    assert(slash_from(c, 1) == Some(6int));
    assert(slash_from(c, 0) == Some(6int));
    assert(c.take(6) =~= "latest"@);
    assert(c.skip(7) =~= risk);
}

/// Whether `s` holds no '/'.
pub open spec fn no_slash(s: Seq<char>) -> bool {
    forall|i: int| 0 <= i < s.len() ==> s[i] != '/'
}

proof fn lemma_slash_at(c: Seq<char>, at: int, from: int)
    requires
        0 <= from <= at < c.len(),
        c[at] == '/',
        forall|i: int| from <= i < at ==> c[i] != '/',
    ensures
        slash_from(c, from) == Some(at),
    decreases at - from,
{
    if from < at {
        lemma_slash_at(c, at, from + 1);
    }
}

/// A channel `track/risk` with no other '/' splits into that track and
/// risk, with an empty branch.
proof fn lemma_two_part_channel(track: Seq<char>, risk: Seq<char>)
    requires
        no_slash(track),
        no_slash(risk),
    ensures
        channel_parts(track + seq!['/'] + risk) == (track, risk, Seq::<char>::empty()),
{
    let c = track + seq!['/'] + risk;
    let n = track.len() as int;
    assert(c[n] == '/');
    assert forall|i: int| 0 <= i < n implies c[i] != '/' by {
        assert(c[i] == track[i]);
    }
    lemma_slash_at(c, n, 0);
    assert forall|i: int| n + 1 <= i < c.len() implies c[i] != '/' by {
        assert(c[i] == risk[i - n - 1]);
    }
    lemma_no_slash_from(c, n + 1);
    assert(c.take(n) =~= track);
    assert(c.skip(n + 1) =~= risk);
}

/// The order of the channel picker: any channel on the `latest` track comes
/// before any channel on another track; on one track the risks come in the
/// order stable, candidate, beta, edge, then any other risk.
#[verifier::spinoff_prover]
#[verifier::rlimit(50)]
pub proof fn lemma_channel_order(
    t: Seq<char>,
    u: Seq<char>,
    r: Seq<char>,
    r2: Seq<char>,
    x: Seq<char>,
)
    requires
        no_slash(t),
        no_slash(u),
        no_slash(r),
        no_slash(r2),
        no_slash(x),
        t != "latest"@,
        x != "stable"@,
        x != "candidate"@,
        x != "beta"@,
        x != "edge"@,
    ensures
        key_order(channel_key("latest"@ + seq!['/'] + r), channel_key(t + seq!['/'] + r2)) < 0,
        key_order(
            channel_key(u + seq!['/'] + "stable"@),
            channel_key(u + seq!['/'] + "candidate"@),
        ) < 0,
        key_order(channel_key(u + seq!['/'] + "candidate"@), channel_key(u + seq!['/'] + "beta"@))
            < 0,
        key_order(channel_key(u + seq!['/'] + "beta"@), channel_key(u + seq!['/'] + "edge"@)) < 0,
        key_order(channel_key(u + seq!['/'] + "edge"@), channel_key(u + seq!['/'] + x)) < 0,
{
    reveal_strlit("latest");
    reveal_strlit("stable");
    reveal_strlit("candidate");
    reveal_strlit("beta");
    reveal_strlit("edge");
    reveal_with_fuel(key_order, 4);
    lemma_two_part_channel("latest"@, r);
    lemma_two_part_channel(t, r2);
    lemma_two_part_channel(u, "stable"@);
    lemma_two_part_channel(u, "candidate"@);
    lemma_two_part_channel(u, "beta"@);
    lemma_two_part_channel(u, "edge"@);
    lemma_two_part_channel(u, x);
    crate::order::lemma_text_order_basic(u, u);
    assert("edge"@[0] != "beta"@[0]);
    assert("edge"@ != "beta"@);
}

/// After the changes list is polled, the change that was selected stays
/// selected when the new list still has a change with its id.
pub proof fn lemma_poll_keeps_selected(
    c: ChangeInfo,
    old_index: Option<usize>,
    list: Seq<ChangeInfo>,
    k: int,
)
    requires
        list.len() <= usize::MAX,
        0 <= k < list.len(),
        list[k].id@ == c.id@,
    ensures
        polled_selection(Some(c), old_index, list) matches Some(j) && list[j as int].id@ == c.id@,
{
    let p = change_with_id(list, c.id@);
    lemma_first_index_props(list.len(), p);
    assert(p(k));
    let j = first_index(list.len(), p).unwrap();
    if k < j {
        assert(!p(k));
    }
}

/// The changes list shows changes in progress before finished ones.
pub proof fn lemma_changes_in_progress_first(v: Seq<ChangeInfo>, i: int, j: int)
    requires
        0 <= i < j < sorted_changes(v).len(),
        !sorted_changes(v)[j].ready,
    ensures
        !sorted_changes(v)[i].ready,
{
    let keys = change_keys(v);
    let p = sorted_positions(keys);
    lemma_sorted_positions_len(keys);
    lemma_position_leq_total(keys);
    positions(keys.len()).lemma_sort_by_ensures(position_leq(keys));
    assert(sorted_by(p, position_leq(keys)));
    assert(position_leq(keys)(p[i], p[j]));
    let a = keys[p[i] as int];
    let b = keys[p[j] as int];
    assert(a == change_key(v[p[i] as int]));
    assert(b == change_key(v[p[j] as int]));
    assert(sorted_changes(v)[i] == v[p[i] as int]);
    assert(sorted_changes(v)[j] == v[p[j] as int]);
    if sorted_changes(v)[i].ready {
        assert(field_order(a[0], b[0]) == 1);
        assert(key_order(a, b) == 1);
    }
}

/// The sorted changes list holds each change of snapd's list exactly once:
/// its changes are those of the list at distinct positions, one for each.
pub proof fn lemma_changes_permutation(v: Seq<ChangeInfo>)
    requires
        v.len() <= usize::MAX,
    ensures
        ({
            let p = sorted_positions(change_keys(v));
            &&& sorted_changes(v).len() == v.len()
            &&& p.len() == v.len()
            &&& p.no_duplicates()
            &&& forall|k: int| 0 <= k < p.len() ==> (#[trigger] p[k] as int) < v.len()
            &&& forall|k: int| 0 <= k < v.len() ==> #[trigger] sorted_changes(v)[k] == v[p[k] as int]
        }),
{
    let keys = change_keys(v);
    lemma_sorted_positions_len(keys);
    lemma_sorted_positions_distinct(keys);
}

/// Among changes that are both in progress, or both finished, the sorted
/// list shows the most recently spawned first (spawn times compared as
/// text, a missing one as empty text); changes spawned at the same time
/// keep snapd's order.
pub proof fn lemma_changes_newest_first(v: Seq<ChangeInfo>, i: int, j: int)
    requires
        v.len() <= usize::MAX,
        0 <= i < j < sorted_changes(v).len(),
        sorted_changes(v)[i].ready == sorted_changes(v)[j].ready,
    ensures
        crate::order::text_order(
            text_or_empty(sorted_changes(v)[j].spawn_time),
            text_or_empty(sorted_changes(v)[i].spawn_time),
        ) <= 0,
        text_or_empty(sorted_changes(v)[j].spawn_time) == text_or_empty(
            sorted_changes(v)[i].spawn_time,
        ) ==> sorted_positions(change_keys(v))[i] < sorted_positions(change_keys(v))[j],
{
    let keys = change_keys(v);
    let p = sorted_positions(keys);
    lemma_sorted_positions_len(keys);
    lemma_position_leq_total(keys);
    positions(keys.len()).lemma_sort_by_ensures(position_leq(keys));
    assert(sorted_by(p, position_leq(keys)));
    assert(position_leq(keys)(p[i], p[j]));
    let a = keys[p[i] as int];
    let b = keys[p[j] as int];
    let si = text_or_empty(v[p[i] as int].spawn_time);
    let sj = text_or_empty(v[p[j] as int].spawn_time);
    assert(a == change_key(v[p[i] as int]));
    assert(b == change_key(v[p[j] as int]));
    assert(sorted_changes(v)[i] == v[p[i] as int]);
    assert(sorted_changes(v)[j] == v[p[j] as int]);
    crate::order::lemma_text_order_basic(sj, si);
    assert(field_order(a[0], b[0]) == 0);
    assert(a.drop_first().drop_first().len() == 0);
    assert(b.drop_first().drop_first().len() == 0);
    reveal_with_fuel(key_order, 3);
    assert(key_order(a, b) == crate::order::text_order(sj, si));
    if sj == si {
        lemma_sorted_positions_distinct(keys);
        assert(p[i] != p[j]);
    }
}

/// A search always shows the exact match, first when the fuzzy results
/// did not already hold a snap of its name.
pub proof fn lemma_search_shows_exact(
    fuzzy: Result<Vec<StoreSnapInfo>, SnapdError>,
    e: StoreSnapInfo,
)
    ensures
        has_store_name(merged_results(fuzzy, Ok(Some(e))), e.name@),
        !has_store_name(
            match fuzzy {
                Ok(v) => v@,
                Err(_) => Seq::empty(),
            },
            e.name@,
        ) ==> merged_results(fuzzy, Ok(Some(e)))[0] == e,
{
    let m = merged_results(fuzzy, Ok(Some(e)));
    let base = match fuzzy {
        Ok(v) => v@,
        Err(_) => Seq::<StoreSnapInfo>::empty(),
    };
    if !has_store_name(base, e.name@) {
        assert(m[0] == e);
        assert(m[0].name@ == e.name@);
    }
}

/// Whether no two results share a name.
pub open spec fn distinct_names(v: Seq<StoreSnapInfo>) -> bool {
    forall|i: int, j: int| 0 <= i < j < v.len() ==> (#[trigger] v[i]).name@ != (#[trigger] v[j]).name@
}

/// A search never lists a snap twice: when the fuzzy results name each
/// snap once, so do the results shown. They are the fuzzy results in their
/// order, with at most one result (the exact match) before them.
pub proof fn lemma_search_no_duplicates(
    fuzzy: Result<Vec<StoreSnapInfo>, SnapdError>,
    exact: Result<Option<StoreSnapInfo>, SnapdError>,
)
    requires
        fuzzy matches Ok(v) ==> distinct_names(v@),
    ensures
        ({
            let base = match fuzzy {
                Ok(v) => v@,
                Err(_) => Seq::<StoreSnapInfo>::empty(),
            };
            let m = merged_results(fuzzy, exact);
            &&& distinct_names(m)
            &&& base.len() <= m.len() <= base.len() + 1
            &&& forall|k: int| 0 <= k < base.len() ==> #[trigger] m[m.len() - base.len() + k] == base[k]
            &&& m.len() == base.len() + 1 ==> exact == Ok::<Option<StoreSnapInfo>, SnapdError>(
                Some(m[0]),
            )
        }),
{
    let base = match fuzzy {
        Ok(v) => v@,
        Err(_) => Seq::<StoreSnapInfo>::empty(),
    };
    let m = merged_results(fuzzy, exact);
    match exact {
        Ok(Some(e)) => {
            if !has_store_name(base, e.name@) {
                assert(m =~= seq![e] + base);
                assert forall|i: int, j: int| 0 <= i < j < m.len() implies (#[trigger] m[i]).name@
                    != (#[trigger] m[j]).name@ by {
                    if i == 0 {
                        assert(m[j] == base[j - 1]);
                    } else {
                        assert(m[i] == base[i - 1] && m[j] == base[j - 1]);
                    }
                }
                assert forall|k: int| 0 <= k < base.len() implies #[trigger] m[m.len() - base.len()
                    + k] == base[k] by {
                    assert(m[k + 1] == base[k]);
                }
            }
        },
        _ => {},
    }
}

/// Each snapd action of the manage panel asks snapd for the operation of
/// the same kind on the snap it runs on: install (from the stable channel,
/// or from the channel picked), refresh, channel switch (to the channel
/// picked), revert, enable, disable, remove, remove with its data; the
/// state then waits for snapd with nothing shown. The store page opens the
/// snap's page on snapcraft.io.
pub proof fn lemma_action_requests(
    o: App,
    f: App,
    step: crate::requests::ActionStep,
    name: Seq<char>,
    action: crate::app::ManageAction,
    channel: Option<Seq<char>>,
)
    requires
        o.active_change_id is None,
        crate::actions::execute_outcome(o, f, step, name, action, channel),
    ensures
        action == crate::app::ManageAction::Install ==> step@ == StepView::Request(
            RequestView::Install { name, channel: None },
        ),
        action == crate::app::ManageAction::InstallFromChannel ==> step@ == StepView::Request(
            RequestView::Install { name, channel },
        ),
        action == crate::app::ManageAction::Refresh ==> step@ == StepView::Request(
            RequestView::Refresh { name },
        ),
        action == crate::app::ManageAction::SwitchChannel ==> step@ == StepView::Request(
            RequestView::SwitchChannel { name, channel },
        ),
        action == crate::app::ManageAction::Revert ==> step@ == StepView::Request(
            RequestView::Revert { name },
        ),
        action == crate::app::ManageAction::Enable ==> step@ == StepView::Request(
            RequestView::Enable { name },
        ),
        action == crate::app::ManageAction::Disable ==> step@ == StepView::Request(
            RequestView::Disable { name },
        ),
        action == crate::app::ManageAction::Uninstall ==> step@ == StepView::Request(
            RequestView::Remove { name },
        ),
        action == crate::app::ManageAction::UninstallPurge ==> step@ == StepView::Request(
            RequestView::RemovePurge { name },
        ),
        action == crate::app::ManageAction::OpenStorePage ==> step@ == StepView::OpenUrl(
            "https://snapcraft.io/"@ + name,
        ),
        step@ is Request ==> f.loading && f.error is None && f.status_message is None
            && f.active_change_id is None,
{
}

/// What the manage panel offers: a snap that is not installed can be
/// installed, from the stable channel or from a channel picked, and
/// nothing that needs it installed; an installed snap can be refreshed,
/// switched to another channel, reverted, enabled, disabled, uninstalled
/// with or without its data, and not installed again. Every snap offers its
/// store page, and its contact page exactly when it has a contact.
pub proof fn lemma_manage_actions_offered(d: DisplaySnap)
    ensures
        ({
            let a = crate::manage::manage_actions_for(d);
            &&& !d.installed ==> a[0] == ManageAction::Install && a[1]
                == ManageAction::InstallFromChannel && a[2] == ManageAction::OpenStorePage
            &&& !d.installed ==> forall|k: int|
                0 <= k < a.len() ==> installed_only(#[trigger] a[k]) == false
            &&& d.installed ==> a.contains(ManageAction::Refresh) && a.contains(
                ManageAction::SwitchChannel,
            ) && a.contains(ManageAction::Revert) && a.contains(ManageAction::Enable) && a.contains(
                ManageAction::Disable,
            ) && a.contains(ManageAction::Uninstall) && a.contains(ManageAction::UninstallPurge)
            &&& d.installed ==> !a.contains(ManageAction::Install) && !a.contains(
                ManageAction::InstallFromChannel,
            )
            &&& a.contains(ManageAction::OpenStorePage)
            &&& (a.contains(ManageAction::OpenContactPage) <==> d.contact is Some)
        }),
{
    let a = crate::manage::manage_actions_for(d);
    if d.installed {
        assert(a[0] == ManageAction::Refresh);
        assert(a[1] == ManageAction::SwitchChannel);
        assert(a[2] == ManageAction::Revert);
        assert(a[3] == ManageAction::Enable);
        assert(a[4] == ManageAction::Disable);
        assert(a[5] == ManageAction::Uninstall);
        assert(a[6] == ManageAction::UninstallPurge);
        assert(a[7] == ManageAction::OpenStorePage);
        if d.contact is Some {
            assert(a[8] == ManageAction::OpenContactPage);
        }
    } else {
        assert(a[2] == ManageAction::OpenStorePage);
        if d.contact is Some {
            assert(a[3] == ManageAction::OpenContactPage);
        }
    }
}

/// Whether an action needs the snap installed.
pub open spec fn installed_only(a: ManageAction) -> bool {
    a == ManageAction::Refresh || a == ManageAction::SwitchChannel || a == ManageAction::Revert || a
        == ManageAction::Enable || a == ManageAction::Disable || a == ManageAction::Uninstall || a
        == ManageAction::UninstallPurge
}

/// Closing the manage panel keeps the change that is running tracked, and
/// keeps the name of the managed snap so that a reload selects it again.
pub proof fn lemma_close_manage_keeps(before: App, after: App)
    requires
        manage_closed(before, after),
    ensures
        after.active_change_id == before.active_change_id,
        after.active_change == before.active_change,
        after.managed_snap_name == before.managed_snap_name,
{
}
} // verus!
