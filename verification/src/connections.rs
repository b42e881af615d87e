//! The connections pane: the plugs and slots of the managed snap, and
//! connecting or disconnecting them.
use vstd::prelude::*;
use crate::app::{
    App, AppMode, ConfirmPending, ConnectionItem, ConnectionItemView, PromptView, items_view,
    prompt_message, prompts_view,
};
use crate::browse::{selected_row, text_or_empty};
use crate::find::{first_index, lemma_first_index_found, lemma_first_index_none};
use crate::model::{ConnectionInfo, InterfaceInfo, PlugInfo, SlotInfo, SlotRef, SnapdError};
use crate::nav::{
    ListState, next_index, page_down_index, page_down_to, page_up_index, page_up_to, prev_index,
    step_down, step_up, wrap_down, wrap_next_index, wrap_prev_index, wrap_up,
};
use crate::order::{
    KeyPart, SortField, key_view, keys_view, lemma_sorted_positions_len, sort_positions,
    sorted_positions,
};
use crate::requests::{ActionStep, SnapdRequest};
use crate::text::{chars_of, str_eq};

verus! {

/// Whether an optional name is present and equal to `n`.
pub open spec fn is_named(o: Option<String>, n: Seq<char>) -> bool {
    o matches Some(s) && s@ == n
}

/// Whether the interface at `k` is named `n`.
pub open spec fn iface_named(ifaces: Seq<InterfaceInfo>, n: Seq<char>) -> spec_fn(int) -> bool {
    |k: int| ifaces[k].name@ == n
}

/// Whether the connection at `k` has the plug `(snap, plug)`.
pub open spec fn plug_conn_at(conns: Seq<ConnectionInfo>, snap: Seq<char>, plug: Seq<char>) -> spec_fn(
    int,
) -> bool {
    |k: int| conns[k].plug.snap@ == snap && conns[k].plug.plug@ == plug
}

/// Whether the connection at `k` has the slot `(snap, slot)`.
pub open spec fn slot_conn_at(conns: Seq<ConnectionInfo>, snap: Seq<char>, slot: Seq<char>) -> spec_fn(
    int,
) -> bool {
    |k: int| conns[k].slot.snap@ == snap && conns[k].slot.slot@ == slot
}

/// A plug of the snap named `name`, with its first connection.
pub open spec fn plug_item(
    iface: Seq<char>,
    p: PlugInfo,
    conns: Seq<ConnectionInfo>,
    name: Seq<char>,
) -> ConnectionItemView {
    let a = first_index(conns.len(), plug_conn_at(conns, text_or_empty(p.snap), p.plug@));
    ConnectionItemView {
        interface_name: iface,
        plug_snap: match p.snap {
            Some(s) => s@,
            None => name,
        },
        plug_name: p.plug@,
        slot_snap: match a {
            Some(k) => conns[k].slot.snap@,
            None => seq![],
        },
        slot_name: match a {
            Some(k) => conns[k].slot.slot@,
            None => seq![],
        },
        connected: a is Some,
        is_plug: true,
    }
}

/// A slot of the snap named `name`, with its first connection.
pub open spec fn slot_item(
    iface: Seq<char>,
    s: SlotInfo,
    conns: Seq<ConnectionInfo>,
    name: Seq<char>,
) -> ConnectionItemView {
    let a = first_index(conns.len(), slot_conn_at(conns, text_or_empty(s.snap), s.slot@));
    ConnectionItemView {
        interface_name: iface,
        plug_snap: match a {
            Some(k) => conns[k].plug.snap@,
            None => seq![],
        },
        plug_name: match a {
            Some(k) => conns[k].plug.plug@,
            None => seq![],
        },
        slot_snap: match s.snap {
            Some(t) => t@,
            None => name,
        },
        slot_name: s.slot@,
        connected: a is Some,
        is_plug: false,
    }
}

/// The items of the plugs of the snap named `name`, in order.
pub open spec fn plug_items(
    iface: Seq<char>,
    plugs: Seq<PlugInfo>,
    conns: Seq<ConnectionInfo>,
    name: Seq<char>,
) -> Seq<ConnectionItemView>
    decreases plugs.len(),
{
    if plugs.len() == 0 {
        seq![]
    } else {
        let rest = plug_items(iface, plugs.drop_last(), conns, name);
        if is_named(plugs.last().snap, name) {
            rest.push(plug_item(iface, plugs.last(), conns, name))
        } else {
            rest
        }
    }
}

/// The items of the slots of the snap named `name`, in order.
pub open spec fn slot_items(
    iface: Seq<char>,
    slots: Seq<SlotInfo>,
    conns: Seq<ConnectionInfo>,
    name: Seq<char>,
) -> Seq<ConnectionItemView>
    decreases slots.len(),
{
    if slots.len() == 0 {
        seq![]
    } else {
        let rest = slot_items(iface, slots.drop_last(), conns, name);
        if is_named(slots.last().snap, name) {
            rest.push(slot_item(iface, slots.last(), conns, name))
        } else {
            rest
        }
    }
}

/// The items of each interface in turn: its plugs, then its slots.
pub open spec fn raw_items(
    ifaces: Seq<InterfaceInfo>,
    conns: Seq<ConnectionInfo>,
    name: Seq<char>,
) -> Seq<ConnectionItemView>
    decreases ifaces.len(),
{
    if ifaces.len() == 0 {
        seq![]
    } else {
        let i = ifaces.last();
        raw_items(ifaces.drop_last(), conns, name) + plug_items(i.name@, i.plugs@, conns, name)
            + slot_items(i.name@, i.slots@, conns, name)
    }
}

/// The order of the connections pane: interface, slots before plugs, plug
/// name, slot name.
pub open spec fn item_key(c: ConnectionItemView) -> Seq<SortField> {
    seq![
        SortField::Text(c.interface_name),
        SortField::Rank(if c.is_plug { 1 } else { 0 }),
        SortField::Text(c.plug_name),
        SortField::Text(c.slot_name),
    ]
}

/// The rows of the connections pane for the snap named `name`: a stable
/// sort of the items by their key.
pub open spec fn connection_rows(
    ifaces: Seq<InterfaceInfo>,
    conns: Seq<ConnectionInfo>,
    name: Seq<char>,
) -> Seq<ConnectionItemView> {
    let raw = raw_items(ifaces, conns, name);
    sorted_positions(raw.map_values(|c: ConnectionItemView| item_key(c))).map_values(
        |p: usize| raw[p as int],
    )
}

/// The rows of the connections pane for the selected snap.
pub open spec fn app_connection_rows(app: App) -> Seq<ConnectionItemView> {
    match selected_row(app) {
        Some(d) => connection_rows(app.snap_interfaces@, app.snap_connections@, d.name@),
        None => seq![],
    }
}

/// The row of the connections pane that the selection points at.
pub open spec fn selected_connection_row(app: App) -> Option<ConnectionItemView> {
    match app.connections_state.selected {
        Some(i) => if i < app_connection_rows(app).len() {
            Some(app_connection_rows(app)[i as int])
        } else {
            None
        },
        None => None,
    }
}

/// The slots of the interface named `iname` (the first of that name), to
/// connect a plug to.
pub open spec fn slots_for_interface(ifaces: Seq<InterfaceInfo>, iname: Seq<char>) -> Seq<
    (Seq<char>, Seq<char>),
> {
    match first_index(ifaces.len(), iface_named(ifaces, iname)) {
        Some(k) => ifaces[k].slots@.map_values(|s: SlotInfo| (text_or_empty(s.snap), s.slot@)),
        None => seq![],
    }
}

pub open spec fn slot_refs_view(v: Seq<SlotRef>) -> Seq<(Seq<char>, Seq<char>)> {
    v.map_values(|s: SlotRef| s@)
}

/// Whether a slot belongs to the system (snapd, or no snap).
pub open spec fn is_system_slot(s: SlotInfo) -> bool {
    match s.snap {
        Some(n) => n@ == "snapd"@ || n@.len() == 0,
        None => true,
    }
}

/// The system slots among `slots`, in order.
pub open spec fn system_slots(slots: Seq<SlotInfo>) -> Seq<(Seq<char>, Seq<char>)>
    decreases slots.len(),
{
    if slots.len() == 0 {
        seq![]
    } else {
        let rest = system_slots(slots.drop_last());
        if is_system_slot(slots.last()) {
            rest.push((text_or_empty(slots.last().snap), slots.last().slot@))
        } else {
            rest
        }
    }
}

/// Whether the plug `(snap, plug)` has a connection.
pub open spec fn plug_connected(conns: Seq<ConnectionInfo>, snap: Seq<char>, plug: Seq<char>) -> bool {
    exists|k: int|
        0 <= k < conns.len() && (#[trigger] conns[k]).plug.snap@ == snap && conns[k].plug.plug@
            == plug
}

/// The prompts for the plugs of the snap named `name` on one interface:
/// one per plug that has no connection, when the interface has exactly one
/// system slot.
pub open spec fn plug_prompts(
    iface: InterfaceInfo,
    plugs: Seq<PlugInfo>,
    conns: Seq<ConnectionInfo>,
    name: Seq<char>,
) -> Seq<PromptView>
    decreases plugs.len(),
{
    if plugs.len() == 0 {
        seq![]
    } else {
        let rest = plug_prompts(iface, plugs.drop_last(), conns, name);
        let p = plugs.last();
        let sys = system_slots(iface.slots@);
        if is_named(p.snap, name) && !plug_connected(conns, name, p.plug@) && sys.len() == 1 {
            rest.push(
                PromptView::AutoConnect {
                    plug_snap: name,
                    plug_name: p.plug@,
                    interface_name: iface.name@,
                    slot: sys[0],
                },
            )
        } else {
            rest
        }
    }
}

/// The connection prompts for a newly installed snap, interface by
/// interface.
pub open spec fn auto_connect_prompts(
    ifaces: Seq<InterfaceInfo>,
    conns: Seq<ConnectionInfo>,
    name: Seq<char>,
) -> Seq<PromptView>
    decreases ifaces.len(),
{
    if ifaces.len() == 0 {
        seq![]
    } else {
        auto_connect_prompts(ifaces.drop_last(), conns, name) + plug_prompts(
            ifaces.last(),
            ifaces.last().plugs@,
            conns,
            name,
        )
    }
}

fn opt_str_eq(o: &Option<String>, n: &str) -> (r: bool)
    ensures
        r == is_named(*o, n@),
{
    match o {
        Some(s) => str_eq(s.as_str(), n),
        None => false,
    }
}

fn text_of_opt(o: &Option<String>) -> (r: String)
    ensures
        r@ == text_or_empty(*o),
{
    match o {
        Some(s) => s.clone(),
        None => String::new(),
    }
}

fn find_plug_connection(conns: &Vec<ConnectionInfo>, snap: &str, plug: &str) -> (r: Option<usize>)
    ensures
        r matches Some(k) ==> first_index(conns@.len(), plug_conn_at(conns@, snap@, plug@)) == Some(
            k as int,
        ),
        r is None ==> first_index(conns@.len(), plug_conn_at(conns@, snap@, plug@)) is None,
{
    let ghost p = plug_conn_at(conns@, snap@, plug@);
    let mut i: usize = 0;
    while i < conns.len()
        invariant
            i <= conns.len(),
            p == plug_conn_at(conns@, snap@, plug@),
            forall|k: int| 0 <= k < i ==> !#[trigger] p(k),
        decreases conns.len() - i,
    {
        if str_eq(conns[i].plug.snap.as_str(), snap) && str_eq(conns[i].plug.plug.as_str(), plug) {
            proof {
                lemma_first_index_found(conns@.len(), p, i as int);
            }
            return Some(i);
        }
        i = i + 1;
    }
    proof {
        lemma_first_index_none(conns@.len(), p);
    }
    None
}

fn find_slot_connection(conns: &Vec<ConnectionInfo>, snap: &str, slot: &str) -> (r: Option<usize>)
    ensures
        r matches Some(k) ==> first_index(conns@.len(), slot_conn_at(conns@, snap@, slot@)) == Some(
            k as int,
        ),
        r is None ==> first_index(conns@.len(), slot_conn_at(conns@, snap@, slot@)) is None,
{
    let ghost p = slot_conn_at(conns@, snap@, slot@);
    let mut i: usize = 0;
    while i < conns.len()
        invariant
            i <= conns.len(),
            p == slot_conn_at(conns@, snap@, slot@),
            forall|k: int| 0 <= k < i ==> !#[trigger] p(k),
        decreases conns.len() - i,
    {
        if str_eq(conns[i].slot.snap.as_str(), snap) && str_eq(conns[i].slot.slot.as_str(), slot) {
            proof {
                lemma_first_index_found(conns@.len(), p, i as int);
            }
            return Some(i);
        }
        i = i + 1;
    }
    proof {
        lemma_first_index_none(conns@.len(), p);
    }
    None
}

fn make_plug_item(iface: &String, p: &PlugInfo, conns: &Vec<ConnectionInfo>, name: &str) -> (r:
    ConnectionItem)
    ensures
        r@ == plug_item(iface@, *p, conns@, name@),
{
    let psnap = text_of_opt(&p.snap);
    let active = find_plug_connection(conns, psnap.as_str(), p.plug.as_str());
    let plug_snap = match &p.snap {
        Some(s) => s.clone(),
        None => name.to_owned(),
    };
    let (slot_snap, slot_name) = match active {
        Some(k) => (conns[k].slot.snap.clone(), conns[k].slot.slot.clone()),
        None => (String::new(), String::new()),
    };
    ConnectionItem {
        interface_name: iface.clone(),
        plug_snap,
        plug_name: p.plug.clone(),
        slot_snap,
        slot_name,
        connected: active.is_some(),
        is_plug: true,
    }
}

fn make_slot_item(iface: &String, s: &SlotInfo, conns: &Vec<ConnectionInfo>, name: &str) -> (r:
    ConnectionItem)
    ensures
        r@ == slot_item(iface@, *s, conns@, name@),
{
    let ssnap = text_of_opt(&s.snap);
    let active = find_slot_connection(conns, ssnap.as_str(), s.slot.as_str());
    let slot_snap = match &s.snap {
        Some(t) => t.clone(),
        None => name.to_owned(),
    };
    let (plug_snap, plug_name) = match active {
        Some(k) => (conns[k].plug.snap.clone(), conns[k].plug.plug.clone()),
        None => (String::new(), String::new()),
    };
    ConnectionItem {
        interface_name: iface.clone(),
        plug_snap,
        plug_name,
        slot_snap,
        slot_name: s.slot.clone(),
        connected: active.is_some(),
        is_plug: false,
    }
}

fn item_key_exec(c: &ConnectionItem) -> (k: Vec<KeyPart>)
    ensures
        key_view(k@) == item_key(c@),
{
    let mut k: Vec<KeyPart> = Vec::new();
    k.push(KeyPart::Text(chars_of(c.interface_name.as_str())));
    k.push(
        KeyPart::Rank(
            if c.is_plug {
                1
            } else {
                0
            },
        ),
    );
    k.push(KeyPart::Text(chars_of(c.plug_name.as_str())));
    k.push(KeyPart::Text(chars_of(c.slot_name.as_str())));
    assert(key_view(k@) =~= item_key(c@));
    k
}

fn items_for_snap(
    ifaces: &Vec<InterfaceInfo>,
    conns: &Vec<ConnectionInfo>,
    snap_name: &str,
) -> (items: Vec<ConnectionItem>)
    ensures
        items_view(items@) == connection_rows(ifaces@, conns@, snap_name@),
{
    let ghost name = snap_name@;
    let mut raw: Vec<ConnectionItem> = Vec::new();
    let mut i: usize = 0;
    while i < ifaces.len()
        invariant
            i <= ifaces.len(),
            name == snap_name@,
            items_view(raw@) == raw_items(ifaces@.take(i as int), conns@, name),
        decreases ifaces.len() - i,
    {
        let iface = &ifaces[i];
        let ghost before = items_view(raw@);
        let mut j: usize = 0;
        while j < iface.plugs.len()
            invariant
                j <= iface.plugs.len(),
                name == snap_name@,
                items_view(raw@) == before + plug_items(
                    iface.name@,
                    iface.plugs@.take(j as int),
                    conns@,
                    name,
                ),
            decreases iface.plugs.len() - j,
        {
            let p = &iface.plugs[j];
            assert(iface.plugs@.take(j + 1).drop_last() =~= iface.plugs@.take(j as int));
            if opt_str_eq(&p.snap, snap_name) {
                let item = make_plug_item(&iface.name, p, conns, snap_name);
                let ghost old_raw = raw@;
                let ghost iv = item@;
                raw.push(item);
                assert(items_view(raw@) =~= items_view(old_raw).push(iv));
                assert(items_view(raw@) =~= before + plug_items(
                    iface.name@,
                    iface.plugs@.take(j as int),
                    conns@,
                    name,
                ).push(plug_item(iface.name@, *p, conns@, name)));
            }
            j = j + 1;
        }
        assert(iface.plugs@.take(iface.plugs.len() as int) =~= iface.plugs@);
        let ghost mid = items_view(raw@);
        let mut j: usize = 0;
        while j < iface.slots.len()
            invariant
                j <= iface.slots.len(),
                name == snap_name@,
                items_view(raw@) == mid + slot_items(
                    iface.name@,
                    iface.slots@.take(j as int),
                    conns@,
                    name,
                ),
            decreases iface.slots.len() - j,
        {
            let s = &iface.slots[j];
            assert(iface.slots@.take(j + 1).drop_last() =~= iface.slots@.take(j as int));
            if opt_str_eq(&s.snap, snap_name) {
                let item = make_slot_item(&iface.name, s, conns, snap_name);
                let ghost old_raw = raw@;
                let ghost iv = item@;
                raw.push(item);
                assert(items_view(raw@) =~= items_view(old_raw).push(iv));
                assert(items_view(raw@) =~= mid + slot_items(
                    iface.name@,
                    iface.slots@.take(j as int),
                    conns@,
                    name,
                ).push(slot_item(iface.name@, *s, conns@, name)));
            }
            j = j + 1;
        }
        assert(iface.slots@.take(iface.slots.len() as int) =~= iface.slots@);
        assert(ifaces@.take(i + 1).drop_last() =~= ifaces@.take(i as int));
        assert(items_view(raw@) =~= raw_items(ifaces@.take(i + 1), conns@, name));
        i = i + 1;
    }
    assert(ifaces@.take(ifaces.len() as int) =~= ifaces@);
    let ghost rv = items_view(raw@);
    let mut keys: Vec<Vec<KeyPart>> = Vec::new();
    let mut k: usize = 0;
    while k < raw.len()
        invariant
            k <= raw.len(),
            keys@.len() == k,
            forall|m: int| 0 <= m < k ==> key_view(#[trigger] keys@[m]@) == item_key(raw@[m]@),
        decreases raw.len() - k,
    {
        keys.push(item_key_exec(&raw[k]));
        k = k + 1;
    }
    assert(keys_view(keys@) =~= rv.map_values(|c: ConnectionItemView| item_key(c)));
    let order = sort_positions(&keys);
    proof {
        lemma_sorted_positions_len(keys_view(keys@));
    }
    let mut items: Vec<ConnectionItem> = Vec::new();
    let mut j: usize = 0;
    while j < order.len()
        invariant
            order@ == sorted_positions(rv.map_values(|c: ConnectionItemView| item_key(c))),
            rv == items_view(raw@),
            order@.len() == raw@.len(),
            forall|m: int| 0 <= m < order@.len() ==> (#[trigger] order@[m] as int) < raw@.len(),
            j <= order.len(),
            items_view(items@) =~= order@.take(j as int).map_values(|p: usize| rv[p as int]),
        decreases order.len() - j,
    {
        let p = order[j];
        let ghost old_items = items@;
        let d = raw[p].duplicate();
        items.push(d);
        assert(items_view(items@) =~= items_view(old_items).push(rv[p as int]));
        assert(order@.take(j + 1).map_values(|p: usize| rv[p as int]) =~= order@.take(
            j as int,
        ).map_values(|p: usize| rv[p as int]).push(rv[p as int]));
        j = j + 1;
    }
    assert(order@.take(order.len() as int) =~= order@);
    items
}


fn find_interface(ifaces: &Vec<InterfaceInfo>, n: &str) -> (r: Option<usize>)
    ensures
        r matches Some(k) ==> first_index(ifaces@.len(), iface_named(ifaces@, n@)) == Some(k as int),
        r is None ==> first_index(ifaces@.len(), iface_named(ifaces@, n@)) is None,
{
    let ghost p = iface_named(ifaces@, n@);
    let mut i: usize = 0;
    while i < ifaces.len()
        invariant
            i <= ifaces.len(),
            p == iface_named(ifaces@, n@),
            forall|k: int| 0 <= k < i ==> !#[trigger] p(k),
        decreases ifaces.len() - i,
    {
        if str_eq(ifaces[i].name.as_str(), n) {
            proof {
                lemma_first_index_found(ifaces@.len(), p, i as int);
            }
            return Some(i);
        }
        i = i + 1;
    }
    proof {
        lemma_first_index_none(ifaces@.len(), p);
    }
    None
}

/// The slots of the interface named `iname`, to connect a plug to.
pub fn interface_slots(ifaces: &Vec<InterfaceInfo>, iname: &str) -> (r: Vec<SlotRef>)
    ensures
        slot_refs_view(r@) == slots_for_interface(ifaces@, iname@),
{
    let mut r: Vec<SlotRef> = Vec::new();
    match find_interface(ifaces, iname) {
        Some(k) => {
            let slots = &ifaces[k].slots;
            let mut j: usize = 0;
            while j < slots.len()
                invariant
                    j <= slots@.len(),
                    slot_refs_view(r@) =~= slots@.take(j as int).map_values(
                        |s: SlotInfo| (text_or_empty(s.snap), s.slot@),
                    ),
                decreases slots.len() - j,
            {
                let ghost old_r = r@;
                let sr = SlotRef { snap: text_of_opt(&slots[j].snap), slot: slots[j].slot.clone() };
                r.push(sr);
                assert(slot_refs_view(r@) =~= slot_refs_view(old_r).push(sr@));
                assert(slots@.take(j + 1).map_values(|s: SlotInfo| (text_or_empty(s.snap), s.slot@))
                    =~= slots@.take(j as int).map_values(
                    |s: SlotInfo| (text_or_empty(s.snap), s.slot@),
                ).push((text_or_empty(slots@[j as int].snap), slots@[j as int].slot@)));
                j = j + 1;
            }
            assert(slots@.take(slots.len() as int) =~= slots@);
        },
        None => {},
    }
    r
}

/// The system slots of an interface.
fn system_slot_refs(slots: &Vec<SlotInfo>) -> (r: Vec<SlotRef>)
    ensures
        slot_refs_view(r@) == system_slots(slots@),
{
    let mut r: Vec<SlotRef> = Vec::new();
    let mut j: usize = 0;
    while j < slots.len()
        invariant
            j <= slots@.len(),
            slot_refs_view(r@) == system_slots(slots@.take(j as int)),
        decreases slots.len() - j,
    {
        let s = &slots[j];
        let system = match &s.snap {
            Some(n) => str_eq(n.as_str(), "snapd") || n.as_str().unicode_len() == 0,
            None => true,
        };
        assert(slots@.take(j + 1).drop_last() =~= slots@.take(j as int));
        if system {
            let ghost old_r = r@;
            let sr = SlotRef { snap: text_of_opt(&s.snap), slot: s.slot.clone() };
            r.push(sr);
            assert(slot_refs_view(r@) =~= slot_refs_view(old_r).push(sr@));
        }
        j = j + 1;
    }
    assert(slots@.take(slots.len() as int) =~= slots@);
    r
}

fn plug_has_connection(conns: &Vec<ConnectionInfo>, snap: &str, plug: &str) -> (r: bool)
    ensures
        r == plug_connected(conns@, snap@, plug@),
{
    let mut i: usize = 0;
    while i < conns.len()
        invariant
            i <= conns.len(),
            forall|k: int|
                0 <= k < i ==> !((#[trigger] conns@[k]).plug.snap@ == snap@ && conns@[k].plug.plug@
                    == plug@),
        decreases conns.len() - i,
    {
        if str_eq(conns[i].plug.snap.as_str(), snap) && str_eq(conns[i].plug.plug.as_str(), plug) {
            return true;
        }
        i = i + 1;
    }
    false
}

/// The connection prompts for the snap named `snap_name` after its install.
pub fn auto_connect_queue_for(
    ifaces: &Vec<InterfaceInfo>,
    conns: &Vec<ConnectionInfo>,
    snap_name: &str,
) -> (q: Vec<ConfirmPending>)
    ensures
        prompts_view(q@) == auto_connect_prompts(ifaces@, conns@, snap_name@),
{
    let ghost name = snap_name@;
    let mut q: Vec<ConfirmPending> = Vec::new();
    let mut i: usize = 0;
    while i < ifaces.len()
        invariant
            i <= ifaces.len(),
            name == snap_name@,
            prompts_view(q@) == auto_connect_prompts(ifaces@.take(i as int), conns@, name),
        decreases ifaces.len() - i,
    {
        let iface = &ifaces[i];
        let ghost before = prompts_view(q@);
        let sys = system_slot_refs(&iface.slots);
        let mut j: usize = 0;
        while j < iface.plugs.len()
            invariant
                j <= iface.plugs.len(),
                name == snap_name@,
                slot_refs_view(sys@) == system_slots(iface.slots@),
                prompts_view(q@) == before + plug_prompts(
                    *iface,
                    iface.plugs@.take(j as int),
                    conns@,
                    name,
                ),
            decreases iface.plugs.len() - j,
        {
            let p = &iface.plugs[j];
            assert(iface.plugs@.take(j + 1).drop_last() =~= iface.plugs@.take(j as int));
            if opt_str_eq(&p.snap, snap_name) && !plug_has_connection(
                conns,
                snap_name,
                p.plug.as_str(),
            ) && sys.len() == 1 {
                let ghost old_q = q@;
                let prompt = ConfirmPending::AutoConnect {
                    plug_snap: snap_name.to_owned(),
                    plug_name: p.plug.clone(),
                    interface_name: iface.name.clone(),
                    slot: sys[0].duplicate(),
                };
                let ghost pv = prompt@;
                q.push(prompt);
                assert(prompts_view(q@) =~= prompts_view(old_q).push(pv));
            }
            j = j + 1;
        }
        assert(iface.plugs@.take(iface.plugs.len() as int) =~= iface.plugs@);
        assert(ifaces@.take(i + 1).drop_last() =~= ifaces@.take(i as int));
        i = i + 1;
    }
    assert(ifaces@.take(ifaces.len() as int) =~= ifaces@);
    q
}

impl App {
    /// The rows of the connections pane for the snap named `snap_name`.
    pub fn connection_items_for_snap(&self, snap_name: &str) -> (items: Vec<ConnectionItem>)
        ensures
            items_view(items@) == connection_rows(
                self.snap_interfaces@,
                self.snap_connections@,
                snap_name@,
            ),
    {
        items_for_snap(&self.snap_interfaces, &self.snap_connections, snap_name)
    }

    /// The rows of the connections pane for the selected snap.
    pub fn connection_items(&self) -> (items: Vec<ConnectionItem>)
        ensures
            items_view(items@) == app_connection_rows(*self),
    {
        match self.selected_snap() {
            Some(snap) => self.connection_items_for_snap(snap.name.as_str()),
            None => Vec::new(),
        }
    }

    /// The row of the connections pane that the selection points at.
    pub fn selected_connection(&self) -> (r: Option<ConnectionItem>)
        ensures
            match r {
                Some(c) => selected_connection_row(*self) == Some(c@),
                None => selected_connection_row(*self) is None,
            },
    {
        let idx = match self.connections_state.selected() {
            Some(i) => i,
            None => return None,
        };
        let items = self.connection_items();
        if idx < items.len() {
            Some(items[idx].duplicate())
        } else {
            None
        }
    }

    pub fn connections_next(&mut self)
        ensures
            *final(self) == (App {
                connections_state: ListState {
                    selected: step_down(
                        old(self).connections_state.selected,
                        app_connection_rows(*old(self)).len(),
                    ),
                },
                ..*old(self)
            }),
    {
        let len = self.connection_items().len();
        let i = next_index(self.connections_state.selected(), len);
        self.connections_state.select(i);
    }

    pub fn connections_prev(&mut self)
        ensures
            *final(self) == (App {
                connections_state: ListState {
                    selected: step_up(
                        old(self).connections_state.selected,
                        app_connection_rows(*old(self)).len(),
                    ),
                },
                ..*old(self)
            }),
    {
        let len = self.connection_items().len();
        let i = prev_index(self.connections_state.selected(), len);
        self.connections_state.select(i);
    }

    pub fn connections_page_down(&mut self)
        ensures
            *final(self) == (App {
                connections_state: ListState {
                    selected: page_down_to(
                        old(self).connections_state.selected,
                        app_connection_rows(*old(self)).len(),
                    ),
                },
                ..*old(self)
            }),
    {
        let len = self.connection_items().len();
        let i = page_down_index(self.connections_state.selected(), len);
        self.connections_state.select(i);
    }

    pub fn connections_page_up(&mut self)
        ensures
            *final(self) == (App {
                connections_state: ListState {
                    selected: page_up_to(
                        old(self).connections_state.selected,
                        app_connection_rows(*old(self)).len(),
                    ),
                },
                ..*old(self)
            }),
    {
        let len = self.connection_items().len();
        let i = page_up_index(self.connections_state.selected(), len);
        self.connections_state.select(i);
    }

    /// Switches the keyboard between the actions and the connections pane;
    /// entering the pane with nothing selected selects its first row.
    pub fn toggle_connections_mode(&mut self)
        ensures
            *final(self) == (App {
                connections_mode: !old(self).connections_mode,
                connections_state: if !old(self).connections_mode
                    && old(self).connections_state.selected is None {
                    ListState {
                        selected: if app_connection_rows(*old(self)).len() > 0 {
                            Some(0)
                        } else {
                            None
                        },
                    }
                } else {
                    old(self).connections_state
                },
                ..*old(self)
            }),
    {
        self.connections_mode = !self.connections_mode;
        if self.connections_mode && self.connections_state.selected().is_none() {
            let n = self.connection_items().len();
            self.connections_state.select(
                if n > 0 {
                    Some(0)
                } else {
                    None
                },
            );
        }
    }

    pub fn close_connections_mode(&mut self)
        ensures
            *final(self) == (App { connections_mode: false, ..*old(self) }),
    {
        self.connections_mode = false;
    }

    /// Enter on a row of the connections pane: disconnects a connected
    /// row, connects the others.
    pub fn activate_selected_connection(&mut self) -> (step: ActionStep)
        ensures
            selected_connection_row(*old(self)) is None ==> *final(self) == *old(self) && step is Done,
            selected_connection_row(*old(self)) matches Some(c) && c.connected ==> disconnect_outcome(
                *old(self),
                *final(self),
                step,
            ),
            selected_connection_row(*old(self)) matches Some(c) && !c.connected ==> connect_outcome(
                *old(self),
                *final(self),
                step,
            ),
    {
        let item = match self.selected_connection() {
            Some(i) => i,
            None => return ActionStep::Done,
        };
        if item.connected {
            self.disconnect_selected()
        } else {
            self.connect_selected()
        }
    }

    /// Connects the selected plug: to its interface's only slot at once,
    /// or through the slot picker when there are several.
    pub fn connect_selected(&mut self) -> (step: ActionStep)
        ensures
            connect_outcome(*old(self), *final(self), step),
    {
        if self.active_change_id.is_some() {
            self.status_message = Some("Operation already in progress".to_owned());
            return ActionStep::Done;
        }
        let item = match self.selected_connection() {
            Some(i) => i,
            None => return ActionStep::Done,
        };
        if item.connected {
            self.status_message = Some("Connection already active".to_owned());
            return ActionStep::Done;
        }
        if !item.is_plug {
            self.error = Some("Select a plug to create a new connection".to_owned());
            return ActionStep::Done;
        }
        let available_slots = interface_slots(&self.snap_interfaces, item.interface_name.as_str());
        if available_slots.len() == 0 {
            let mut msg = "No available slots for interface '".to_owned();
            msg.append(item.interface_name.as_str());
            msg.append("'");
            self.error = Some(msg);
            return ActionStep::Done;
        }
        if available_slots.len() == 1 {
            let target = &available_slots[0];
            self.begin_request();
            ActionStep::Request(
                SnapdRequest::Connect {
                    plug_snap: item.plug_snap.clone(),
                    plug_name: item.plug_name.clone(),
                    slot_snap: target.snap.clone(),
                    slot_name: target.slot.clone(),
                },
            )
        } else {
            self.slot_picker_plug = Some(item);
            self.slot_picker_items = available_slots;
            self.slot_picker_state = ListState::with_selected(Some(0));
            self.mode = AppMode::SlotPicker;
            ActionStep::Done
        }
    }

    /// Disconnects the selected row.
    pub fn disconnect_selected(&mut self) -> (step: ActionStep)
        ensures
            disconnect_outcome(*old(self), *final(self), step),
    {
        if self.active_change_id.is_some() {
            self.status_message = Some("Operation already in progress".to_owned());
            return ActionStep::Done;
        }
        let item = match self.selected_connection() {
            Some(i) => i,
            None => return ActionStep::Done,
        };
        if !item.connected {
            self.status_message = Some("Connection already disconnected".to_owned());
            return ActionStep::Done;
        }
        self.begin_request();
        ActionStep::Request(
            SnapdRequest::Disconnect {
                plug_snap: item.plug_snap,
                plug_name: item.plug_name,
                slot_snap: item.slot_snap,
                slot_name: item.slot_name,
            },
        )
    }

    pub fn slot_picker_next(&mut self)
        ensures
            *final(self) == (App {
                slot_picker_state: ListState {
                    selected: wrap_down(
                        old(self).slot_picker_state.selected,
                        old(self).slot_picker_items@.len(),
                    ),
                },
                ..*old(self)
            }),
    {
        let i = wrap_next_index(self.slot_picker_state.selected(), self.slot_picker_items.len());
        self.slot_picker_state.select(i);
    }

    pub fn slot_picker_prev(&mut self)
        ensures
            *final(self) == (App {
                slot_picker_state: ListState {
                    selected: wrap_up(
                        old(self).slot_picker_state.selected,
                        old(self).slot_picker_items@.len(),
                    ),
                },
                ..*old(self)
            }),
    {
        let i = wrap_prev_index(self.slot_picker_state.selected(), self.slot_picker_items.len());
        self.slot_picker_state.select(i);
    }

    pub fn close_slot_picker(&mut self)
        ensures
            final(self).slot_picker_items@.len() == 0,
            *final(self) == (App {
                mode: AppMode::Manage,
                slot_picker_plug: None,
                slot_picker_items: final(self).slot_picker_items,
                slot_picker_state: ListState { selected: None },
                ..*old(self)
            }),
    {
        self.mode = AppMode::Manage;
        self.slot_picker_plug = None;
        self.slot_picker_items.clear();
        self.slot_picker_state = ListState::new();
    }

    /// Connects the plug of the slot picker to the selected slot.
    pub fn confirm_slot_pick(&mut self) -> (step: ActionStep)
        ensures
            ({
                let o = *old(self);
                match o.slot_picker_state.selected {
                    Some(i) => if i < o.slot_picker_items@.len() && o.slot_picker_plug is Some {
                        let plug = o.slot_picker_plug.unwrap();
                        let target = o.slot_picker_items@[i as int];
                        (step matches ActionStep::Request(
                            SnapdRequest::Connect { plug_snap, plug_name, slot_snap, slot_name },
                        ) && plug_snap == plug.plug_snap && plug_name == plug.plug_name
                            && slot_snap == target.snap && slot_name == target.slot)
                            && final(self).slot_picker_items@.len() == 0 && *final(self) == (App {
                            slot_picker_plug: None,
                            slot_picker_items: final(self).slot_picker_items,
                            slot_picker_state: ListState { selected: None },
                            mode: AppMode::Manage,
                            loading: true,
                            error: None,
                            status_message: None,
                            ..o
                        })
                    } else {
                        step is Done && *final(self) == o
                    },
                    None => step is Done && *final(self) == o,
                }
            }),
    {
        let idx = match self.slot_picker_state.selected() {
            Some(i) => i,
            None => return ActionStep::Done,
        };
        if idx >= self.slot_picker_items.len() {
            return ActionStep::Done;
        }
        let target = self.slot_picker_items[idx].duplicate();
        let plug = match self.slot_picker_plug.take() {
            Some(p) => p,
            None => return ActionStep::Done,
        };
        self.slot_picker_items.clear();
        self.slot_picker_state = ListState::new();
        self.mode = AppMode::Manage;
        self.begin_request();
        ActionStep::Request(
            SnapdRequest::Connect {
                plug_snap: plug.plug_snap,
                plug_name: plug.plug_name,
                slot_snap: target.snap,
                slot_name: target.slot,
            },
        )
    }

    /// Takes in the interfaces and connections of the snap named
    /// `snap_name`: a failed answer counts as none; the first row of the
    /// connections pane is selected when there is one.
    pub fn load_snap_interfaces(
        &mut self,
        snap_name: &str,
        interfaces: Result<Vec<InterfaceInfo>, SnapdError>,
        connections: Result<Vec<ConnectionInfo>, SnapdError>,
    )
        ensures
            final(self).snap_interfaces@ == match interfaces {
                Ok(v) => v@,
                Err(_) => Seq::empty(),
            },
            final(self).snap_connections@ == match connections {
                Ok(v) => v@,
                Err(_) => Seq::empty(),
            },
            *final(self) == (App {
                snap_interfaces: final(self).snap_interfaces,
                snap_connections: final(self).snap_connections,
                interfaces_loading: false,
                connections_state: ListState {
                    selected: if connection_rows(
                        final(self).snap_interfaces@,
                        final(self).snap_connections@,
                        snap_name@,
                    ).len() > 0 {
                        Some(0)
                    } else {
                        None
                    },
                },
                ..*old(self)
            }),
    {
        self.snap_interfaces = match interfaces {
            Ok(v) => v,
            Err(_) => Vec::new(),
        };
        self.snap_connections = match connections {
            Ok(v) => v,
            Err(_) => Vec::new(),
        };
        let n = self.connection_items_for_snap(snap_name).len();
        self.connections_state = ListState::with_selected(
            if n > 0 {
                Some(0)
            } else {
                None
            },
        );
        self.interfaces_loading = false;
    }

    /// After an install: queues a prompt for each unconnected plug of the
    /// snap whose interface has exactly one system slot, and shows the
    /// first. Nothing changes when the interfaces could not be listed; a
    /// failed list of connections counts as none.
    pub fn queue_auto_connect_prompts(
        &mut self,
        snap_name: &str,
        interfaces: Result<Vec<InterfaceInfo>, SnapdError>,
        connections: Result<Vec<ConnectionInfo>, SnapdError>,
    )
        ensures
            match interfaces {
                Err(_) => *final(self) == *old(self),
                Ok(ifaces) => {
                    let conns = match connections {
                        Ok(c) => c@,
                        Err(_) => Seq::empty(),
                    };
                    exists|q: Seq<ConfirmPending>|
                        #![trigger prompts_view(q)]
                        prompts_view(q) == auto_connect_prompts(ifaces@, conns, snap_name@)
                            && prompt_shown(*old(self), q, *final(self))
                },
            },
    {
        let ifaces = match interfaces {
            Ok(i) => i,
            Err(_) => return,
        };
        let conns = match connections {
            Ok(c) => c,
            Err(_) => Vec::new(),
        };
        self.auto_connect_queue = auto_connect_queue_for(&ifaces, &conns, snap_name);
        let ghost queued = self.auto_connect_queue@;
        self.pop_auto_connect_prompt();
        assert(prompts_view(queued) == auto_connect_prompts(
            ifaces@,
            conns@,
            snap_name@,
        ));
    }

    /// Takes the first queued connection prompt off the queue and shows it,
    /// unless a question is already showing.
    pub fn pop_auto_connect_prompt(&mut self)
        ensures
            prompt_shown(*old(self), old(self).auto_connect_queue@, *final(self)),
    {
        if self.confirm_pending.is_some() || self.mode == AppMode::Confirm {
            return;
        }
        if self.auto_connect_queue.len() == 0 {
            return;
        }
        let pending = self.auto_connect_queue.remove(0);
        self.confirm_message = Some(pending.message());
        self.confirm_pending = Some(pending);
        self.confirm_hovered = Some(false);
        self.mode = AppMode::Confirm;
    }
}

/// What `connect_selected` does to the state `o`, giving `f` and `step`.
pub open spec fn connect_outcome(o: App, f: App, step: ActionStep) -> bool {
    let sel = selected_connection_row(o);
    let slots = slots_for_interface(
        o.snap_interfaces@,
        sel.unwrap().interface_name,
    );
    if o.active_change_id is Some {
        step is Done && is_named(f.status_message, "Operation already in progress"@)
            && f == (App {
            status_message: f.status_message,
            ..o
        })
    } else if sel is None {
        step is Done && f == o
    } else if sel.unwrap().connected {
        step is Done && is_named(f.status_message, "Connection already active"@)
            && f == (App {
            status_message: f.status_message,
            ..o
        })
    } else if !sel.unwrap().is_plug {
        step is Done && is_named(
            f.error,
            "Select a plug to create a new connection"@,
        ) && f == (App { error: f.error, ..o })
    } else if slots.len() == 0 {
        step is Done && is_named(
            f.error,
            "No available slots for interface '"@ + sel.unwrap().interface_name + "'"@,
        ) && f == (App { error: f.error, ..o })
    } else if slots.len() == 1 {
        (step matches ActionStep::Request(
            SnapdRequest::Connect { plug_snap, plug_name, slot_snap, slot_name },
        ) && plug_snap@ == sel.unwrap().plug_snap && plug_name@ == sel.unwrap().plug_name
            && slot_snap@ == slots[0].0 && slot_name@ == slots[0].1) && f == (
        App { loading: true, error: None, status_message: None, ..o })
    } else {
        step is Done && (f.slot_picker_plug matches Some(p) && p@
            == sel.unwrap()) && slot_refs_view(f.slot_picker_items@) == slots
            && f == (App {
            slot_picker_plug: f.slot_picker_plug,
            slot_picker_items: f.slot_picker_items,
            slot_picker_state: ListState { selected: Some(0) },
            mode: AppMode::SlotPicker,
            ..o
        })
    }
}

/// What `disconnect_selected` does to the state `o`, giving `f` and `step`.
pub open spec fn disconnect_outcome(o: App, f: App, step: ActionStep) -> bool {
    let sel = selected_connection_row(o);
    if o.active_change_id is Some {
        step is Done && is_named(f.status_message, "Operation already in progress"@)
            && f == (App {
            status_message: f.status_message,
            ..o
        })
    } else if sel is None {
        step is Done && f == o
    } else if !sel.unwrap().connected {
        step is Done && is_named(
            f.status_message,
            "Connection already disconnected"@,
        ) && f == (App {
            status_message: f.status_message,
            ..o
        })
    } else {
        (step matches ActionStep::Request(
            SnapdRequest::Disconnect { plug_snap, plug_name, slot_snap, slot_name },
        ) && plug_snap@ == sel.unwrap().plug_snap && plug_name@ == sel.unwrap().plug_name
            && slot_snap@ == sel.unwrap().slot_snap && slot_name@
            == sel.unwrap().slot_name) && f == (App {
            loading: true,
            error: None,
            status_message: None,
            ..o
        })
    }
}

/// `after` is `before` with the prompt queue `queue` in place of its own
/// and its first prompt taken off the queue and shown, when no question
/// was showing and the queue was not empty; otherwise `after` is `before`
/// with the queue `queue`.
pub open spec fn prompt_shown(before: App, queue: Seq<ConfirmPending>, after: App) -> bool {
    if before.confirm_pending is Some || before.mode == AppMode::Confirm || queue.len() == 0 {
        &&& after.auto_connect_queue@ == queue
        &&& after == App { auto_connect_queue: after.auto_connect_queue, ..before }
    } else {
        let first = queue[0];
        &&& after.auto_connect_queue@ == queue.drop_first()
        &&& is_named(after.confirm_message, prompt_message(first@))
        &&& after == App {
            auto_connect_queue: after.auto_connect_queue,
            confirm_message: after.confirm_message,
            confirm_pending: Some(first),
            confirm_hovered: Some(false),
            mode: AppMode::Confirm,
            ..before
        }
    }
}

} // verus!
