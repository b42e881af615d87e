//! The channel picker: the channels a snap offers, in channel order, and
//! running a channel action on the one picked or typed.
use vstd::prelude::*;
use crate::actions::execute_outcome;
use crate::app::{App, AppMode, ManageAction};
use crate::browse::selected_row;
use crate::model::{ChannelInfo, SnapdError, empty_channel_info};
use crate::nav::{ListState, next_index, prev_index, step_down, step_up};
use crate::order::{
    KeyPart, SortField, key_view, keys_view, lemma_sorted_positions_len, sort_positions,
    sorted_positions,
};
use crate::requests::{ActionStep, StepView};
use crate::text::{chars_of, str_eq, string_of, trim, trim_spec};

verus! {

/// The position of the first '/' in `s` at or after `from`, if any.
pub open spec fn slash_from(s: Seq<char>, from: int) -> Option<int>
    decreases s.len() - from,
{
    if from < 0 || from >= s.len() {
        None
    } else if s[from] == '/' {
        Some(from)
    } else {
        slash_from(s, from + 1)
    }
}

/// The track, risk and branch of a channel name `track/risk/branch`. A name
/// without '/' is a risk on the `latest` track; with one '/', the branch is
/// empty; after the second '/' everything is the branch.
pub open spec fn channel_parts(c: Seq<char>) -> (Seq<char>, Seq<char>, Seq<char>) {
    match slash_from(c, 0) {
        None => ("latest"@, c, seq![]),
        Some(i) => match slash_from(c, i + 1) {
            None => (c.take(i), c.skip(i + 1), seq![]),
            Some(j) => (c.take(i), c.subrange(i + 1, j), c.skip(j + 1)),
        },
    }
}

/// `latest` ranks first among tracks.
pub open spec fn track_rank(track: Seq<char>) -> nat {
    if track == "latest"@ {
        0
    } else {
        1
    }
}

/// Risks rank stable, candidate, beta, edge, then anything else.
pub open spec fn risk_rank(risk: Seq<char>) -> nat {
    if risk == "stable"@ {
        0
    } else if risk == "candidate"@ {
        1
    } else if risk == "beta"@ {
        2
    } else if risk == "edge"@ {
        3
    } else {
        4
    }
}

/// The order of channels: track rank, track, risk rank, branch.
pub open spec fn channel_key(c: Seq<char>) -> Seq<SortField> {
    let (track, risk, branch) = channel_parts(c);
    seq![
        SortField::Rank(track_rank(track)),
        SortField::Text(track),
        SortField::Rank(risk_rank(risk)),
        SortField::Text(branch),
    ]
}

pub open spec fn channel_keys(chans: Seq<(String, ChannelInfo)>) -> Seq<Seq<SortField>> {
    chans.map_values(|c: (String, ChannelInfo)| channel_key(c.0@))
}

/// The channels of the picker: the store's channels in channel order (a
/// stable sort), then the entry for typing a channel (empty name, nothing
/// known).
pub open spec fn picker_channels_ok(
    chans: Seq<(String, ChannelInfo)>,
    shown: Seq<(String, ChannelInfo)>,
) -> bool {
    let order = sorted_positions(channel_keys(chans));
    &&& shown.len() == chans.len() + 1
    &&& forall|k: int| 0 <= k < chans.len() ==> #[trigger] shown[k] == chans[order[k] as int]
    &&& shown.last().0@.len() == 0
    &&& shown.last().1.revision is None
    &&& shown.last().1.confinement is None
    &&& shown.last().1.version is None
    &&& shown.last().1.channel is None
    &&& shown.last().1.size is None
    &&& shown.last().1.released_at is None
}

/// What `open_channel_picker` does to `o` for `action`, giving `f` and
/// `step`.
pub open spec fn picker_opened(o: App, f: App, step: ActionStep, action: ManageAction) -> bool {
    match selected_row(o) {
        None => step@ == StepView::Done && f == o,
        Some(d) => {
            &&& step@ == StepView::FindChannels(d.name@)
            &&& f.channel_input@.len() == 0
            &&& f == App {
                loading: true,
                error: None,
                channel_input: f.channel_input,
                pending_channel_action: Some(action),
                ..o
            }
        },
    }
}

fn find_slash(s: &Vec<char>, from: usize) -> (r: Option<usize>)
    requires
        from <= s.len(),
    ensures
        r matches Some(i) ==> slash_from(s@, from as int) == Some(i as int) && from <= i < s.len(),
        r is None ==> slash_from(s@, from as int) is None,
{
    let mut i = from;
    while i < s.len()
        invariant
            from <= i <= s.len(),
            slash_from(s@, from as int) == slash_from(s@, i as int),
        decreases s.len() - i,
    {
        if s[i] == '/' {
            return Some(i);
        }
        i = i + 1;
    }
    None
}

/// The sort key of a channel name: (track rank, track, risk rank, branch).
pub fn channel_sort_key(channel: &str) -> (k: (u8, String, u8, String))
    ensures
        ({
            let (track, risk, branch) = channel_parts(channel@);
            &&& k.0 as nat == track_rank(track)
            &&& k.1@ == track
            &&& k.2 as nat == risk_rank(risk)
            &&& k.3@ == branch
        }),
{
    let c = chars_of(channel);
    let (track, risk, branch) = match find_slash(&c, 0) {
        None => ("latest".to_owned(), string_of(&c, 0, c.len()), String::new()),
        Some(i) => match find_slash(&c, i + 1) {
            None => (string_of(&c, 0, i), string_of(&c, i + 1, c.len()), String::new()),
            Some(j) => (string_of(&c, 0, i), string_of(&c, i + 1, j), string_of(&c, j + 1, c.len())),
        },
    };
    proof {
        assert(c@.subrange(0, c@.len() as int) =~= c@);
        assert(forall|i: int| 0 <= i <= c@.len() ==> c@.subrange(0, i) =~= c@.take(i));
        assert(forall|i: int| 0 <= i <= c@.len() ==> c@.subrange(i, c@.len() as int) =~= c@.skip(i));
    }
    let track_rank: u8 = if str_eq(track.as_str(), "latest") {
        0
    } else {
        1
    };
    let risk_rank: u8 = if str_eq(risk.as_str(), "stable") {
        0
    } else if str_eq(risk.as_str(), "candidate") {
        1
    } else if str_eq(risk.as_str(), "beta") {
        2
    } else if str_eq(risk.as_str(), "edge") {
        3
    } else {
        4
    };
    (track_rank, track, risk_rank, branch)
}

fn channel_key_exec(channel: &String) -> (k: Vec<KeyPart>)
    ensures
        key_view(k@) == channel_key(channel@),
{
    let (t, track, r, branch) = channel_sort_key(channel.as_str());
    let mut k: Vec<KeyPart> = Vec::new();
    k.push(KeyPart::Rank(t as u64));
    k.push(KeyPart::Text(chars_of(track.as_str())));
    k.push(KeyPart::Rank(r as u64));
    k.push(KeyPart::Text(chars_of(branch.as_str())));
    assert(key_view(k@) =~= channel_key(channel@));
    k
}

/// The channels in channel order (a stable sort by `channel_sort_key`),
/// then the entry for typing a channel.
pub fn picker_channel_list(chans: Vec<(String, ChannelInfo)>) -> (shown: Vec<(String, ChannelInfo)>)
    ensures
        picker_channels_ok(chans@, shown@),
{
    let mut keys: Vec<Vec<KeyPart>> = Vec::new();
    let mut i: usize = 0;
    while i < chans.len()
        invariant
            i <= chans.len(),
            keys@.len() == i,
            forall|m: int| 0 <= m < i ==> key_view(#[trigger] keys@[m]@) == channel_key(chans@[m].0@),
        decreases chans.len() - i,
    {
        keys.push(channel_key_exec(&chans[i].0));
        i = i + 1;
    }
    assert(keys_view(keys@) =~= channel_keys(chans@));
    let order = sort_positions(&keys);
    proof {
        lemma_sorted_positions_len(keys_view(keys@));
    }
    let mut shown: Vec<(String, ChannelInfo)> = Vec::new();
    let mut j: usize = 0;
    while j < order.len()
        invariant
            order@ == sorted_positions(channel_keys(chans@)),
            order@.len() == chans@.len(),
            forall|m: int| 0 <= m < order@.len() ==> (#[trigger] order@[m] as int) < chans@.len(),
            j <= order.len(),
            shown@.len() == j,
            forall|k: int| 0 <= k < j ==> #[trigger] shown@[k] == chans@[order@[k] as int],
        decreases order.len() - j,
    {
        let p = order[j];
        let entry = (chans[p].0.clone(), chans[p].1.duplicate());
        shown.push(entry);
        j = j + 1;
    }
    shown.push((String::new(), empty_channel_info()));
    shown
}

impl App {
    pub fn channel_picker_next(&mut self)
        ensures
            *final(self) == (App {
                channel_picker_state: ListState {
                    selected: step_down(
                        old(self).channel_picker_state.selected,
                        old(self).available_channels@.len(),
                    ),
                },
                ..*old(self)
            }),
    {
        let i = next_index(self.channel_picker_state.selected(), self.available_channels.len());
        self.channel_picker_state.select(i);
    }

    pub fn channel_picker_prev(&mut self)
        ensures
            *final(self) == (App {
                channel_picker_state: ListState {
                    selected: step_up(
                        old(self).channel_picker_state.selected,
                        old(self).available_channels@.len(),
                    ),
                },
                ..*old(self)
            }),
    {
        let i = prev_index(self.channel_picker_state.selected(), self.available_channels.len());
        self.channel_picker_state.select(i);
    }

    /// Closes the channel picker and forgets the action that waited for a
    /// channel.
    pub fn close_channel_picker(&mut self)
        ensures
            final(self).available_channels@.len() == 0,
            final(self).channel_input@.len() == 0,
            *final(self) == (App {
                mode: AppMode::Manage,
                available_channels: final(self).available_channels,
                channel_picker_state: ListState { selected: None },
                channel_input: final(self).channel_input,
                pending_channel_action: None,
                ..*old(self)
            }),
    {
        self.mode = AppMode::Manage;
        self.available_channels.clear();
        self.channel_picker_state = ListState::new();
        self.channel_input = String::new();
        self.pending_channel_action = None;
    }

    /// Starts choosing a channel for `action` on the selected snap: asks for
    /// the snap's store entry.
    pub fn open_channel_picker(&mut self, action: ManageAction) -> (step: ActionStep)
        ensures
            picker_opened(*old(self), *final(self), step, action),
    {
        let name = match self.selected_snap() {
            Some(snap) => snap.name,
            None => return ActionStep::Done,
        };
        self.loading = true;
        self.error = None;
        self.channel_input = String::new();
        self.pending_channel_action = Some(action);
        ActionStep::FindChannels(name)
    }

    /// Takes in the channels of the store entry (none when the store has no
    /// such snap): the picker opens on them in channel order, with the
    /// entry for typing a channel last and the first row selected. A failed
    /// lookup shows the error and forgets the action.
    pub fn finish_open_channel_picker(
        &mut self,
        result: Result<Option<Vec<(String, ChannelInfo)>>, SnapdError>,
    )
        ensures
            match result {
                Ok(found) => {
                    &&& picker_channels_ok(
                        match found {
                            Some(v) => v@,
                            None => Seq::empty(),
                        },
                        final(self).available_channels@,
                    )
                    &&& *final(self) == (App {
                        available_channels: final(self).available_channels,
                        channel_picker_state: ListState { selected: Some(0) },
                        mode: AppMode::ChannelPicker,
                        loading: false,
                        ..*old(self)
                    })
                },
                Err(e) => *final(self) == (App {
                    pending_channel_action: None,
                    error: Some(e.message_of()),
                    loading: false,
                    ..*old(self)
                }),
            },
    {
        match result {
            Ok(found) => {
                let chans = match found {
                    Some(v) => v,
                    None => Vec::new(),
                };
                self.available_channels = picker_channel_list(chans);
                self.channel_picker_state = ListState::with_selected(Some(0));
                self.mode = AppMode::ChannelPicker;
            },
            Err(e) => {
                self.pending_channel_action = None;
                self.error = Some(e.message());
            },
        }
        self.loading = false;
    }

    /// Switches to typing a channel.
    pub fn open_custom_channel_input(&mut self)
        ensures
            final(self).channel_input@.len() == 0,
            *final(self) == (App {
                channel_input: final(self).channel_input,
                mode: AppMode::ChannelInput,
                ..*old(self)
            }),
    {
        self.channel_input = String::new();
        self.mode = AppMode::ChannelInput;
    }

    /// Leaves typing a channel: back to the picker, or to the manage panel
    /// (forgetting the action) when the picker has no channels.
    pub fn close_channel_input(&mut self)
        ensures
            final(self).channel_input@.len() == 0,
            *final(self) == if old(self).available_channels@.len() == 0 {
                App {
                    channel_input: final(self).channel_input,
                    mode: AppMode::Manage,
                    pending_channel_action: None,
                    ..*old(self)
                }
            } else {
                App {
                    channel_input: final(self).channel_input,
                    mode: AppMode::ChannelPicker,
                    ..*old(self)
                }
            },
    {
        self.channel_input = String::new();
        if self.available_channels.len() == 0 {
            self.mode = AppMode::Manage;
            self.pending_channel_action = None;
        } else {
            self.mode = AppMode::ChannelPicker;
        }
    }

    /// Runs the waiting action on the picked channel; the typing entry
    /// switches to typing a channel instead.
    pub fn confirm_channel_pick(&mut self) -> (step: ActionStep)
        ensures
            ({
                let o = *old(self);
                let f = *final(self);
                match o.channel_picker_state.selected {
                    Some(i) => if i < o.available_channels@.len() {
                        let channel = o.available_channels@[i as int].0;
                        if channel@.len() == 0 {
                            step@ == StepView::Done && f.channel_input@.len() == 0 && f == App {
                                channel_input: f.channel_input,
                                mode: AppMode::ChannelInput,
                                ..o
                            }
                        } else {
                            match (selected_row(o), o.pending_channel_action) {
                                (Some(d), Some(a)) => {
                                    let closed = App {
                                        mode: AppMode::Manage,
                                        available_channels: f.available_channels,
                                        channel_picker_state: ListState { selected: None },
                                        pending_channel_action: None,
                                        ..o
                                    };
                                    &&& f.available_channels@.len() == 0
                                    &&& execute_outcome(closed, f, step, d.name@, a, Some(channel@))
                                },
                                (Some(d), None) => step@ == StepView::Done && f == o,
                                (None, _) => step@ == StepView::Done && f == o,
                            }
                        }
                    } else {
                        step@ == StepView::Done && f == o
                    },
                    None => step@ == StepView::Done && f == o,
                }
            }),
    {
        let idx = match self.channel_picker_state.selected() {
            Some(i) => i,
            None => return ActionStep::Done,
        };
        if idx >= self.available_channels.len() {
            return ActionStep::Done;
        }
        let channel = self.available_channels[idx].0.clone();
        if channel.as_str().unicode_len() == 0 {
            self.open_custom_channel_input();
            return ActionStep::Done;
        }
        let name = match self.selected_snap() {
            Some(s) => s.name,
            None => return ActionStep::Done,
        };
        let action = match self.pending_channel_action.take() {
            Some(a) => a,
            None => return ActionStep::Done,
        };
        self.mode = AppMode::Manage;
        self.available_channels.clear();
        self.channel_picker_state = ListState::new();
        self.execute_action(name, action, Some(channel))
    }

    /// Runs the waiting action on the typed channel (trimmed; none when
    /// empty).
    pub fn execute_channel_action(&mut self) -> (step: ActionStep)
        ensures
            ({
                let o = *old(self);
                let f = *final(self);
                let typed = trim_spec(o.channel_input@);
                match (selected_row(o), o.pending_channel_action) {
                    (Some(d), Some(a)) => {
                        let closed = App {
                            mode: AppMode::Manage,
                            available_channels: f.available_channels,
                            channel_picker_state: ListState { selected: None },
                            channel_input: f.channel_input,
                            pending_channel_action: None,
                            ..o
                        };
                        &&& f.available_channels@.len() == 0
                        &&& f.channel_input@.len() == 0
                        &&& execute_outcome(
                            closed,
                            f,
                            step,
                            d.name@,
                            a,
                            if typed.len() == 0 {
                                None
                            } else {
                                Some(typed)
                            },
                        )
                    },
                    (Some(d), None) => step@ == StepView::Done && f == o,
                    (None, _) => step@ == StepView::Done && f == o,
                }
            }),
    {
        let name = match self.selected_snap() {
            Some(s) => s.name,
            None => return ActionStep::Done,
        };
        let action = match self.pending_channel_action.take() {
            Some(a) => a,
            None => return ActionStep::Done,
        };
        let channel = trim(self.channel_input.as_str());
        let channel_opt = if channel.as_str().unicode_len() == 0 {
            None
        } else {
            Some(channel)
        };
        self.mode = AppMode::Manage;
        self.available_channels.clear();
        self.channel_picker_state = ListState::new();
        self.channel_input = String::new();
        self.execute_action(name, action, channel_opt)
    }
}

} // verus!
