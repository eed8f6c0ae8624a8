//! Plot group bookkeeping of the mixed FAST/NORMAL scope: which configuration
//! generation a telemetry frame belongs to, and which generations are retired.

use std::collections::VecDeque;

use vstd::prelude::*;

use crate::plot_capabilities::{DevicePlotCapabilities, DevicePlotChannel};
use crate::schema::{HostSchema, ParameterMetadata};
use crate::stream::{samples_covering, StreamError, StreamState, TimeSpan, NANOS_PER_SECOND};
use crate::text::same_text;
use crate::wire::canfd::CanFdFrame;
use crate::protocol::{
    decode_fast_data, FastDataFrame, NormalDataFrame, SequenceTracker, StreamDecodeError, PLOT_FAST_MASK,
    PLOT_GROUP_FAST, PLOT_GROUP_NORMAL, PLOT_NORMAL_MASK,
};

verus! {

/// Which Plot group a channel is streamed in.
#[derive(Debug, Clone, Copy, PartialEq, Eq, Structural)]
pub enum ScopeRate {
    Fast,
    Normal,
}

/// One channel a view wants to see, at one rate.
#[derive(Debug, Clone, Copy, PartialEq, Eq, Structural)]
pub struct ScopeSelection {
    pub id: u16,
    pub rate: ScopeRate,
}

/// How many retired configuration generations are remembered per group.
pub const RETIRED_CONFIG_HISTORY: usize = 16;

/// `s` without any occurrence of `id`, in order.
pub open spec fn without(s: Seq<u8>, id: u8) -> Seq<u8>
    decreases s.len(),
{
    if s.len() == 0 {
        s
    } else if s.last() == id {
        without(s.drop_last(), id)
    } else {
        without(s.drop_last(), id).push(s.last())
    }
}

/// The newest `n` entries of `s`.
pub open spec fn newest(s: Seq<u8>, n: nat) -> Seq<u8> {
    if s.len() > n {
        s.subrange(s.len() - n, s.len() as int)
    } else {
        s
    }
}

/// The retired list after retiring `id`: moved to the newest end, oldest
/// entries dropped beyond the bound.
pub open spec fn retired_after(s: Seq<u8>, id: u8) -> Seq<u8> {
    newest(without(s, id).push(id), RETIRED_CONFIG_HISTORY as nat)
}

proof fn lemma_without_members(s: Seq<u8>, id: u8)
    ensures
        forall|x: u8| #[trigger] without(s, id).contains(x) <==> (s.contains(x) && x != id),
        s.no_duplicates() ==> without(s, id).no_duplicates(),
        without(s, id).len() <= s.len(),
    decreases s.len(),
{
    if s.len() > 0 {
        let prefix = s.drop_last();
        lemma_without_members(prefix, id);
        assert(s == prefix.push(s.last()));
        let w = without(prefix, id);
        assert forall|x: u8| #[trigger] without(s, id).contains(x) <==> (s.contains(x) && x != id) by {
            if s.contains(x) && x != id {
                let k = choose|k: int| 0 <= k < s.len() && s[k] == x;
                if k < s.len() - 1 {
                    assert(prefix[k] == x);
                    assert(prefix.contains(x));
                    assert(w.contains(x));
                    let j = choose|j: int| 0 <= j < w.len() && w[j] == x;
                    if s.last() != id {
                        assert(w.push(s.last())[j] == x);
                    }
                } else {
                    assert(without(s, id).last() == x);
                }
            }
            if without(s, id).contains(x) {
                let k = choose|k: int| 0 <= k < without(s, id).len() && without(s, id)[k] == x;
                if s.last() != id && k == without(s, id).len() - 1 {
                    assert(s[s.len() - 1] == x);
                } else {
                    assert(w[k] == x);
                    assert(w.contains(x));
                    assert(prefix.contains(x));
                    let j = choose|j: int| 0 <= j < prefix.len() && prefix[j] == x;
                    assert(s[j] == x);
                }
            }
        }
        if s.no_duplicates() {
            assert(prefix.no_duplicates()) by {
                assert forall|i: int, j: int| 0 <= i < prefix.len() && 0 <= j < prefix.len() && i != j implies prefix[i]
                    != prefix[j] by {
                    assert(prefix[i] == s[i] && prefix[j] == s[j]);
                }
            }
            if s.last() != id {
                assert(!prefix.contains(s.last())) by {
                    if prefix.contains(s.last()) {
                        let j = choose|j: int| 0 <= j < prefix.len() && prefix[j] == s.last();
                        assert(s[j] == s[s.len() - 1]);
                    }
                }
                assert(!w.contains(s.last()));
                assert forall|i: int, j: int| 0 <= i < w.push(s.last()).len() && 0 <= j < w.push(s.last()).len() && i
                    != j implies w.push(s.last())[i] != w.push(s.last())[j] by {
                    if i < w.len() && j < w.len() {
                    } else if i < w.len() {
                        assert(w.contains(w[i]));
                    } else {
                        assert(w.contains(w[j]));
                    }
                }
            }
        }
    }
}

proof fn lemma_retired_after_unique(s: Seq<u8>, id: u8)
    requires
        s.no_duplicates(),
    ensures
        retired_after(s, id).no_duplicates(),
        retired_after(s, id).len() <= RETIRED_CONFIG_HISTORY,
        retired_after(s, id).contains(id),
        retired_after(s, id).last() == id,
{
    lemma_without_members(s, id);
    let w = without(s, id);
    let p = w.push(id);
    assert(p.no_duplicates()) by {
        assert forall|i: int, j: int| 0 <= i < p.len() && 0 <= j < p.len() && i != j implies p[i] != p[j] by {
            if i < w.len() && j < w.len() {
            } else if i < w.len() {
                assert(w.contains(w[i]));
            } else {
                assert(w.contains(w[j]));
            }
        }
    }
    let r = retired_after(s, id);
    assert(r.last() == id);
    assert(r.contains(id)) by {
        assert(r[r.len() - 1] == id);
    }
    assert(r.no_duplicates()) by {
        if p.len() > RETIRED_CONFIG_HISTORY {
            let off = p.len() - RETIRED_CONFIG_HISTORY;
            assert forall|i: int, j: int| 0 <= i < r.len() && 0 <= j < r.len() && i != j implies r[i] != r[j] by {
                assert(r[i] == p[i + off] && r[j] == p[j + off]);
            }
        }
    }
}

/// Moves `config_id` to the newest end of the retired list and keeps only the
/// newest `RETIRED_CONFIG_HISTORY` entries.
pub fn retire_config_id(retired: &mut VecDeque<u8>, config_id: u8)
    ensures
        final(retired)@ == retired_after(old(retired)@, config_id),
        old(retired)@.no_duplicates() ==> final(retired)@.no_duplicates(),
        final(retired)@.len() <= RETIRED_CONFIG_HISTORY,
        final(retired)@.last() == config_id,
{
    let mut kept: VecDeque<u8> = VecDeque::new();
    let mut i: usize = 0;
    while i < retired.len()
        invariant
            i <= retired@.len(),
            retired@ == old(retired)@,
            kept@ == without(retired@.take(i as int), config_id),
        decreases retired@.len() - i,
    {
        let x = retired[i];
        assert(retired@.take(i as int + 1).drop_last() == retired@.take(i as int));
        if x != config_id {
            kept.push_back(x);
        }
        i = i + 1;
    }
    assert(retired@.take(retired@.len() as int) == retired@);
    kept.push_back(config_id);
    while kept.len() > RETIRED_CONFIG_HISTORY
        invariant
            newest(kept@, RETIRED_CONFIG_HISTORY as nat) == retired_after(old(retired)@, config_id),
        decreases kept@.len(),
    {
        let ghost before = kept@;
        let _ = kept.pop_front();
        assert(newest(kept@, RETIRED_CONFIG_HISTORY as nat) == newest(before, RETIRED_CONFIG_HISTORY as nat));
    }
    *retired = kept;
    proof {
        let p = without(old(retired)@, config_id).push(config_id);
        assert(p.last() == config_id);
        if p.len() > RETIRED_CONFIG_HISTORY {
            assert(retired_after(old(retired)@, config_id).last() == p.last());
        }
        lemma_without_members(old(retired)@, config_id);
        if old(retired)@.no_duplicates() {
            lemma_retired_after_unique(old(retired)@, config_id);
        }
    }
}

/// Why the mixed scope refused a configuration or a telemetry frame.
#[derive(Debug)]
pub enum MixedScopeError {
    EmptyChannels,
    TooManyFastChannels { actual: usize, max: usize },
    TooManyNormalChannels { actual: usize, max: usize },
    UnknownChannel(u16),
    NotFastCapable(u16),
    NotNormalCapable(u16),
    InvalidFastScale(u16),
    UnknownConfig(u8),
    Runtime(String),
    Session(crate::session::SessionError),
    Stream(StreamError),
    Decode(StreamDecodeError),
    Closed,
}

/// One configured generation of a Plot group: its Config_ID, its channel IDs
/// in wire order, and each channel's FAST scale as an IEEE-754 bit pattern.
#[derive(Debug, Clone)]
pub struct GroupLayout {
    pub config_id: u8,
    pub ids: Vec<u16>,
    pub scales: Vec<u32>,
}

/// A configured Plot group: the generation frames are decoded with, the one
/// the device was asked to switch to, and the loss accounting of its stream.
#[derive(Debug)]
pub struct GroupRuntime {
    pub active: GroupLayout,
    pub pending: Option<GroupLayout>,
    pub sequence: SequenceTracker,
    pub lost_frames: u64,
}

/// The group has a pending generation with Config_ID `id`.
pub open spec fn pending_is(g: GroupRuntime, id: u8) -> bool {
    g.pending matches Some(p) && p.config_id == id
}

/// A fresh group running `layout`.
pub fn group_runtime(layout: GroupLayout) -> (res: GroupRuntime)
    ensures
        res.active == layout,
        res.pending is None,
        res.sequence@.expected is None,
        res.sequence@.lost_total == 0,
        res.lost_frames == 0,
{
    GroupRuntime { active: layout, pending: None, sequence: SequenceTracker::default(), lost_frames: 0 }
}

/// Whether `id` occurs in the retired list.
fn is_retired(retired: &VecDeque<u8>, id: u8) -> (res: bool)
    ensures
        res == retired@.contains(id),
{
    let mut i: usize = 0;
    while i < retired.len()
        invariant
            i <= retired@.len(),
            forall|k: int| 0 <= k < i ==> retired@[k] != id,
        decreases retired@.len() - i,
    {
        if retired[i] == id {
            return true;
        }
        i = i + 1;
    }
    false
}

/// Decides whether a frame tagged `config_id` belongs to the group: frames of
/// the active generation are accepted; the first frame of the pending one
/// makes it active (retiring the old one and restarting loss detection);
/// frames of a retired generation are dropped; any other Config_ID is an error.
pub fn accept_config_frame(group: &mut GroupRuntime, retired: &mut VecDeque<u8>, config_id: u8) -> (res: Result<
    bool,
    MixedScopeError,
>)
    ensures
        if old(group).active.config_id == config_id {
            res matches Ok(true) && *final(group) == *old(group) && final(retired)@ == old(retired)@
        } else if pending_is(*old(group), config_id) {
            &&& res matches Ok(true)
            &&& final(group).active == old(group).pending->0
            &&& final(group).pending is None
            &&& final(group).sequence@.expected is None
            &&& final(group).sequence@.lost_total == 0
            &&& final(group).lost_frames == old(group).lost_frames
            &&& final(retired)@ == retired_after(old(retired)@, old(group).active.config_id)
        } else if old(retired)@.contains(config_id) {
            res matches Ok(false) && *final(group) == *old(group) && final(retired)@ == old(retired)@
        } else {
            &&& res matches Err(MixedScopeError::UnknownConfig(id)) && id == config_id
            &&& *final(group) == *old(group)
            &&& final(retired)@ == old(retired)@
        },
{
    if group.active.config_id == config_id {
        return Ok(true);
    }
    let switch = match &group.pending {
        Some(pending) => pending.config_id == config_id,
        None => false,
    };
    if switch {
        let previous = group.active.config_id;
        match group.pending.take() {
            Some(pending) => {
                group.active = pending;
            },
            None => {},
        }
        retire_config_id(retired, previous);
        group.sequence.reset();
        return Ok(true);
    }
    if is_retired(retired, config_id) {
        return Ok(false);
    }
    Err(MixedScopeError::UnknownConfig(config_id))
}

/// Retires both generations a group knew, active first.
pub fn retire_group(retired: &mut VecDeque<u8>, group: GroupRuntime)
    ensures
        final(retired)@ == match group.pending {
            Some(p) => retired_after(retired_after(old(retired)@, group.active.config_id), p.config_id),
            None => retired_after(old(retired)@, group.active.config_id),
        },
{
    retire_config_id(retired, group.active.config_id);
    if let Some(pending) = group.pending {
        retire_config_id(retired, pending.config_id);
    }
}

/// The retired list once a group with generations `g` was retired.
pub open spec fn retired_group(s: Seq<u8>, g: GroupRuntime) -> Seq<u8> {
    match g.pending {
        Some(p) => retired_after(retired_after(s, g.active.config_id), p.config_id),
        None => retired_after(s, g.active.config_id),
    }
}

/// Forgets that `config_id` was retired: it is about to be used again.
pub fn unretire(retired: &mut VecDeque<u8>, config_id: u8)
    ensures
        final(retired)@ == without(old(retired)@, config_id),
{
    let mut kept: VecDeque<u8> = VecDeque::new();
    let mut i: usize = 0;
    while i < retired.len()
        invariant
            i <= retired@.len(),
            retired@ == old(retired)@,
            kept@ == without(retired@.take(i as int), config_id),
        decreases retired@.len() - i,
    {
        let x = retired[i];
        assert(retired@.take(i as int + 1).drop_last() == retired@.take(i as int));
        if x != config_id {
            kept.push_back(x);
        }
        i = i + 1;
    }
    assert(retired@.take(retired@.len() as int) == retired@);
    *retired = kept;
}

/// Removes a group whose rate has no channels left, retiring its
/// generations.
pub fn drop_group(group: &mut Option<GroupRuntime>, retired: &mut VecDeque<u8>)
    ensures
        *final(group) is None,
        final(retired)@ == match *old(group) {
            Some(g) => retired_group(old(retired)@, g),
            None => old(retired)@,
        },
{
    if let Some(removed) = group.take() {
        retire_group(retired, removed);
    }
}

/// Stages `layout` as the generation a running group switches to; its frames
/// are accepted once the device sends them. A generation staged before and
/// not yet reached is superseded and retired. Returns the superseded one.
pub fn stage_pending(group: &mut GroupRuntime, retired: &mut VecDeque<u8>, layout: GroupLayout) -> (res: Option<
    GroupLayout,
>)
    ensures
        res == old(group).pending,
        final(group).active == old(group).active,
        final(group).pending == Some(layout),
        final(group).sequence == old(group).sequence,
        final(group).lost_frames == old(group).lost_frames,
        final(retired)@ == match old(group).pending {
            Some(p) => retired_after(without(old(retired)@, layout.config_id), p.config_id),
            None => without(old(retired)@, layout.config_id),
        },
{
    unretire(retired, layout.config_id);
    let previous = group.pending.take();
    group.pending = Some(layout);
    if let Some(p) = &previous {
        retire_config_id(retired, p.config_id);
    }
    previous
}

/// Undoes the staging of generation `config_id` after the device refused
/// it: the superseded generation `previous` is pending again and
/// `config_id` is retired. Returns `true` when frames of `config_id` already
/// arrived, so the switch happened and nothing is undone.
pub fn unstage_pending(
    group: &mut Option<GroupRuntime>,
    retired: &mut VecDeque<u8>,
    config_id: u8,
    previous: Option<GroupLayout>,
) -> (res: bool)
    ensures
        match *old(group) {
            Some(g) => if g.active.config_id == config_id {
                res && *final(group) == *old(group) && final(retired)@ == old(retired)@
            } else if pending_is(g, config_id) {
                &&& !res
                &&& *final(group) matches Some(h) && h.active == g.active && h.pending == previous && h.sequence
                    == g.sequence && h.lost_frames == g.lost_frames
                &&& final(retired)@ == match previous {
                    Some(p) => without(retired_after(old(retired)@, config_id), p.config_id),
                    None => retired_after(old(retired)@, config_id),
                }
            } else {
                !res && *final(group) == *old(group) && final(retired)@ == old(retired)@
            },
            None => !res && *final(group) is None && final(retired)@ == old(retired)@,
        },
{
    match group {
        Some(runtime) => {
            if runtime.active.config_id == config_id {
                return true;
            }
            let staged = match &runtime.pending {
                Some(p) => p.config_id == config_id,
                None => false,
            };
            if staged {
                runtime.pending = previous;
                retire_config_id(retired, config_id);
                if let Some(p) = &runtime.pending {
                    unretire(retired, p.config_id);
                }
            }
            false
        },
        None => false,
    }
}

/// Replaces the group by a fresh one running `layout`, retiring the
/// generations of the group it replaces.
pub fn install_group(group: &mut Option<GroupRuntime>, retired: &mut VecDeque<u8>, layout: GroupLayout)
    ensures
        *final(group) matches Some(g) && g.active == layout && g.pending is None && g.sequence@.expected is None
            && g.sequence@.lost_total == 0 && g.lost_frames == 0,
        final(retired)@ == without(
            match *old(group) {
                Some(g) => retired_group(old(retired)@, g),
                None => old(retired)@,
            },
            layout.config_id,
        ),
{
    if let Some(replaced) = group.take() {
        retire_group(retired, replaced);
    }
    unretire(retired, layout.config_id);
    *group = Some(group_runtime(layout));
}

/// How a group is brought to a new channel set.
#[derive(Debug, Clone, Copy, PartialEq, Eq, Structural)]
pub enum RegroupStep {
    /// No channels at this rate: remove the group, stopping its stream first
    /// when it runs.
    Remove { stop_plot: bool },
    /// The group runs: configure the new generation on the fly and switch to
    /// it when its first frame arrives.
    Stage,
    /// Configure the group anew, then start its stream when the recording
    /// runs and the group is new.
    Install { start_plot: bool },
}

/// The step that brings a group to `channel_count` channels.
pub fn regroup_step(channel_count: usize, had_group: bool, state: StreamState) -> (res: RegroupStep)
    ensures
        channel_count == 0 ==> res == (RegroupStep::Remove {
            stop_plot: had_group && (state is Live || state is Capturing),
        }),
        channel_count > 0 && had_group && (state is Live || state is Capturing) ==> res == RegroupStep::Stage,
        channel_count > 0 && !(had_group && (state is Live || state is Capturing)) ==> res == (RegroupStep::Install {
            start_plot: !had_group && (state is Live || state is Capturing),
        }),
{
    let running = match state {
        StreamState::Live | StreamState::Capturing => true,
        _ => false,
    };
    if channel_count == 0 {
        return RegroupStep::Remove { stop_plot: had_group && running };
    }
    if had_group && running {
        RegroupStep::Stage
    } else {
        RegroupStep::Install { start_plot: !had_group && running }
    }
}

/// A request to the recording of a mixed-rate scope.
#[derive(Debug, Clone, Copy, PartialEq, Eq, Structural)]
pub enum ScopeControl {
    Live,
    Pause,
    Stop,
    /// Record for the given span, then stop.
    Capture(TimeSpan),
}

/// A Plot stream command for the groups of a mask.
#[derive(Debug, Clone, Copy, PartialEq, Eq, Structural)]
pub enum PlotCommand {
    Start(u8),
    Stop(u8),
}

/// What a request does: the Plot command to send, if any, and the recording
/// state to enter, if any. With `enter_first` the state is entered before the
/// command is sent; otherwise only once the command succeeded.
#[derive(Debug, Clone, Copy, PartialEq, Eq, Structural)]
pub struct ControlStep {
    pub command: Option<PlotCommand>,
    pub enter: Option<StreamState>,
    pub enter_first: bool,
}

/// The Plot command for the groups of `mask`, when there are any.
pub open spec fn plot_command(start: bool, mask: u8) -> Option<PlotCommand> {
    if mask == 0 {
        None
    } else if start {
        Some(PlotCommand::Start(mask))
    } else {
        Some(PlotCommand::Stop(mask))
    }
}

/// The step of a request in recording state `state` with the groups of
/// `mask` configured: going live from another state starts the groups and
/// enters Live first, and going live while live does nothing; pausing and
/// stopping stop the groups and then enter Paused or Stopped; a capture
/// enters Capturing and then starts the groups.
pub open spec fn control_plan(control: ScopeControl, state: StreamState, mask: u8) -> ControlStep {
    match control {
        ScopeControl::Live => if state is Live {
            ControlStep { command: None, enter: None, enter_first: true }
        } else {
            ControlStep { command: plot_command(true, mask), enter: Some(StreamState::Live), enter_first: true }
        },
        ScopeControl::Pause => ControlStep {
            command: plot_command(false, mask),
            enter: Some(StreamState::Paused),
            enter_first: false,
        },
        ScopeControl::Stop => ControlStep {
            command: plot_command(false, mask),
            enter: Some(StreamState::Stopped),
            enter_first: false,
        },
        ScopeControl::Capture(_) => ControlStep {
            command: plot_command(true, mask),
            enter: Some(StreamState::Capturing),
            enter_first: true,
        },
    }
}

/// With plot groups configured (`mask` not zero), pausing or stopping sends
/// `Stop(mask)` and enters Paused or Stopped once the groups stopped; going
/// live from another state and capturing enter Live or Capturing and send
/// `Start(mask)`; going live while live changes nothing. With no group
/// configured, no command is sent.
pub proof fn lemma_control_drives_groups(control: ScopeControl, state: StreamState, mask: u8)
    ensures
        mask != 0 && control == ScopeControl::Stop ==> control_plan(control, state, mask) == (ControlStep {
            command: Some(PlotCommand::Stop(mask)),
            enter: Some(StreamState::Stopped),
            enter_first: false,
        }),
        mask != 0 && control == ScopeControl::Pause ==> control_plan(control, state, mask) == (ControlStep {
            command: Some(PlotCommand::Stop(mask)),
            enter: Some(StreamState::Paused),
            enter_first: false,
        }),
        mask != 0 && control == ScopeControl::Live && state != StreamState::Live ==> control_plan(
            control,
            state,
            mask,
        ) == (ControlStep {
            command: Some(PlotCommand::Start(mask)),
            enter: Some(StreamState::Live),
            enter_first: true,
        }),
        mask != 0 && control is Capture ==> control_plan(control, state, mask) == (ControlStep {
            command: Some(PlotCommand::Start(mask)),
            enter: Some(StreamState::Capturing),
            enter_first: true,
        }),
        control == ScopeControl::Live && state == StreamState::Live ==> control_plan(control, state, mask).command
            is None && control_plan(control, state, mask).enter is None,
        mask == 0 ==> control_plan(control, state, mask).command is None,
{
}

fn command_for(start: bool, mask: u8) -> (res: Option<PlotCommand>)
    ensures
        res == plot_command(start, mask),
{
    if mask == 0 {
        None
    } else if start {
        Some(PlotCommand::Start(mask))
    } else {
        Some(PlotCommand::Stop(mask))
    }
}

/// Decides a request to the recording: refused with the worker's failure
/// once the worker has failed, else the step of `control_plan`.
pub fn control_step(control: ScopeControl, runtime_error: &Option<String>, state: StreamState, mask: u8) -> (res:
    Result<ControlStep, MixedScopeError>)
    ensures
        match runtime_error {
            Some(e) => res matches Err(MixedScopeError::Runtime(m)) && m@ == e@,
            None => res == Ok::<ControlStep, MixedScopeError>(control_plan(control, state, mask)),
        },
        runtime_error is None && mask != 0 && (control == ScopeControl::Stop || control == ScopeControl::Pause) ==> (
        res matches Ok(step) && step.command == Some(PlotCommand::Stop(mask)) && !step.enter_first),
        runtime_error is None && mask != 0 && (control is Capture || (control == ScopeControl::Live && state
            != StreamState::Live)) ==> (res matches Ok(step) && step.command == Some(PlotCommand::Start(mask))
            && step.enter_first),
{
    proof {
        lemma_control_drives_groups(control, state, mask);
    }
    if let Some(error) = runtime_error {
        return Err(MixedScopeError::Runtime(error.clone()));
    }
    match control {
        ScopeControl::Live => match state {
            StreamState::Live => Ok(ControlStep { command: None, enter: None, enter_first: true }),
            _ => Ok(ControlStep { command: command_for(true, mask), enter: Some(StreamState::Live), enter_first: true }),
        },
        ScopeControl::Pause => Ok(
            ControlStep { command: command_for(false, mask), enter: Some(StreamState::Paused), enter_first: false },
        ),
        ScopeControl::Stop => Ok(
            ControlStep { command: command_for(false, mask), enter: Some(StreamState::Stopped), enter_first: false },
        ),
        ScopeControl::Capture(_) => Ok(
            ControlStep { command: command_for(true, mask), enter: Some(StreamState::Capturing), enter_first: true },
        ),
    }
}

/// The channel IDs a group is heading to: the pending generation's, else the
/// active one's; none without a group.
pub fn target_ids(group: Option<&GroupRuntime>) -> (res: Vec<u16>)
    ensures
        res@ == match group {
            Some(g) => match g.pending {
                Some(p) => p.ids@,
                None => g.active.ids@,
            },
            None => Seq::<u16>::empty(),
        },
{
    match group {
        Some(g) => match &g.pending {
            Some(p) => copy_ids(&p.ids),
            None => copy_ids(&g.active.ids),
        },
        None => Vec::new(),
    }
}

fn copy_ids(ids: &Vec<u16>) -> (res: Vec<u16>)
    ensures
        res@ == ids@,
{
    let mut out: Vec<u16> = Vec::new();
    let mut i: usize = 0;
    while i < ids.len()
        invariant
            i <= ids@.len(),
            out@ == ids@.take(i as int),
        decreases ids@.len() - i,
    {
        out.push(ids[i]);
        i = i + 1;
        assert(out@ == ids@.take(i as int));
    }
    assert(ids@.take(ids@.len() as int) == ids@);
    out
}

/// The Plot group number of a rate.
pub fn rate_group(rate: ScopeRate) -> (res: u8)
    ensures
        res == match rate {
            ScopeRate::Fast => PLOT_GROUP_FAST,
            ScopeRate::Normal => PLOT_GROUP_NORMAL,
        },
{
    match rate {
        ScopeRate::Fast => PLOT_GROUP_FAST,
        ScopeRate::Normal => PLOT_GROUP_NORMAL,
    }
}

/// The Plot start/stop mask bit of a rate.
pub fn rate_mask(rate: ScopeRate) -> (res: u8)
    ensures
        res == match rate {
            ScopeRate::Fast => PLOT_FAST_MASK,
            ScopeRate::Normal => PLOT_NORMAL_MASK,
        },
{
    match rate {
        ScopeRate::Fast => PLOT_FAST_MASK,
        ScopeRate::Normal => PLOT_NORMAL_MASK,
    }
}

/// Hands out Config_IDs 1..=255 in turn, skipping 0.
#[derive(Debug, Clone, Copy, PartialEq, Eq, Structural)]
pub struct ConfigIdAllocator {
    pub next: u8,
}

/// The Config_ID that follows `id`.
pub open spec fn following_config_id(id: u8) -> u8 {
    if id == u8::MAX {
        1
    } else {
        (id + 1) as u8
    }
}

impl ConfigIdAllocator {
    /// An allocator whose first Config_ID follows `config_id`.
    pub fn after(config_id: u8) -> (res: Self)
        ensures
            res.next == following_config_id(config_id),
    {
        ConfigIdAllocator { next: if config_id == u8::MAX { 1 } else { config_id + 1 } }
    }

    pub fn allocate(&mut self) -> (res: u8)
        ensures
            res == old(self).next,
            final(self).next == following_config_id(old(self).next),
    {
        let value = self.next;
        self.next = if value == u8::MAX { 1 } else { value + 1 };
        value
    }

    /// The Config_ID handed out last (1 when the allocator starts at 1).
    pub fn current(&self) -> (res: u8)
        ensures
            res == if self.next == 0 { u8::MAX } else if self.next == 1 { 1 } else { (self.next - 1) as u8 },
    {
        let previous = self.next.wrapping_sub(1);
        if previous < 1 { 1 } else { previous }
    }
}

/// After a Config_ID other than 0, the allocator never hands out 0.
pub proof fn lemma_config_ids_skip_zero(id: u8)
    ensures
        following_config_id(id) != 0,
{
}

/// The FAST and NORMAL groups of a scope and their retired generations.
#[derive(Debug)]
pub struct PlotGroups {
    pub fast: Option<GroupRuntime>,
    pub normal: Option<GroupRuntime>,
    pub retired_fast_config_ids: VecDeque<u8>,
    pub retired_normal_config_ids: VecDeque<u8>,
}

impl PlotGroups {
    /// The Plot start/stop mask of the configured groups.
    pub fn mask(&self) -> (res: u8)
        ensures
            res == ((if self.fast is Some { PLOT_FAST_MASK } else { 0u8 }) | (if self.normal is Some {
                PLOT_NORMAL_MASK
            } else {
                0u8
            })),
    {
        let mut mask: u8 = 0;
        if self.fast.is_some() {
            mask = mask | PLOT_FAST_MASK;
        }
        if self.normal.is_some() {
            mask = mask | PLOT_NORMAL_MASK;
        }
        proof {
            assert((0u8 | PLOT_FAST_MASK) == PLOT_FAST_MASK) by (bit_vector);
            assert((0u8 | PLOT_NORMAL_MASK) == PLOT_NORMAL_MASK) by (bit_vector);
            assert((0u8 | 0u8) == 0u8) by (bit_vector);
            assert((PLOT_FAST_MASK | 0u8) == PLOT_FAST_MASK) by (bit_vector);
        }
        mask
    }

    /// Frames lost by both groups together.
    pub fn lost_frames(&self) -> (res: u64)
        requires
            (match self.fast { Some(g) => g.lost_frames as int, None => 0 }) + (match self.normal {
                Some(g) => g.lost_frames as int,
                None => 0,
            }) <= u64::MAX,
        ensures
            res == (match self.fast { Some(g) => g.lost_frames as int, None => 0 }) + (match self.normal {
                Some(g) => g.lost_frames as int,
                None => 0,
            }),
    {
        let fast = match &self.fast {
            Some(g) => g.lost_frames,
            None => 0,
        };
        let normal = match &self.normal {
            Some(g) => g.lost_frames,
            None => 0,
        };
        fast + normal
    }

    /// Admits a FAST frame to the FAST group and returns the channel IDs and
    /// scales of its generation with the decoded samples; `None` when there is
    /// no FAST group or the frame is of a retired generation.
    pub fn admit_fast(&mut self, frame: &CanFdFrame) -> (res: Result<
        Option<(Vec<u16>, Vec<u32>, FastDataFrame)>,
        MixedScopeError,
    >)
        requires
            old(self).fast matches Some(g) ==> (frame@.data.len() >= 3 && g.active.config_id == frame@.data[2]
                ==> g.sequence@.lost_total + crate::protocol::stream::lost_by(
                crate::protocol::stream::spec_observe_status(
                    g.sequence@,
                    crate::bytes::le_u16(frame@.data[0], frame@.data[1]),
                ),
            ) <= u64::MAX),
        ensures
            final(self).normal == old(self).normal,
            final(self).retired_normal_config_ids == old(self).retired_normal_config_ids,
            frame@.data.len() < 3 ==> (res matches Err(MixedScopeError::UnknownConfig(0))
                && *final(self) == *old(self)),
            frame@.data.len() >= 3 && old(self).fast is None ==> (res matches Ok(None) && *final(self)
                == *old(self)),
            frame@.data.len() >= 3 ==> (old(self).fast matches Some(g) ==> final(self).fast matches Some(h)
                && admitted_fast(
                g,
                old(self).retired_fast_config_ids@,
                frame@.data,
                h,
                final(self).retired_fast_config_ids@,
                res,
            )),
    {
        if frame.data_len() < 3 {
            return Err(MixedScopeError::UnknownConfig(0));
        }
        if self.fast.is_none() {
            return Ok(None);
        }
        match &mut self.fast {
            Some(group) => admit_fast_to(group, &mut self.retired_fast_config_ids, frame),
            None => Ok(None),
        }
    }

    /// Admits a decoded NORMAL frame to the NORMAL group and returns the
    /// channel IDs its values belong to, in order; `None` when there is no
    /// NORMAL group or the frame is of a retired generation.
    pub fn admit_normal(&mut self, frame: &NormalDataFrame) -> (res: Result<Option<Vec<u16>>, MixedScopeError>)
        requires
            old(self).normal matches Some(g) ==> (g.active.config_id == frame.config_id ==> g.sequence@.lost_total
                + crate::protocol::stream::lost_by(
                crate::protocol::stream::spec_observe_status(g.sequence@, frame.sequence),
            ) <= u64::MAX),
        ensures
            final(self).fast == old(self).fast,
            final(self).retired_fast_config_ids == old(self).retired_fast_config_ids,
            old(self).normal is None ==> (res matches Ok(None) && *final(self) == *old(self)),
            old(self).normal matches Some(g) ==> admitted(
                g,
                old(self).retired_normal_config_ids@,
                frame,
                final(self).normal,
                final(self).retired_normal_config_ids@,
                res,
            ),
    {
        if self.normal.is_none() {
            return Ok(None);
        }
        match &mut self.normal {
            Some(group) => admit_normal_to(group, &mut self.retired_normal_config_ids, frame),
            None => Ok(None),
        }
    }
}

/// What admitting a FAST frame with payload `data` to group `g` with retired
/// list `retired` yields: the group `h` and retired list `after` it leaves,
/// and the result.
pub open spec fn admitted_fast(
    g: GroupRuntime,
    retired: Seq<u8>,
    data: Seq<u8>,
    h: GroupRuntime,
    after: Seq<u8>,
    res: Result<Option<(Vec<u16>, Vec<u32>, FastDataFrame)>, MixedScopeError>,
) -> bool {
    let config_id = data[2];
    let switch = g.active.config_id != config_id && pending_is(g, config_id);
    if g.active.config_id != config_id && !switch {
        &&& h == g
        &&& after == retired
        &&& if retired.contains(config_id) {
            res matches Ok(None)
        } else {
            res matches Err(MixedScopeError::UnknownConfig(id)) && id == config_id
        }
    } else {
        let layout = if switch { g.pending->0 } else { g.active };
        let expected = if switch { None::<u16> } else { g.sequence@.expected };
        let lost = if switch { 0 } else { g.sequence@.lost_total };
        let sequence = crate::bytes::le_u16(data[0], data[1]);
        let status = crate::protocol::stream::spec_observe_status(
            crate::protocol::stream::TrackerView { expected, lost_total: lost },
            sequence,
        );
        &&& after == if switch { retired_after(retired, g.active.config_id) } else { retired }
        &&& h.active == layout
        &&& h.pending == (if switch { None } else { g.pending })
        &&& match crate::protocol::stream::fast_error(data, layout.ids@.len() as int) {
            Some(e) => {
                &&& res matches Err(MixedScopeError::Decode(d)) && d == e
                &&& h.sequence@.expected == expected
                &&& h.sequence@.lost_total == lost
                &&& h.lost_frames == g.lost_frames
            },
            None => {
                &&& res matches Ok(Some((ids, scales, decoded))) && ids@ == layout.ids@ && scales@
                    == layout.scales@ && decoded.sequence == sequence && decoded.channel_count
                    == layout.ids@.len() && decoded.samples@ == crate::protocol::stream::fast_samples(
                    data,
                    data[3] * layout.ids@.len(),
                )
                &&& h.sequence@.expected == Some(((sequence as int + 1) % 65536) as u16)
                &&& h.sequence@.lost_total == lost + crate::protocol::stream::lost_by(status)
                &&& h.lost_frames == h.sequence@.lost_total
            },
        }
    }
}

fn copy_scales(scales: &Vec<u32>) -> (res: Vec<u32>)
    ensures
        res@ == scales@,
{
    let mut out: Vec<u32> = Vec::new();
    let mut i: usize = 0;
    while i < scales.len()
        invariant
            i <= scales@.len(),
            out@ == scales@.take(i as int),
        decreases scales@.len() - i,
    {
        out.push(scales[i]);
        i = i + 1;
        assert(out@ == scales@.take(i as int));
    }
    assert(scales@.take(scales@.len() as int) == scales@);
    out
}

fn admit_fast_to(group: &mut GroupRuntime, retired: &mut VecDeque<u8>, frame: &CanFdFrame) -> (res: Result<
    Option<(Vec<u16>, Vec<u32>, FastDataFrame)>,
    MixedScopeError,
>)
    requires
        frame@.data.len() >= 3,
        old(group).active.config_id == frame@.data[2] ==> old(group).sequence@.lost_total
            + crate::protocol::stream::lost_by(
            crate::protocol::stream::spec_observe_status(
                old(group).sequence@,
                crate::bytes::le_u16(frame@.data[0], frame@.data[1]),
            ),
        ) <= u64::MAX,
    ensures
        admitted_fast(*old(group), old(retired)@, frame@.data, *final(group), final(retired)@, res),
{
    let config_id = frame.data()[2];
    if !accept_config_frame(group, retired, config_id)? {
        return Ok(None);
    }
    let decoded = match decode_fast_data(frame, group.active.ids.len()) {
        Ok(decoded) => decoded,
        Err(e) => return Err(MixedScopeError::Decode(e)),
    };
    group.sequence.observe(decoded.sequence);
    group.lost_frames = group.sequence.lost_total();
    Ok(Some((copy_ids(&group.active.ids), copy_scales(&group.active.scales), decoded)))
}

/// What admitting the NORMAL `frame` to group `g` with retired list `retired`
/// yields: the group `h` and retired list `after` it leaves, and the result.
pub open spec fn admitted(
    g: GroupRuntime,
    retired: Seq<u8>,
    frame: &NormalDataFrame,
    h: Option<GroupRuntime>,
    after: Seq<u8>,
    res: Result<Option<Vec<u16>>, MixedScopeError>,
) -> bool {
    let switch = g.active.config_id != frame.config_id && pending_is(g, frame.config_id);
    if g.active.config_id != frame.config_id && !switch {
        &&& h == Some(g)
        &&& after == retired
        &&& if retired.contains(frame.config_id) {
            res matches Ok(None)
        } else {
            res matches Err(MixedScopeError::UnknownConfig(id)) && id == frame.config_id
        }
    } else {
        let layout = if switch { g.pending->0 } else { g.active };
        let expected = if switch { None::<u16> } else { g.sequence@.expected };
        let lost = if switch { 0 } else { g.sequence@.lost_total };
        let status = crate::protocol::stream::spec_observe_status(
            crate::protocol::stream::TrackerView { expected, lost_total: lost },
            frame.sequence,
        );
        &&& after == if switch { retired_after(retired, g.active.config_id) } else { retired }
        &&& h matches Some(k) && k.active == layout && k.pending == (if switch { None } else { g.pending })
        &&& if frame.values@.len() != layout.ids@.len() {
            &&& res matches Err(MixedScopeError::Runtime(_))
            &&& h->0.sequence@.expected == expected
            &&& h->0.sequence@.lost_total == lost
            &&& h->0.lost_frames == g.lost_frames
        } else {
            &&& res matches Ok(Some(ids)) && ids@ == layout.ids@
            &&& h->0.sequence@.expected == Some(((frame.sequence as int + 1) % 65536) as u16)
            &&& h->0.sequence@.lost_total == lost + crate::protocol::stream::lost_by(status)
            &&& h->0.lost_frames == h->0.sequence@.lost_total
        }
    }
}

fn admit_normal_to(group: &mut GroupRuntime, retired: &mut VecDeque<u8>, frame: &NormalDataFrame) -> (res: Result<
    Option<Vec<u16>>,
    MixedScopeError,
>)
    requires
        old(group).active.config_id == frame.config_id ==> old(group).sequence@.lost_total
            + crate::protocol::stream::lost_by(
            crate::protocol::stream::spec_observe_status(old(group).sequence@, frame.sequence),
        ) <= u64::MAX,
    ensures
        admitted(*old(group), old(retired)@, frame, Some(*final(group)), final(retired)@, res),
{
    if !accept_config_frame(group, retired, frame.config_id)? {
        return Ok(None);
    }
    if frame.values.len() != group.active.ids.len() {
        return Err(MixedScopeError::Runtime("NORMAL channel count mismatch".to_owned()));
    }
    group.sequence.observe(frame.sequence);
    group.lost_frames = group.sequence.lost_total();
    Ok(Some(copy_ids(&group.active.ids)))
}

/// Where the scope's ring stands: its run state, samples held and room, and
/// the frames both groups lost.
#[derive(Debug, Clone, Copy, PartialEq, Eq, Structural)]
pub struct MixedScopeStatus {
    pub state: StreamState,
    pub samples: usize,
    pub capacity_samples: usize,
    pub lost_frames: u64,
}

/// One configured scope channel. `scale` is the FAST dequantization scale as
/// an IEEE-754 single-precision bit pattern (1.0 for NORMAL channels).
#[derive(Debug, Clone, PartialEq, Eq)]
pub struct MixedScopeChannel {
    pub id: u16,
    pub label: String,
    pub unit: Option<String>,
    pub rate: ScopeRate,
    pub sample_rate_hz: u32,
    pub scale: u32,
}

#[derive(Debug, Clone, PartialEq, Eq)]
pub struct MixedScopeConfig {
    pub config_id: u8,
    pub history: TimeSpan,
    pub channels: Vec<MixedScopeChannel>,
}

/// The bit pattern of single-precision 1.0.
pub const UNIT_SCALE: u32 = 0x3f80_0000;

/// The number of selections at `rate`.
pub open spec fn count_rate(s: Seq<ScopeSelection>, rate: ScopeRate) -> nat
    decreases s.len(),
{
    if s.len() == 0 {
        0
    } else {
        count_rate(s.drop_last(), rate) + if s.last().rate == rate { 1nat } else { 0nat }
    }
}

/// Why the device cannot stream `sel`, if it cannot.
pub open spec fn selection_error(caps: DevicePlotCapabilities, sel: ScopeSelection) -> Option<MixedScopeError> {
    match crate::plot_capabilities::first_channel(caps.channels@, sel.id) {
        None => Some(MixedScopeError::UnknownChannel(sel.id)),
        Some(c) => if sel.rate == ScopeRate::Fast && c.modes % 2 != 1 {
            Some(MixedScopeError::NotFastCapable(sel.id))
        } else if sel.rate == ScopeRate::Normal && (c.modes / 2) % 2 != 1 {
            Some(MixedScopeError::NotNormalCapable(sel.id))
        } else if sel.rate == ScopeRate::Fast && !crate::protocol::plot::positive_finite_f32(c.fast_scale) {
            Some(MixedScopeError::InvalidFastScale(sel.id))
        } else {
            None
        },
    }
}

/// The error of the first selection the device cannot stream.
pub open spec fn first_selection_error(caps: DevicePlotCapabilities, s: Seq<ScopeSelection>) -> Option<
    MixedScopeError,
>
    decreases s.len(),
{
    if s.len() == 0 {
        None
    } else if selection_error(caps, s[0]) is Some {
        selection_error(caps, s[0])
    } else {
        first_selection_error(caps, s.drop_first())
    }
}

/// Why `build_config` refuses `selections`, if it does.
pub open spec fn config_error(caps: DevicePlotCapabilities, s: Seq<ScopeSelection>) -> Option<MixedScopeError> {
    if s.len() == 0 {
        Some(MixedScopeError::EmptyChannels)
    } else if count_rate(s, ScopeRate::Fast) > caps.fast_max_channels {
        Some(
            MixedScopeError::TooManyFastChannels {
                actual: count_rate(s, ScopeRate::Fast) as usize,
                max: caps.fast_max_channels as usize,
            },
        )
    } else if count_rate(s, ScopeRate::Normal) > caps.normal_max_channels {
        Some(
            MixedScopeError::TooManyNormalChannels {
                actual: count_rate(s, ScopeRate::Normal) as usize,
                max: caps.normal_max_channels as usize,
            },
        )
    } else {
        first_selection_error(caps, s)
    }
}

/// `0x` and the ID as four upper-case hexadecimal digits.
pub open spec fn hex_id_text(id: u16) -> Seq<char> {
    let digit = |n: int| crate::text::digit_char(n);
    seq!['0', 'x', digit((id / 4096) as int), digit(((id / 256) % 16) as int), digit(((id / 16) % 16) as int), digit((id % 16) as int)]
}

/// `0x` and the ID as four upper-case hexadecimal digits.
pub(crate) fn hex_id(id: u16) -> (res: String)
    ensures
        res@ == hex_id_text(id),
{
    let prefix = "0x";
    proof {
        reveal_strlit("0x");
    }
    let mut text = crate::text::concat(prefix, crate::text::digit_text((id / 4096) as u8));
    text = crate::text::concat(text.as_str(), crate::text::digit_text(((id / 256) % 16) as u8));
    text = crate::text::concat(text.as_str(), crate::text::digit_text(((id / 16) % 16) as u8));
    text = crate::text::concat(text.as_str(), crate::text::digit_text((id % 16) as u8));
    assert(text@ == hex_id_text(id));
    text
}

/// The label a channel is shown with: the schema label, else the schema
/// symbol, else the hexadecimal ID.
pub open spec fn label_text(meta: Option<ParameterMetadata>, id: u16) -> Seq<char> {
    match meta {
        Some(m) => match m.name {
            Some(n) => n@,
            None => m.symbol@,
        },
        None => hex_id_text(id),
    }
}

/// The unit a channel is shown in: turns for positions, else the schema unit.
pub open spec fn unit_text(meta: Option<ParameterMetadata>) -> Option<Seq<char>> {
    match meta {
        Some(m) => if m.value_type@ == "position"@ {
            Some("turn"@)
        } else {
            match m.unit {
                Some(u) => Some(u@),
                None => None,
            }
        },
        None => None,
    }
}

/// The text of an optional string.
pub open spec fn opt_text(o: Option<String>) -> Option<Seq<char>> {
    match o {
        Some(s) => Some(s@),
        None => None,
    }
}

/// `c` is the scope channel for selection `sel`.
pub open spec fn channel_for(
    c: MixedScopeChannel,
    caps: DevicePlotCapabilities,
    params: Seq<ParameterMetadata>,
    sel: ScopeSelection,
) -> bool {
    let meta = crate::schema::first_parameter_with_id(params, sel.id);
    &&& c.id == sel.id
    &&& c.rate == sel.rate
    &&& c.label@ == label_text(meta, sel.id)
    &&& opt_text(c.unit) == unit_text(meta)
    &&& c.sample_rate_hz == if sel.rate == ScopeRate::Fast { caps.fast_rate_hz } else { caps.normal_rate_hz }
    &&& c.scale == if sel.rate == ScopeRate::Fast {
        crate::plot_capabilities::first_channel(caps.channels@, sel.id)->0.fast_scale
    } else {
        UNIT_SCALE
    }
}

fn count_selections(selections: &[ScopeSelection], rate: ScopeRate) -> (res: usize)
    ensures
        res == count_rate(selections@, rate),
{
    let mut n: usize = 0;
    let mut i: usize = 0;
    while i < selections.len()
        invariant
            i <= selections@.len(),
            n == count_rate(selections@.take(i as int), rate),
            n <= i,
        decreases selections@.len() - i,
    {
        assert(selections@.take(i as int + 1).drop_last() == selections@.take(i as int));
        if selections[i].rate == rate {
            n = n + 1;
        }
        i = i + 1;
    }
    assert(selections@.take(selections@.len() as int) == selections@);
    n
}

pub(crate) fn label_for(meta: Option<&ParameterMetadata>, id: u16) -> (res: String)
    ensures
        res@ == label_text(crate::schema::opt_ref(meta), id),
{
    match meta {
        Some(m) => match &m.name {
            Some(n) => n.clone(),
            None => m.symbol.clone(),
        },
        None => hex_id(id),
    }
}

pub(crate) fn unit_for(meta: Option<&ParameterMetadata>) -> (res: Option<String>)
    ensures
        opt_text(res) == unit_text(crate::schema::opt_ref(meta)),
{
    match meta {
        Some(m) => if same_text(m.value_type.as_str(), "position") {
            Some("turn".to_owned())
        } else {
            match &m.unit {
                Some(u) => Some(u.clone()),
                None => None,
            }
        },
        None => None,
    }
}

/// Checks `selections` against the device capabilities and lays out one
/// scope channel per selection, in order.
pub fn build_config(
    capabilities: &DevicePlotCapabilities,
    schema: &HostSchema,
    selections: &[ScopeSelection],
    history: TimeSpan,
    config_id: u8,
) -> (res: Result<MixedScopeConfig, MixedScopeError>)
    ensures
        match config_error(*capabilities, selections@) {
            Some(e) => res matches Err(r) && r == e,
            None => res matches Ok(config) && config.config_id == config_id && config.history == history
                && config.channels@.len() == selections@.len() && forall|i: int|
                0 <= i < selections@.len() ==> channel_for(
                    #[trigger] config.channels@[i],
                    *capabilities,
                    schema.parameters@,
                    selections@[i],
                ),
        },
{
    if selections.len() == 0 {
        return Err(MixedScopeError::EmptyChannels);
    }
    let fast_count = count_selections(selections, ScopeRate::Fast);
    let normal_count = count_selections(selections, ScopeRate::Normal);
    if fast_count > capabilities.fast_max_channels as usize {
        return Err(
            MixedScopeError::TooManyFastChannels {
                actual: fast_count,
                max: capabilities.fast_max_channels as usize,
            },
        );
    }
    if normal_count > capabilities.normal_max_channels as usize {
        return Err(
            MixedScopeError::TooManyNormalChannels {
                actual: normal_count,
                max: capabilities.normal_max_channels as usize,
            },
        );
    }
    let mut channels: Vec<MixedScopeChannel> = Vec::new();
    let mut i: usize = 0;
    assert(selections@.skip(0) == selections@);
    while i < selections.len()
        invariant
            i <= selections@.len(),
            config_error(*capabilities, selections@) == first_selection_error(*capabilities, selections@),
            first_selection_error(*capabilities, selections@) == first_selection_error(
                *capabilities,
                selections@.skip(i as int),
            ),
            channels@.len() == i,
            forall|k: int|
                0 <= k < i ==> channel_for(
                    #[trigger] channels@[k],
                    *capabilities,
                    schema.parameters@,
                    selections@[k],
                ),
        decreases selections@.len() - i,
    {
        let selection = selections[i];
        assert(selections@.skip(i as int)[0] == selection);
        assert(selections@.skip(i as int).drop_first() == selections@.skip(i as int + 1));
        let capability: DevicePlotChannel = match capabilities.channel(selection.id) {
            Some(c) => c,
            None => return Err(MixedScopeError::UnknownChannel(selection.id)),
        };
        if selection.rate == ScopeRate::Fast && !capability.supports_fast() {
            return Err(MixedScopeError::NotFastCapable(selection.id));
        }
        if selection.rate == ScopeRate::Normal && !capability.supports_normal() {
            return Err(MixedScopeError::NotNormalCapable(selection.id));
        }
        if selection.rate == ScopeRate::Fast && !(0 < capability.fast_scale && capability.fast_scale < 0x7f80_0000) {
            return Err(MixedScopeError::InvalidFastScale(selection.id));
        }
        let metadata = schema.parameter_by_id(selection.id);
        let channel = MixedScopeChannel {
            id: selection.id,
            label: label_for(metadata, selection.id),
            unit: unit_for(metadata),
            rate: selection.rate,
            sample_rate_hz: match selection.rate {
                ScopeRate::Fast => capabilities.fast_rate_hz,
                ScopeRate::Normal => capabilities.normal_rate_hz,
            },
            scale: if selection.rate == ScopeRate::Fast { capability.fast_scale } else { UNIT_SCALE },
        };
        channels.push(channel);
        i = i + 1;
    }
    Ok(MixedScopeConfig { config_id, history, channels })
}

/// The IDs of the channels at `rate`, in order.
pub open spec fn rate_ids(chs: Seq<MixedScopeChannel>, rate: ScopeRate) -> Seq<u16>
    decreases chs.len(),
{
    if chs.len() == 0 {
        Seq::empty()
    } else if chs.last().rate == rate {
        rate_ids(chs.drop_last(), rate).push(chs.last().id)
    } else {
        rate_ids(chs.drop_last(), rate)
    }
}

/// The scales of the channels at `rate`, in order.
pub open spec fn rate_scales(chs: Seq<MixedScopeChannel>, rate: ScopeRate) -> Seq<u32>
    decreases chs.len(),
{
    if chs.len() == 0 {
        Seq::empty()
    } else if chs.last().rate == rate {
        rate_scales(chs.drop_last(), rate).push(chs.last().scale)
    } else {
        rate_scales(chs.drop_last(), rate)
    }
}

/// The channel IDs of the configuration streamed at `rate`, in order.
pub fn ids_for_rate(config: &MixedScopeConfig, rate: ScopeRate) -> (res: Vec<u16>)
    ensures
        res@ == rate_ids(config.channels@, rate),
{
    let mut ids: Vec<u16> = Vec::new();
    let mut i: usize = 0;
    while i < config.channels.len()
        invariant
            i <= config.channels@.len(),
            ids@ == rate_ids(config.channels@.take(i as int), rate),
        decreases config.channels@.len() - i,
    {
        assert(config.channels@.take(i as int + 1).drop_last() == config.channels@.take(i as int));
        if config.channels[i].rate == rate {
            ids.push(config.channels[i].id);
        }
        i = i + 1;
    }
    assert(config.channels@.take(config.channels@.len() as int) == config.channels@);
    ids
}

/// The FAST scales of the configuration's channels at `rate`, in order.
pub fn scales_for_rate(config: &MixedScopeConfig, rate: ScopeRate) -> (res: Vec<u32>)
    ensures
        res@ == rate_scales(config.channels@, rate),
{
    let mut scales: Vec<u32> = Vec::new();
    let mut i: usize = 0;
    while i < config.channels.len()
        invariant
            i <= config.channels@.len(),
            scales@ == rate_scales(config.channels@.take(i as int), rate),
        decreases config.channels@.len() - i,
    {
        assert(config.channels@.take(i as int + 1).drop_last() == config.channels@.take(i as int));
        if config.channels[i].rate == rate {
            scales.push(config.channels[i].scale);
        }
        i = i + 1;
    }
    assert(config.channels@.take(config.channels@.len() as int) == config.channels@);
    scales
}

/// The Plot group layout of the configuration at `rate`; none without channels.
pub fn group_layout(config: &MixedScopeConfig, rate: ScopeRate) -> (res: Option<GroupLayout>)
    ensures
        rate_ids(config.channels@, rate).len() == 0 ==> res is None,
        rate_ids(config.channels@, rate).len() > 0 ==> (res matches Some(l) && l.config_id == config.config_id
            && l.ids@ == rate_ids(config.channels@, rate) && l.scales@ == rate_scales(config.channels@, rate)),
{
    let ids = ids_for_rate(config, rate);
    if ids.len() == 0 {
        return None;
    }
    Some(GroupLayout { config_id: config.config_id, ids, scales: scales_for_rate(config, rate) })
}

/// The whole samples at `rate_hz` nearest to `nanos`, halves rounded up.
pub open spec fn samples_nearest(nanos: int, rate_hz: int) -> int {
    (nanos * rate_hz + NANOS_PER_SECOND / 2) / NANOS_PER_SECOND as int
}

/// `n` held in a `usize`, saturating.
pub open spec fn saturate(n: int) -> usize {
    if n > usize::MAX { usize::MAX } else { n as usize }
}

/// How many samples of a channel at `rate_hz` a snapshot takes: the samples
/// that cover `window`, at least one, and how many of the newest it skips:
/// the samples nearest to `end_offset`. Counts beyond `usize` saturate.
pub fn snapshot_span(window: TimeSpan, end_offset: TimeSpan, rate_hz: u32) -> (res: (usize, usize))
    ensures
        res.0 == (if samples_covering(window.nanos as int, rate_hz as int) == 0 {
            1
        } else {
            saturate(samples_covering(window.nanos as int, rate_hz as int))
        }),
        res.1 == saturate(samples_nearest(end_offset.nanos as int, rate_hz as int)),
{
    let wanted: usize = match window.nanos.checked_mul(rate_hz as u128) {
        Some(product) => {
            let whole = product / NANOS_PER_SECOND;
            let samples = if product % NANOS_PER_SECOND == 0 { whole } else { whole + 1 };
            assert(samples == samples_covering(window.nanos as int, rate_hz as int)) by (nonlinear_arith)
                requires
                    product == window.nanos * rate_hz,
                    whole == product / 1_000_000_000,
                    samples == if product % 1_000_000_000 == 0 { whole } else { (whole + 1) as u128 },
            ;
            if samples == 0 {
                1
            } else if samples > usize::MAX as u128 {
                usize::MAX
            } else {
                samples as usize
            }
        },
        None => {
            assert(samples_covering(window.nanos as int, rate_hz as int) > usize::MAX) by (nonlinear_arith)
                requires
                    window.nanos * rate_hz > u128::MAX,
            ;
            usize::MAX
        },
    };
    let offset: usize = match end_offset.nanos.checked_mul(rate_hz as u128) {
        Some(product) => {
            let q = product / NANOS_PER_SECOND;
            let r = product % NANOS_PER_SECOND;
            let samples = if r >= NANOS_PER_SECOND / 2 { q + 1 } else { q };
            assert(samples == samples_nearest(end_offset.nanos as int, rate_hz as int)) by (nonlinear_arith)
                requires
                    product == end_offset.nanos * rate_hz,
                    q == product / 1_000_000_000,
                    r == product % 1_000_000_000,
                    samples == if r >= 500_000_000 { (q + 1) as u128 } else { q },
            ;
            if samples > usize::MAX as u128 {
                usize::MAX
            } else {
                samples as usize
            }
        },
        None => {
            assert(samples_nearest(end_offset.nanos as int, rate_hz as int) > usize::MAX) by (nonlinear_arith)
                requires
                    end_offset.nanos * rate_hz > u128::MAX,
            ;
            usize::MAX
        },
    };
    (wanted, offset)
}

} // verus!
