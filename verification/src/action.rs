//! What the client is told to do at start-up, step by step.
use vstd::prelude::*;

use crate::alert::{AlertView, NativeAlert};
use crate::clock::LocalTime;
use crate::settings::{setting_views, Setting, SettingView};

verus! {

#[derive(Clone, Copy, PartialEq, Eq, Debug, Structural)]
pub enum LogLevel {
    Warn,
    Error,
}

/// One step. A list of steps is taken in its order.
#[derive(PartialEq, Eq, Debug)]
pub enum Action {
    /// Set the name under which the client runs, and under which it keeps its
    /// local options.
    SetAppName { name: String },
    /// Ask the licensing API about this device, and go on with the steps that
    /// follow from its reply.
    AskLicense,
    /// Fix a setting, so that the user cannot change it.
    Overwrite { setting: Setting },
    /// Set an option of this device.
    SetLocalOption { setting: Setting },
    /// Set the password that lets somebody connect.
    SetPermanentPassword { password: String },
    /// Start to follow the day, to change the password with it. The password in
    /// force is that of `day`.
    SpawnPasswordRefresher { day: LocalTime },
    /// Write to the log.
    Log { level: LogLevel, text: String },
    /// Show an alert, and wait until it is closed.
    Alert { alert: NativeAlert },
    /// End the process.
    Exit { code: i32 },
}

pub enum ActionView {
    SetAppName { name: Seq<char> },
    AskLicense,
    Overwrite { setting: SettingView },
    SetLocalOption { setting: SettingView },
    SetPermanentPassword { password: Seq<char> },
    SpawnPasswordRefresher { day: LocalTime },
    Log { level: LogLevel, text: Seq<char> },
    Alert { alert: AlertView },
    Exit { code: int },
}

impl View for Action {
    type V = ActionView;

    open spec fn view(&self) -> ActionView {
        match self {
            Action::SetAppName { name } => ActionView::SetAppName { name: name@ },
            Action::AskLicense => ActionView::AskLicense,
            Action::Overwrite { setting } => ActionView::Overwrite { setting: setting@ },
            Action::SetLocalOption { setting } => ActionView::SetLocalOption { setting: setting@ },
            Action::SetPermanentPassword { password } => ActionView::SetPermanentPassword {
                password: password@,
            },
            Action::SpawnPasswordRefresher { day } => ActionView::SpawnPasswordRefresher {
                day: *day,
            },
            Action::Log { level, text } => ActionView::Log { level: *level, text: text@ },
            Action::Alert { alert } => ActionView::Alert { alert: alert@ },
            Action::Exit { code } => ActionView::Exit { code: *code as int },
        }
    }
}

pub open spec fn action_views(actions: Seq<Action>) -> Seq<ActionView> {
    actions.map_values(|a: Action| a@)
}

/// Where a setting is written.
#[derive(Clone, Copy, PartialEq, Eq, Debug, Structural)]
pub enum Target {
    /// Among the settings that the user cannot change.
    Fixed,
    /// Among the options of this device.
    Local,
}

/// The step that writes a setting.
pub open spec fn write_action(target: Target, setting: SettingView) -> ActionView {
    match target {
        Target::Fixed => ActionView::Overwrite { setting },
        Target::Local => ActionView::SetLocalOption { setting },
    }
}

/// The steps that write each of the settings.
pub open spec fn write_actions(target: Target, settings: Seq<SettingView>) -> Seq<ActionView> {
    settings.map_values(|s: SettingView| write_action(target, s))
}

pub(crate) proof fn lemma_push_view(actions: Seq<Action>, action: Action)
    ensures
        action_views(actions.push(action)) == action_views(actions).push(action@),
{
    assert(action_views(actions.push(action)) =~= action_views(actions).push(action@));
}

pub(crate) proof fn lemma_append_view(actions: Seq<Action>, more: Seq<Action>)
    ensures
        action_views(actions + more) == action_views(actions) + action_views(more),
{
    assert(action_views(actions + more) =~= action_views(actions) + action_views(more));
}

/// Appends the steps that write the settings.
pub(crate) fn push_writes(actions: &mut Vec<Action>, target: Target, settings: Vec<Setting>)
    ensures
        action_views(final(actions)@) == action_views(old(actions)@) + write_actions(
            target,
            setting_views(settings@),
        ),
{
    let ghost before = action_views(actions@);
    let len: usize = settings.len();
    let mut i: usize = 0;
    assert(action_views(actions@) =~= before + write_actions(
        target,
        setting_views(settings@.take(0)),
    ));
    while i < len
        invariant
            i <= len,
            len == settings@.len(),
            action_views(actions@) == before + write_actions(
                target,
                setting_views(settings@.take(i as int)),
            ),
        decreases len - i,
    {
        let setting = Setting {
            name: settings[i].name.clone(),
            value: settings[i].value.clone(),
        };
        let action = match target {
            Target::Fixed => Action::Overwrite { setting },
            Target::Local => Action::SetLocalOption { setting },
        };
        proof {
            lemma_push_view(actions@, action);
        }
        actions.push(action);
        assert(settings@.take(i + 1) =~= settings@.take(i as int).push(settings@[i as int]));
        assert(action_views(actions@) =~= before + write_actions(
            target,
            setting_views(settings@.take(i + 1)),
        ));
        i = i + 1;
    }
    assert(settings@.take(len as int) =~= settings@);
}

} // verus!
