//! The views of the library's values hide nothing: what a contract says of a view
//! it says of the value's own fields.
use vstd::prelude::*;

use crate::action::{action_views, Action, ActionView};
use crate::alert::{alert_view, command_view, AlertView, CommandLine, NativeAlert};
use crate::license::{LicenseOutcome, OutcomeView, ServerConfig};
use crate::password::password_view;
use crate::settings::{setting_views, Setting};

verus! {

/// A setting is its name and its value.
pub proof fn setting_is_its_name_and_value(setting: Setting)
    ensures
        setting@.name == setting.name@,
        setting@.value == setting.value@,
{
}

/// A list of settings is seen one by one, in its order.
pub proof fn settings_are_seen_one_by_one(settings: Seq<Setting>)
    ensures
        setting_views(settings).len() == settings.len(),
        forall|i: int|
            0 <= i < settings.len() ==> {
                &&& (#[trigger] setting_views(settings)[i]).name == settings[i].name@
                &&& setting_views(settings)[i].value == settings[i].value@
            },
{
}

/// A server configuration is its three texts.
pub proof fn server_is_its_three_texts(server: ServerConfig)
    ensures
        server@.id_server == server.id_server@,
        server@.relay_server == server.relay_server@,
        server@.key == server.key@,
{
}

/// An outcome is its kind and all that comes with it.
pub proof fn outcome_is_its_kind_and_fields(outcome: LicenseOutcome)
    ensures
        match outcome {
            LicenseOutcome::Valid(server) => outcome@ matches OutcomeView::Valid(s) && {
                &&& s.id_server == server.id_server@
                &&& s.relay_server == server.relay_server@
                &&& s.key == server.key@
            },
            LicenseOutcome::CachedGrace { server, grace_expires_at, offline_secs } => outcome@
                matches OutcomeView::CachedGrace { server: s, grace_expires_at: g, offline_secs: o }
                && {
                &&& s.id_server == server.id_server@
                &&& s.relay_server == server.relay_server@
                &&& s.key == server.key@
                &&& g == grace_expires_at
                &&& o == offline_secs
            },
            LicenseOutcome::Denied { message } => outcome@ matches OutcomeView::Denied {
                message: m,
            } && m == message@,
            LicenseOutcome::Blocked { message } => outcome@ matches OutcomeView::Blocked {
                message: m,
            } && m == message@,
        },
{
}

/// A command is its program and its arguments, in their order.
pub proof fn command_is_its_program_and_arguments(command: CommandLine)
    ensures
        command@.program == command.program@,
        command@.args.len() == command.args@.len(),
        forall|i: int|
            0 <= i < command.args@.len() ==> #[trigger] command@.args[i] == command.args@[i]@,
{
}

/// An alert is the text that the system shows, or the two programs.
pub proof fn alert_is_its_kind_and_fields(alert: NativeAlert)
    ensures
        match alert {
            NativeAlert::MessageBox { text } => alert@ matches AlertView::MessageBox { text: t }
                && t == text@,
            NativeAlert::Command { first, fallback } => alert@ matches AlertView::Command {
                first: f,
                fallback: b,
            } && f == first@ && match fallback {
                Some(command) => b == Some(command@),
                None => b is None,
            },
        },
        alert_view(Some(alert)) == Some(alert@),
        alert_view(None) is None,
{
}

/// What may be missing is seen as missing, and otherwise as what it is.
pub proof fn option_is_seen_as_what_it_holds(command: &CommandLine, password: String)
    ensures
        command_view(Some(command)) == Some(command@),
        command_view(None) is None,
        password_view(Some(password)) == Some(password@),
        password_view(None) is None,
{
}

/// A step is its kind and all that comes with it.
pub proof fn step_is_its_kind_and_fields(action: Action)
    ensures
        match action {
            Action::SetAppName { name } => action@ == (ActionView::SetAppName { name: name@ }),
            Action::AskLicense => action@ == ActionView::AskLicense,
            Action::Overwrite { setting } => action@ matches ActionView::Overwrite { setting: s }
                && s.name == setting.name@ && s.value == setting.value@,
            Action::SetLocalOption { setting } => action@ matches ActionView::SetLocalOption {
                setting: s,
            } && s.name == setting.name@ && s.value == setting.value@,
            Action::SetPermanentPassword { password } => action@ == (
            ActionView::SetPermanentPassword { password: password@ }),
            Action::SpawnPasswordRefresher { day } => action@ == (
            ActionView::SpawnPasswordRefresher { day }),
            Action::Log { level, text } => action@ == (ActionView::Log { level, text: text@ }),
            Action::Alert { alert } => action@ == (ActionView::Alert { alert: alert@ }),
            Action::Exit { code } => action@ == (ActionView::Exit { code: code as int }),
        },
{
}

/// A list of steps is seen one by one, in its order.
pub proof fn steps_are_seen_one_by_one(actions: Seq<Action>)
    ensures
        action_views(actions).len() == actions.len(),
        forall|i: int|
            0 <= i < actions.len() ==> #[trigger] action_views(actions)[i] == actions[i]@,
{
}

} // verus!
