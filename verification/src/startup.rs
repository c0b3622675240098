//! The start-up of a deployed client: the settings that are compiled in, and
//! what follows from the check of the licence.
use vstd::prelude::*;

use crate::action::{
    action_views, lemma_append_view, lemma_push_view, push_writes, write_actions, Action,
    ActionView, LogLevel, Target,
};
use crate::alert::{alert_for, ended_with, exclaimed, native_alert, stopped, AlertView, Platform};
use crate::clock::{
    is_offset, is_reading, local_now, local_offset_at, local_reading, may_read, offset_reading,
    utc_reading, write_time, LocalTime, LATEST_SECOND, MINUTE_PATTERN,
};
use crate::license::{
    check_outcome, check_writes, confirms, decide, denial_message, denial_writes, denies, is_check,
    last_validation, time_matters, LicenseOutcome, LicenseReply, OutcomeView, ServerConfig, ServerView,
    NO_HISTORY_MESSAGE,
};
use crate::password::{daily_password_at, password_of};
use crate::settings::{new_setting, setting, setting_views, Setting, SettingView};
use crate::text::{i64_text, signed_decimal};

verus! {

/// Permanent password for remote connections; none is set when it is empty. The
/// password of the day takes its place once the licence is confirmed.
pub const PASSWORD: &'static str = "";

/// Addresses that may connect, separated by commas, each one alone or in CIDR
/// notation. Any address may connect when it is empty.
pub const WHITELIST: &'static str = "";

/// The name under which the client runs.
pub const APP_NAME: &'static str = "MyRemote";

/// Where the client sends logins, heartbeats and audits.
pub const API_SERVER_URL: &'static str = "https://my.infomek.com.br/api/rustdesk";

/// How the process ends when the licence is denied or blocked, and never
/// otherwise: whoever restarts a client that died knows by it to leave this one
/// alone.
pub const LICENSE_BLOCKED_EXIT_CODE: i32 = 42;

/// What an alert depends on.
#[derive(Clone, Copy, PartialEq, Eq, Debug, Structural)]
pub struct ProcessInfo {
    pub platform: Platform,
    /// Whether the process is a service, without a user or a desktop.
    pub is_service_process: bool,
}

/// What the clocks read in one start-up.
#[derive(Clone, Copy, PartialEq, Eq, Debug, Structural)]
pub struct Readings {
    /// When the licence is checked, in seconds since the start of 1970.
    pub now: i64,
    /// When the password of the day is made.
    pub today: LocalTime,
    /// What the wall clock adds to UTC at the end of the grace period.
    pub grace_end_offset: i32,
}

impl Readings {
    /// Readings that the clocks can give.
    pub open spec fn wf(self) -> bool {
        &&& is_reading(self.now as int)
        &&& self.today.wf()
        &&& is_offset(self.grace_end_offset as int)
    }
}

/// The settings that a server configuration fixes. An empty part of it fixes
/// nothing.
pub open spec fn server_settings(server: ServerView) -> Seq<SettingView> {
    let id = if server.id_server.len() == 0 {
        Seq::empty()
    } else {
        seq![setting("custom-rendezvous-server"@, server.id_server)]
    };
    let relay = if server.relay_server.len() == 0 {
        Seq::empty()
    } else {
        seq![setting("relay-server"@, server.relay_server)]
    };
    let key = if server.key.len() == 0 {
        Seq::empty()
    } else {
        seq![setting("key"@, server.key)]
    };
    id + relay + key + seq![
        setting("api-server"@, API_SERVER_URL@),
        setting("verification-method"@, "use-permanent-password"@),
    ]
}

/// The first steps, which end with the request to the licensing API.
pub open spec fn launch_actions(password: Seq<char>, whitelist: Seq<char>) -> Seq<ActionView> {
    let name = seq![ActionView::SetAppName { name: APP_NAME@ }];
    let addresses = if whitelist.len() == 0 {
        Seq::empty()
    } else {
        seq![ActionView::Overwrite { setting: setting("whitelist"@, whitelist) }]
    };
    let access = if password.len() == 0 {
        Seq::empty()
    } else {
        seq![
            ActionView::Overwrite {
                setting: setting("verification-method"@, "use-permanent-password"@),
            },
            ActionView::SetPermanentPassword { password },
        ]
    };
    name + addresses + access + seq![ActionView::AskLicense]
}

/// The steps that let the client run with the servers of its licence.
pub open spec fn proceed_actions(server: ServerView, today: LocalTime) -> Seq<ActionView> {
    write_actions(Target::Fixed, server_settings(server)) + seq![
        ActionView::SetPermanentPassword { password: password_of(today) },
        ActionView::SpawnPasswordRefresher { day: today },
    ]
}

pub open spec fn alert_actions(alert: Option<AlertView>) -> Seq<ActionView> {
    match alert {
        Some(a) => seq![ActionView::Alert { alert: a }],
        None => Seq::empty(),
    }
}

/// The steps that log a text and show it.
pub open spec fn show_actions(level: LogLevel, text: Seq<char>, info: ProcessInfo) -> Seq<
    ActionView,
> {
    seq![ActionView::Log { level, text }] + alert_actions(
        alert_for(info.platform, info.is_service_process, text),
    )
}

/// The steps that tell the user why the client stops.
pub open spec fn blocked_dialog(message: Seq<char>, info: ProcessInfo) -> Seq<ActionView> {
    show_actions(LogLevel::Error, ended_with(message, '!'), info)
}

/// The steps that give the user a notice.
pub open spec fn grace_notice(message: Seq<char>, info: ProcessInfo) -> Seq<ActionView> {
    show_actions(LogLevel::Warn, ended_with(message, '.'), info)
}

/// The notice that the client runs on an earlier confirmation.
pub open spec fn grace_message(expiry: LocalTime) -> Seq<char> {
    "Período de teste Infomek ativo (sem conexão com o servidor de licenciamento) — expira em "@
        + expiry.minute_text()
}

/// The line in the log that says the same, and since when.
pub open spec fn offline_line(offline_secs: int, expiry: LocalTime) -> Seq<char> {
    "Licença operando em modo offline (cache local, sem contato com a API desde "@ + signed_decimal(
        offline_secs,
    ) + "s atrás). Prazo de tolerância até "@ + expiry.minute_text() + "."@
}

/// The steps that stop the client.
pub open spec fn halt_actions(message: Seq<char>, info: ProcessInfo) -> Seq<ActionView> {
    blocked_dialog(message, info) + seq![
        ActionView::Exit { code: LICENSE_BLOCKED_EXIT_CODE as int },
    ]
}

/// The end of the grace period on the wall clock. Where it lies past chrono's last
/// second there is no such time, and the time of the start-up stands for it.
pub open spec fn grace_end(grace_expires_at: int, readings: Readings) -> LocalTime {
    if is_reading(grace_expires_at) {
        LocalTime {
            utc_secs: grace_expires_at as i64,
            offset_secs: readings.grace_end_offset,
        }
    } else {
        readings.today
    }
}

/// The steps that follow from a check of the licence.
pub open spec fn outcome_actions(
    outcome: OutcomeView,
    readings: Readings,
    info: ProcessInfo,
) -> Seq<ActionView> {
    match outcome {
        OutcomeView::Valid(server) => proceed_actions(server, readings.today),
        OutcomeView::CachedGrace { server, grace_expires_at, offline_secs } => {
            let end = grace_end(grace_expires_at, readings);
            seq![ActionView::Log { level: LogLevel::Warn, text: offline_line(offline_secs, end) }]
                + proceed_actions(server, readings.today) + grace_notice(grace_message(end), info)
        },
        OutcomeView::Denied { message } => halt_actions(message, info),
        OutcomeView::Blocked { message } => halt_actions(message, info),
    }
}

/// The steps that follow from a reply.
pub open spec fn apply_actions(
    reply: LicenseReply,
    cached: Seq<char>,
    last_validated: Seq<char>,
    readings: Readings,
    info: ProcessInfo,
) -> Seq<ActionView> {
    write_actions(Target::Local, check_writes(reply, readings.now as int)) + outcome_actions(
        check_outcome(reply, cached, last_validated, readings.now as int),
        readings,
        info,
    )
}

/// Whether the clocks handed `readings` back in a start-up on this reply, as far
/// as its steps depend on them: the time of the check where it matters, the local
/// time where the client runs, and the time zone at the end of the grace period
/// where that end is shown.
pub open spec fn clocks_gave(
    reply: LicenseReply,
    cached: Seq<char>,
    last_validated: Seq<char>,
    readings: Readings,
) -> bool {
    &&& time_matters(reply, cached, last_validated) ==> utc_reading(readings.now)
    &&& match check_outcome(reply, cached, last_validated, readings.now as int) {
        OutcomeView::Valid(_) => local_reading(readings.today),
        OutcomeView::CachedGrace { grace_expires_at, .. } => {
            &&& local_reading(readings.today)
            &&& is_reading(grace_expires_at) ==> offset_reading(
                grace_expires_at as i64,
                readings.grace_end_offset,
            )
        },
        _ => true,
    }
}

/// The settings to fix for the servers of a licence, in this order.
pub fn apply_server_config(server: ServerConfig) -> (res: Vec<Setting>)
    ensures
        setting_views(res@) == server_settings(server@),
{
    let mut settings: Vec<Setting> = Vec::new();
    if !server.id_server.as_str().is_empty() {
        settings.push(new_setting("custom-rendezvous-server", server.id_server.as_str()));
    }
    if !server.relay_server.as_str().is_empty() {
        settings.push(new_setting("relay-server", server.relay_server.as_str()));
    }
    if !server.key.as_str().is_empty() {
        settings.push(new_setting("key", server.key.as_str()));
    }
    settings.push(new_setting("api-server", API_SERVER_URL));
    settings.push(new_setting("verification-method", "use-permanent-password"));
    assert(setting_views(settings@) =~= server_settings(server@));
    settings
}

/// The first steps, with the given permanent password and the given addresses.
pub fn launch_with(password: &str, whitelist: &str) -> (res: Vec<Action>)
    ensures
        action_views(res@) == launch_actions(password@, whitelist@),
{
    let mut actions: Vec<Action> = Vec::new();
    actions.push(Action::SetAppName { name: APP_NAME.to_owned() });
    if !whitelist.is_empty() {
        actions.push(Action::Overwrite { setting: new_setting("whitelist", whitelist) });
    }
    if !password.is_empty() {
        actions.push(
            Action::Overwrite {
                setting: new_setting("verification-method", "use-permanent-password"),
            },
        );
        actions.push(Action::SetPermanentPassword { password: password.to_owned() });
    }
    actions.push(Action::AskLicense);
    assert(action_views(actions@) =~= launch_actions(password@, whitelist@));
    actions
}

/// The first steps. The name comes before everything else, because it decides
/// where the local options are kept.
pub fn launch() -> (res: Vec<Action>)
    ensures
        action_views(res@) == launch_actions(PASSWORD@, WHITELIST@),
{
    launch_with(PASSWORD, WHITELIST)
}

fn push_show(actions: &mut Vec<Action>, level: LogLevel, text: String, info: ProcessInfo)
    ensures
        action_views(final(actions)@) == action_views(old(actions)@) + show_actions(
            level,
            text@,
            info,
        ),
{
    let ghost before = action_views(actions@);
    let alert = native_alert(info.platform, info.is_service_process, text.as_str());
    let ghost shown = text@;
    actions.push(Action::Log { level, text });
    if let Some(alert) = alert {
        actions.push(Action::Alert { alert });
    }
    assert(action_views(actions@) =~= before + show_actions(level, shown, info));
}

/// The steps that tell the user why the client stops. Whoever takes them ends
/// the process afterwards.
pub fn show_license_blocked_dialog(message: &str, info: ProcessInfo) -> (res: Vec<Action>)
    ensures
        action_views(res@) == blocked_dialog(message@, info),
{
    let mut actions: Vec<Action> = Vec::new();
    push_show(&mut actions, LogLevel::Error, exclaimed(message), info);
    assert(action_views(actions@) =~= blocked_dialog(message@, info));
    actions
}

/// The steps that give the user a notice, after which the client goes on.
pub fn show_license_grace_notice(message: &str, info: ProcessInfo) -> (res: Vec<Action>)
    ensures
        action_views(res@) == grace_notice(message@, info),
{
    let mut actions: Vec<Action> = Vec::new();
    push_show(&mut actions, LogLevel::Warn, stopped(message), info);
    assert(action_views(actions@) =~= grace_notice(message@, info));
    actions
}

fn push_proceed(actions: &mut Vec<Action>, server: ServerConfig, today: &LocalTime)
    requires
        today.wf(),
    ensures
        action_views(final(actions)@) == action_views(old(actions)@) + proceed_actions(
            server@,
            *today,
        ),
{
    let ghost before = action_views(actions@);
    let ghost view = server@;
    push_writes(actions, Target::Fixed, apply_server_config(server));
    let set = Action::SetPermanentPassword { password: daily_password_at(today) };
    let follow = Action::SpawnPasswordRefresher { day: *today };
    proof {
        lemma_push_view(actions@, set);
        lemma_push_view(actions@.push(set), follow);
    }
    actions.push(set);
    actions.push(follow);
    assert(action_views(actions@) =~= before + proceed_actions(view, *today));
}

fn push_halt(actions: &mut Vec<Action>, message: &str, info: ProcessInfo)
    ensures
        action_views(final(actions)@) == action_views(old(actions)@) + halt_actions(message@, info),
{
    let ghost before = action_views(actions@);
    let mut dialog = show_license_blocked_dialog(message, info);
    let exit = Action::Exit { code: LICENSE_BLOCKED_EXIT_CODE };
    proof {
        lemma_append_view(actions@, dialog@);
        lemma_push_view(actions@ + dialog@, exit);
    }
    actions.append(&mut dialog);
    actions.push(exit);
    assert(action_views(actions@) =~= before + halt_actions(message@, info));
}

fn push_grace(
    actions: &mut Vec<Action>,
    server: ServerConfig,
    offline_secs: i64,
    today: &LocalTime,
    end: &LocalTime,
    info: ProcessInfo,
)
    requires
        today.wf(),
        end.wf(),
    ensures
        action_views(final(actions)@) == action_views(old(actions)@) + (seq![
            ActionView::Log {
                level: LogLevel::Warn,
                text: offline_line(offline_secs as int, *end),
            },
        ] + proceed_actions(server@, *today) + grace_notice(grace_message(*end), info)),
{
    let ghost before = action_views(actions@);
    let ghost view = server@;
    let until = write_time(end, MINUTE_PATTERN);
    let since = i64_text(offline_secs);
    let mut line =
        "Licença operando em modo offline (cache local, sem contato com a API desde ".to_owned();
    line.append(since.as_str());
    line.append("s atrás). Prazo de tolerância até ");
    line.append(until.as_str());
    line.append(".");
    let ghost log = seq![ActionView::Log { level: LogLevel::Warn, text: line@ }];
    actions.push(Action::Log { level: LogLevel::Warn, text: line });
    assert(action_views(actions@) =~= before + log);
    push_proceed(actions, server, today);
    let mut message =
        "Período de teste Infomek ativo (sem conexão com o servidor de licenciamento) — expira em ".to_owned();
    message.append(until.as_str());
    let mut notice = show_license_grace_notice(message.as_str(), info);
    let ghost shown = action_views(notice@);
    proof {
        lemma_append_view(actions@, notice@);
    }
    actions.append(&mut notice);
    assert(action_views(actions@) =~= before + (log + proceed_actions(view, *today) + shown));
}

/// The local time of the start-up; a reading that is given stands for it.
fn read_today(given: Option<Readings>) -> (today: LocalTime)
    requires
        given matches Some(r) ==> r.wf(),
    ensures
        today.wf(),
        given matches Some(r) ==> today == r.today,
        given is None ==> local_reading(today),
{
    match given {
        Some(readings) => readings.today,
        None => local_now(),
    }
}

/// What the wall clock adds to UTC at the end of the grace period; a reading that
/// is given stands for it.
fn read_grace_end_offset(grace_expires_at: i64, given: Option<Readings>) -> (secs: i32)
    requires
        is_reading(grace_expires_at as int),
        given matches Some(r) ==> r.wf(),
    ensures
        is_offset(secs as int),
        given matches Some(r) ==> secs == r.grace_end_offset,
        given is None ==> offset_reading(grace_expires_at, secs),
{
    match given {
        Some(readings) => readings.grace_end_offset,
        None => local_offset_at(grace_expires_at),
    }
}

/// Whether the clocks may give `readings`: where readings are given, it is those,
/// and otherwise it is what the clocks handed back.
spec fn may_give(
    given: Option<Readings>,
    reply: LicenseReply,
    cached: Seq<char>,
    last_validated: Seq<char>,
    readings: Readings,
) -> bool {
    readings.wf() && match given {
        Some(r) => readings == r,
        None => clocks_gave(reply, cached, last_validated, readings),
    }
}

/// The steps that follow from a reply. The clocks are read only where the steps
/// depend on them; readings that are given stand for them.
fn steps(
    reply: LicenseReply,
    cached: &str,
    last_validated: &str,
    info: ProcessInfo,
    given: Option<Readings>,
) -> (res: Vec<Action>)
    requires
        given matches Some(r) ==> r.wf(),
    ensures
        exists|r: Readings| #[trigger]
            may_give(given, reply, cached@, last_validated@, r) && action_views(res@)
                == apply_actions(
                reply,
                cached@,
                last_validated@,
                r,
                info,
            ),
{
    let given_now: Option<i64> = match given {
        Some(readings) => Some(readings.now),
        None => None,
    };
    let check = decide(reply, cached, last_validated, given_now);
    let ghost matters = time_matters(reply, cached@, last_validated@);
    let ghost now: i64 = if matters {
        choose|now: i64| #[trigger]
            may_read(given_now, now) && is_check(
                check,
                reply,
                cached@,
                last_validated@,
                now as int,
            )
    } else {
        match given {
            Some(r) => r.now,
            None => 0,
        }
    };
    assert(is_check(check, reply, cached@, last_validated@, now as int));
    // Where the steps depend on no other reading, this one stands for all.
    let ghost other = match given {
        Some(r) => r,
        None => Readings {
            now,
            today: LocalTime { utc_secs: 0, offset_secs: 0 },
            grace_end_offset: 0,
        },
    };
    let mut actions: Vec<Action> = Vec::new();
    push_writes(&mut actions, Target::Local, check.writes);
    match check.outcome {
        LicenseOutcome::Valid(server) => {
            let today = read_today(given);
            push_proceed(&mut actions, server, &today);
            assert(may_give(
                    given,
                    reply,
                    cached@,
                    last_validated@,
                    Readings { today, ..other },
                ));
        },
        LicenseOutcome::CachedGrace { server, grace_expires_at, offline_secs } => {
            if grace_expires_at <= LATEST_SECOND {
                let offset_secs = read_grace_end_offset(grace_expires_at, given);
                let end = LocalTime { utc_secs: grace_expires_at, offset_secs };
                let today = read_today(given);
                push_grace(&mut actions, server, offline_secs, &today, &end, info);
                let ghost r = Readings { today, grace_end_offset: offset_secs, ..other };
                assert(grace_end(grace_expires_at as int, r) == end);
                assert(may_give(given, reply, cached@, last_validated@, r));
            } else {
                let today = read_today(given);
                push_grace(&mut actions, server, offline_secs, &today, &today, info);
                assert(may_give(
                    given,
                    reply,
                    cached@,
                    last_validated@,
                    Readings { today, ..other },
                ));
            }
        },
        LicenseOutcome::Denied { message } => {
            push_halt(&mut actions, message.as_str(), info);
            assert(may_give(given, reply, cached@, last_validated@, other));
        },
        LicenseOutcome::Blocked { message } => {
            push_halt(&mut actions, message.as_str(), info);
            assert(may_give(given, reply, cached@, last_validated@, other));
        },
    }
    actions
}

/// The steps that follow from a reply, when the clocks give `readings`.
pub fn apply_at(
    reply: LicenseReply,
    cached: &str,
    last_validated: &str,
    readings: Readings,
    info: ProcessInfo,
) -> (res: Vec<Action>)
    requires
        readings.wf(),
    ensures
        action_views(res@) == apply_actions(reply, cached@, last_validated@, readings, info),
{
    steps(reply, cached, last_validated, info, Some(readings))
}

/// The steps that follow from a reply now, given the values of the local options
/// that keep the servers of the last good answer and its time.
///
/// The clocks are read only where the steps depend on them: a denial, and a
/// device without history that got no answer, end the process whatever the time.
pub fn apply(reply: LicenseReply, cached: &str, last_validated: &str, info: ProcessInfo) -> (res:
    Vec<Action>)
    ensures
        denies(reply) ==> action_views(res@) == write_actions(Target::Local, denial_writes())
            + halt_actions(denial_message(reply->Answer_0), info),
        !denies(reply) && !confirms(reply) && last_validation(cached@, last_validated@) is None
            ==> action_views(res@) == halt_actions(NO_HISTORY_MESSAGE@, info),
        exists|readings: Readings| #[trigger]
            readings.wf() && action_views(res@) == apply_actions(
                reply,
                cached@,
                last_validated@,
                readings,
                info,
            ),
        exists|readings: Readings| #[trigger]
            clocks_gave(reply, cached@, last_validated@, readings) && readings.wf()
                && action_views(res@) == apply_actions(
                reply,
                cached@,
                last_validated@,
                readings,
                info,
            ),
{
    let actions = steps(reply, cached, last_validated, info, None);
    proof {
        let r = choose|r: Readings| #[trigger]
            may_give(None, reply, cached@, last_validated@, r) && action_views(actions@)
                == apply_actions(
                reply,
                cached@,
                last_validated@,
                r,
                info,
            );
        assert(r.wf());
        assert(clocks_gave(reply, cached@, last_validated@, r));
    }
    actions
}

} // verus!
