//! What holds of the library as a whole.
//!
//! A client is modelled by what the steps of a start-up leave behind in it.
use vstd::prelude::*;

use crate::action::{write_actions, ActionView, LogLevel, Target};
use crate::alert::{
    alert_for, dialog_script, ended_with, escaped, escaped_char, kdialog, literal, programs_run,
    zenity, Platform,
};
use crate::clock::{local_date_exists, two_digits, LocalTime};
use crate::license::{
    answered_server, cache_text, cached_server, check_outcome, check_writes, confirmation_writes,
    confirms, denial_writes, denies, no_history, LicenseCheckResponse, LicenseReply,
    OutcomeView, ServerView, LICENSE_EXPIRY_KEY, LICENSE_GRACE_PERIOD_SECS,
    LICENSE_LAST_VALIDATED_KEY, LICENSE_SERVER_CACHE_KEY, STALE_MESSAGE,
};
use crate::password::{password_of, refresh, PASSWORD_PREFIX, REFRESH_PERIOD_SECS};
use crate::settings::{lookup, setting, stored, SettingView, Store};
use crate::startup::{
    apply_actions, blocked_dialog, grace_end, grace_message, grace_notice, halt_actions,
    launch_actions, offline_line, outcome_actions, proceed_actions, server_settings, show_actions,
    ProcessInfo, Readings, API_SERVER_URL, APP_NAME, LICENSE_BLOCKED_EXIT_CODE,
};
use crate::text::{
    decimal_denotes_its_number, digit, first_line_of_joined, has_newline, i64_text_reads_back,
    signed_decimal, trailing_run_is_removed, without_trailing,
};

verus! {

/// A client, as far as start-up changes it.
pub struct Client {
    pub app_name: Seq<char>,
    /// The settings that the user cannot change.
    pub fixed: Store,
    /// The options of the device.
    pub local: Store,
    pub password: Seq<char>,
    /// The day that is followed, once the password changes with the day: the one
    /// on which the clock was last seen.
    pub day_followed: Option<LocalTime>,
    /// How the process ended, if it did.
    pub exit_code: Option<int>,
}

/// What a step leaves behind. A process that has ended takes no more steps.
pub open spec fn performed(client: Client, action: ActionView) -> Client {
    if client.exit_code is Some {
        client
    } else {
        match action {
            ActionView::SetAppName { name } => Client { app_name: name, ..client },
            ActionView::AskLicense => client,
            ActionView::Overwrite { setting } => Client {
                fixed: client.fixed.insert(setting.name, setting.value),
                ..client
            },
            ActionView::SetLocalOption { setting } => Client {
                local: client.local.insert(setting.name, setting.value),
                ..client
            },
            ActionView::SetPermanentPassword { password } => Client { password, ..client },
            ActionView::SpawnPasswordRefresher { day } => Client {
                day_followed: Some(day),
                ..client
            },
            ActionView::Log { .. } => client,
            ActionView::Alert { .. } => client,
            ActionView::Exit { code } => Client { exit_code: Some(code), ..client },
        }
    }
}

/// What a list of steps leaves behind.
pub open spec fn performed_all(client: Client, actions: Seq<ActionView>) -> Client
    decreases actions.len(),
{
    if actions.len() == 0 {
        client
    } else {
        performed(performed_all(client, actions.drop_last()), actions.last())
    }
}

/// Whether a check lets the client run.
pub open spec fn lets_run(outcome: OutcomeView) -> bool {
    outcome is Valid || outcome is CachedGrace
}

/// The servers that a check lets the client run with.
pub open spec fn outcome_server(outcome: OutcomeView) -> ServerView {
    match outcome {
        OutcomeView::Valid(server) => server,
        OutcomeView::CachedGrace { server, .. } => server,
        _ => arbitrary(),
    }
}

/// Whether two times agree in day, month and year of the century.
pub open spec fn same_date(a: LocalTime, b: LocalTime) -> bool {
    &&& a.date().day == b.date().day
    &&& a.date().month == b.date().month
    &&& a.date().year % 100 == b.date().year % 100
}

/// One look at the clock of a client that follows the day: what the clock shows,
/// and what it shows when the password is made, if one is.
pub struct Look {
    pub seen: LocalTime,
    pub made: LocalTime,
}

impl Look {
    /// Readings that the clock can give.
    pub open spec fn wf(self) -> bool {
        self.seen.wf() && self.made.wf()
    }
}

/// What a look at the clock leaves behind.
pub open spec fn watched(client: Client, look: Look) -> Client {
    match client.day_followed {
        Some(day) => Client {
            password: match refresh(day.day_text(), look.seen, look.made) {
                Some(password) => password,
                None => client.password,
            },
            day_followed: Some(look.seen),
            ..client
        },
        None => client,
    }
}

/// What a series of looks at the clock leaves behind.
pub open spec fn watched_all(client: Client, looks: Seq<Look>) -> Client
    decreases looks.len(),
{
    if looks.len() == 0 {
        client
    } else {
        watched(watched_all(client, looks.drop_last()), looks.last())
    }
}

/// Whether two times lie on the same day.
pub open spec fn same_day(a: LocalTime, b: LocalTime) -> bool {
    a.date() == b.date()
}

proof fn lemma_performed_concat(client: Client, first: Seq<ActionView>, second: Seq<ActionView>)
    ensures
        performed_all(client, first + second) == performed_all(
            performed_all(client, first),
            second,
        ),
    decreases second.len(),
{
    if second.len() == 0 {
        assert(first + second =~= first);
    } else {
        lemma_performed_concat(client, first, second.drop_last());
        assert((first + second).drop_last() =~= first + second.drop_last());
        assert((first + second).last() == second.last());
    }
}

proof fn lemma_performed_one(client: Client, action: ActionView)
    ensures
        performed_all(client, seq![action]) == performed(client, action),
{
    assert(seq![action].drop_last() =~= Seq::<ActionView>::empty());
    assert(performed_all(client, Seq::<ActionView>::empty()) == client);
}

proof fn lemma_overwrites_performed(client: Client, settings: Seq<SettingView>)
    requires
        client.exit_code is None,
    ensures
        performed_all(client, write_actions(Target::Fixed, settings)) == (Client {
            fixed: stored(client.fixed, settings),
            ..client
        }),
    decreases settings.len(),
{
    if settings.len() > 0 {
        lemma_overwrites_performed(client, settings.drop_last());
        assert(write_actions(Target::Fixed, settings).drop_last() =~= write_actions(
            Target::Fixed,
            settings.drop_last(),
        ));
    }
}

proof fn lemma_local_writes_performed(client: Client, settings: Seq<SettingView>)
    requires
        client.exit_code is None,
    ensures
        performed_all(client, write_actions(Target::Local, settings)) == (Client {
            local: stored(client.local, settings),
            ..client
        }),
    decreases settings.len(),
{
    if settings.len() > 0 {
        lemma_local_writes_performed(client, settings.drop_last());
        assert(write_actions(Target::Local, settings).drop_last() =~= write_actions(
            Target::Local,
            settings.drop_last(),
        ));
    }
}

proof fn lemma_show_performed(
    client: Client,
    level: LogLevel,
    text: Seq<char>,
    info: ProcessInfo,
)
    ensures
        performed_all(client, show_actions(level, text, info)) == client,
{
    let log = ActionView::Log { level, text };
    lemma_performed_one(client, log);
    match alert_for(info.platform, info.is_service_process, text) {
        Some(alert) => {
            lemma_performed_concat(client, seq![log], seq![ActionView::Alert { alert }]);
            lemma_performed_one(client, ActionView::Alert { alert });
        },
        None => {
            assert(show_actions(level, text, info) =~= seq![log]);
        },
    }
}

proof fn lemma_proceed_performed(client: Client, server: ServerView, today: LocalTime)
    requires
        client.exit_code is None,
    ensures
        performed_all(client, proceed_actions(server, today)) == (Client {
            fixed: stored(client.fixed, server_settings(server)),
            password: password_of(today),
            day_followed: Some(today),
            ..client
        }),
{
    let set = ActionView::SetPermanentPassword { password: password_of(today) };
    let follow = ActionView::SpawnPasswordRefresher { day: today };
    let fixed = performed_all(client, write_actions(Target::Fixed, server_settings(server)));
    lemma_overwrites_performed(client, server_settings(server));
    lemma_performed_concat(
        client,
        write_actions(Target::Fixed, server_settings(server)),
        seq![set, follow],
    );
    assert(seq![set, follow] =~= seq![set] + seq![follow]);
    lemma_performed_concat(fixed, seq![set], seq![follow]);
    lemma_performed_one(fixed, set);
    lemma_performed_one(performed(fixed, set), follow);
}

/// What a start-up leaves behind: the options that the check wrote, and then
/// either the servers, the password of the day and its renewal, or the end of
/// the process.
pub proof fn what_apply_leaves(
    client: Client,
    reply: LicenseReply,
    cached: Seq<char>,
    last_validated: Seq<char>,
    readings: Readings,
    info: ProcessInfo,
)
    requires
        client.exit_code is None,
    ensures
        ({
            let outcome = check_outcome(reply, cached, last_validated, readings.now as int);
            let after = performed_all(
                client,
                apply_actions(reply, cached, last_validated, readings, info),
            );
            let written = Client {
                local: stored(client.local, check_writes(reply, readings.now as int)),
                ..client
            };
            if lets_run(outcome) {
                after == (Client {
                    fixed: stored(client.fixed, server_settings(outcome_server(outcome))),
                    password: password_of(readings.today),
                    day_followed: Some(readings.today),
                    ..written
                })
            } else {
                after == (Client { exit_code: Some(LICENSE_BLOCKED_EXIT_CODE as int), ..written })
            }
        }),
{
    let outcome = check_outcome(reply, cached, last_validated, readings.now as int);
    let writes = write_actions(Target::Local, check_writes(reply, readings.now as int));
    let rest = outcome_actions(outcome, readings, info);
    lemma_performed_concat(client, writes, rest);
    lemma_local_writes_performed(client, check_writes(reply, readings.now as int));
    let written = performed_all(client, writes);
    match outcome {
        OutcomeView::Valid(server) => {
            lemma_proceed_performed(written, server, readings.today);
        },
        OutcomeView::CachedGrace { server, grace_expires_at, offline_secs } => {
            let end = grace_end(grace_expires_at, readings);
            let log = ActionView::Log {
                level: LogLevel::Warn,
                text: offline_line(offline_secs, end),
            };
            let proceed = proceed_actions(server, readings.today);
            let notice = grace_notice(grace_message(end), info);
            lemma_performed_concat(written, seq![log] + proceed, notice);
            lemma_performed_concat(written, seq![log], proceed);
            lemma_performed_one(written, log);
            lemma_proceed_performed(written, server, readings.today);
            lemma_show_performed(
                performed_all(written, proceed),
                LogLevel::Warn,
                ended_with(grace_message(end), '.'),
                info,
            );
        },
        OutcomeView::Denied { message } => {
            lemma_halt_performed(written, message, info);
        },
        OutcomeView::Blocked { message } => {
            lemma_halt_performed(written, message, info);
        },
    }
}

/// The client never goes on without a server of its own: unless it runs with the
/// servers that its licence named, and reports to the API server of this
/// deployment, its process ends.
pub proof fn never_runs_without_its_own_server(
    client: Client,
    reply: LicenseReply,
    cached: Seq<char>,
    last_validated: Seq<char>,
    readings: Readings,
    info: ProcessInfo,
)
    requires
        client.exit_code is None,
    ensures
        ({
            let outcome = check_outcome(reply, cached, last_validated, readings.now as int);
            let after = performed_all(
                client,
                apply_actions(reply, cached, last_validated, readings, info),
            );
            let server = outcome_server(outcome);
            after.exit_code is None ==> {
                &&& server.id_server.len() > 0
                &&& lookup(after.fixed, "custom-rendezvous-server"@) == server.id_server
                &&& server.relay_server.len() > 0 ==> lookup(after.fixed, "relay-server"@)
                    == server.relay_server
                &&& server.key.len() > 0 ==> lookup(after.fixed, "key"@) == server.key
                &&& lookup(after.fixed, "api-server"@) == API_SERVER_URL@
            }
        }),
{
    what_apply_leaves(client, reply, cached, last_validated, readings, info);
    let outcome = check_outcome(reply, cached, last_validated, readings.now as int);
    if lets_run(outcome) {
        lemma_stored_server(client.fixed, outcome_server(outcome));
    }
}

/// The process ends exactly when the licence is denied or blocked, and then with
/// the exit code that says so.
pub proof fn ends_exactly_when_not_licensed(
    client: Client,
    reply: LicenseReply,
    cached: Seq<char>,
    last_validated: Seq<char>,
    readings: Readings,
    info: ProcessInfo,
)
    requires
        client.exit_code is None,
    ensures
        ({
            let outcome = check_outcome(reply, cached, last_validated, readings.now as int);
            let after = performed_all(
                client,
                apply_actions(reply, cached, last_validated, readings, info),
            );
            &&& after.exit_code is Some <==> (outcome is Denied || outcome is Blocked)
            &&& after.exit_code is Some ==> after.exit_code == Some(
                LICENSE_BLOCKED_EXIT_CODE as int,
            )
        }),
{
    what_apply_leaves(client, reply, cached, last_validated, readings, info);
}

/// Whatever password is compiled in, a client that runs has the password of the
/// day, asks for it, and changes it with the day.
pub proof fn daily_password_takes_over(
    client: Client,
    password: Seq<char>,
    whitelist: Seq<char>,
    reply: LicenseReply,
    cached: Seq<char>,
    last_validated: Seq<char>,
    readings: Readings,
    info: ProcessInfo,
)
    requires
        client.exit_code is None,
    ensures
        ({
            let after = performed_all(
                client,
                launch_actions(password, whitelist) + apply_actions(
                    reply,
                    cached,
                    last_validated,
                    readings,
                    info,
                ),
            );
            after.exit_code is None ==> {
                &&& after.password == password_of(readings.today)
                &&& after.day_followed == Some(readings.today)
                &&& lookup(after.fixed, "verification-method"@) == "use-permanent-password"@
            }
        }),
{
    let first = launch_actions(password, whitelist);
    let second = apply_actions(reply, cached, last_validated, readings, info);
    let launched = performed_all(client, first);
    what_launch_leaves(client, password, whitelist);
    lemma_performed_concat(client, first, second);
    what_apply_leaves(launched, reply, cached, last_validated, readings, info);
    let outcome = check_outcome(reply, cached, last_validated, readings.now as int);
    if lets_run(outcome) {
        lemma_stored_server(launched.fixed, outcome_server(outcome));
    }
}

/// What the first steps leave behind: the name, and what is compiled in.
pub proof fn what_launch_leaves(client: Client, password: Seq<char>, whitelist: Seq<char>)
    requires
        client.exit_code is None,
    ensures
        ({
            let after = performed_all(client, launch_actions(password, whitelist));
            let listed = if whitelist.len() == 0 {
                client.fixed
            } else {
                client.fixed.insert("whitelist"@, whitelist)
            };
            after == (Client {
                app_name: APP_NAME@,
                fixed: if password.len() == 0 {
                    listed
                } else {
                    listed.insert("verification-method"@, "use-permanent-password"@)
                },
                password: if password.len() == 0 {
                    client.password
                } else {
                    password
                },
                ..client
            })
        }),
{
    let actions = launch_actions(password, whitelist);
    let name = ActionView::SetAppName { name: APP_NAME@ };
    let list = ActionView::Overwrite { setting: setting("whitelist"@, whitelist) };
    let ask = ActionView::Overwrite {
        setting: setting("verification-method"@, "use-permanent-password"@),
    };
    let set = ActionView::SetPermanentPassword { password };
    lemma_performed_one(client, name);
    let named = performed(client, name);
    let listing = if whitelist.len() == 0 {
        seq![name]
    } else {
        seq![name] + seq![list]
    };
    if whitelist.len() > 0 {
        lemma_performed_concat(client, seq![name], seq![list]);
        lemma_performed_one(named, list);
    }
    let listed = performed_all(client, listing);
    let granting = if password.len() == 0 {
        listing
    } else {
        listing + seq![ask] + seq![set]
    };
    if password.len() > 0 {
        lemma_performed_concat(client, listing + seq![ask], seq![set]);
        lemma_performed_concat(client, listing, seq![ask]);
        lemma_performed_one(listed, ask);
        lemma_performed_one(performed(listed, ask), set);
    }
    assert(actions =~= granting + seq![ActionView::AskLicense]);
    lemma_performed_concat(client, granting, seq![ActionView::AskLicense]);
    lemma_performed_one(performed_all(client, granting), ActionView::AskLicense);
}

proof fn lemma_halt_performed(client: Client, message: Seq<char>, info: ProcessInfo)
    requires
        client.exit_code is None,
    ensures
        performed_all(client, halt_actions(message, info)) == (Client {
            exit_code: Some(LICENSE_BLOCKED_EXIT_CODE as int),
            ..client
        }),
{
    let exit = ActionView::Exit { code: LICENSE_BLOCKED_EXIT_CODE as int };
    lemma_performed_concat(client, blocked_dialog(message, info), seq![exit]);
    lemma_show_performed(client, LogLevel::Error, ended_with(message, '!'), info);
    lemma_performed_one(client, exit);
}

proof fn lemma_stored_one(store: Store, s: SettingView)
    ensures
        stored(store, seq![s]) == store.insert(s.name, s.value),
{
    assert(seq![s].drop_last() =~= Seq::<SettingView>::empty());
    assert(stored(store, Seq::<SettingView>::empty()) == store);
}

proof fn lemma_stored_concat(store: Store, first: Seq<SettingView>, second: Seq<SettingView>)
    ensures
        stored(store, first + second) == stored(stored(store, first), second),
    decreases second.len(),
{
    if second.len() == 0 {
        assert(first + second =~= first);
    } else {
        lemma_stored_concat(store, first, second.drop_last());
        assert((first + second).drop_last() =~= first + second.drop_last());
        assert((first + second).last() == second.last());
    }
}

proof fn lemma_setting_names()
    ensures
        "custom-rendezvous-server"@ != "relay-server"@,
        "custom-rendezvous-server"@ != "key"@,
        "custom-rendezvous-server"@ != "api-server"@,
        "custom-rendezvous-server"@ != "verification-method"@,
        "relay-server"@ != "key"@,
        "relay-server"@ != "api-server"@,
        "relay-server"@ != "verification-method"@,
        "key"@ != "api-server"@,
        "key"@ != "verification-method"@,
        "api-server"@ != "verification-method"@,
{
    reveal_strlit("custom-rendezvous-server");
    reveal_strlit("relay-server");
    reveal_strlit("key");
    reveal_strlit("api-server");
    reveal_strlit("verification-method");
    assert("custom-rendezvous-server"@.len() == 24);
    assert("relay-server"@.len() == 12);
    assert("key"@.len() == 3);
    assert("api-server"@.len() == 10);
    assert("verification-method"@.len() == 19);
}

/// What fixing the settings of a server configuration leaves under each name.
proof fn lemma_stored_server(store: Store, server: ServerView)
    ensures
        ({
            let after = stored(store, server_settings(server));
            &&& server.id_server.len() > 0 ==> lookup(after, "custom-rendezvous-server"@)
                == server.id_server
            &&& server.relay_server.len() > 0 ==> lookup(after, "relay-server"@)
                == server.relay_server
            &&& server.key.len() > 0 ==> lookup(after, "key"@) == server.key
            &&& lookup(after, "api-server"@) == API_SERVER_URL@
            &&& lookup(after, "verification-method"@) == "use-permanent-password"@
        }),
{
    lemma_setting_names();
    let id = setting("custom-rendezvous-server"@, server.id_server);
    let relay = setting("relay-server"@, server.relay_server);
    let key = setting("key"@, server.key);
    let api = setting("api-server"@, API_SERVER_URL@);
    let method = setting("verification-method"@, "use-permanent-password"@);
    let none = Seq::<SettingView>::empty();
    let a = if server.id_server.len() == 0 {
        none
    } else {
        seq![id]
    };
    let b = if server.relay_server.len() == 0 {
        none
    } else {
        seq![relay]
    };
    let c = if server.key.len() == 0 {
        none
    } else {
        seq![key]
    };
    assert(server_settings(server) =~= a + b + c + seq![api] + seq![method]);
    lemma_stored_concat(store, a + b + c + seq![api], seq![method]);
    lemma_stored_concat(store, a + b + c, seq![api]);
    lemma_stored_concat(store, a + b, c);
    lemma_stored_concat(store, a, b);
    let s1 = stored(store, a);
    let s2 = stored(s1, b);
    let s3 = stored(s2, c);
    let s4 = stored(s3, seq![api]);
    lemma_stored_one(store, id);
    lemma_stored_one(s1, relay);
    lemma_stored_one(s2, key);
    lemma_stored_one(s3, api);
    lemma_stored_one(s4, method);
}

/// The servers that were kept are read back as they were, unless one of the two
/// that stand on lines of their own has a newline in it.
pub proof fn cached_servers_read_back(server: ServerView)
    requires
        !has_newline(server.id_server),
        !has_newline(server.relay_server),
    ensures
        cached_server(cache_text(server)) == server,
{
    first_line_of_joined(server.id_server, server.relay_server + seq!['\n'] + server.key);
    first_line_of_joined(server.relay_server, server.key);
}

proof fn lemma_option_names()
    ensures
        LICENSE_SERVER_CACHE_KEY@ != LICENSE_EXPIRY_KEY@,
        LICENSE_SERVER_CACHE_KEY@ != LICENSE_LAST_VALIDATED_KEY@,
        LICENSE_EXPIRY_KEY@ != LICENSE_LAST_VALIDATED_KEY@,
{
    reveal_strlit("deploy-license-server-cfg");
    reveal_strlit("deploy-license-expires-at");
    reveal_strlit("deploy-license-last-validated");
    assert("deploy-license-server-cfg"@[15] == 's');
    assert("deploy-license-expires-at"@[15] == 'e');
    assert("deploy-license-last-validated"@[15] == 'l');
}

/// A confirmation leaves its servers and its time in the options of the device.
/// It replaces the expiry date that is on record only if it brings one.
pub proof fn confirmation_is_recorded(local: Store, answer: LicenseCheckResponse, now: int)
    requires
        confirms(LicenseReply::Answer(answer)),
    ensures
        ({
            let after = stored(local, check_writes(LicenseReply::Answer(answer), now));
            &&& lookup(after, LICENSE_SERVER_CACHE_KEY@) == cache_text(answered_server(answer))
            &&& lookup(after, LICENSE_LAST_VALIDATED_KEY@) == signed_decimal(now)
            &&& lookup(after, LICENSE_EXPIRY_KEY@) == if answer.expires_at@.len() == 0 {
                lookup(local, LICENSE_EXPIRY_KEY@)
            } else {
                answer.expires_at@
            }
        }),
{
    lemma_option_names();
    let servers = setting(LICENSE_SERVER_CACHE_KEY@, cache_text(answered_server(answer)));
    let expiry = setting(LICENSE_EXPIRY_KEY@, answer.expires_at@);
    let time = setting(LICENSE_LAST_VALIDATED_KEY@, signed_decimal(now));
    let writes = confirmation_writes(answer, now);
    lemma_stored_one(local, servers);
    let s1 = stored(local, seq![servers]);
    if answer.expires_at@.len() == 0 {
        assert(writes =~= seq![servers] + seq![time]);
        lemma_stored_concat(local, seq![servers], seq![time]);
        lemma_stored_one(s1, time);
    } else {
        assert(writes =~= seq![servers] + seq![expiry] + seq![time]);
        lemma_stored_concat(local, seq![servers] + seq![expiry], seq![time]);
        lemma_stored_concat(local, seq![servers], seq![expiry]);
        lemma_stored_one(s1, expiry);
        lemma_stored_one(stored(s1, seq![expiry]), time);
    }
}

/// After a confirmation, a check without a usable answer gives the same servers
/// for as long as the grace period lasts. Past it, and also when the clock was
/// set back, the client is blocked.
pub proof fn confirmation_is_reused_for_the_grace_period(
    local: Store,
    answer: LicenseCheckResponse,
    confirmed_at: i64,
    later: LicenseReply,
    now: int,
)
    requires
        confirms(LicenseReply::Answer(answer)),
        !has_newline(answer.id_server@),
        !has_newline(answer.relay_server@),
        !denies(later),
        !confirms(later),
    ensures
        ({
            let kept = stored(
                local,
                check_writes(LicenseReply::Answer(answer), confirmed_at as int),
            );
            let outcome = check_outcome(
                later,
                lookup(kept, LICENSE_SERVER_CACHE_KEY@),
                lookup(kept, LICENSE_LAST_VALIDATED_KEY@),
                now,
            );
            if confirmed_at <= now <= confirmed_at + LICENSE_GRACE_PERIOD_SECS {
                outcome == (OutcomeView::CachedGrace {
                    server: answered_server(answer),
                    grace_expires_at: confirmed_at + LICENSE_GRACE_PERIOD_SECS,
                    offline_secs: now - confirmed_at,
                })
            } else {
                outcome == (OutcomeView::Blocked { message: STALE_MESSAGE@ })
            }
        }),
{
    confirmation_is_recorded(local, answer, confirmed_at as int);
    cached_servers_read_back(answered_server(answer));
    i64_text_reads_back(confirmed_at);
    let text = cache_text(answered_server(answer));
    assert(text.len() > 0);
    if confirmed_at < 0 {
        assert(signed_decimal(confirmed_at as int).len() > 0);
    } else {
        decimal_denotes_its_number(confirmed_at as nat);
    }
}

/// A client within the grace period gets the same settings, password and renewal
/// as one whose licence was confirmed just now.
pub proof fn grace_applies_what_a_confirmation_applies(
    client: Client,
    server: ServerView,
    grace_expires_at: int,
    offline_secs: int,
    readings: Readings,
    info: ProcessInfo,
)
    requires
        client.exit_code is None,
    ensures
        performed_all(
            client,
            outcome_actions(
                OutcomeView::CachedGrace { server, grace_expires_at, offline_secs },
                readings,
                info,
            ),
        ) == performed_all(
            client,
            outcome_actions(OutcomeView::Valid(server), readings, info),
        ),
{
    let end = grace_end(grace_expires_at, readings);
    let log = ActionView::Log { level: LogLevel::Warn, text: offline_line(offline_secs, end) };
    let proceed = proceed_actions(server, readings.today);
    let notice = grace_notice(grace_message(end), info);
    lemma_performed_concat(client, seq![log] + proceed, notice);
    lemma_performed_concat(client, seq![log], proceed);
    lemma_performed_one(client, log);
    lemma_show_performed(
        performed_all(client, proceed),
        LogLevel::Warn,
        ended_with(grace_message(end), '.'),
        info,
    );
}

/// A denial leaves nothing on record: whenever the next check brings no usable
/// answer, the client is blocked as one that never had a licence.
pub proof fn denial_forgets(
    local: Store,
    denial: LicenseReply,
    at: int,
    later: LicenseReply,
    now: int,
)
    requires
        denies(denial),
        !denies(later),
        !confirms(later),
    ensures
        ({
            let after = stored(local, check_writes(denial, at));
            &&& lookup(after, LICENSE_SERVER_CACHE_KEY@).len() == 0
            &&& lookup(after, LICENSE_EXPIRY_KEY@).len() == 0
            &&& lookup(after, LICENSE_LAST_VALIDATED_KEY@).len() == 0
            &&& check_outcome(
                later,
                lookup(after, LICENSE_SERVER_CACHE_KEY@),
                lookup(after, LICENSE_LAST_VALIDATED_KEY@),
                now,
            ) == no_history()
        }),
{
    lemma_option_names();
    let none = Seq::<char>::empty();
    let a = setting(LICENSE_SERVER_CACHE_KEY@, none);
    let b = setting(LICENSE_EXPIRY_KEY@, none);
    let c = setting(LICENSE_LAST_VALIDATED_KEY@, none);
    assert(denial_writes() =~= seq![a] + seq![b] + seq![c]);
    lemma_stored_concat(local, seq![a] + seq![b], seq![c]);
    lemma_stored_concat(local, seq![a], seq![b]);
    lemma_stored_one(local, a);
    lemma_stored_one(stored(local, seq![a]), b);
    lemma_stored_one(stored(stored(local, seq![a]), seq![b]), c);
}

/// Where the server confirms or denies, what is on record does not matter.
pub proof fn the_server_decides(
    reply: LicenseReply,
    cached: Seq<char>,
    last_validated: Seq<char>,
    now: int,
    other_cached: Seq<char>,
    other_last_validated: Seq<char>,
    other_now: int,
)
    requires
        denies(reply) || confirms(reply),
    ensures
        check_outcome(reply, cached, last_validated, now) == check_outcome(
            reply,
            other_cached,
            other_last_validated,
            other_now,
        ),
{
}

/// What a series of checks leaves in the options of the device. Each check is a
/// reply and the time at which it came.
pub open spec fn after_checks(local: Store, checks: Seq<(LicenseReply, int)>) -> Store
    decreases checks.len(),
{
    if checks.len() == 0 {
        local
    } else {
        stored(
            after_checks(local, checks.drop_last()),
            check_writes(checks.last().0, checks.last().1),
        )
    }
}

/// Checks without a usable answer change nothing on record, however many there
/// are: they do not prolong the grace period.
pub proof fn grace_is_never_prolonged(local: Store, checks: Seq<(LicenseReply, int)>)
    requires
        forall|i: int|
            0 <= i < checks.len() ==> !denies((#[trigger] checks[i]).0) && !confirms(checks[i].0),
    ensures
        after_checks(local, checks) == local,
    decreases checks.len(),
{
    if checks.len() > 0 {
        grace_is_never_prolonged(local, checks.drop_last());
        assert(!denies(checks.last().0) && !confirms(checks.last().0));
        assert(stored(local, Seq::<SettingView>::empty()) == local);
    }
}

/// A service process shows no alert, whatever the licence.
pub proof fn service_process_shows_no_alert(
    reply: LicenseReply,
    cached: Seq<char>,
    last_validated: Seq<char>,
    readings: Readings,
    info: ProcessInfo,
    i: int,
)
    requires
        info.is_service_process,
        0 <= i < apply_actions(reply, cached, last_validated, readings, info).len(),
    ensures
        !(apply_actions(reply, cached, last_validated, readings, info)[i] is Alert),
{
}

/// The text of a dialog ends in exactly one mark, and giving it one again
/// changes nothing.
pub proof fn dialog_text_ends_in_one_mark(message: Seq<char>, mark: char)
    ensures
        ({
            let text = ended_with(message, mark);
            &&& text.last() == mark
            &&& text.len() >= 2 ==> text[text.len() - 2] != mark
            &&& ended_with(text, mark) == text
        }),
{
    trailing_run_is_removed(message, mark);
    let text = ended_with(message, mark);
    assert(text.drop_last() =~= without_trailing(message, mark));
    assert(without_trailing(text, mark) == without_trailing(text.drop_last(), mark));
    assert(without_trailing(without_trailing(message, mark), mark) == without_trailing(
        message,
        mark,
    ));
}

/// An escaped text is read back as it was, up to the quote that follows it: no
/// text can end its string literal early.
pub proof fn escaped_text_reads_back(text: Seq<char>, rest: Seq<char>)
    ensures
        literal(escaped(text) + (seq!['"'] + rest)) == Some((text, rest)),
    decreases text.len(),
{
    let s = escaped(text) + (seq!['"'] + rest);
    if text.len() == 0 {
        assert(s =~= seq!['"'] + rest);
        assert(s.skip(1) =~= rest);
        assert(text =~= Seq::empty());
    } else {
        let tail = text.skip(1);
        let inner = escaped(tail) + (seq!['"'] + rest);
        escaped_text_reads_back(tail, rest);
        assert(s =~= escaped_char(text[0]) + inner);
        assert(text =~= seq![text[0]] + tail);
        if text[0] == '\\' || text[0] == '"' {
            assert(s.skip(2) =~= inner);
        } else {
            assert(s.skip(1) =~= inner);
        }
    }
}

/// The script that shows an alert on macOS shows that alert's text: what follows
/// the first quote reads back as the text, and behind its closing quote comes the
/// rest of the script, whatever the text.
pub proof fn dialog_script_shows_its_text(text: Seq<char>)
    ensures
        dialog_script(text).take(15) == "display dialog "@,
        dialog_script(text)[15] == '"',
        literal(dialog_script(text).skip(16)) == Some(
            (
                text,
                " with title \"Infomek — Licença\" buttons {\"OK\"} default button \"OK\" with icon caution"@,
            ),
        ),
{
    reveal_strlit(
        " with title \"Infomek — Licença\" buttons {\"OK\"} default button \"OK\" with icon caution",
    );
    reveal_strlit("display dialog \"");
    reveal_strlit("display dialog ");
    reveal_strlit(
        "\" with title \"Infomek — Licença\" buttons {\"OK\"} default button \"OK\" with icon caution",
    );
    let end =
        "\" with title \"Infomek — Licença\" buttons {\"OK\"} default button \"OK\" with icon caution"@;
    assert(dialog_script(text).take(15) =~= "display dialog "@);
    assert(end =~= seq!['"'] + end.skip(1));
    assert(end.skip(1)
        =~= " with title \"Infomek — Licença\" buttons {\"OK\"} default button \"OK\" with icon caution"@);
    escaped_text_reads_back(text, end.skip(1));
    assert(dialog_script(text).skip(16) =~= escaped(text) + (seq!['"'] + end.skip(1)));
}

proof fn lemma_two_digits_differ(a: int, b: int)
    requires
        0 <= a <= 99,
        0 <= b <= 99,
        two_digits(a) == two_digits(b),
    ensures
        a == b,
{
    assert(two_digits(a)[0] == digit(a / 10));
    assert(two_digits(b)[0] == digit(b / 10));
    assert(two_digits(a)[1] == digit(a % 10));
    assert(two_digits(b)[1] == digit(b % 10));
    assert(digit(a / 10) as int == 48 + a / 10);
    assert(digit(b / 10) as int == 48 + b / 10);
    assert(digit(a % 10) as int == 48 + a % 10);
    assert(digit(b % 10) as int == 48 + b % 10);
}

/// Two times have the same password exactly when day, month and year of the
/// century are the same.
pub proof fn password_tells_the_date(a: LocalTime, b: LocalTime)
    requires
        a.wf(),
        b.wf(),
    ensures
        password_of(a) == password_of(b) <==> same_date(a, b),
        a.day_text() == b.day_text() <==> same_date(a, b),
{
    local_date_exists(a);
    local_date_exists(b);
    let n = PASSWORD_PREFIX@.len() as int;
    let x = password_of(a);
    let y = password_of(b);
    assert(x.skip(n) =~= a.day_text());
    assert(y.skip(n) =~= b.day_text());
    if x == y {
        let s = a.day_text();
        let t = b.day_text();
        assert(s.subrange(0, 2) =~= two_digits(a.date().day));
        assert(t.subrange(0, 2) =~= two_digits(b.date().day));
        assert(s.subrange(2, 4) =~= two_digits(a.date().month));
        assert(t.subrange(2, 4) =~= two_digits(b.date().month));
        assert(s.subrange(4, 6) =~= two_digits(a.date().year % 100));
        assert(t.subrange(4, 6) =~= two_digits(b.date().year % 100));
        lemma_two_digits_differ(a.date().day, b.date().day);
        lemma_two_digits_differ(a.date().month, b.date().month);
        lemma_two_digits_differ(a.date().year % 100, b.date().year % 100);
    }
}

/// Within a hundred years no two days have the same password, and every second
/// of a day has the same one.
pub proof fn password_tells_the_day(a: LocalTime, b: LocalTime)
    requires
        a.wf(),
        b.wf(),
        -100 < a.date().year - b.date().year < 100,
    ensures
        password_of(a) == password_of(b) <==> same_day(a, b),
{
    password_tells_the_date(a, b);
}

/// A running client sets a password exactly when the date that it follows is not
/// that of the clock, and it is the password of the date on which it is made.
pub proof fn password_changes_exactly_with_the_date(before: LocalTime, look: Look)
    requires
        before.wf(),
        look.wf(),
    ensures
        refresh(before.day_text(), look.seen, look.made) == if same_date(before, look.seen) {
            None::<Seq<char>>
        } else {
            Some(password_of(look.made))
        },
{
    password_tells_the_date(before, look.seen);
}

/// Within a hundred years a running client sets a password exactly when the day
/// changes.
pub proof fn password_changes_exactly_with_the_day(before: LocalTime, look: Look)
    requires
        before.wf(),
        look.wf(),
        -100 < before.date().year - look.seen.date().year < 100,
    ensures
        refresh(before.day_text(), look.seen, look.made) == if same_day(before, look.seen) {
            None::<Seq<char>>
        } else {
            Some(password_of(look.made))
        },
{
    password_changes_exactly_with_the_date(before, look);
}

/// Whether no look sees a date again that ended during the look before it. Only a
/// clock that is set back shows one.
pub open spec fn no_date_returns(looks: Seq<Look>) -> bool {
    forall|i: int, j: int|
        0 <= i && j == i + 1 && j < looks.len() && !same_date(
            (#[trigger] looks[i]).seen,
            looks[i].made,
        ) ==> !same_date(looks[i].seen, (#[trigger] looks[j]).seen)
}

proof fn lemma_watched(client: Client, looks: Seq<Look>, day: LocalTime)
    requires
        day.wf(),
        client.day_followed == Some(day),
        client.password == password_of(day),
        forall|i: int| 0 <= i < looks.len() ==> (#[trigger] looks[i]).wf(),
        no_date_returns(looks),
    ensures
        ({
            let after = watched_all(client, looks);
            if looks.len() == 0 {
                after == client
            } else {
                &&& after.day_followed == Some(looks.last().seen)
                &&& after.password == password_of(looks.last().seen) || after.password
                    == password_of(looks.last().made)
            }
        }),
    decreases looks.len(),
{
    if looks.len() > 0 {
        let before = looks.drop_last();
        assert forall|i: int, j: int|
            0 <= i && j == i + 1 && j < before.len() && !same_date(
                (#[trigger] before[i]).seen,
                before[i].made,
            ) implies !same_date(before[i].seen, (#[trigger] before[j]).seen) by {
            assert(before[i] == looks[i]);
            assert(before[j] == looks[j]);
        }
        lemma_watched(client, before, day);
        let look = looks.last();
        assert(look == looks[looks.len() - 1]);
        if before.len() == 0 {
            password_tells_the_date(day, look.seen);
        } else {
            let previous = before.last();
            assert(previous == looks[looks.len() - 2]);
            password_tells_the_date(previous.seen, look.seen);
            password_tells_the_date(previous.seen, previous.made);
        }
    }
}

/// In a client that runs, the password in force is that of the date on which the
/// clock was last read: when the password was set, and at every look since. No
/// midnight is missed, not even one between setting the password and starting to
/// follow the day. When a date ends during a look, the password is that of one of
/// the two dates.
pub proof fn password_of_the_day_is_in_force(
    client: Client,
    reply: LicenseReply,
    cached: Seq<char>,
    last_validated: Seq<char>,
    readings: Readings,
    info: ProcessInfo,
    looks: Seq<Look>,
)
    requires
        client.exit_code is None,
        readings.wf(),
        forall|i: int| 0 <= i < looks.len() ==> (#[trigger] looks[i]).wf(),
        no_date_returns(looks),
    ensures
        ({
            let after = performed_all(
                client,
                apply_actions(reply, cached, last_validated, readings, info),
            );
            let password = watched_all(after, looks).password;
            after.exit_code is None ==> if looks.len() == 0 {
                password == password_of(readings.today)
            } else {
                let look = looks.last();
                &&& same_date(look.seen, look.made) ==> password == password_of(look.seen)
                &&& password == password_of(look.seen) || password == password_of(look.made)
            }
        }),
{
    what_apply_leaves(client, reply, cached, last_validated, readings, info);
    let after = performed_all(client, apply_actions(reply, cached, last_validated, readings, info));
    if after.exit_code is None {
        lemma_watched(after, looks, readings.today);
        if looks.len() > 0 {
            assert(looks.last() == looks[looks.len() - 1]);
            password_tells_the_date(looks.last().seen, looks.last().made);
        }
    }
}

/// A date that starts after one look has its password in force with the next look
/// that falls on it, which is at most one period and the delay of that look away.
pub proof fn new_date_is_in_force_within_one_period(
    client: Client,
    last_seen: LocalTime,
    start: int,
    look: Look,
    delay: nat,
)
    requires
        client.day_followed == Some(last_seen),
        last_seen.wf(),
        look.wf(),
        last_seen.utc_secs <= start <= look.seen.utc_secs,
        look.seen.utc_secs <= last_seen.utc_secs + REFRESH_PERIOD_SECS + delay,
        !same_date(last_seen, look.seen),
        same_date(look.seen, look.made),
    ensures
        watched(client, look).password == password_of(look.seen),
        watched(client, look).day_followed == Some(look.seen),
        look.seen.utc_secs - start <= REFRESH_PERIOD_SECS + delay,
{
    password_changes_exactly_with_the_date(last_seen, look);
    password_tells_the_date(look.seen, look.made);
}

/// A date that starts between the two readings of a look that sets a password has
/// its password in force at once, and the next look on it leaves it there.
pub proof fn date_that_starts_during_a_look_is_in_force_at_once(
    client: Client,
    last_seen: LocalTime,
    look: Look,
    next: Look,
)
    requires
        client.day_followed == Some(last_seen),
        last_seen.wf(),
        look.wf(),
        next.wf(),
        !same_date(last_seen, look.seen),
        same_date(look.made, next.seen),
        same_date(look.made, next.made),
    ensures
        watched(client, look).password == password_of(look.made),
        watched(watched(client, look), next).password == password_of(look.made),
{
    password_changes_exactly_with_the_date(last_seen, look);
    password_tells_the_date(look.made, next.made);
}

/// Whether a step gives the client what it runs with.
pub open spec fn equips(action: ActionView) -> bool {
    action is Overwrite || action is SetPermanentPassword || action is SpawnPasswordRefresher
}

/// Whether a step belongs to the first ones only.
spec fn opens(action: ActionView) -> bool {
    action is SetAppName || action is AskLicense
}

spec fn opens_nothing(actions: Seq<ActionView>) -> bool {
    forall|i: int| 0 <= i < actions.len() ==> !opens(#[trigger] actions[i])
}

proof fn lemma_opens_nothing_concat(a: Seq<ActionView>, b: Seq<ActionView>)
    requires
        opens_nothing(a),
        opens_nothing(b),
    ensures
        opens_nothing(a + b),
{
    assert forall|i: int| 0 <= i < (a + b).len() implies !opens(#[trigger] (a + b)[i]) by {
        if i < a.len() {
            assert((a + b)[i] == a[i]);
        } else {
            assert((a + b)[i] == b[i - a.len()]);
        }
    }
}

proof fn lemma_show_opens_nothing(level: LogLevel, text: Seq<char>, info: ProcessInfo)
    ensures
        opens_nothing(show_actions(level, text, info)),
{
}

proof fn lemma_proceed_opens_nothing(server: ServerView, today: LocalTime)
    ensures
        opens_nothing(proceed_actions(server, today)),
{
}

proof fn lemma_halt_opens_nothing(message: Seq<char>, info: ProcessInfo)
    ensures
        opens_nothing(halt_actions(message, info)),
{
    lemma_show_opens_nothing(LogLevel::Error, ended_with(message, '!'), info);
    lemma_opens_nothing_concat(
        blocked_dialog(message, info),
        seq![ActionView::Exit { code: LICENSE_BLOCKED_EXIT_CODE as int }],
    );
}

proof fn lemma_apply_opens_nothing(
    reply: LicenseReply,
    cached: Seq<char>,
    last_validated: Seq<char>,
    readings: Readings,
    info: ProcessInfo,
)
    ensures
        opens_nothing(apply_actions(reply, cached, last_validated, readings, info)),
{
    let writes = write_actions(Target::Local, check_writes(reply, readings.now as int));
    let outcome = check_outcome(reply, cached, last_validated, readings.now as int);
    match outcome {
        OutcomeView::Valid(server) => {
            lemma_proceed_opens_nothing(server, readings.today);
        },
        OutcomeView::CachedGrace { server, grace_expires_at, offline_secs } => {
            let end = grace_end(grace_expires_at, readings);
            let log = seq![
                ActionView::Log { level: LogLevel::Warn, text: offline_line(offline_secs, end) },
            ];
            let proceed = proceed_actions(server, readings.today);
            lemma_proceed_opens_nothing(server, readings.today);
            lemma_show_opens_nothing(LogLevel::Warn, ended_with(grace_message(end), '.'), info);
            lemma_opens_nothing_concat(log, proceed);
            lemma_opens_nothing_concat(log + proceed, grace_notice(grace_message(end), info));
        },
        OutcomeView::Denied { message } => {
            lemma_halt_opens_nothing(message, info);
        },
        OutcomeView::Blocked { message } => {
            lemma_halt_opens_nothing(message, info);
        },
    }
    lemma_opens_nothing_concat(writes, outcome_actions(outcome, readings, info));
}

proof fn lemma_launch_order(password: Seq<char>, whitelist: Seq<char>)
    ensures
        ({
            let first = launch_actions(password, whitelist);
            &&& first.len() >= 2
            &&& first[0] == (ActionView::SetAppName { name: APP_NAME@ })
            &&& first.last() is AskLicense
            &&& forall|i: int|
                0 < i < first.len() - 1 ==> (#[trigger] first[i]) is Overwrite
                    || first[i] is SetPermanentPassword
        }),
{
}

/// The name is set before every other step, and never again. The licensing API is
/// asked once: after the name and what is compiled in, and before every option of
/// the device, alert and end that follows from its reply.
pub proof fn name_comes_first_and_the_request_before_its_consequences(
    password: Seq<char>,
    whitelist: Seq<char>,
    reply: LicenseReply,
    cached: Seq<char>,
    last_validated: Seq<char>,
    readings: Readings,
    info: ProcessInfo,
)
    ensures
        ({
            let first = launch_actions(password, whitelist);
            let all = first + apply_actions(reply, cached, last_validated, readings, info);
            let asked = first.len() - 1;
            &&& asked > 0
            &&& all[0] == (ActionView::SetAppName { name: APP_NAME@ })
            &&& all[asked] is AskLicense
            &&& forall|i: int|
                0 < i < all.len() ==> !((#[trigger] all[i]) is SetAppName)
            &&& forall|i: int|
                0 <= i < all.len() && i != asked ==> !((#[trigger] all[i]) is AskLicense)
            &&& forall|i: int|
                0 <= i < asked ==> !((#[trigger] all[i]) is SetLocalOption) && !(all[i] is Alert)
                    && !(all[i] is Exit)
        }),
{
    let first = launch_actions(password, whitelist);
    let rest = apply_actions(reply, cached, last_validated, readings, info);
    let all = first + rest;
    let asked = first.len() - 1;
    lemma_apply_opens_nothing(reply, cached, last_validated, readings, info);
    lemma_launch_order(password, whitelist);
    assert forall|i: int| 0 < i < all.len() implies !((#[trigger] all[i]) is SetAppName) by {
        if i < first.len() {
            assert(all[i] == first[i]);
        } else {
            assert(all[i] == rest[i - first.len()]);
        }
    }
    assert forall|i: int| 0 <= i < all.len() && i != asked implies !((
    #[trigger] all[i]) is AskLicense) by {
        if i < first.len() {
            assert(all[i] == first[i]);
        } else {
            assert(all[i] == rest[i - first.len()]);
        }
    }
    assert forall|i: int| 0 <= i < asked implies !((#[trigger] all[i]) is SetLocalOption) && !(
    all[i] is Alert) && !(all[i] is Exit) by {
        assert(all[i] == first[i]);
    }
}

proof fn lemma_show_equips_nothing(level: LogLevel, text: Seq<char>, info: ProcessInfo)
    ensures
        forall|i: int|
            0 <= i < show_actions(level, text, info).len() ==> !equips(
                #[trigger] show_actions(level, text, info)[i],
            ),
{
}

proof fn lemma_proceed_shows_nothing(server: ServerView, today: LocalTime)
    ensures
        forall|i: int|
            0 <= i < proceed_actions(server, today).len() ==> !((#[trigger] proceed_actions(
                server,
                today,
            )[i]) is Alert),
{
}

/// Whether every step that gives the client what it runs with stands before every
/// alert.
spec fn equips_first(actions: Seq<ActionView>) -> bool {
    forall|i: int, j: int|
        0 <= i < actions.len() && 0 <= j < actions.len() && equips(#[trigger] actions[i])
            && (#[trigger] actions[j]) is Alert ==> i < j
}

proof fn lemma_outcome_equips_first(outcome: OutcomeView, readings: Readings, info: ProcessInfo)
    ensures
        equips_first(outcome_actions(outcome, readings, info)),
{
    let actions = outcome_actions(outcome, readings, info);
    match outcome {
        OutcomeView::Valid(server) => {
            lemma_proceed_shows_nothing(server, readings.today);
        },
        OutcomeView::CachedGrace { server, grace_expires_at, offline_secs } => {
            let end = grace_end(grace_expires_at, readings);
            let log = seq![
                ActionView::Log { level: LogLevel::Warn, text: offline_line(offline_secs, end) },
            ];
            let proceed = proceed_actions(server, readings.today);
            let notice = grace_notice(grace_message(end), info);
            lemma_proceed_shows_nothing(server, readings.today);
            lemma_show_equips_nothing(LogLevel::Warn, ended_with(grace_message(end), '.'), info);
            let n = (log + proceed).len() as int;
            assert(actions == log + proceed + notice);
            assert forall|i: int| 0 <= i < actions.len() && equips(#[trigger] actions[i]) implies i
                < n by {
                if i >= n {
                    assert(actions[i] == notice[i - n]);
                }
            }
            assert forall|j: int| 0 <= j < n implies !((#[trigger] actions[j]) is Alert) by {
                if j > 0 {
                    assert(actions[j] == proceed[j - 1]);
                }
            }
        },
        OutcomeView::Denied { message } => {
            lemma_halt_equips_nothing(message, info);
        },
        OutcomeView::Blocked { message } => {
            lemma_halt_equips_nothing(message, info);
        },
    }
}

proof fn lemma_halt_equips_nothing(message: Seq<char>, info: ProcessInfo)
    ensures
        forall|i: int|
            0 <= i < halt_actions(message, info).len() ==> !equips(
                #[trigger] halt_actions(message, info)[i],
            ),
{
    lemma_show_equips_nothing(LogLevel::Error, ended_with(message, '!'), info);
    let dialog = blocked_dialog(message, info);
    assert forall|i: int| 0 <= i < halt_actions(message, info).len() implies !equips(
        #[trigger] halt_actions(message, info)[i],
    ) by {
        if i < dialog.len() {
            assert(halt_actions(message, info)[i] == dialog[i]);
        }
    }
}

/// What the client runs with is in place before any alert is shown: every fixed
/// setting, the password and the renewal of the password stand before every
/// alert.
pub proof fn client_is_equipped_before_any_alert(
    password: Seq<char>,
    whitelist: Seq<char>,
    reply: LicenseReply,
    cached: Seq<char>,
    last_validated: Seq<char>,
    readings: Readings,
    info: ProcessInfo,
    i: int,
    j: int,
)
    requires
        ({
            let all = launch_actions(password, whitelist) + apply_actions(
                reply,
                cached,
                last_validated,
                readings,
                info,
            );
            0 <= i < all.len() && 0 <= j < all.len() && equips(all[i]) && all[j] is Alert
        }),
    ensures
        i < j,
{
    let first = launch_actions(password, whitelist);
    let writes = write_actions(Target::Local, check_writes(reply, readings.now as int));
    let outcome = check_outcome(reply, cached, last_validated, readings.now as int);
    let rest = outcome_actions(outcome, readings, info);
    let all = first + apply_actions(reply, cached, last_validated, readings, info);
    let n = (first.len() + writes.len()) as int;
    lemma_outcome_equips_first(outcome, readings, info);
    assert(all =~= first + writes + rest);
    assert(j >= n) by {
        if j < first.len() {
            assert(all[j] == first[j]);
        } else if j < n {
            assert(all[j] == writes[j - first.len()]);
        }
    }
    assert(all[j] == rest[j - n]);
    if i >= n {
        assert(all[i] == rest[i - n]);
    }
}

/// An answer that lacks the decision, or that confirms a licence and names no
/// server, is treated like no answer: what is on record decides, and stays as it
/// is.
pub proof fn incomplete_answer_is_no_decision(
    answer: LicenseCheckResponse,
    local: Store,
    now: int,
)
    requires
        answer.valid is None || (answer.valid == Some(true) && answer.id_server@.len() == 0),
    ensures
        check_outcome(
            LicenseReply::Answer(answer),
            lookup(local, LICENSE_SERVER_CACHE_KEY@),
            lookup(local, LICENSE_LAST_VALIDATED_KEY@),
            now,
        ) == check_outcome(
            LicenseReply::NoResponse,
            lookup(local, LICENSE_SERVER_CACHE_KEY@),
            lookup(local, LICENSE_LAST_VALIDATED_KEY@),
            now,
        ),
        stored(local, check_writes(LicenseReply::Answer(answer), now)) == local,
{
}

/// The client is denied only by an answer that says so, and only then is what is
/// on record cleared.
pub proof fn only_an_explicit_denial_denies(
    reply: LicenseReply,
    cached: Seq<char>,
    last_validated: Seq<char>,
    now: int,
)
    ensures
        check_outcome(reply, cached, last_validated, now) is Denied <==> (reply is Answer
            && reply->Answer_0.valid == Some(false)),
        check_writes(reply, now) == denial_writes() <==> (reply is Answer
            && reply->Answer_0.valid == Some(false)),
{
    if confirms(reply) {
        assert(confirmation_writes(reply->Answer_0, now)[0].value.len() > 0);
        assert(denial_writes()[0].value.len() == 0);
    } else if !denies(reply) {
        assert(denial_writes().len() == 3);
    }
}

/// On Linux zenity is run with the text, and kdialog after it exactly when zenity
/// could not be started.
pub proof fn kdialog_only_replaces_zenity(text: Seq<char>, started: bool)
    ensures
        alert_for(Platform::Linux, false, text) matches Some(alert) && programs_run(alert, started)
            == if started {
            seq![zenity(text)]
        } else {
            seq![zenity(text), kdialog(text)]
        },
{
}

} // verus!
