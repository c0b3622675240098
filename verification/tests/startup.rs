use chrono::TimeZone;
use deploy::action::{Action, LogLevel};
use deploy::alert::{
    after_first, escape, native_alert, CommandLine, NativeAlert, Platform, ALERT_TITLE,
};
use deploy::clock::LocalTime;
use deploy::license::{LicenseCheckResponse, LicenseReply, ServerConfig};
use deploy::password::{daily_password_at, DailyPasswordRefresher};
use deploy::settings::Setting;
use deploy::startup::{
    apply, apply_at, apply_server_config, launch, launch_with, show_license_blocked_dialog,
    show_license_grace_notice, ProcessInfo, Readings, API_SERVER_URL, LICENSE_BLOCKED_EXIT_CODE,
    PASSWORD, WHITELIST,
};

const T0: i64 = 1_780_000_000;

/// 2 July 2026, 14:05:00 in a zone three hours behind UTC.
const TODAY: LocalTime = LocalTime { utc_secs: 1_783_011_900, offset_secs: -10_800 };

const BRASILIA: i32 = -10_800;

const LINUX: ProcessInfo = ProcessInfo { platform: Platform::Linux, is_service_process: false };

const OTHER: ProcessInfo = ProcessInfo { platform: Platform::Other, is_service_process: false };

fn setting(name: &str, value: &str) -> Setting {
    Setting { name: name.to_string(), value: value.to_string() }
}

fn overwrite(name: &str, value: &str) -> Action {
    Action::Overwrite { setting: setting(name, value) }
}

fn local(name: &str, value: &str) -> Action {
    Action::SetLocalOption { setting: setting(name, value) }
}

fn log(level: LogLevel, text: &str) -> Action {
    Action::Log { level, text: text.to_string() }
}

fn command(program: &str, args: &[&str]) -> CommandLine {
    CommandLine {
        program: program.to_string(),
        args: args.iter().map(|a| a.to_string()).collect(),
    }
}

fn server(id: &str, relay: &str, key: &str) -> ServerConfig {
    ServerConfig {
        id_server: id.to_string(),
        relay_server: relay.to_string(),
        key: key.to_string(),
    }
}

fn at(now: i64) -> Readings {
    Readings { now, today: TODAY, grace_end_offset: BRASILIA }
}

fn confirmation() -> LicenseReply {
    LicenseReply::Answer(LicenseCheckResponse {
        valid: Some(true),
        id_server: "id".to_string(),
        relay_server: "relay".to_string(),
        key: "key".to_string(),
        expires_at: String::new(),
        message: String::new(),
    })
}

fn running(password: &str, day: &LocalTime) -> Vec<Action> {
    vec![
        overwrite("custom-rendezvous-server", "id"),
        overwrite("relay-server", "relay"),
        overwrite("key", "key"),
        overwrite("api-server", "https://my.infomek.com.br/api/rustdesk"),
        overwrite("verification-method", "use-permanent-password"),
        Action::SetPermanentPassword { password: password.to_string() },
        Action::SpawnPasswordRefresher { day: *day },
    ]
}

#[test]
fn launch_sets_the_name_only_when_nothing_is_compiled_in() {
    assert_eq!(PASSWORD, "");
    assert_eq!(WHITELIST, "");
    assert_eq!(
        launch(),
        vec![Action::SetAppName { name: "MyRemote".to_string() }, Action::AskLicense]
    );
}

#[test]
fn launch_fixes_what_is_compiled_in() {
    assert_eq!(
        launch_with("s3cret", "192.168.1.0/24"),
        vec![
            Action::SetAppName { name: "MyRemote".to_string() },
            overwrite("whitelist", "192.168.1.0/24"),
            overwrite("verification-method", "use-permanent-password"),
            Action::SetPermanentPassword { password: "s3cret".to_string() },
            Action::AskLicense,
        ]
    );
    assert_eq!(launch_with("", "10.0.0.1").len(), 3);
    assert_eq!(launch_with("p", "").len(), 4);
}

#[test]
fn server_settings_leave_out_empty_parts() {
    assert_eq!(API_SERVER_URL, "https://my.infomek.com.br/api/rustdesk");
    assert_eq!(
        apply_server_config(server("id", "", "key")),
        vec![
            setting("custom-rendezvous-server", "id"),
            setting("key", "key"),
            setting("api-server", API_SERVER_URL),
            setting("verification-method", "use-permanent-password"),
        ]
    );
    assert_eq!(apply_server_config(server("", "", "")).len(), 2);
    assert_eq!(apply_server_config(server("", "r", "")).len(), 3);
}

#[test]
fn confirmed_client_runs_with_its_servers() {
    let actions = apply_at(confirmation(), "", "", at(T0), LINUX);
    let mut expected = vec![
        local("deploy-license-server-cfg", "id\nrelay\nkey"),
        local("deploy-license-last-validated", "1780000000"),
    ];
    expected.extend(running("Inf0mek@020726", &TODAY));
    assert_eq!(actions, expected);
}

#[test]
fn client_in_grace_runs_and_gets_a_notice() {
    let actions = apply_at(
        LicenseReply::NoResponse,
        "id\nrelay\nkey",
        "1780000000",
        at(T0 + 60),
        OTHER,
    );
    let mut expected = vec![log(
        LogLevel::Warn,
        "Licença operando em modo offline (cache local, sem contato com a API desde 60s atrás). Prazo de tolerância até 01/06/2026 05:26.",
    )];
    expected.extend(running("Inf0mek@020726", &TODAY));
    expected.push(log(
        LogLevel::Warn,
        "Período de teste Infomek ativo (sem conexão com o servidor de licenciamento) — expira em 01/06/2026 05:26.",
    ));
    assert_eq!(actions, expected);
}

#[test]
fn denied_client_ends_its_process() {
    let answer = LicenseCheckResponse {
        valid: Some(false),
        message: "Chave revogada!!".to_string(),
        ..LicenseCheckResponse::default()
    };
    let actions = apply(LicenseReply::Answer(answer), "id\nrelay\nkey", "1780000000", OTHER);
    assert_eq!(
        actions,
        vec![
            local("deploy-license-server-cfg", ""),
            local("deploy-license-expires-at", ""),
            local("deploy-license-last-validated", ""),
            log(LogLevel::Error, "Chave revogada!"),
            Action::Exit { code: 42 },
        ]
    );
    assert_eq!(LICENSE_BLOCKED_EXIT_CODE, 42);
}

#[test]
fn blocked_client_ends_its_process() {
    let actions = apply(LicenseReply::Unreadable, "", "", OTHER);
    assert_eq!(actions.len(), 2);
    assert_eq!(
        actions[0],
        log(
            LogLevel::Error,
            "Sem conexão com o servidor de licenciamento e nenhuma validação anterior registrada neste dispositivo. Verifique a internet e tente novamente.!"
        )
    );
    assert_eq!(actions[1], Action::Exit { code: 42 });
}

#[test]
fn every_run_has_a_server_or_ends() {
    for (cached, last, now) in [
        ("", "", T0),
        ("id\nrelay\nkey", "1780000000", T0),
        ("\nrelay\nkey", "1780000000", T0),
        ("id\nrelay\nkey", "1780000000", T0 - 1),
        ("id\nrelay\nkey", "x", T0),
    ] {
        for valid in [None, Some(false), Some(true)] {
            for id in ["", "other"] {
                let reply = LicenseReply::Answer(LicenseCheckResponse {
                    valid,
                    id_server: id.to_string(),
                    ..LicenseCheckResponse::default()
                });
                let actions = apply_at(reply, cached, last, at(now), LINUX);
                let ends = actions.last() == Some(&Action::Exit { code: 42 });
                let served = actions.iter().any(|a| {
                    matches!(a, Action::Overwrite { setting }
                        if setting.name == "custom-rendezvous-server" && !setting.value.is_empty())
                });
                assert!(ends != served);
            }
        }
    }
}

#[test]
fn steps_of_a_run_use_the_clock_of_the_machine() {
    let now = chrono::Utc::now().timestamp();
    let before = chrono::Local::now().format("Inf0mek@%d%m%y").to_string();
    let actions = apply(
        LicenseReply::NoResponse,
        "id\nrelay\nkey",
        &(now - 7200).to_string(),
        OTHER,
    );
    let after = chrono::Local::now().format("Inf0mek@%d%m%y").to_string();
    let end = chrono::Local.timestamp_opt(now - 7200 + 302_400, 0).unwrap();
    assert_eq!(actions.len(), 9);
    let day = match &actions[7] {
        Action::SpawnPasswordRefresher { day } => *day,
        other => panic!("{:?}", other),
    };
    assert!(day.is_valid());
    if before == after {
        assert_eq!(actions[1..8], running(&before, &day)[..]);
    }
    assert_eq!(actions[1..8], running(&daily_password_at(&day), &day)[..]);
    assert_eq!(
        actions[8],
        log(
            LogLevel::Warn,
            &format!(
                "Período de teste Infomek ativo (sem conexão com o servidor de licenciamento) — expira em {}.",
                end.format("%d/%m/%Y %H:%M")
            )
        )
    );
}

#[test]
fn end_of_grace_is_shown_on_the_wall_clock() {
    for (validated, offset, text) in [
        (0, 0, "04/01/1970 12:00"),
        (-302_400, 0, "01/01/1970 00:00"),
        (-302_400, -86_399, "31/12/1969 00:00"),
        (951_480_000, 0, "29/02/2000 00:00"),
        (951_566_400, 86_399, "01/03/2000 23:59"),
        (317_373_000_000, 3600, "28/02/+12027 03:40"),
        // The last day that chrono represents, in three time zones.
        (8_210_266_574_399, 0, "31/12/+262142 23:59"),
        (8_210_266_574_399, -7200, "31/12/+262142 21:59"),
        (8_210_266_574_399, 7200, "01/01/+262143 01:59"),
        (8_210_266_530_000, 3600, "31/12/+262142 12:40"),
    ] {
        let readings = Readings {
            now: std::cmp::max(validated, 0),
            today: TODAY,
            grace_end_offset: offset,
        };
        let last = validated.to_string();
        let actions =
            apply_at(LicenseReply::NoResponse, "id\nrelay\nkey", &last, readings, OTHER);
        assert_eq!(
            actions[0],
            log(
                LogLevel::Warn,
                &format!(
                    "Licença operando em modo offline (cache local, sem contato com a API desde {}s atrás). Prazo de tolerância até {}.",
                    readings.now - validated,
                    text
                )
            )
        );
    }
}

#[test]
fn end_past_the_last_second_is_shown_as_the_time_of_the_start() {
    let now = 8_210_266_876_799;
    let actions = apply_at(
        LicenseReply::NoResponse,
        "id\nrelay\nkey",
        &now.to_string(),
        at(now),
        OTHER,
    );
    assert_eq!(
        actions[8],
        log(
            LogLevel::Warn,
            "Período de teste Infomek ativo (sem conexão com o servidor de licenciamento) — expira em 02/07/2026 14:05."
        )
    );
}

#[test]
fn name_is_first_and_alerts_come_last() {
    for platform in [Platform::Windows, Platform::MacOs, Platform::Linux] {
        let info = ProcessInfo { platform, is_service_process: false };
        for (cached, last) in [("", ""), ("id\nrelay\nkey", "1780000000")] {
            let mut all = launch_with("s3cret", "10.0.0.1");
            let asked = all.len() - 1;
            all.extend(apply_at(LicenseReply::NoResponse, cached, last, at(T0), info));
            assert_eq!(all[0], Action::SetAppName { name: "MyRemote".to_string() });
            assert_eq!(all[asked], Action::AskLicense);
            let names = all.iter().filter(|a| matches!(a, Action::SetAppName { .. })).count();
            let requests = all.iter().filter(|a| matches!(a, Action::AskLicense)).count();
            assert_eq!((names, requests), (1, 1));
            let alert = all.iter().position(|a| matches!(a, Action::Alert { .. })).unwrap();
            let equipped = all
                .iter()
                .rposition(|a| {
                    matches!(
                        a,
                        Action::Overwrite { .. }
                            | Action::SetPermanentPassword { .. }
                            | Action::SpawnPasswordRefresher { .. }
                    )
                })
                .unwrap();
            assert!(equipped < alert);
        }
    }
}

#[test]
fn dialogs_end_in_exactly_one_mark() {
    assert_eq!(show_license_blocked_dialog("Pare", OTHER), vec![log(LogLevel::Error, "Pare!")]);
    assert_eq!(show_license_blocked_dialog("Pare!!!", OTHER), vec![log(LogLevel::Error, "Pare!")]);
    assert_eq!(show_license_blocked_dialog("", OTHER), vec![log(LogLevel::Error, "!")]);
    assert_eq!(show_license_blocked_dialog("Fim.", OTHER), vec![log(LogLevel::Error, "Fim.!")]);
    assert_eq!(show_license_grace_notice("Aviso...", OTHER), vec![log(LogLevel::Warn, "Aviso.")]);
    assert_eq!(show_license_grace_notice("Aviso", OTHER), vec![log(LogLevel::Warn, "Aviso.")]);
}

#[test]
fn dialog_on_linux_is_logged_and_shown() {
    assert_eq!(
        show_license_blocked_dialog("Pare", LINUX),
        vec![
            log(LogLevel::Error, "Pare!"),
            Action::Alert {
                alert: NativeAlert::Command {
                    first: command(
                        "zenity",
                        &["--error", "--title=Infomek — Licença", "--text=Pare!"]
                    ),
                    fallback: Some(command(
                        "kdialog",
                        &["--title", "Infomek — Licença", "--error", "Pare!"]
                    )),
                }
            },
        ]
    );
}

#[test]
fn alert_on_windows_is_a_message_box() {
    assert_eq!(
        native_alert(Platform::Windows, false, "oi"),
        Some(NativeAlert::MessageBox { text: "oi".to_string() })
    );
    assert_eq!(native_alert(Platform::Other, false, "oi"), None);
}

#[test]
fn alert_on_macos_is_an_escaped_script() {
    assert_eq!(ALERT_TITLE, "Infomek — Licença");
    let script = "display dialog \"a \\\"b\\\" \\\\c\" with title \"Infomek — Licença\" buttons {\"OK\"} default button \"OK\" with icon caution";
    assert_eq!(
        native_alert(Platform::MacOs, false, "a \"b\" \\c"),
        Some(NativeAlert::Command { first: command("osascript", &["-e", script]), fallback: None })
    );
}

#[test]
fn escaping_is_replacing_backslashes_and_then_quotes() {
    for text in ["", "a", "\"", "\\", "\\\"", "\"\\", "ç\\\\\"x\"", "\n"] {
        assert_eq!(escape(text), text.replace('\\', "\\\\").replace('"', "\\\""));
    }
}

#[test]
fn service_process_shows_no_alert_at_all() {
    for platform in [Platform::Windows, Platform::MacOs, Platform::Linux, Platform::Other] {
        assert_eq!(native_alert(platform, true, "oi"), None);
        let info = ProcessInfo { platform, is_service_process: true };
        for (cached, last) in [("", ""), ("id\nrelay\nkey", "1780000000")] {
            let actions =
                apply_at(LicenseReply::NoResponse, cached, last, at(T0), info);
            assert!(!actions.iter().any(|a| matches!(a, Action::Alert { .. })));
        }
    }
}

#[test]
fn midnight_before_the_refresher_starts_is_not_missed() {
    // 23:59:59 on the wall clock.
    let late = LocalTime { utc_secs: 1_783_047_599, ..TODAY };
    let readings = Readings { now: T0, today: late, grace_end_offset: BRASILIA };
    let actions = apply_at(confirmation(), "", "", readings, LINUX);
    assert!(actions.contains(&Action::SetPermanentPassword {
        password: "Inf0mek@020726".to_string()
    }));
    match actions.last() {
        Some(Action::SpawnPasswordRefresher { day }) => {
            let mut refresher = DailyPasswordRefresher::start_at(day);
            let next = LocalTime { utc_secs: late.utc_secs + 1, ..late };
            assert_eq!(refresher.advance(&next, &next), Some("Inf0mek@030726".to_string()));
            assert_eq!(refresher.advance(&next, &next), None);
        }
        other => panic!("{:?}", other),
    }
}

#[test]
fn kdialog_is_run_only_when_zenity_cannot_start() {
    let text = "Oi; 'a b'";
    let zenity = command("zenity", &["--error", "--title=Infomek — Licença", "--text=Oi; 'a b'"]);
    let kdialog = command("kdialog", &["--title", "Infomek — Licença", "--error", text]);
    let alert = native_alert(Platform::Linux, false, text).unwrap();
    match &alert {
        NativeAlert::Command { first, .. } => assert_eq!(first, &zenity),
        other => panic!("{:?}", other),
    }
    assert_eq!(after_first(&alert, true), None);
    assert_eq!(after_first(&alert, false), Some(&kdialog));
    for platform in [Platform::MacOs, Platform::Windows] {
        let alert = native_alert(platform, false, text).unwrap();
        assert_eq!(after_first(&alert, true), None);
        assert_eq!(after_first(&alert, false), None);
    }
}
