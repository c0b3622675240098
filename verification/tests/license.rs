use deploy::license::{
    check_license, check_license_at, license_from_cache, license_from_cache_at, license_request,
    LicenseCheckResponse, LicenseOutcome, LicenseReply, DENIED_MESSAGE, LICENSE_API_URL,
    LICENSE_EXPIRY_KEY, LICENSE_GRACE_PERIOD_SECS, LICENSE_LAST_VALIDATED_KEY,
    LICENSE_SERVER_CACHE_KEY, LICENSE_TIMEOUT_SECS, NO_HISTORY_MESSAGE, STALE_MESSAGE,
};
use deploy::settings::Setting;

const T0: i64 = 1_780_000_000;

fn good_answer() -> LicenseCheckResponse {
    LicenseCheckResponse {
        valid: Some(true),
        id_server: "id.example.com".to_string(),
        relay_server: "relay.example.com".to_string(),
        key: "k3y=".to_string(),
        expires_at: "31/12/2026".to_string(),
        message: String::new(),
    }
}

fn pairs(settings: &[Setting]) -> Vec<(&str, &str)> {
    settings.iter().map(|s| (s.name.as_str(), s.value.as_str())).collect()
}

fn blocked_message(outcome: &LicenseOutcome) -> &str {
    match outcome {
        LicenseOutcome::Blocked { message } => message,
        _ => panic!("not blocked: {:?}", outcome),
    }
}

fn written<'a>(settings: &'a [Setting], name: &str) -> &'a str {
    match settings.iter().find(|s| s.name == name) {
        Some(s) => &s.value,
        None => "",
    }
}

#[test]
fn constants_have_their_documented_values() {
    assert_eq!(
        LICENSE_API_URL,
        "https://my.infomek.com.br/api/rustdesk/receiver.php?_path=api/license/check"
    );
    assert_eq!(LICENSE_SERVER_CACHE_KEY, "deploy-license-server-cfg");
    assert_eq!(LICENSE_EXPIRY_KEY, "deploy-license-expires-at");
    assert_eq!(LICENSE_LAST_VALIDATED_KEY, "deploy-license-last-validated");
    assert_eq!(LICENSE_GRACE_PERIOD_SECS, 7 * 86_400 / 2);
    assert_eq!(LICENSE_TIMEOUT_SECS, 5);
}

#[test]
fn confirmation_gives_the_servers_and_records_them() {
    let check = check_license_at(LicenseReply::Answer(good_answer()), "", "", T0);
    match check.outcome {
        LicenseOutcome::Valid(server) => {
            assert_eq!(server.id_server, "id.example.com");
            assert_eq!(server.relay_server, "relay.example.com");
            assert_eq!(server.key, "k3y=");
        }
        other => panic!("{:?}", other),
    }
    assert_eq!(
        pairs(&check.writes),
        vec![
            ("deploy-license-server-cfg", "id.example.com\nrelay.example.com\nk3y="),
            ("deploy-license-expires-at", "31/12/2026"),
            ("deploy-license-last-validated", "1780000000"),
        ]
    );
}

#[test]
fn confirmation_without_expiry_leaves_the_date_on_record() {
    let answer = LicenseCheckResponse { expires_at: String::new(), ..good_answer() };
    let check = check_license_at(LicenseReply::Answer(answer), "", "", 0);
    assert_eq!(
        pairs(&check.writes),
        vec![
            ("deploy-license-server-cfg", "id.example.com\nrelay.example.com\nk3y="),
            ("deploy-license-last-validated", "0"),
        ]
    );
}

#[test]
fn denial_clears_the_record() {
    let answer = LicenseCheckResponse {
        valid: Some(false),
        message: "Chave revogada".to_string(),
        ..good_answer()
    };
    let check = check_license(LicenseReply::Answer(answer), "id\n\n", "1");
    match check.outcome {
        LicenseOutcome::Denied { message } => assert_eq!(message, "Chave revogada"),
        other => panic!("{:?}", other),
    }
    assert_eq!(
        pairs(&check.writes),
        vec![
            ("deploy-license-server-cfg", ""),
            ("deploy-license-expires-at", ""),
            ("deploy-license-last-validated", ""),
        ]
    );
    let later = license_from_cache_at(
        written(&check.writes, LICENSE_SERVER_CACHE_KEY),
        written(&check.writes, LICENSE_LAST_VALIDATED_KEY),
        T0,
    );
    assert_eq!(blocked_message(&later), NO_HISTORY_MESSAGE);
}

#[test]
fn denial_without_a_reason_gets_the_default_message() {
    let check = check_license_at(
        LicenseReply::Answer(LicenseCheckResponse {
            valid: Some(false),
            ..LicenseCheckResponse::default()
        }),
        "id\nrelay\nkey",
        "1780000000",
        T0,
    );
    match check.outcome {
        LicenseOutcome::Denied { message } => {
            assert_eq!(message, DENIED_MESSAGE);
            assert_eq!(message, "Licença inválida ou expirada. Contate o suporte Infomek.");
        }
        other => panic!("{:?}", other),
    }
}

#[test]
fn confirmation_without_a_server_falls_back_on_the_record() {
    let answer = LicenseCheckResponse { id_server: String::new(), ..good_answer() };
    let check = check_license_at(LicenseReply::Answer(answer), "id\nrelay\nkey", "1780000000", T0 + 1);
    assert!(matches!(check.outcome, LicenseOutcome::CachedGrace { .. }));
    assert!(check.writes.is_empty());
}

#[test]
fn missing_answers_fall_back_on_the_record() {
    for reply in [LicenseReply::NoResponse, LicenseReply::Unreadable] {
        let check = check_license_at(reply, "id\nrelay\nkey\nmore", "1780000000", T0 + 60);
        assert!(check.writes.is_empty());
        match check.outcome {
            LicenseOutcome::CachedGrace { server, grace_expires_at, offline_secs } => {
                assert_eq!(server.id_server, "id");
                assert_eq!(server.relay_server, "relay");
                assert_eq!(server.key, "key\nmore");
                assert_eq!(grace_expires_at, T0 + 302_400);
                assert_eq!(offline_secs, 60);
            }
            other => panic!("{:?}", other),
        }
    }
}

#[test]
fn record_with_missing_lines_has_empty_parts() {
    match license_from_cache_at("id", "1780000000", T0) {
        LicenseOutcome::CachedGrace { server, .. } => {
            assert_eq!(server.id_server, "id");
            assert_eq!(server.relay_server, "");
            assert_eq!(server.key, "");
        }
        other => panic!("{:?}", other),
    }
    match license_from_cache_at("id\nrelay", "1780000000", T0) {
        LicenseOutcome::CachedGrace { server, .. } => {
            assert_eq!(server.relay_server, "relay");
            assert_eq!(server.key, "");
        }
        other => panic!("{:?}", other),
    }
}

#[test]
fn device_without_history_is_blocked() {
    let expected = "Sem conexão com o servidor de licenciamento e nenhuma validação anterior registrada neste dispositivo. Verifique a internet e tente novamente.";
    for (cached, last) in [
        ("", ""),
        ("id\nrelay\nkey", ""),
        ("", "1780000000"),
        ("id\nrelay\nkey", "ontem"),
        ("id\nrelay\nkey", "9223372036854775808"),
        ("\nrelay\nkey", "1780000000"),
    ] {
        let outcome = license_from_cache_at(cached, last, T0);
        assert_eq!(blocked_message(&outcome), expected);
        assert_eq!(blocked_message(&outcome), NO_HISTORY_MESSAGE);
    }
    assert_eq!(blocked_message(&license_from_cache("", "5")), NO_HISTORY_MESSAGE);
}

#[test]
fn grace_period_has_both_ends() {
    let cached = "id\nrelay\nkey";
    for now in [T0, T0 + 1, T0 + 302_400] {
        assert!(matches!(
            license_from_cache_at(cached, "1780000000", now),
            LicenseOutcome::CachedGrace { .. }
        ));
    }
    for now in [T0 - 1, T0 + 302_401, 0] {
        let outcome = license_from_cache_at(cached, "1780000000", now);
        assert_eq!(blocked_message(&outcome), STALE_MESSAGE);
        assert_eq!(
            blocked_message(&outcome),
            "Licença não revalidada com o servidor Infomek há mais de 3,5 dias. Verifique a internet ou contate o suporte."
        );
    }
}

#[test]
fn times_at_the_ends_of_the_range_are_stale() {
    for last in ["-9223372036854775808", "9223372036854775807", "-1", "+1"] {
        let outcome = license_from_cache_at("id\nrelay\nkey", last, T0);
        assert_eq!(blocked_message(&outcome), STALE_MESSAGE);
    }
}

#[test]
fn stale_time_is_reported_before_an_empty_server() {
    let outcome = license_from_cache_at("\nrelay\nkey", "5", T0);
    assert_eq!(blocked_message(&outcome), STALE_MESSAGE);
}

#[test]
fn confirmation_is_reused_until_the_grace_period_ends() {
    let check = check_license_at(LicenseReply::Answer(good_answer()), "", "", T0);
    let cached = written(&check.writes, LICENSE_SERVER_CACHE_KEY);
    let last = written(&check.writes, LICENSE_LAST_VALIDATED_KEY);
    match check_license_at(LicenseReply::NoResponse, cached, last, T0 + 302_400).outcome {
        LicenseOutcome::CachedGrace { server, grace_expires_at, offline_secs } => {
            assert_eq!(server.id_server, "id.example.com");
            assert_eq!(server.relay_server, "relay.example.com");
            assert_eq!(server.key, "k3y=");
            assert_eq!(grace_expires_at, T0 + 302_400);
            assert_eq!(offline_secs, 302_400);
        }
        other => panic!("{:?}", other),
    }
    let late = check_license_at(LicenseReply::NoResponse, cached, last, T0 + 302_401).outcome;
    assert_eq!(blocked_message(&late), STALE_MESSAGE);
}

#[test]
fn checks_without_an_answer_write_nothing() {
    for reply in [LicenseReply::NoResponse, LicenseReply::Unreadable] {
        assert!(check_license(reply, "id\n\n", "1780000000").writes.is_empty());
    }
}

#[test]
fn the_clock_is_read_in_seconds_since_1970() {
    let before = chrono::Utc::now().timestamp();
    let check = check_license(LicenseReply::Answer(good_answer()), "", "");
    let after = chrono::Utc::now().timestamp();
    let recorded: i64 = written(&check.writes, LICENSE_LAST_VALIDATED_KEY).parse().unwrap();
    assert!(before <= recorded && recorded <= after);

    let an_hour_ago = (before - 3600).to_string();
    match license_from_cache("id\nrelay\nkey", &an_hour_ago) {
        LicenseOutcome::CachedGrace { grace_expires_at, offline_secs, .. } => {
            assert_eq!(grace_expires_at, before - 3600 + 302_400);
            assert!(offline_secs >= 3600 && offline_secs < 3700);
        }
        other => panic!("{:?}", other),
    }
    let a_week_ago = (before - 604_800).to_string();
    assert_eq!(
        blocked_message(&license_from_cache("id\nrelay\nkey", &a_week_ago)),
        STALE_MESSAGE
    );
}

#[test]
fn request_names_the_device_and_the_build() {
    let fields = license_request("u-1", "host", "1.2", "abc", "2026-07-02");
    assert_eq!(
        pairs(&fields),
        vec![
            ("uuid", "u-1"),
            ("hostname", "host"),
            ("build_version", "1.2"),
            ("build_hash", "abc"),
            ("build_date", "2026-07-02"),
        ]
    );
}

#[test]
fn the_record_does_not_matter_when_the_server_speaks() {
    for (cached, last, now) in [("", "", 0), ("old\nold\nold", "1780000000", T0), ("x", "y", T0)] {
        let good = check_license_at(LicenseReply::Answer(good_answer()), cached, last, now);
        match good.outcome {
            LicenseOutcome::Valid(server) => assert_eq!(server.id_server, "id.example.com"),
            other => panic!("{:?}", other),
        }
        let bad = LicenseReply::Answer(LicenseCheckResponse { valid: Some(false), ..good_answer() });
        match check_license_at(bad, cached, last, now).outcome {
            LicenseOutcome::Denied { message } => assert_eq!(message, DENIED_MESSAGE),
            other => panic!("{:?}", other),
        }
    }
}

#[test]
fn answer_without_a_decision_is_no_denial() {
    assert_eq!(LicenseCheckResponse::default().valid, None);
    let empty = LicenseReply::Answer(LicenseCheckResponse::default());
    let undecided = LicenseReply::Answer(LicenseCheckResponse {
        valid: None,
        message: "Chave revogada".to_string(),
        ..good_answer()
    });
    for reply in [empty, undecided] {
        let check = check_license_at(reply, "id1\nr1\nk1", "1000000", 1_000_100);
        assert!(check.writes.is_empty());
        match check.outcome {
            LicenseOutcome::CachedGrace { server, grace_expires_at, offline_secs } => {
                assert_eq!(server.id_server, "id1");
                assert_eq!(server.relay_server, "r1");
                assert_eq!(server.key, "k1");
                assert_eq!(grace_expires_at, 1_302_400);
                assert_eq!(offline_secs, 100);
            }
            other => panic!("{:?}", other),
        }
    }
    let check = check_license(LicenseReply::Answer(LicenseCheckResponse::default()), "", "");
    assert!(check.writes.is_empty());
    assert_eq!(blocked_message(&check.outcome), NO_HISTORY_MESSAGE);
}
