//! The steps of a start-up one by one, said of the reply, of the record and of
//! what the clocks read.
use vstd::prelude::*;

use crate::action::{action_views, write_actions, Action, ActionView, LogLevel, Target};
use crate::alert::{alert_for, ended_with, AlertView};
use crate::alert_laws::one_mark_ends_the_message;
use crate::clock::{local_reading, offset_reading, two_digits, utc_reading, LocalTime};
use crate::license::{
    check_outcome, check_writes, LicenseCheckResponse, LicenseReply, OutcomeView, ServerConfig,
    ServerView,
};
use crate::license_laws::{
    confirmation_gives_what_the_answer_names, confirmation_writes_what_the_answer_names,
    denial_gives_its_reason_and_empties_the_record, fresh_record_is_reused,
    leaves_it_to_the_record, nothing_on_record_blocks, record_without_a_server_blocks,
    stale_record_blocks, undecided_reply_changes_nothing,
};
use crate::password::password_of;
use crate::password_laws::two_digits_are_tens_and_ones;
use crate::settings::{setting_views, Setting, SettingView};
use crate::startup::{
    apply, apply_actions, apply_at, apply_server_config, clocks_gave, grace_end, grace_message, halt_actions,
    launch, launch_with, offline_line, outcome_actions, proceed_actions,
    show_license_blocked_dialog, show_license_grace_notice, ProcessInfo, Readings,
};
use crate::text::{i64_value, signed_decimal};

verus! {

/// The step that fixes a setting.
pub open spec fn fixes(name: Seq<char>, value: Seq<char>) -> ActionView {
    ActionView::Overwrite { setting: SettingView { name, value } }
}

/// The step that sets an option of the device.
pub open spec fn keeps(name: Seq<char>, value: Seq<char>) -> ActionView {
    ActionView::SetLocalOption { setting: SettingView { name, value } }
}

/// The step, where the text is not empty.
pub open spec fn where_given(text: Seq<char>, action: ActionView) -> Seq<ActionView> {
    if text.len() == 0 {
        Seq::empty()
    } else {
        seq![action]
    }
}

/// The step that shows an alert, where there is one.
pub open spec fn shows(alert: Option<AlertView>) -> Seq<ActionView> {
    match alert {
        Some(a) => seq![ActionView::Alert { alert: a }],
        None => Seq::empty(),
    }
}

/// The first steps are these and no others: the name, the addresses that may
/// connect, the demand for a password and the password, where they are given, and
/// the request.
pub proof fn launch_takes_these_steps(password: &str, whitelist: &str, actions: Vec<Action>)
    requires
        call_ensures(launch_with, (password, whitelist), actions),
    ensures
        action_views(actions@) == seq![ActionView::SetAppName { name: "MyRemote"@ }] + where_given(
            whitelist@,
            fixes("whitelist"@, whitelist@),
        ) + where_given(
            password@,
            fixes("verification-method"@, "use-permanent-password"@),
        ) + where_given(
            password@,
            ActionView::SetPermanentPassword { password: password@ },
        ) + seq![ActionView::AskLicense],
{
    assert(action_views(actions@) =~= seq![ActionView::SetAppName { name: "MyRemote"@ }]
        + where_given(whitelist@, fixes("whitelist"@, whitelist@)) + where_given(
        password@,
        fixes("verification-method"@, "use-permanent-password"@),
    ) + where_given(password@, ActionView::SetPermanentPassword { password: password@ }) + seq![
        ActionView::AskLicense,
    ]);
}

/// As it is compiled, the client sets its name and asks, and does nothing else
/// first.
pub proof fn launch_sets_the_name_and_asks(actions: Vec<Action>)
    requires
        call_ensures(launch, (), actions),
    ensures
        action_views(actions@) == seq![
            ActionView::SetAppName { name: "MyRemote"@ },
            ActionView::AskLicense,
        ],
{
    reveal_strlit("");
    assert(action_views(actions@) =~= seq![
        ActionView::SetAppName { name: "MyRemote"@ },
        ActionView::AskLicense,
    ]);
}

/// The settings of a server configuration are its three parts, each under its
/// name and where it is not empty, and then the two that are always the same.
pub proof fn server_parts_are_fixed_as_they_are(server: ServerConfig, settings: Vec<Setting>)
    requires
        call_ensures(apply_server_config, (server,), settings),
    ensures
        ({
            let written = setting_views(settings@);
            let n = written.len() as int;
            &&& n >= 2
            &&& written[n - 2] == (SettingView {
                name: "api-server"@,
                value: "https://my.infomek.com.br/api/rustdesk"@,
            })
            &&& written[n - 1] == (SettingView {
                name: "verification-method"@,
                value: "use-permanent-password"@,
            })
            &&& write_actions(Target::Fixed, written.take(n - 2)) == where_given(
                server.id_server@,
                fixes("custom-rendezvous-server"@, server.id_server@),
            ) + where_given(server.relay_server@, fixes("relay-server"@, server.relay_server@))
                + where_given(server.key@, fixes("key"@, server.key@))
        }),
{
    let written = setting_views(settings@);
    let n = written.len() as int;
    assert(write_actions(Target::Fixed, written.take(n - 2)) =~= where_given(
        server.id_server@,
        fixes("custom-rendezvous-server"@, server.id_server@),
    ) + where_given(server.relay_server@, fixes("relay-server"@, server.relay_server@))
        + where_given(server.key@, fixes("key"@, server.key@)));
}

/// A client that stops logs the reason as an error and shows it, with one
/// exclamation mark at its end.
pub proof fn blocked_dialog_logs_and_shows(
    message: &str,
    info: ProcessInfo,
    body: Seq<char>,
    n: nat,
    actions: Vec<Action>,
)
    requires
        call_ensures(show_license_blocked_dialog, (message, info), actions),
        message@ == body + Seq::new(n, |i: int| '!'),
        body.len() > 0 ==> body.last() != '!',
    ensures
        action_views(actions@) == seq![
            ActionView::Log { level: LogLevel::Error, text: body + seq!['!'] },
        ] + shows(alert_for(info.platform, info.is_service_process, body + seq!['!'])),
{
    one_mark_ends_the_message(body, '!', n);
}

/// A notice is logged as a warning and shown, with one full stop at its end.
pub proof fn grace_notice_logs_and_shows(
    message: &str,
    info: ProcessInfo,
    body: Seq<char>,
    n: nat,
    actions: Vec<Action>,
)
    requires
        call_ensures(show_license_grace_notice, (message, info), actions),
        message@ == body + Seq::new(n, |i: int| '.'),
        body.len() > 0 ==> body.last() != '.',
    ensures
        action_views(actions@) == seq![
            ActionView::Log { level: LogLevel::Warn, text: body + seq!['.'] },
        ] + shows(alert_for(info.platform, info.is_service_process, body + seq!['.'])),
{
    one_mark_ends_the_message(body, '.', n);
}

proof fn lemma_proceed(server: ServerView, today: LocalTime)
    ensures
        proceed_actions(server, today) == where_given(
            server.id_server,
            fixes("custom-rendezvous-server"@, server.id_server),
        ) + where_given(server.relay_server, fixes("relay-server"@, server.relay_server))
            + where_given(server.key, fixes("key"@, server.key)) + seq![
            fixes("api-server"@, "https://my.infomek.com.br/api/rustdesk"@),
            fixes("verification-method"@, "use-permanent-password"@),
            ActionView::SetPermanentPassword {
                password: "Inf0mek@"@ + two_digits(today.date().day) + two_digits(
                    today.date().month,
                ) + two_digits(today.date().year % 100),
            },
            ActionView::SpawnPasswordRefresher { day: today },
        ],
{
    assert(password_of(today) =~= "Inf0mek@"@ + two_digits(today.date().day) + two_digits(
        today.date().month,
    ) + two_digits(today.date().year % 100));
    assert(proceed_actions(server, today) =~= where_given(
        server.id_server,
        fixes("custom-rendezvous-server"@, server.id_server),
    ) + where_given(server.relay_server, fixes("relay-server"@, server.relay_server))
        + where_given(server.key, fixes("key"@, server.key)) + seq![
        fixes("api-server"@, "https://my.infomek.com.br/api/rustdesk"@),
        fixes("verification-method"@, "use-permanent-password"@),
        ActionView::SetPermanentPassword { password: password_of(today) },
        ActionView::SpawnPasswordRefresher { day: today },
    ]);
}

proof fn lemma_confirmed(
    answer: LicenseCheckResponse,
    cached: Seq<char>,
    last_validated: Seq<char>,
    readings: Readings,
    info: ProcessInfo,
)
    requires
        answer.valid == Some(true),
        answer.id_server@.len() > 0,
    ensures
        apply_actions(LicenseReply::Answer(answer), cached, last_validated, readings, info)
            == seq![
                keeps(
                    "deploy-license-server-cfg"@,
                    answer.id_server@ + seq!['\n'] + answer.relay_server@ + seq!['\n'] + answer.key@,
                ),
            ] + where_given(
                answer.expires_at@,
                keeps("deploy-license-expires-at"@, answer.expires_at@),
            ) + seq![
                keeps("deploy-license-last-validated"@, signed_decimal(readings.now as int)),
            ] + (where_given(
                answer.id_server@,
                fixes("custom-rendezvous-server"@, answer.id_server@),
            ) + where_given(answer.relay_server@, fixes("relay-server"@, answer.relay_server@)) + where_given(
                answer.key@,
                fixes("key"@, answer.key@),
            ) + seq![
                fixes("api-server"@, "https://my.infomek.com.br/api/rustdesk"@),
                fixes("verification-method"@, "use-permanent-password"@),
                ActionView::SetPermanentPassword {
                    password: "Inf0mek@"@ + two_digits(readings.today.date().day) + two_digits(
                        readings.today.date().month,
                    ) + two_digits(readings.today.date().year % 100),
                },
                ActionView::SpawnPasswordRefresher { day: readings.today },
            ]),
{
    let reply = LicenseReply::Answer(answer);
    let now = readings.now as int;
    confirmation_gives_what_the_answer_names(answer, cached, last_validated, now);
    confirmation_writes_what_the_answer_names(answer, now);
    let server = check_outcome(reply, cached, last_validated, now)->Valid_0;
    lemma_proceed(server, readings.today);
    let writes = check_writes(reply, now);
    let kept = write_actions(Target::Local, writes);
    assert(kept =~= seq![
        keeps(
            "deploy-license-server-cfg"@,
            answer.id_server@ + seq!['\n'] + answer.relay_server@ + seq!['\n'] + answer.key@,
        ),
    ] + where_given(
        answer.expires_at@,
        keeps("deploy-license-expires-at"@, answer.expires_at@),
    ) + seq![keeps("deploy-license-last-validated"@, signed_decimal(now))]);
}

/// A confirmation that names a server leads to these steps and no others, in this
/// order: what is to be kept of the answer, then the settings of its servers, then
/// the password of the day and its renewal. The time that is kept and the day of
/// the password are those that are given.
pub proof fn confirmation_leads_to_these_steps(
    answer: LicenseCheckResponse,
    cached: &str,
    last_validated: &str,
    readings: Readings,
    info: ProcessInfo,
    actions: Vec<Action>,
)
    requires
        call_ensures(
            apply_at,
            (LicenseReply::Answer(answer), cached, last_validated, readings, info),
            actions,
        ),
        answer.valid == Some(true),
        answer.id_server@.len() > 0,
    ensures
        action_views(actions@)
            == seq![
                keeps(
                    "deploy-license-server-cfg"@,
                    answer.id_server@ + seq!['\n'] + answer.relay_server@ + seq!['\n'] + answer.key@,
                ),
            ] + where_given(
                answer.expires_at@,
                keeps("deploy-license-expires-at"@, answer.expires_at@),
            ) + seq![
                keeps("deploy-license-last-validated"@, signed_decimal(readings.now as int)),
            ] + (where_given(
                answer.id_server@,
                fixes("custom-rendezvous-server"@, answer.id_server@),
            ) + where_given(answer.relay_server@, fixes("relay-server"@, answer.relay_server@)) + where_given(
                answer.key@,
                fixes("key"@, answer.key@),
            ) + seq![
                fixes("api-server"@, "https://my.infomek.com.br/api/rustdesk"@),
                fixes("verification-method"@, "use-permanent-password"@),
                ActionView::SetPermanentPassword {
                    password: "Inf0mek@"@ + two_digits(readings.today.date().day) + two_digits(
                        readings.today.date().month,
                    ) + two_digits(readings.today.date().year % 100),
                },
                ActionView::SpawnPasswordRefresher { day: readings.today },
            ]),
{
    lemma_confirmed(answer, cached@, last_validated@, readings, info);
}

/// The time that a start-up on a confirmation keeps is what the clock read in that
/// start-up, and the password is that of the day which the local clock showed.
pub proof fn confirmation_is_applied_by_the_clock(
    answer: LicenseCheckResponse,
    cached: &str,
    last_validated: &str,
    info: ProcessInfo,
    actions: Vec<Action>,
)
    requires
        call_ensures(
            apply,
            (LicenseReply::Answer(answer), cached, last_validated, info),
            actions,
        ),
        answer.valid == Some(true),
        answer.id_server@.len() > 0,
    ensures
        exists|now: i64, today: LocalTime| #[trigger]
            utc_reading(now) && #[trigger] local_reading(today) && today.wf() && action_views(
                actions@,
            ) == seq![
                keeps(
                    "deploy-license-server-cfg"@,
                    answer.id_server@ + seq!['\n'] + answer.relay_server@ + seq!['\n'] + answer.key@,
                ),
            ] + where_given(
                answer.expires_at@,
                keeps("deploy-license-expires-at"@, answer.expires_at@),
            ) + seq![
                keeps("deploy-license-last-validated"@, signed_decimal(now as int)),
            ] + (where_given(
                answer.id_server@,
                fixes("custom-rendezvous-server"@, answer.id_server@),
            ) + where_given(answer.relay_server@, fixes("relay-server"@, answer.relay_server@)) + where_given(
                answer.key@,
                fixes("key"@, answer.key@),
            ) + seq![
                fixes("api-server"@, "https://my.infomek.com.br/api/rustdesk"@),
                fixes("verification-method"@, "use-permanent-password"@),
                ActionView::SetPermanentPassword {
                    password: "Inf0mek@"@ + two_digits(today.date().day) + two_digits(
                        today.date().month,
                    ) + two_digits(today.date().year % 100),
                },
                ActionView::SpawnPasswordRefresher { day: today },
            ]),
{
    let reply = LicenseReply::Answer(answer);
    let r = choose|r: Readings| #[trigger]
        clocks_gave(reply, cached@, last_validated@, r) && r.wf() && action_views(actions@)
            == apply_actions(reply, cached@, last_validated@, r, info);
    lemma_confirmed(answer, cached@, last_validated@, r, info);
    confirmation_gives_what_the_answer_names(answer, cached@, last_validated@, r.now as int);
    assert(utc_reading(r.now) && local_reading(r.today));
}

proof fn lemma_halt(message: Seq<char>, info: ProcessInfo)
    ensures
        halt_actions(message, info)
            == seq![
                ActionView::Log { level: LogLevel::Error, text: ended_with(message, '!') },
            ] + shows(alert_for(info.platform, info.is_service_process, ended_with(message, '!'))) + seq![
                ActionView::Exit { code: 42 },
            ],
{
}

/// A denial leads to these steps and no others, whatever is on record and whatever
/// the time: the three options are emptied, the reason is logged and shown, and the
/// process ends with the code that is kept for this.
pub proof fn denial_leads_to_these_steps(
    answer: LicenseCheckResponse,
    cached: &str,
    last_validated: &str,
    info: ProcessInfo,
    actions: Vec<Action>,
)
    requires
        call_ensures(
            apply,
            (LicenseReply::Answer(answer), cached, last_validated, info),
            actions,
        ) || exists|readings: Readings| #[trigger]
            call_ensures(
                apply_at,
                (LicenseReply::Answer(answer), cached, last_validated, readings, info),
                actions,
            ),
        answer.valid == Some(false),
    ensures
        ({
            let reason = if answer.message@.len() > 0 {
                answer.message@
            } else {
                "Licença inválida ou expirada. Contate o suporte Infomek."@
            };
            action_views(actions@) == seq![
                keeps("deploy-license-server-cfg"@, Seq::empty()),
                keeps("deploy-license-expires-at"@, Seq::empty()),
                keeps("deploy-license-last-validated"@, Seq::empty()),
            ] + (seq![
                ActionView::Log { level: LogLevel::Error, text: ended_with(reason, '!') },
            ] + shows(alert_for(info.platform, info.is_service_process, ended_with(reason, '!'))) + seq![
                ActionView::Exit { code: 42 },
            ])
        }),
{
    let reply = LicenseReply::Answer(answer);
    let reason = if answer.message@.len() > 0 {
        answer.message@
    } else {
        "Licença inválida ou expirada. Contate o suporte Infomek."@
    };
    let emptied = seq![
        keeps("deploy-license-server-cfg"@, Seq::empty()),
        keeps("deploy-license-expires-at"@, Seq::empty()),
        keeps("deploy-license-last-validated"@, Seq::empty()),
    ];
    assert forall|r: Readings|
        #[trigger] apply_actions(reply, cached@, last_validated@, r, info) == emptied
            + halt_actions(reason, info) by {
        denial_gives_its_reason_and_empties_the_record(
            answer,
            cached@,
            last_validated@,
            r.now as int,
        );
        let kept = write_actions(Target::Local, check_writes(reply, r.now as int));
        assert(kept =~= emptied);
    }
    lemma_halt(reason, info);
}

/// A device without a record that gets no usable answer is told so, and its
/// process ends, whatever the time. Nothing is kept.
pub proof fn missing_record_leads_to_these_steps(
    reply: LicenseReply,
    cached: &str,
    last_validated: &str,
    info: ProcessInfo,
    actions: Vec<Action>,
)
    requires
        call_ensures(apply, (reply, cached, last_validated, info), actions) || exists|
            readings: Readings,
        | #[trigger]
            call_ensures(apply_at, (reply, cached, last_validated, readings, info), actions),
        leaves_it_to_the_record(reply),
        cached@.len() == 0 || last_validated@.len() == 0 || i64_value(last_validated@) is None,
    ensures
        ({
            let text = ended_with(
                "Sem conexão com o servidor de licenciamento e nenhuma validação anterior registrada neste dispositivo. Verifique a internet e tente novamente."@,
                '!',
            );
            action_views(actions@) == seq![
                ActionView::Log { level: LogLevel::Error, text: text },
            ] + shows(alert_for(info.platform, info.is_service_process, text)) + seq![
                ActionView::Exit { code: 42 },
            ]
        }),
{
    let message =
        "Sem conexão com o servidor de licenciamento e nenhuma validação anterior registrada neste dispositivo. Verifique a internet e tente novamente."@;
    assert forall|r: Readings|
        #[trigger] apply_actions(reply, cached@, last_validated@, r, info) == halt_actions(
            message,
            info,
        ) by {
        undecided_reply_changes_nothing(reply, cached@, last_validated@, r.now as int);
        nothing_on_record_blocks(cached@, last_validated@, r.now as int);
        assert(apply_actions(reply, cached@, last_validated@, r, info) =~= halt_actions(
            message,
            info,
        ));
    }
    lemma_halt(message, info);
}

proof fn lemma_stale(
    reply: LicenseReply,
    cached: Seq<char>,
    last_validated: Seq<char>,
    at: i64,
    r: Readings,
    info: ProcessInfo,
)
    requires
        leaves_it_to_the_record(reply),
        cached.len() > 0,
        last_validated.len() > 0,
        i64_value(last_validated) == Some(at),
        r.now - at > 302_400 || r.now < at,
    ensures
        apply_actions(reply, cached, last_validated, r, info) == halt_actions(
            "Licença não revalidada com o servidor Infomek há mais de 3,5 dias. Verifique a internet ou contate o suporte."@,
            info,
        ),
{
    undecided_reply_changes_nothing(reply, cached, last_validated, r.now as int);
    stale_record_blocks(cached, last_validated, at, r.now as int);
    assert(apply_actions(reply, cached, last_validated, r, info) =~= halt_actions(
        "Licença não revalidada com o servidor Infomek há mais de 3,5 dias. Verifique a internet ou contate o suporte."@,
        info,
    ));
}

proof fn lemma_no_server_on_record(
    reply: LicenseReply,
    cached: Seq<char>,
    last_validated: Seq<char>,
    at: i64,
    r: Readings,
    info: ProcessInfo,
)
    requires
        leaves_it_to_the_record(reply),
        cached.len() > 0,
        cached[0] == '\n',
        last_validated.len() > 0,
        i64_value(last_validated) == Some(at),
        0 <= r.now - at <= 302_400,
    ensures
        apply_actions(reply, cached, last_validated, r, info) == halt_actions(
            "Sem conexão com o servidor de licenciamento e nenhuma validação anterior registrada neste dispositivo. Verifique a internet e tente novamente."@,
            info,
        ),
{
    let rest = cached.skip(1);
    assert(seq!['\n'] + rest =~= cached);
    undecided_reply_changes_nothing(reply, cached, last_validated, r.now as int);
    record_without_a_server_blocks(rest, last_validated, at, r.now as int);
    assert(apply_actions(reply, cached, last_validated, r, info) =~= halt_actions(
        "Sem conexão com o servidor de licenciamento e nenhuma validação anterior registrada neste dispositivo. Verifique a internet e tente novamente."@,
        info,
    ));
}

/// A notice that says when the grace period ends has no full stop before the one
/// at its end.
proof fn lemma_notice(end: LocalTime)
    ensures
        ended_with(grace_message(end), '.')
            == "Período de teste Infomek ativo (sem conexão com o servidor de licenciamento) — expira em "@
            + end.minute_text() + "."@,
{
    let body =
        "Período de teste Infomek ativo (sem conexão com o servidor de licenciamento) — expira em "@
        + end.minute_text();
    assert(grace_message(end) == body);
    let minutes = two_digits(end.minute());
    assert(end.minute_text().last() == minutes[1]);
    two_digits_are_tens_and_ones(end.minute());
    assert(body.last() == minutes[1]);
    assert(body + Seq::new(0, |i: int| '.') =~= body);
    one_mark_ends_the_message(body, '.', 0);
    reveal_strlit(".");
    assert(body + "."@ =~= body + seq!['.']);
}

#[verifier::spinoff_prover]
#[verifier::rlimit(80)]
proof fn lemma_grace(
    reply: LicenseReply,
    id_server: Seq<char>,
    relay_server: Seq<char>,
    key: Seq<char>,
    cached: Seq<char>,
    last_validated: Seq<char>,
    at: i64,
    r: Readings,
    info: ProcessInfo,
)
    requires
        leaves_it_to_the_record(reply),
        id_server.len() > 0,
        forall|i: int| 0 <= i < id_server.len() ==> #[trigger] id_server[i] != '\n',
        forall|i: int| 0 <= i < relay_server.len() ==> #[trigger] relay_server[i] != '\n',
        ({
            ||| cached == id_server + seq!['\n'] + relay_server + seq!['\n'] + key
            ||| cached == id_server + seq!['\n'] + relay_server && key.len() == 0
            ||| cached == id_server && relay_server.len() == 0 && key.len() == 0
        }),
        last_validated.len() > 0,
        i64_value(last_validated) == Some(at),
        0 <= r.now - at <= 302_400,
        r.wf(),
    ensures
        check_outcome(reply, cached, last_validated, r.now as int) matches
            OutcomeView::CachedGrace { grace_expires_at, .. } && grace_expires_at == at + 302_400,
        ({
            let end = if at + 302_400 <= 8_210_266_876_799 {
                LocalTime { utc_secs: (at + 302_400) as i64, offset_secs: r.grace_end_offset }
            } else {
                r.today
            };
            let line =
                "Licença operando em modo offline (cache local, sem contato com a API desde "@
                + signed_decimal(r.now - at) + "s atrás). Prazo de tolerância até "@ + end.minute_text()
                + "."@;
            let notice =
                "Período de teste Infomek ativo (sem conexão com o servidor de licenciamento) — expira em "@
                + end.minute_text() + "."@;
            apply_actions(reply, cached, last_validated, r, info) == seq![ActionView::Log { level: LogLevel::Warn, text: line }] + (
            where_given(
                id_server,
                fixes("custom-rendezvous-server"@, id_server),
            ) + where_given(relay_server, fixes("relay-server"@, relay_server)) + where_given(
                key,
                fixes("key"@, key),
            ) + seq![
                fixes("api-server"@, "https://my.infomek.com.br/api/rustdesk"@),
                fixes("verification-method"@, "use-permanent-password"@),
                ActionView::SetPermanentPassword {
                    password: "Inf0mek@"@ + two_digits(r.today.date().day) + two_digits(
                        r.today.date().month,
                    ) + two_digits(r.today.date().year % 100),
                },
                ActionView::SpawnPasswordRefresher { day: r.today },
            ]) + seq![
                ActionView::Log { level: LogLevel::Warn, text: notice },
            ] + shows(alert_for(info.platform, info.is_service_process, notice))
        }),
{
    undecided_reply_changes_nothing(reply, cached, last_validated, r.now as int);
    fresh_record_is_reused(id_server, relay_server, key, last_validated, at, r.now as int);
    assert(key.len() == 0 ==> key =~= Seq::<char>::empty());
    assert(relay_server.len() == 0 ==> relay_server =~= Seq::<char>::empty());
    let server = ServerView { id_server, relay_server, key };
    let end = if at + 302_400 <= 8_210_266_876_799 {
        LocalTime { utc_secs: (at + 302_400) as i64, offset_secs: r.grace_end_offset }
    } else {
        r.today
    };
    lemma_proceed(server, r.today);
    lemma_notice(end);
    let outcome = OutcomeView::CachedGrace {
        server,
        grace_expires_at: at + 302_400,
        offline_secs: r.now - at,
    };
    assert(check_outcome(reply, cached, last_validated, r.now as int) == outcome);
    assert(grace_end(at + 302_400, r) == end);
    assert(apply_actions(reply, cached, last_validated, r, info) =~= outcome_actions(
        outcome,
        r,
        info,
    ));
    let notice = ended_with(grace_message(end), '.');
    assert(outcome_actions(outcome, r, info) =~= seq![
        ActionView::Log { level: LogLevel::Warn, text: offline_line(r.now - at, end) },
    ] + proceed_actions(server, r.today) + seq![
        ActionView::Log { level: LogLevel::Warn, text: notice },
    ] + shows(alert_for(info.platform, info.is_service_process, notice)));
}

/// Without a usable answer, what the clock read in that very start-up decides what
/// becomes of a record that names a server. If it is more than three days and a half
/// old by that reading, or ahead of it, the reason is logged and shown and the
/// process ends. Otherwise the client runs with the servers of the record, and with
/// the password of the day that the local clock showed; the log says since when
/// there was no contact, and the user is told until when this lasts, by the time
/// zone that the machine has then.
#[verifier::spinoff_prover]
#[verifier::rlimit(80)]
pub proof fn record_is_applied_by_the_clock(
    reply: LicenseReply,
    id_server: Seq<char>,
    relay_server: Seq<char>,
    key: Seq<char>,
    cached: &str,
    last_validated: &str,
    at: i64,
    info: ProcessInfo,
    actions: Vec<Action>,
)
    requires
        call_ensures(apply, (reply, cached, last_validated, info), actions),
        leaves_it_to_the_record(reply),
        id_server.len() > 0,
        forall|i: int| 0 <= i < id_server.len() ==> #[trigger] id_server[i] != '\n',
        forall|i: int| 0 <= i < relay_server.len() ==> #[trigger] relay_server[i] != '\n',
        ({
            ||| cached@ == id_server + seq!['\n'] + relay_server + seq!['\n'] + key
            ||| cached@ == id_server + seq!['\n'] + relay_server && key.len() == 0
            ||| cached@ == id_server && relay_server.len() == 0 && key.len() == 0
        }),
        last_validated@.len() > 0,
        i64_value(last_validated@) == Some(at),
    ensures
        exists|r: Readings| #[trigger]
            r.wf() && {
                &&& utc_reading(r.now)
                &&& r.now - at > 302_400 || r.now < at ==> {
                    let text = ended_with(
                        "Licença não revalidada com o servidor Infomek há mais de 3,5 dias. Verifique a internet ou contate o suporte."@,
                        '!',
                    );
                    action_views(actions@) == seq![
                        ActionView::Log { level: LogLevel::Error, text: text },
                    ] + shows(alert_for(info.platform, info.is_service_process, text)) + seq![
                        ActionView::Exit { code: 42 },
                    ]
                }
                &&& 0 <= r.now - at <= 302_400 ==> {
                    &&& local_reading(r.today)
                    &&& at + 302_400 <= 8_210_266_876_799 ==> offset_reading(
                        (at + 302_400) as i64,
                        r.grace_end_offset,
                    )
                    &&& {
                        let end = if at + 302_400 <= 8_210_266_876_799 {
                            LocalTime { utc_secs: (at + 302_400) as i64, offset_secs: r.grace_end_offset }
                        } else {
                            r.today
                        };
                        let line =
                            "Licença operando em modo offline (cache local, sem contato com a API desde "@
                            + signed_decimal(r.now - at) + "s atrás). Prazo de tolerância até "@ + end.minute_text()
                            + "."@;
                        let notice =
                            "Período de teste Infomek ativo (sem conexão com o servidor de licenciamento) — expira em "@
                            + end.minute_text() + "."@;
                        action_views(actions@) == seq![ActionView::Log { level: LogLevel::Warn, text: line }] + (
                        where_given(
                            id_server,
                            fixes("custom-rendezvous-server"@, id_server),
                        ) + where_given(relay_server, fixes("relay-server"@, relay_server)) + where_given(
                            key,
                            fixes("key"@, key),
                        ) + seq![
                            fixes("api-server"@, "https://my.infomek.com.br/api/rustdesk"@),
                            fixes("verification-method"@, "use-permanent-password"@),
                            ActionView::SetPermanentPassword {
                                password: "Inf0mek@"@ + two_digits(r.today.date().day) + two_digits(
                                    r.today.date().month,
                                ) + two_digits(r.today.date().year % 100),
                            },
                            ActionView::SpawnPasswordRefresher { day: r.today },
                        ]) + seq![
                            ActionView::Log { level: LogLevel::Warn, text: notice },
                        ] + shows(alert_for(info.platform, info.is_service_process, notice))
                    }
                }
            },
{
    let r = choose|r: Readings| #[trigger]
        clocks_gave(reply, cached@, last_validated@, r) && r.wf() && action_views(actions@)
            == apply_actions(reply, cached@, last_validated@, r, info);
    undecided_reply_changes_nothing(reply, cached@, last_validated@, r.now as int);
    if r.now - at > 302_400 || r.now < at {
        lemma_stale(reply, cached@, last_validated@, at, r, info);
        lemma_halt(
            "Licença não revalidada com o servidor Infomek há mais de 3,5 dias. Verifique a internet ou contate o suporte."@,
            info,
        );
    } else {
        lemma_grace(
            reply,
            id_server,
            relay_server,
            key,
            cached@,
            last_validated@,
            at,
            r,
            info,
        );
    }
    assert(r.wf() && utc_reading(r.now));
}

/// The same when the readings of the clocks are given.
#[verifier::spinoff_prover]
#[verifier::rlimit(80)]
pub proof fn record_is_applied_by_given_readings(
    reply: LicenseReply,
    id_server: Seq<char>,
    relay_server: Seq<char>,
    key: Seq<char>,
    cached: &str,
    last_validated: &str,
    at: i64,
    r: Readings,
    info: ProcessInfo,
    actions: Vec<Action>,
)
    requires
        call_ensures(apply_at, (reply, cached, last_validated, r, info), actions),
        r.wf(),
        leaves_it_to_the_record(reply),
        id_server.len() > 0,
        forall|i: int| 0 <= i < id_server.len() ==> #[trigger] id_server[i] != '\n',
        forall|i: int| 0 <= i < relay_server.len() ==> #[trigger] relay_server[i] != '\n',
        ({
            ||| cached@ == id_server + seq!['\n'] + relay_server + seq!['\n'] + key
            ||| cached@ == id_server + seq!['\n'] + relay_server && key.len() == 0
            ||| cached@ == id_server && relay_server.len() == 0 && key.len() == 0
        }),
        last_validated@.len() > 0,
        i64_value(last_validated@) == Some(at),
    ensures
        r.now - at > 302_400 || r.now < at ==> {
            let text = ended_with(
                "Licença não revalidada com o servidor Infomek há mais de 3,5 dias. Verifique a internet ou contate o suporte."@,
                '!',
            );
            action_views(actions@) == seq![
                ActionView::Log { level: LogLevel::Error, text: text },
            ] + shows(alert_for(info.platform, info.is_service_process, text)) + seq![
                ActionView::Exit { code: 42 },
            ]
        },
        0 <= r.now - at <= 302_400 ==> {
            let end = if at + 302_400 <= 8_210_266_876_799 {
                LocalTime { utc_secs: (at + 302_400) as i64, offset_secs: r.grace_end_offset }
            } else {
                r.today
            };
            let line =
                "Licença operando em modo offline (cache local, sem contato com a API desde "@
                + signed_decimal(r.now - at) + "s atrás). Prazo de tolerância até "@ + end.minute_text()
                + "."@;
            let notice =
                "Período de teste Infomek ativo (sem conexão com o servidor de licenciamento) — expira em "@
                + end.minute_text() + "."@;
            action_views(actions@) == seq![ActionView::Log { level: LogLevel::Warn, text: line }] + (
            where_given(
                id_server,
                fixes("custom-rendezvous-server"@, id_server),
            ) + where_given(relay_server, fixes("relay-server"@, relay_server)) + where_given(
                key,
                fixes("key"@, key),
            ) + seq![
                fixes("api-server"@, "https://my.infomek.com.br/api/rustdesk"@),
                fixes("verification-method"@, "use-permanent-password"@),
                ActionView::SetPermanentPassword {
                    password: "Inf0mek@"@ + two_digits(r.today.date().day) + two_digits(
                        r.today.date().month,
                    ) + two_digits(r.today.date().year % 100),
                },
                ActionView::SpawnPasswordRefresher { day: r.today },
            ]) + seq![
                ActionView::Log { level: LogLevel::Warn, text: notice },
            ] + shows(alert_for(info.platform, info.is_service_process, notice))
        },
{
    if r.now - at > 302_400 || r.now < at {
        lemma_stale(reply, cached@, last_validated@, at, r, info);
        lemma_halt(
            "Licença não revalidada com o servidor Infomek há mais de 3,5 dias. Verifique a internet ou contate o suporte."@,
            info,
        );
    } else {
        lemma_grace(
            reply,
            id_server,
            relay_server,
            key,
            cached@,
            last_validated@,
            at,
            r,
            info,
        );
    }
}

/// A record that names no server lets no client run: the process ends, with the
/// reason that the record is too old where it is, and as without a record where it
/// is not.
pub proof fn record_without_a_server_ends_the_process(
    reply: LicenseReply,
    cached: &str,
    last_validated: &str,
    at: i64,
    info: ProcessInfo,
    actions: Vec<Action>,
)
    requires
        call_ensures(apply, (reply, cached, last_validated, info), actions),
        leaves_it_to_the_record(reply),
        cached@.len() > 0,
        cached@[0] == '\n',
        last_validated@.len() > 0,
        i64_value(last_validated@) == Some(at),
    ensures
        exists|now: i64| #[trigger]
            utc_reading(now) && {
                let text = ended_with(
                    if 0 <= now - at <= 302_400 {
                        "Sem conexão com o servidor de licenciamento e nenhuma validação anterior registrada neste dispositivo. Verifique a internet e tente novamente."@
                    } else {
                        "Licença não revalidada com o servidor Infomek há mais de 3,5 dias. Verifique a internet ou contate o suporte."@
                    },
                    '!',
                );
                action_views(actions@) == seq![
                    ActionView::Log { level: LogLevel::Error, text: text },
                ] + shows(alert_for(info.platform, info.is_service_process, text)) + seq![
                    ActionView::Exit { code: 42 },
                ]
            },
{
    let r = choose|r: Readings| #[trigger]
        clocks_gave(reply, cached@, last_validated@, r) && r.wf() && action_views(actions@)
            == apply_actions(reply, cached@, last_validated@, r, info);
    undecided_reply_changes_nothing(reply, cached@, last_validated@, r.now as int);
    if 0 <= r.now - at <= 302_400 {
        lemma_no_server_on_record(reply, cached@, last_validated@, at, r, info);
        lemma_halt(
            "Sem conexão com o servidor de licenciamento e nenhuma validação anterior registrada neste dispositivo. Verifique a internet e tente novamente."@,
            info,
        );
    } else {
        lemma_stale(reply, cached@, last_validated@, at, r, info);
        lemma_halt(
            "Licença não revalidada com o servidor Infomek há mais de 3,5 dias. Verifique a internet ou contate o suporte."@,
            info,
        );
    }
    assert(utc_reading(r.now));
}

} // verus!
