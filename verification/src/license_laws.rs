//! What a check of the licence comes to, said of the answer, of the two options
//! on record and of the time.
use vstd::prelude::*;

use crate::clock::{is_reading, utc_reading};
use crate::license::{
    cache_outcome, check_license, check_license_at, check_outcome, check_writes, is_check,
    last_validation, license_from_cache, license_from_cache_at, license_request, time_matters,
    LicenseCheck, LicenseCheckResponse, LicenseOutcome, LicenseReply, OutcomeView, ServerView,
};
use crate::settings::{setting_views, Setting, SettingView};
use crate::text::{first_line, i64_text_reads_back, i64_value, signed_decimal};
use crate::text_laws::{text_splits_at_its_first_newline, text_without_newline_is_one_line};

verus! {

/// A confirmation that names a server gives the three parts of the answer as they
/// are, whatever is on record and whatever the time.
pub proof fn confirmation_gives_what_the_answer_names(
    answer: LicenseCheckResponse,
    cached: Seq<char>,
    last_validated: Seq<char>,
    now: int,
)
    requires
        answer.valid == Some(true),
        answer.id_server@.len() > 0,
    ensures
        check_outcome(LicenseReply::Answer(answer), cached, last_validated, now) matches
            OutcomeView::Valid(server) && {
            &&& server.id_server == answer.id_server@
            &&& server.relay_server == answer.relay_server@
            &&& server.key == answer.key@
        },
{
}

/// A confirmation that names a server is written down: the three parts of the
/// answer on lines of their own, then the expiry date if the answer has one, and
/// last the time in decimal. Nothing else is written.
pub proof fn confirmation_writes_what_the_answer_names(answer: LicenseCheckResponse, now: int)
    requires
        answer.valid == Some(true),
        answer.id_server@.len() > 0,
    ensures
        ({
            let writes = check_writes(LicenseReply::Answer(answer), now);
            &&& writes.first().name == "deploy-license-server-cfg"@
            &&& writes.first().value == answer.id_server@ + seq!['\n'] + answer.relay_server@
                + seq!['\n'] + answer.key@
            &&& writes.last().name == "deploy-license-last-validated"@
            &&& writes.last().value == signed_decimal(now)
            &&& answer.expires_at@.len() == 0 ==> writes.len() == 2
            &&& answer.expires_at@.len() > 0 ==> writes.len() == 3 && writes[1].name
                == "deploy-license-expires-at"@ && writes[1].value == answer.expires_at@
        }),
{
    let writes = check_writes(LicenseReply::Answer(answer), now);
    assert(writes.first().value =~= answer.id_server@ + seq!['\n'] + answer.relay_server@
        + seq!['\n'] + answer.key@);
}

/// A denial gives the reason that the answer states, or a general one where it
/// states none, whatever else the answer holds, whatever is on record and whatever
/// the time. It empties the three options.
pub proof fn denial_gives_its_reason_and_empties_the_record(
    answer: LicenseCheckResponse,
    cached: Seq<char>,
    last_validated: Seq<char>,
    now: int,
)
    requires
        answer.valid == Some(false),
    ensures
        check_outcome(LicenseReply::Answer(answer), cached, last_validated, now) matches
            OutcomeView::Denied { message } && {
            &&& answer.message@.len() > 0 ==> message == answer.message@
            &&& answer.message@.len() == 0 ==> message
                == "Licença inválida ou expirada. Contate o suporte Infomek."@
        },
        ({
            let writes = check_writes(LicenseReply::Answer(answer), now);
            &&& writes.len() == 3
            &&& writes[0].name == "deploy-license-server-cfg"@
            &&& writes[1].name == "deploy-license-expires-at"@
            &&& writes[2].name == "deploy-license-last-validated"@
            &&& forall|i: int| 0 <= i < 3 ==> (#[trigger] writes[i]).value.len() == 0
        }),
        !time_matters(LicenseReply::Answer(answer), cached, last_validated),
{
}

/// Whether a reply leaves the decision to what is on record: nothing readable came
/// back, the answer lacks the decision, or it confirms and names no server.
pub open spec fn leaves_it_to_the_record(reply: LicenseReply) -> bool {
    match reply {
        LicenseReply::NoResponse => true,
        LicenseReply::Unreadable => true,
        LicenseReply::Answer(answer) => answer.valid is None || (answer.valid == Some(true)
            && answer.id_server@.len() == 0),
    }
}

/// Every reply confirms and names a server, denies, or leaves the decision to the
/// record.
pub proof fn every_reply_is_one_of_three(reply: LicenseReply)
    ensures
        leaves_it_to_the_record(reply) <==> !(reply matches LicenseReply::Answer(answer) && (
        answer.valid == Some(false) || (answer.valid == Some(true) && answer.id_server@.len()
            > 0))),
{
    if let LicenseReply::Answer(answer) = reply {
        if let Some(valid) = answer.valid {
            assert(valid || !valid);
        }
    }
}

/// A reply that leaves the decision to the record changes nothing in it, and
/// comes to the same as every other such reply.
pub proof fn undecided_reply_changes_nothing(
    reply: LicenseReply,
    cached: Seq<char>,
    last_validated: Seq<char>,
    now: int,
)
    requires
        leaves_it_to_the_record(reply),
    ensures
        check_writes(reply, now) == Seq::<SettingView>::empty(),
        check_outcome(reply, cached, last_validated, now) == cache_outcome(
            cached,
            last_validated,
            now,
        ),
        time_matters(reply, cached, last_validated) <==> last_validation(
            cached,
            last_validated,
        ) is Some,
{
}

/// There is an earlier confirmation on record exactly when neither option is empty
/// and the time is written as a number.
pub proof fn record_needs_servers_and_a_time(cached: Seq<char>, last_validated: Seq<char>)
    ensures
        cached.len() == 0 ==> last_validation(cached, last_validated) is None,
        last_validated.len() == 0 ==> last_validation(cached, last_validated) is None,
        cached.len() > 0 && last_validated.len() > 0 ==> last_validation(cached, last_validated)
            == i64_value(last_validated),
{
}

/// Without an earlier confirmation on record the client is blocked at any time.
pub proof fn nothing_on_record_blocks(cached: Seq<char>, last_validated: Seq<char>, now: int)
    requires
        cached.len() == 0 || last_validated.len() == 0 || i64_value(last_validated) is None,
    ensures
        cache_outcome(cached, last_validated, now) == (OutcomeView::Blocked {
            message:
                "Sem conexão com o servidor de licenciamento e nenhuma validação anterior registrada neste dispositivo. Verifique a internet e tente novamente."@,
        }),
{
}

/// A confirmation that is more than three days and a half old, or that lies ahead
/// of the clock, is never reused, whatever servers it left.
pub proof fn stale_record_blocks(
    cached: Seq<char>,
    last_validated: Seq<char>,
    at: i64,
    now: int,
)
    requires
        cached.len() > 0,
        last_validated.len() > 0,
        i64_value(last_validated) == Some(at),
        now - at > 302_400 || now < at,
    ensures
        cache_outcome(cached, last_validated, now) == (OutcomeView::Blocked {
            message:
                "Licença não revalidada com o servidor Infomek há mais de 3,5 dias. Verifique a internet ou contate o suporte."@,
        }),
{
}

/// A record whose first line is empty names no server, and is none.
pub proof fn record_without_a_server_blocks(
    rest: Seq<char>,
    last_validated: Seq<char>,
    at: i64,
    now: int,
)
    requires
        last_validated.len() > 0,
        i64_value(last_validated) == Some(at),
        0 <= now - at <= 302_400,
    ensures
        cache_outcome(seq!['\n'] + rest, last_validated, now) == (OutcomeView::Blocked {
            message:
                "Sem conexão com o servidor de licenciamento e nenhuma validação anterior registrada neste dispositivo. Verifique a internet e tente novamente."@,
        }),
{
    text_splits_at_its_first_newline(Seq::<char>::empty(), rest);
    assert(Seq::<char>::empty() + seq!['\n'] + rest =~= seq!['\n'] + rest);
}

/// A confirmation that is at most three days and a half old is reused with what
/// stands on its first two lines and behind them. What its text lacks is empty.
/// It may be reused until three days and a half after it came.
pub proof fn fresh_record_is_reused(
    id_server: Seq<char>,
    relay_server: Seq<char>,
    key: Seq<char>,
    last_validated: Seq<char>,
    at: i64,
    now: int,
)
    requires
        id_server.len() > 0,
        forall|i: int| 0 <= i < id_server.len() ==> #[trigger] id_server[i] != '\n',
        forall|i: int| 0 <= i < relay_server.len() ==> #[trigger] relay_server[i] != '\n',
        last_validated.len() > 0,
        i64_value(last_validated) == Some(at),
        0 <= now - at <= 302_400,
    ensures
        cache_outcome(
            id_server + seq!['\n'] + relay_server + seq!['\n'] + key,
            last_validated,
            now,
        ) == (OutcomeView::CachedGrace {
            server: ServerView { id_server, relay_server, key },
            grace_expires_at: at + 302_400,
            offline_secs: now - at,
        }),
        cache_outcome(id_server + seq!['\n'] + relay_server, last_validated, now) == (
        OutcomeView::CachedGrace {
            server: ServerView { id_server, relay_server, key: Seq::empty() },
            grace_expires_at: at + 302_400,
            offline_secs: now - at,
        }),
        cache_outcome(id_server, last_validated, now) == (OutcomeView::CachedGrace {
            server: ServerView { id_server, relay_server: Seq::empty(), key: Seq::empty() },
            grace_expires_at: at + 302_400,
            offline_secs: now - at,
        }),
{
    let none = Seq::<char>::empty();
    let two = relay_server + seq!['\n'] + key;
    text_splits_at_its_first_newline(id_server, two);
    text_splits_at_its_first_newline(relay_server, key);
    assert(id_server + seq!['\n'] + two =~= id_server + seq!['\n'] + relay_server + seq!['\n']
        + key);
    text_splits_at_its_first_newline(id_server, relay_server);
    text_without_newline_is_one_line(relay_server);
    text_without_newline_is_one_line(id_server);
    text_without_newline_is_one_line(none);
}

/// The whole of it for a reply that leaves the decision to the record, with `now`
/// the reading of the clock: the client goes on exactly when the record names a
/// server and its confirmation is at most three days and a half old.
pub proof fn record_lets_run_only_while_fresh(
    reply: LicenseReply,
    cached: Seq<char>,
    last_validated: Seq<char>,
    now: int,
)
    requires
        leaves_it_to_the_record(reply),
    ensures
        check_outcome(reply, cached, last_validated, now) is CachedGrace <==> {
            &&& cached.len() > 0 && cached[0] != '\n'
            &&& last_validated.len() > 0
            &&& i64_value(last_validated) matches Some(at) && 0 <= now - at <= 302_400
        },
        !(check_outcome(reply, cached, last_validated, now) is CachedGrace) ==> check_outcome(
            reply,
            cached,
            last_validated,
            now,
        ) is Blocked,
{
    if cached.len() > 0 {
        if cached[0] == '\n' {
            let rest = cached.skip(1);
            text_splits_at_its_first_newline(Seq::<char>::empty(), rest);
            assert(Seq::<char>::empty() + seq!['\n'] + rest =~= cached);
        } else {
            lemma_first_line_is_not_empty(cached);
        }
    }
}

proof fn lemma_first_line_is_not_empty(s: Seq<char>)
    requires
        s.len() > 0,
        s[0] != '\n',
    ensures
        first_line(s).len() > 0,
{
    if s.contains('\n') {
        let n = s.index_of_first('\n').unwrap();
        s.index_of_first_ensures('\n');
        let line = s.take(n);
        text_splits_at_its_first_newline(line, s.skip(n + 1));
        assert(line + seq!['\n'] + s.skip(n + 1) =~= s);
    } else {
        assert forall|i: int| 0 <= i < s.len() implies #[trigger] s[i] != '\n' by {
            assert(s.contains(s[i]));
        }
        text_without_newline_is_one_line(s);
    }
}

/// A confirmation that names a server gives its servers, and the record of them,
/// in the answer's own words: what is returned, and what is to be written, are
/// texts of the answer.
pub proof fn confirmed_check_repeats_the_answer(
    answer: LicenseCheckResponse,
    cached: &str,
    last_validated: &str,
    now: i64,
    check: LicenseCheck,
)
    requires
        call_ensures(
            check_license_at,
            (LicenseReply::Answer(answer), cached, last_validated, now),
            check,
        ),
        answer.valid == Some(true),
        answer.id_server@.len() > 0,
    ensures
        check.outcome matches LicenseOutcome::Valid(server) && {
            &&& server.id_server@ == answer.id_server@
            &&& server.relay_server@ == answer.relay_server@
            &&& server.key@ == answer.key@
        },
        check.writes@.len() == if answer.expires_at@.len() == 0 {
            2int
        } else {
            3int
        },
        check.writes@[0].name@ == "deploy-license-server-cfg"@,
        check.writes@[0].value@ == answer.id_server@ + seq!['\n'] + answer.relay_server@
            + seq!['\n'] + answer.key@,
        answer.expires_at@.len() > 0 ==> check.writes@[1].name@ == "deploy-license-expires-at"@
            && check.writes@[1].value@ == answer.expires_at@,
        check.writes@.last().name@ == "deploy-license-last-validated"@,
        check.writes@.last().value@ == signed_decimal(now as int),
{
    let writes = check_writes(LicenseReply::Answer(answer), now as int);
    confirmation_writes_what_the_answer_names(answer, now as int);
    assert(setting_views(check.writes@) == writes);
    assert(writes[0] == check.writes@[0]@);
    assert(writes[1] == check.writes@[1]@);
    assert(writes.last() == check.writes@.last()@);
}

/// The time that a confirmation is recorded with is what the clock read when it
/// came, and it reads back as that.
pub proof fn confirmation_is_recorded_with_the_time_of_the_clock(
    answer: LicenseCheckResponse,
    cached: &str,
    last_validated: &str,
    check: LicenseCheck,
)
    requires
        call_ensures(
            check_license,
            (LicenseReply::Answer(answer), cached, last_validated),
            check,
        ),
        answer.valid == Some(true),
        answer.id_server@.len() > 0,
    ensures
        check.outcome matches LicenseOutcome::Valid(server) && {
            &&& server.id_server@ == answer.id_server@
            &&& server.relay_server@ == answer.relay_server@
            &&& server.key@ == answer.key@
        },
        check.writes@.len() > 0,
        check.writes@[0].name@ == "deploy-license-server-cfg"@,
        check.writes@[0].value@ == answer.id_server@ + seq!['\n'] + answer.relay_server@
            + seq!['\n'] + answer.key@,
        check.writes@.last().name@ == "deploy-license-last-validated"@,
        exists|now: i64| #[trigger]
            utc_reading(now) && check.writes@.last().value@ == signed_decimal(now as int)
                && i64_value(check.writes@.last().value@) == Some(now),
{
    let reply = LicenseReply::Answer(answer);
    let now = choose|now: i64| #[trigger]
        utc_reading(now) && is_reading(now as int) && check.outcome@ == check_outcome(
            reply,
            cached@,
            last_validated@,
            now as int,
        ) && setting_views(check.writes@) == check_writes(reply, now as int);
    let writes = check_writes(reply, now as int);
    confirmation_writes_what_the_answer_names(answer, now as int);
    i64_text_reads_back(now);
    assert(setting_views(check.writes@) == writes);
    assert(writes[0] == check.writes@[0]@);
    assert(writes.last() == check.writes@.last()@);
    assert(utc_reading(now));
}

/// A denial gives the answer's reason, or a general one, and empties the three
/// options, with or without a look at the clock.
pub proof fn denied_check_repeats_the_reason(
    answer: LicenseCheckResponse,
    cached: &str,
    last_validated: &str,
    check: LicenseCheck,
)
    requires
        call_ensures(
            check_license,
            (LicenseReply::Answer(answer), cached, last_validated),
            check,
        ) || exists|now: i64| #[trigger]
            call_ensures(
                check_license_at,
                (LicenseReply::Answer(answer), cached, last_validated, now),
                check,
            ),
        answer.valid == Some(false),
    ensures
        check.outcome matches LicenseOutcome::Denied { message } && message@
            == if answer.message@.len() > 0 {
            answer.message@
        } else {
            "Licença inválida ou expirada. Contate o suporte Infomek."@
        },
        check.writes@.len() == 3,
        check.writes@[0].name@ == "deploy-license-server-cfg"@,
        check.writes@[1].name@ == "deploy-license-expires-at"@,
        check.writes@[2].name@ == "deploy-license-last-validated"@,
        check.writes@[0].value@.len() == 0,
        check.writes@[1].value@.len() == 0,
        check.writes@[2].value@.len() == 0,
{
    let reply = LicenseReply::Answer(answer);
    let writes = check_writes(reply, 0);
    denial_gives_its_reason_and_empties_the_record(answer, cached@, last_validated@, 0);
    if call_ensures(check_license, (reply, cached, last_validated), check) {
        assert(is_check(check, reply, cached@, last_validated@, 0));
    }
    assert(setting_views(check.writes@) == writes);
    assert(writes[0] == check.writes@[0]@);
    assert(writes[1] == check.writes@[1]@);
    assert(writes[2] == check.writes@[2]@);
}

proof fn lemma_record_by_the_time(
    outcome: LicenseOutcome,
    cached: Seq<char>,
    last_validated: Seq<char>,
    at: i64,
    now: i64,
)
    requires
        cached.len() > 0,
        last_validated.len() > 0,
        i64_value(last_validated) == Some(at),
        outcome@ == cache_outcome(cached, last_validated, now as int),
    ensures
        ({
            &&& now - at > 302_400 || now < at ==> (outcome matches LicenseOutcome::Blocked {
                message,
            } && message@
                == "Licença não revalidada com o servidor Infomek há mais de 3,5 dias. Verifique a internet ou contate o suporte."@)
            &&& 0 <= now - at <= 302_400 && cached[0] == '\n' ==> (outcome matches
                LicenseOutcome::Blocked { message } && message@
                == "Sem conexão com o servidor de licenciamento e nenhuma validação anterior registrada neste dispositivo. Verifique a internet e tente novamente."@)
            &&& 0 <= now - at <= 302_400 && cached[0] != '\n' ==> (outcome matches
                LicenseOutcome::CachedGrace { server, grace_expires_at, offline_secs } && {
                &&& grace_expires_at == at + 302_400
                &&& offline_secs == now - at
                &&& server.id_server@.len() > 0
            })
        }),
{
    if now - at > 302_400 || now < at {
        stale_record_blocks(cached, last_validated, at, now as int);
    } else if cached[0] == '\n' {
        let rest = cached.skip(1);
        assert(seq!['\n'] + rest =~= cached);
        record_without_a_server_blocks(rest, last_validated, at, now as int);
    } else {
        lemma_first_line_is_not_empty(cached);
    }
}

/// Without a usable answer, what the clock read in that very call decides whether
/// the record is still fresh. One that is more than three days and a half old by
/// that reading, or ahead of it, blocks the client.
pub proof fn clock_decides_whether_the_record_is_fresh(
    cached: &str,
    last_validated: &str,
    at: i64,
    outcome: LicenseOutcome,
)
    requires
        call_ensures(license_from_cache, (cached, last_validated), outcome),
        cached@.len() > 0,
        last_validated@.len() > 0,
        i64_value(last_validated@) == Some(at),
    ensures
        exists|now: i64| #[trigger]
            utc_reading(now) && {
                &&& now - at > 302_400 || now < at ==> (outcome matches LicenseOutcome::Blocked {
                    message,
                } && message@
                    == "Licença não revalidada com o servidor Infomek há mais de 3,5 dias. Verifique a internet ou contate o suporte."@)
                &&& 0 <= now - at <= 302_400 && cached@[0] == '\n' ==> (outcome matches
                    LicenseOutcome::Blocked { message } && message@
                    == "Sem conexão com o servidor de licenciamento e nenhuma validação anterior registrada neste dispositivo. Verifique a internet e tente novamente."@)
                &&& 0 <= now - at <= 302_400 && cached@[0] != '\n' ==> (outcome matches
                    LicenseOutcome::CachedGrace { server, grace_expires_at, offline_secs } && {
                    &&& grace_expires_at == at + 302_400
                    &&& offline_secs == now - at
                    &&& server.id_server@.len() > 0
                })
            },
{
    let now = choose|now: i64| #[trigger]
        utc_reading(now) && is_reading(now as int) && outcome@ == cache_outcome(
            cached@,
            last_validated@,
            now as int,
        );
    lemma_record_by_the_time(outcome, cached@, last_validated@, at, now);
    assert(utc_reading(now));
}

/// The same of a whole check whose reply leaves the decision to the record. Nothing
/// is written then.
pub proof fn clock_decides_an_undecided_check(
    reply: LicenseReply,
    cached: &str,
    last_validated: &str,
    at: i64,
    check: LicenseCheck,
)
    requires
        call_ensures(check_license, (reply, cached, last_validated), check),
        leaves_it_to_the_record(reply),
        cached@.len() > 0,
        last_validated@.len() > 0,
        i64_value(last_validated@) == Some(at),
    ensures
        check.writes@.len() == 0,
        exists|now: i64| #[trigger]
            utc_reading(now) && {
                &&& now - at > 302_400 || now < at ==> (check.outcome matches LicenseOutcome::Blocked {
                    message,
                } && message@
                    == "Licença não revalidada com o servidor Infomek há mais de 3,5 dias. Verifique a internet ou contate o suporte."@)
                &&& 0 <= now - at <= 302_400 && cached@[0] == '\n' ==> (check.outcome matches
                    LicenseOutcome::Blocked { message } && message@
                    == "Sem conexão com o servidor de licenciamento e nenhuma validação anterior registrada neste dispositivo. Verifique a internet e tente novamente."@)
                &&& 0 <= now - at <= 302_400 && cached@[0] != '\n' ==> (check.outcome matches
                    LicenseOutcome::CachedGrace { server, grace_expires_at, offline_secs } && {
                    &&& grace_expires_at == at + 302_400
                    &&& offline_secs == now - at
                    &&& server.id_server@.len() > 0
                })
            },
{
    undecided_reply_changes_nothing(reply, cached@, last_validated@, 0);
    let now = choose|now: i64| #[trigger]
        utc_reading(now) && is_reading(now as int) && check.outcome@ == check_outcome(
            reply,
            cached@,
            last_validated@,
            now as int,
        ) && setting_views(check.writes@) == check_writes(reply, now as int);
    undecided_reply_changes_nothing(reply, cached@, last_validated@, now as int);
    assert(setting_views(check.writes@).len() == 0);
    lemma_record_by_the_time(check.outcome, cached@, last_validated@, at, now);
    assert(utc_reading(now));
}

/// The same at a time that is given, where a check and the fall back on the record
/// agree.
pub proof fn given_time_decides_an_undecided_check(
    reply: LicenseReply,
    cached: &str,
    last_validated: &str,
    now: i64,
    at: i64,
    check: LicenseCheck,
    outcome: LicenseOutcome,
)
    requires
        call_ensures(check_license_at, (reply, cached, last_validated, now), check),
        call_ensures(license_from_cache_at, (cached, last_validated, now), outcome),
        leaves_it_to_the_record(reply),
        cached@.len() > 0,
        last_validated@.len() > 0,
        i64_value(last_validated@) == Some(at),
    ensures
        check.writes@.len() == 0,
        check.outcome@ == outcome@,
        ({
            &&& now - at > 302_400 || now < at ==> (outcome matches LicenseOutcome::Blocked {
                message,
            } && message@
                == "Licença não revalidada com o servidor Infomek há mais de 3,5 dias. Verifique a internet ou contate o suporte."@)
            &&& 0 <= now - at <= 302_400 && cached@[0] == '\n' ==> (outcome matches
                LicenseOutcome::Blocked { message } && message@
                == "Sem conexão com o servidor de licenciamento e nenhuma validação anterior registrada neste dispositivo. Verifique a internet e tente novamente."@)
            &&& 0 <= now - at <= 302_400 && cached@[0] != '\n' ==> (outcome matches
                LicenseOutcome::CachedGrace { server, grace_expires_at, offline_secs } && {
                &&& grace_expires_at == at + 302_400
                &&& offline_secs == now - at
                &&& server.id_server@.len() > 0
            })
        }),
{
    undecided_reply_changes_nothing(reply, cached@, last_validated@, now as int);
    assert(setting_views(check.writes@).len() == 0);
    lemma_record_by_the_time(outcome, cached@, last_validated@, at, now);
}

/// A device without a record that gets no usable answer is blocked, whatever the
/// time, and nothing is written.
pub proof fn check_without_a_record_blocks(
    reply: LicenseReply,
    cached: &str,
    last_validated: &str,
    check: LicenseCheck,
)
    requires
        call_ensures(check_license, (reply, cached, last_validated), check) || exists|now: i64|
         #[trigger]
            call_ensures(check_license_at, (reply, cached, last_validated, now), check),
        leaves_it_to_the_record(reply),
        cached@.len() == 0 || last_validated@.len() == 0 || i64_value(last_validated@) is None,
    ensures
        check.writes@.len() == 0,
        check.outcome matches LicenseOutcome::Blocked { message } && message@
            == "Sem conexão com o servidor de licenciamento e nenhuma validação anterior registrada neste dispositivo. Verifique a internet e tente novamente."@,
{
    assert forall|now: int|
        {
            &&& check_writes(reply, now) == Seq::<SettingView>::empty()
            &&& #[trigger] check_outcome(reply, cached@, last_validated@, now) == (
            OutcomeView::Blocked {
                message:
                    "Sem conexão com o servidor de licenciamento e nenhuma validação anterior registrada neste dispositivo. Verifique a internet e tente novamente."@,
            })
        } by {
        undecided_reply_changes_nothing(reply, cached@, last_validated@, now);
        nothing_on_record_blocks(cached@, last_validated@, now);
    }
    let now = choose|now: int|
        #[trigger] is_check(check, reply, cached@, last_validated@, now);
    if call_ensures(check_license, (reply, cached, last_validated), check) {
    } else {
        let given = choose|given: i64| #[trigger]
            call_ensures(check_license_at, (reply, cached, last_validated, given), check);
        assert(is_check(check, reply, cached@, last_validated@, given as int));
    }
    assert(check_outcome(reply, cached@, last_validated@, now) is Blocked);
    assert(setting_views(check.writes@).len() == 0);
}

/// The servers of a record that is reused are what stands on its first two lines
/// and behind them. What its text lacks is empty.
pub proof fn reused_servers_stand_on_the_lines_of_the_record(
    id_server: Seq<char>,
    relay_server: Seq<char>,
    key: Seq<char>,
    cached: &str,
    last_validated: &str,
    now: i64,
    at: i64,
    outcome: LicenseOutcome,
)
    requires
        call_ensures(license_from_cache_at, (cached, last_validated, now), outcome),
        id_server.len() > 0,
        forall|i: int| 0 <= i < id_server.len() ==> #[trigger] id_server[i] != '\n',
        forall|i: int| 0 <= i < relay_server.len() ==> #[trigger] relay_server[i] != '\n',
        last_validated@.len() > 0,
        i64_value(last_validated@) == Some(at),
        0 <= now - at <= 302_400,
        ({
            ||| cached@ == id_server + seq!['\n'] + relay_server + seq!['\n'] + key
            ||| cached@ == id_server + seq!['\n'] + relay_server && key.len() == 0
            ||| cached@ == id_server && relay_server.len() == 0 && key.len() == 0
        }),
    ensures
        outcome matches LicenseOutcome::CachedGrace { server, grace_expires_at, offline_secs } && {
            &&& server.id_server@ == id_server
            &&& server.relay_server@ == relay_server
            &&& server.key@ == key
            &&& grace_expires_at == at + 302_400
            &&& offline_secs == now - at
        },
{
    fresh_record_is_reused(id_server, relay_server, key, last_validated@, at, now as int);
    assert(key.len() == 0 ==> key =~= Seq::<char>::empty());
    assert(relay_server.len() == 0 ==> relay_server =~= Seq::<char>::empty());
}

/// The request holds five fields, each the text that it was given, and no other.
pub proof fn request_repeats_what_identifies_the_device(
    uuid: &str,
    hostname: &str,
    build_version: &str,
    build_hash: &str,
    build_date: &str,
    fields: Vec<Setting>,
)
    requires
        call_ensures(
            license_request,
            (uuid, hostname, build_version, build_hash, build_date),
            fields,
        ),
    ensures
        fields@.len() == 5,
        fields@[0].name@ == "uuid"@ && fields@[0].value@ == uuid@,
        fields@[1].name@ == "hostname"@ && fields@[1].value@ == hostname@,
        fields@[2].name@ == "build_version"@ && fields@[2].value@ == build_version@,
        fields@[3].name@ == "build_hash"@ && fields@[3].value@ == build_hash@,
        fields@[4].name@ == "build_date"@ && fields@[4].value@ == build_date@,
{
    let views = setting_views(fields@);
    assert(views.len() == 5);
    assert(views[0] == fields@[0]@);
    assert(views[1] == fields@[1]@);
    assert(views[2] == fields@[2]@);
    assert(views[3] == fields@[3]@);
    assert(views[4] == fields@[4]@);
}

} // verus!
