//! The licence of a device: what the licensing API answered, what is kept of
//! the last good answer, and what follows from both.
use vstd::prelude::*;

use crate::clock::{is_reading, may_read, read_now, utc_reading};
use crate::settings::{new_setting, setting, setting_views, Setting, SettingView};
use crate::text::{
    after_first_line, first_line, i64_text, i64_value, parse_i64, signed_decimal, split_line,
};

verus! {

/// Where a licence is checked: a POST whose body is a JSON object with the
/// fields of [`license_request`].
///
/// The reply is a JSON object: `valid`, `id_server`, `relay_server`, `key`, and
/// optionally `expires_at` (text to be shown as it is) and `message` (shown when
/// `valid` is false). Nothing here identifies a customer: the server finds the licence by
/// the device.
pub const LICENSE_API_URL: &'static str =
    "https://my.infomek.com.br/api/rustdesk/receiver.php?_path=api/license/check";

/// How long a reply of the licensing API is waited for.
pub const LICENSE_TIMEOUT_SECS: u64 = 5;

/// Local option that keeps the servers of the last good answer, as three lines:
/// `id_server`, `relay_server` and `key`.
pub const LICENSE_SERVER_CACHE_KEY: &'static str = "deploy-license-server-cfg";

/// Local option that keeps the expiry date, as the API wrote it.
pub const LICENSE_EXPIRY_KEY: &'static str = "deploy-license-expires-at";

/// Local option that keeps when the API last confirmed the licence, in seconds
/// since the start of 1970.
pub const LICENSE_LAST_VALIDATED_KEY: &'static str = "deploy-license-last-validated";

/// How long a good answer may be reused without another one: three days and a
/// half.
pub const LICENSE_GRACE_PERIOD_SECS: i64 = 302_400;

/// Shown when the API denies a licence and does not say why.
pub const DENIED_MESSAGE: &'static str =
    "Licença inválida ou expirada. Contate o suporte Infomek.";

/// Shown when the API cannot be reached and this device never had a licence.
pub const NO_HISTORY_MESSAGE: &'static str =
    "Sem conexão com o servidor de licenciamento e nenhuma validação anterior registrada neste dispositivo. Verifique a internet e tente novamente.";

/// Shown when the last good answer is too old.
pub const STALE_MESSAGE: &'static str =
    "Licença não revalidada com o servidor Infomek há mais de 3,5 dias. Verifique a internet ou contate o suporte.";

/// The answer of the licensing API. A text that the answer lacks is empty.
#[derive(Debug)]
pub struct LicenseCheckResponse {
    /// The server's decision; none when the answer is incomplete and lacks it.
    pub valid: Option<bool>,
    pub id_server: String,
    pub relay_server: String,
    pub key: String,
    pub expires_at: String,
    pub message: String,
}

impl Default for LicenseCheckResponse {
    fn default() -> (res: Self)
        ensures
            res.valid is None,
            res.id_server@.len() == 0,
            res.relay_server@.len() == 0,
            res.key@.len() == 0,
            res.expires_at@.len() == 0,
            res.message@.len() == 0,
    {
        LicenseCheckResponse {
            valid: None,
            id_server: String::new(),
            relay_server: String::new(),
            key: String::new(),
            expires_at: String::new(),
            message: String::new(),
        }
    }
}

/// What came back from the licensing API.
#[derive(Debug)]
pub enum LicenseReply {
    /// No client could be set up, or the request failed on its way.
    NoResponse,
    /// A response came whose body is not the expected JSON object.
    Unreadable,
    /// The server answered.
    Answer(LicenseCheckResponse),
}

/// The servers that the client is to use.
#[derive(Debug)]
pub struct ServerConfig {
    pub id_server: String,
    pub relay_server: String,
    pub key: String,
}

pub struct ServerView {
    pub id_server: Seq<char>,
    pub relay_server: Seq<char>,
    pub key: Seq<char>,
}

impl View for ServerConfig {
    type V = ServerView;

    open spec fn view(&self) -> ServerView {
        ServerView {
            id_server: self.id_server@,
            relay_server: self.relay_server@,
            key: self.key@,
        }
    }
}

/// What a check of the licence led to.
#[derive(Debug)]
pub enum LicenseOutcome {
    /// The API confirmed the licence in this check.
    Valid(ServerConfig),
    /// No usable answer now, but an earlier one is still within the grace
    /// period.
    CachedGrace {
        server: ServerConfig,
        /// The second at which the grace period ends.
        grace_expires_at: i64,
        /// How long ago the API last confirmed the licence.
        offline_secs: i64,
    },
    /// The API denied the licence.
    Denied { message: String },
    /// No usable answer now, and no earlier one that may be reused.
    Blocked { message: String },
}

pub enum OutcomeView {
    Valid(ServerView),
    CachedGrace { server: ServerView, grace_expires_at: int, offline_secs: int },
    Denied { message: Seq<char> },
    Blocked { message: Seq<char> },
}

impl View for LicenseOutcome {
    type V = OutcomeView;

    open spec fn view(&self) -> OutcomeView {
        match self {
            LicenseOutcome::Valid(server) => OutcomeView::Valid(server@),
            LicenseOutcome::CachedGrace { server, grace_expires_at, offline_secs } =>
                OutcomeView::CachedGrace {
                server: server@,
                grace_expires_at: *grace_expires_at as int,
                offline_secs: *offline_secs as int,
            },
            LicenseOutcome::Denied { message } => OutcomeView::Denied { message: message@ },
            LicenseOutcome::Blocked { message } => OutcomeView::Blocked { message: message@ },
        }
    }
}

/// The outcome of a check, and the local options to set, in this order.
#[derive(Debug)]
pub struct LicenseCheck {
    pub outcome: LicenseOutcome,
    pub writes: Vec<Setting>,
}

/// The text that keeps the servers in [`LICENSE_SERVER_CACHE_KEY`].
pub open spec fn cache_text(server: ServerView) -> Seq<char> {
    server.id_server + seq!['\n'] + (server.relay_server + seq!['\n'] + server.key)
}

/// The servers that a cached text keeps: its first line, its second line and
/// all that follows them. What is missing is empty.
pub open spec fn cached_server(cached: Seq<char>) -> ServerView {
    let rest = after_first_line(cached);
    ServerView {
        id_server: first_line(cached),
        relay_server: first_line(rest),
        key: after_first_line(rest),
    }
}

/// When the API last confirmed the licence, as far as the local options tell.
pub open spec fn last_validation(cached: Seq<char>, last_validated: Seq<char>) -> Option<i64> {
    if cached.len() == 0 || last_validated.len() == 0 {
        None
    } else {
        i64_value(last_validated)
    }
}

/// Whether an answer that came at `at` may still be reused at `now`.
pub open spec fn in_grace(at: int, now: int) -> bool {
    0 <= now - at <= LICENSE_GRACE_PERIOD_SECS
}

pub open spec fn no_history() -> OutcomeView {
    OutcomeView::Blocked { message: NO_HISTORY_MESSAGE@ }
}

/// The outcome at `now` when the last good answer came at `at`.
pub open spec fn grace_outcome(cached: Seq<char>, at: int, now: int) -> OutcomeView {
    if !in_grace(at, now) {
        OutcomeView::Blocked { message: STALE_MESSAGE@ }
    } else if cached_server(cached).id_server.len() == 0 {
        no_history()
    } else {
        OutcomeView::CachedGrace {
            server: cached_server(cached),
            grace_expires_at: at + LICENSE_GRACE_PERIOD_SECS,
            offline_secs: now - at,
        }
    }
}

/// The outcome at `now` when there is no usable answer.
pub open spec fn cache_outcome(
    cached: Seq<char>,
    last_validated: Seq<char>,
    now: int,
) -> OutcomeView {
    match last_validation(cached, last_validated) {
        Some(at) => grace_outcome(cached, at as int, now),
        None => no_history(),
    }
}

/// Whether the API denied the licence. It does so in so many words: an answer
/// that lacks the decision is no denial.
pub open spec fn denies(reply: LicenseReply) -> bool {
    reply matches LicenseReply::Answer(answer) && answer.valid == Some(false)
}

/// Whether the API confirmed the licence and named a server to use.
pub open spec fn confirms(reply: LicenseReply) -> bool {
    reply matches LicenseReply::Answer(answer) && answer.valid == Some(true)
        && answer.id_server@.len() > 0
}

/// The servers that an answer names.
pub open spec fn answered_server(answer: LicenseCheckResponse) -> ServerView {
    ServerView {
        id_server: answer.id_server@,
        relay_server: answer.relay_server@,
        key: answer.key@,
    }
}

/// Why the API denied the licence.
pub open spec fn denial_message(answer: LicenseCheckResponse) -> Seq<char> {
    if answer.message@.len() == 0 {
        DENIED_MESSAGE@
    } else {
        answer.message@
    }
}

/// The outcome of a check at `now`: a denial and a confirmation are the
/// server's, and in every other case the last good answer decides.
pub open spec fn check_outcome(
    reply: LicenseReply,
    cached: Seq<char>,
    last_validated: Seq<char>,
    now: int,
) -> OutcomeView {
    if denies(reply) {
        OutcomeView::Denied { message: denial_message(reply->Answer_0) }
    } else if confirms(reply) {
        OutcomeView::Valid(answered_server(reply->Answer_0))
    } else {
        cache_outcome(cached, last_validated, now)
    }
}

/// The local options that a denial clears.
pub open spec fn denial_writes() -> Seq<SettingView> {
    seq![
        setting(LICENSE_SERVER_CACHE_KEY@, Seq::empty()),
        setting(LICENSE_EXPIRY_KEY@, Seq::empty()),
        setting(LICENSE_LAST_VALIDATED_KEY@, Seq::empty()),
    ]
}

/// The local options that a confirmation at `now` sets.
pub open spec fn confirmation_writes(answer: LicenseCheckResponse, now: int) -> Seq<SettingView> {
    let servers = setting(LICENSE_SERVER_CACHE_KEY@, cache_text(answered_server(answer)));
    let time = setting(LICENSE_LAST_VALIDATED_KEY@, signed_decimal(now));
    if answer.expires_at@.len() == 0 {
        seq![servers, time]
    } else {
        seq![servers, setting(LICENSE_EXPIRY_KEY@, answer.expires_at@), time]
    }
}

/// The local options that a check at `now` sets: none unless the server spoke.
pub open spec fn check_writes(reply: LicenseReply, now: int) -> Seq<SettingView> {
    if denies(reply) {
        denial_writes()
    } else if confirms(reply) {
        confirmation_writes(reply->Answer_0, now)
    } else {
        Seq::empty()
    }
}

/// Whether `check` is the result of checking `reply` at `now`.
pub open spec fn is_check(
    check: LicenseCheck,
    reply: LicenseReply,
    cached: Seq<char>,
    last_validated: Seq<char>,
    now: int,
) -> bool {
    &&& check.outcome@ == check_outcome(reply, cached, last_validated, now)
    &&& setting_views(check.writes@) == check_writes(reply, now)
}

/// Whether what a reply leads to depends on the time: when it is a confirmation,
/// which is recorded with its time, and when the time of the last good answer
/// decides.
pub open spec fn time_matters(
    reply: LicenseReply,
    cached: Seq<char>,
    last_validated: Seq<char>,
) -> bool {
    confirms(reply) || !denies(reply) && last_validation(cached, last_validated) is Some
}

fn blocked(message: &str) -> (res: LicenseOutcome)
    ensures
        res@ == (OutcomeView::Blocked { message: message@ }),
{
    LicenseOutcome::Blocked { message: message.to_owned() }
}

/// Reads the servers back from a cached text.
fn read_cached_server(cached: &str) -> (res: ServerConfig)
    ensures
        res@ == cached_server(cached@),
{
    let (id_server, rest) = split_line(cached);
    let (relay_server, key) = split_line(rest);
    ServerConfig {
        id_server: id_server.to_owned(),
        relay_server: relay_server.to_owned(),
        key: key.to_owned(),
    }
}

/// The text that keeps the servers for later.
fn write_cached_server(server: &ServerConfig) -> (res: String)
    ensures
        res@ == cache_text(server@),
{
    proof {
        reveal_strlit("\n");
    }
    let mut out = server.id_server.clone();
    out.append("\n");
    out.append(server.relay_server.as_str());
    out.append("\n");
    out.append(server.key.as_str());
    assert(out@ =~= cache_text(server@));
    out
}

/// When the API last confirmed the licence, as far as the local options tell.
fn read_last_validation(cached: &str, last_validated: &str) -> (res: Option<i64>)
    ensures
        res == last_validation(cached@, last_validated@),
{
    if cached.is_empty() || last_validated.is_empty() {
        None
    } else {
        parse_i64(last_validated)
    }
}

/// The outcome at `now` when the last good answer came at `at`.
fn reuse(cached: &str, at: i64, now: i64) -> (res: LicenseOutcome)
    requires
        is_reading(now as int),
    ensures
        res@ == grace_outcome(cached@, at as int, now as int),
{
    let offline_secs: i64 = match now.checked_sub(at) {
        Some(secs) => secs,
        None => return blocked(STALE_MESSAGE),
    };
    if offline_secs < 0 || offline_secs > LICENSE_GRACE_PERIOD_SECS {
        return blocked(STALE_MESSAGE);
    }
    let server = read_cached_server(cached);
    if server.id_server.as_str().is_empty() {
        return blocked(NO_HISTORY_MESSAGE);
    }
    LicenseOutcome::CachedGrace {
        server,
        grace_expires_at: at + LICENSE_GRACE_PERIOD_SECS,
        offline_secs,
    }
}

/// What follows when there is no usable answer. The clock is read only where an
/// earlier answer is on record; a reading that is given stands for it.
fn fall_back(cached: &str, last_validated: &str, given: Option<i64>) -> (res: LicenseOutcome)
    requires
        given matches Some(n) ==> is_reading(n as int),
    ensures
        last_validation(cached@, last_validated@) is None ==> res@ == no_history(),
        last_validation(cached@, last_validated@) is Some ==> exists|now: i64| #[trigger]
            may_read(given, now) && res@ == cache_outcome(cached@, last_validated@, now as int),
{
    match read_last_validation(cached, last_validated) {
        Some(at) => {
            let now = read_now(given);
            let outcome = reuse(cached, at, now);
            assert(may_read(given, now));
            outcome
        },
        None => blocked(NO_HISTORY_MESSAGE),
    }
}

/// What follows at `now` when there is no usable answer, from the values of
/// [`LICENSE_SERVER_CACHE_KEY`] and [`LICENSE_LAST_VALIDATED_KEY`].
pub fn license_from_cache_at(cached: &str, last_validated: &str, now: i64) -> (res: LicenseOutcome)
    requires
        is_reading(now as int),
    ensures
        res@ == cache_outcome(cached@, last_validated@, now as int),
{
    fall_back(cached, last_validated, Some(now))
}

/// What follows now when there is no usable answer. The clock is read only
/// where an earlier answer is on record, and what it reads then decides.
pub fn license_from_cache(cached: &str, last_validated: &str) -> (res: LicenseOutcome)
    ensures
        last_validation(cached@, last_validated@) is None ==> res@ == no_history(),
        exists|now: int| #[trigger]
            is_reading(now) && res@ == cache_outcome(cached@, last_validated@, now),
        last_validation(cached@, last_validated@) is Some ==> exists|now: i64| #[trigger]
            utc_reading(now) && is_reading(now as int) && res@ == cache_outcome(
                cached@,
                last_validated@,
                now as int,
            ),
{
    let outcome = fall_back(cached, last_validated, None);
    proof {
        if last_validation(cached@, last_validated@) is None {
            assert(is_reading(0));
        } else {
            let now = choose|now: i64| #[trigger]
                may_read(None, now) && outcome@ == cache_outcome(
                    cached@,
                    last_validated@,
                    now as int,
                );
            assert(utc_reading(now) && is_reading(now as int));
        }
    }
    outcome
}

/// What a denial leads to.
fn denied(answer: LicenseCheckResponse) -> (res: LicenseCheck)
    ensures
        res.outcome@ == (OutcomeView::Denied { message: denial_message(answer) }),
        setting_views(res.writes@) == denial_writes(),
{
    proof {
        reveal_strlit("");
    }
    let mut writes: Vec<Setting> = Vec::new();
    writes.push(new_setting(LICENSE_SERVER_CACHE_KEY, ""));
    writes.push(new_setting(LICENSE_EXPIRY_KEY, ""));
    writes.push(new_setting(LICENSE_LAST_VALIDATED_KEY, ""));
    let message: String = if answer.message.as_str().is_empty() {
        DENIED_MESSAGE.to_owned()
    } else {
        answer.message
    };
    assert(""@ =~= Seq::<char>::empty());
    assert(setting_views(writes@) =~= denial_writes());
    LicenseCheck { outcome: LicenseOutcome::Denied { message }, writes }
}

/// What a confirmation at `now` leads to.
fn confirmed(answer: LicenseCheckResponse, now: i64) -> (res: LicenseCheck)
    ensures
        res.outcome@ == OutcomeView::Valid(answered_server(answer)),
        setting_views(res.writes@) == confirmation_writes(answer, now as int),
{
    let server = ServerConfig {
        id_server: answer.id_server,
        relay_server: answer.relay_server,
        key: answer.key,
    };
    let servers = write_cached_server(&server);
    let time = i64_text(now);
    let mut writes: Vec<Setting> = Vec::new();
    writes.push(new_setting(LICENSE_SERVER_CACHE_KEY, servers.as_str()));
    if !answer.expires_at.as_str().is_empty() {
        writes.push(new_setting(LICENSE_EXPIRY_KEY, answer.expires_at.as_str()));
    }
    writes.push(new_setting(LICENSE_LAST_VALIDATED_KEY, time.as_str()));
    assert(setting_views(writes@) =~= confirmation_writes(answer, now as int));
    LicenseCheck { outcome: LicenseOutcome::Valid(server), writes }
}

/// What a reply leads to. The clock is read only where the result depends on it;
/// a reading that is given stands for it.
pub(crate) fn decide(
    reply: LicenseReply,
    cached: &str,
    last_validated: &str,
    given: Option<i64>,
) -> (res: LicenseCheck)
    requires
        given matches Some(n) ==> is_reading(n as int),
    ensures
        !time_matters(reply, cached@, last_validated@) ==> forall|now: int|
            #[trigger] is_check(res, reply, cached@, last_validated@, now),
        time_matters(reply, cached@, last_validated@) ==> exists|now: i64| #[trigger]
            may_read(given, now) && is_check(res, reply, cached@, last_validated@, now as int),
{
    match reply {
        LicenseReply::Answer(answer) => {
            match answer.valid {
                Some(false) => {
                    return denied(answer);
                },
                Some(true) => {
                    if !answer.id_server.as_str().is_empty() {
                        let now = read_now(given);
                        return confirmed(answer, now);
                    }
                },
                None => {},
            }
        },
        _ => {},
    }
    let check = LicenseCheck {
        outcome: fall_back(cached, last_validated, given),
        writes: Vec::new(),
    };
    assert(setting_views(check.writes@) =~= Seq::empty());
    check
}

/// What a reply leads to at `now`, given the values of
/// [`LICENSE_SERVER_CACHE_KEY`] and [`LICENSE_LAST_VALIDATED_KEY`].
pub fn check_license_at(
    reply: LicenseReply,
    cached: &str,
    last_validated: &str,
    now: i64,
) -> (res: LicenseCheck)
    requires
        is_reading(now as int),
    ensures
        is_check(res, reply, cached@, last_validated@, now as int),
        res.outcome@ == check_outcome(reply, cached@, last_validated@, now as int),
        setting_views(res.writes@) == check_writes(reply, now as int),
{
    decide(reply, cached, last_validated, Some(now))
}

/// What a reply leads to now. A denial does not depend on the clock, which is
/// not read then. Where the time matters, it is what the clock read.
pub fn check_license(reply: LicenseReply, cached: &str, last_validated: &str) -> (res: LicenseCheck)
    ensures
        denies(reply) ==> forall|now: int|
            #[trigger] is_check(res, reply, cached@, last_validated@, now),
        exists|now: int| #[trigger]
            is_reading(now) && is_check(res, reply, cached@, last_validated@, now),
        time_matters(reply, cached@, last_validated@) ==> exists|now: i64| #[trigger]
            utc_reading(now) && is_reading(now as int) && res.outcome@ == check_outcome(
                reply,
                cached@,
                last_validated@,
                now as int,
            ) && setting_views(res.writes@) == check_writes(reply, now as int),
{
    let check = decide(reply, cached, last_validated, None);
    proof {
        if time_matters(reply, cached@, last_validated@) {
            let now = choose|now: i64| #[trigger]
                may_read(None, now) && is_check(
                    check,
                    reply,
                    cached@,
                    last_validated@,
                    now as int,
                );
            assert(utc_reading(now) && is_reading(now as int));
        } else {
            assert(is_reading(0));
            assert(is_check(check, reply, cached@, last_validated@, 0));
        }
    }
    check
}

/// The fields of the request that asks for a check: what identifies the device,
/// and which build it runs.
pub fn license_request(
    uuid: &str,
    hostname: &str,
    build_version: &str,
    build_hash: &str,
    build_date: &str,
) -> (res: Vec<Setting>)
    ensures
        setting_views(res@) == seq![
            setting("uuid"@, uuid@),
            setting("hostname"@, hostname@),
            setting("build_version"@, build_version@),
            setting("build_hash"@, build_hash@),
            setting("build_date"@, build_date@),
        ],
{
    let mut fields: Vec<Setting> = Vec::new();
    fields.push(new_setting("uuid", uuid));
    fields.push(new_setting("hostname", hostname));
    fields.push(new_setting("build_version", build_version));
    fields.push(new_setting("build_hash", build_hash));
    fields.push(new_setting("build_date", build_date));
    assert(setting_views(fields@) =~= seq![
        setting("uuid"@, uuid@),
        setting("hostname"@, hostname@),
        setting("build_version"@, build_version@),
        setting("build_hash"@, build_hash@),
        setting("build_date"@, build_date@),
    ]);
    fields
}

} // verus!
