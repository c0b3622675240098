//! Alerts shown by the desktop itself, before the client has a window.
use vstd::prelude::*;

use crate::text::{trim_end, without_trailing};

verus! {

/// The title of every alert.
pub const ALERT_TITLE: &'static str = "Infomek — Licença";

/// The desktop that shows an alert.
#[derive(Clone, Copy, PartialEq, Eq, Debug, Structural)]
pub enum Platform {
    Windows,
    MacOs,
    Linux,
    Other,
}

/// A program to run, with its arguments.
#[derive(PartialEq, Eq, Debug)]
pub struct CommandLine {
    pub program: String,
    pub args: Vec<String>,
}

pub struct CommandView {
    pub program: Seq<char>,
    pub args: Seq<Seq<char>>,
}

impl View for CommandLine {
    type V = CommandView;

    open spec fn view(&self) -> CommandView {
        CommandView { program: self.program@, args: self.args@.map_values(|a: String| a@) }
    }
}

/// How an alert is shown. Showing it takes until the user closes it.
#[derive(PartialEq, Eq, Debug)]
pub enum NativeAlert {
    /// A message box of the system.
    MessageBox { text: String },
    /// A program; the second one, by [`after_first`], when the first cannot be
    /// started.
    Command { first: CommandLine, fallback: Option<CommandLine> },
}

pub enum AlertView {
    MessageBox { text: Seq<char> },
    Command { first: CommandView, fallback: Option<CommandView> },
}

impl View for NativeAlert {
    type V = AlertView;

    open spec fn view(&self) -> AlertView {
        match self {
            NativeAlert::MessageBox { text } => AlertView::MessageBox { text: text@ },
            NativeAlert::Command { first, fallback } => AlertView::Command {
                first: first@,
                fallback: match fallback {
                    Some(command) => Some(command@),
                    None => None,
                },
            },
        }
    }
}

pub open spec fn alert_view(alert: Option<NativeAlert>) -> Option<AlertView> {
    match alert {
        Some(a) => Some(a@),
        None => None,
    }
}

pub open spec fn command_view(command: Option<&CommandLine>) -> Option<CommandView> {
    match command {
        Some(c) => Some(c@),
        None => None,
    }
}

/// The program to run after the first one of an alert: the fallback, if there
/// is one and the first program could not be started. How a program ended that
/// did start does not matter.
pub open spec fn second_program(alert: AlertView, started: bool) -> Option<CommandView> {
    match alert {
        AlertView::Command { fallback, .. } => if started {
            None
        } else {
            fallback
        },
        AlertView::MessageBox { .. } => None,
    }
}

/// The programs that showing an alert runs, in their order, given whether the
/// first one can be started.
pub open spec fn programs_run(alert: AlertView, started: bool) -> Seq<CommandView> {
    match alert {
        AlertView::Command { first, .. } => match second_program(alert, started) {
            Some(second) => seq![first, second],
            None => seq![first],
        },
        AlertView::MessageBox { .. } => Seq::empty(),
    }
}

/// A character inside an AppleScript string literal.
pub open spec fn escaped_char(c: char) -> Seq<char> {
    if c == '\\' || c == '"' {
        seq!['\\', c]
    } else {
        seq![c]
    }
}

/// A text inside an AppleScript string literal.
pub open spec fn escaped(s: Seq<char>) -> Seq<char>
    decreases s.len(),
{
    if s.len() == 0 {
        Seq::empty()
    } else {
        escaped_char(s[0]) + escaped(s.skip(1))
    }
}

/// What an AppleScript string literal denotes, and what follows its closing
/// quote. `s` starts behind the opening quote.
pub open spec fn literal(s: Seq<char>) -> Option<(Seq<char>, Seq<char>)>
    decreases s.len(),
{
    if s.len() == 0 {
        None
    } else if s[0] == '"' {
        Some((Seq::empty(), s.skip(1)))
    } else if s[0] == '\\' {
        if s.len() >= 2 && (s[1] == '\\' || s[1] == '"') {
            match literal(s.skip(2)) {
                Some((text, rest)) => Some((seq![s[1]] + text, rest)),
                None => None,
            }
        } else {
            None
        }
    } else {
        match literal(s.skip(1)) {
            Some((text, rest)) => Some((seq![s[0]] + text, rest)),
            None => None,
        }
    }
}

/// The script that shows `text` on macOS.
pub open spec fn dialog_script(text: Seq<char>) -> Seq<char> {
    "display dialog \""@ + (escaped(text)
        + "\" with title \"Infomek — Licença\" buttons {\"OK\"} default button \"OK\" with icon caution"@)
}

pub open spec fn osascript(text: Seq<char>) -> CommandView {
    CommandView { program: "osascript"@, args: seq!["-e"@, dialog_script(text)] }
}

pub open spec fn zenity(text: Seq<char>) -> CommandView {
    CommandView {
        program: "zenity"@,
        args: seq!["--error"@, "--title="@ + ALERT_TITLE@, "--text="@ + text],
    }
}

pub open spec fn kdialog(text: Seq<char>) -> CommandView {
    CommandView { program: "kdialog"@, args: seq!["--title"@, ALERT_TITLE@, "--error"@, text] }
}

/// How `text` is shown. A service process has no desktop, and would wait for
/// ever for somebody to close an alert: it shows none.
pub open spec fn alert_for(
    platform: Platform,
    is_service_process: bool,
    text: Seq<char>,
) -> Option<AlertView> {
    if is_service_process {
        None
    } else {
        match platform {
            Platform::Windows => Some(AlertView::MessageBox { text }),
            Platform::MacOs => Some(
                AlertView::Command { first: osascript(text), fallback: None },
            ),
            Platform::Linux => Some(
                AlertView::Command { first: zenity(text), fallback: Some(kdialog(text)) },
            ),
            Platform::Other => None,
        }
    }
}

/// A message with exactly one `mark` at its end.
pub open spec fn ended_with(message: Seq<char>, mark: char) -> Seq<char> {
    without_trailing(message, mark).push(mark)
}

/// Escapes a text for an AppleScript string literal.
pub fn escape(text: &str) -> (res: String)
    ensures
        res@ == escaped(text@),
{
    let len: usize = text.unicode_len();
    let mut out = String::new();
    let mut i: usize = 0;
    assert(text@.skip(0) =~= text@);
    assert(out@ + escaped(text@) =~= escaped(text@));
    while i < len
        invariant
            i <= len,
            len == text@.len(),
            out@ + escaped(text@.skip(i as int)) == escaped(text@),
        decreases len - i,
    {
        let ghost before = out@;
        let c: char = text.get_char(i);
        proof {
            reveal_strlit("\\");
            assert(text@.skip(i as int).skip(1) =~= text@.skip(i + 1));
        }
        if c == '\\' || c == '"' {
            out.append("\\");
        }
        out.append(text.substring_char(i, i + 1));
        assert(out@ =~= before + escaped_char(c));
        assert(before + (escaped_char(c) + escaped(text@.skip(i + 1))) =~= out@ + escaped(
            text@.skip(i + 1),
        ));
        i = i + 1;
    }
    assert(out@ =~= out@ + escaped(text@.skip(len as int)));
    out
}

fn new_osascript(text: &str) -> (res: CommandLine)
    ensures
        res@ == osascript(text@),
{
    let body = escape(text);
    let mut script = "display dialog \"".to_owned();
    script.append(body.as_str());
    script.append(
        "\" with title \"Infomek — Licença\" buttons {\"OK\"} default button \"OK\" with icon caution",
    );
    assert(script@ =~= dialog_script(text@));
    let mut args: Vec<String> = Vec::new();
    args.push("-e".to_owned());
    args.push(script);
    let command = CommandLine { program: "osascript".to_owned(), args };
    assert(command@.args =~= osascript(text@).args);
    command
}

fn new_zenity(text: &str) -> (res: CommandLine)
    ensures
        res@ == zenity(text@),
{
    let mut title = "--title=".to_owned();
    title.append(ALERT_TITLE);
    let mut body = "--text=".to_owned();
    body.append(text);
    let mut args: Vec<String> = Vec::new();
    args.push("--error".to_owned());
    args.push(title);
    args.push(body);
    let command = CommandLine { program: "zenity".to_owned(), args };
    assert(command@.args =~= zenity(text@).args);
    command
}

fn new_kdialog(text: &str) -> (res: CommandLine)
    ensures
        res@ == kdialog(text@),
{
    let mut args: Vec<String> = Vec::new();
    args.push("--title".to_owned());
    args.push(ALERT_TITLE.to_owned());
    args.push("--error".to_owned());
    args.push(text.to_owned());
    let command = CommandLine { program: "kdialog".to_owned(), args };
    assert(command@.args =~= kdialog(text@).args);
    command
}

/// How `text` is to be shown, if at all.
pub fn native_alert(platform: Platform, is_service_process: bool, text: &str) -> (res: Option<
    NativeAlert,
>)
    ensures
        alert_view(res) == alert_for(platform, is_service_process, text@),
{
    if is_service_process {
        return None;
    }
    match platform {
        Platform::Windows => Some(NativeAlert::MessageBox { text: text.to_owned() }),
        Platform::MacOs => Some(
            NativeAlert::Command { first: new_osascript(text), fallback: None },
        ),
        Platform::Linux => Some(
            NativeAlert::Command { first: new_zenity(text), fallback: Some(new_kdialog(text)) },
        ),
        Platform::Other => None,
    }
}

/// The program to run after the first one of an alert, if any. `started` tells
/// whether the first one could be started.
pub fn after_first(alert: &NativeAlert, started: bool) -> (res: Option<&CommandLine>)
    ensures
        res is Some <==> !started && alert is Command && alert->fallback is Some,
        res matches Some(command) ==> alert->fallback == Some(*command),
        command_view(res) == second_program(alert@, started),
{
    if started {
        return None;
    }
    match alert {
        NativeAlert::Command { fallback: Some(command), .. } => Some(command),
        _ => None,
    }
}

/// A message with exactly one exclamation mark at its end.
pub(crate) fn exclaimed(message: &str) -> (res: String)
    ensures
        res@ == ended_with(message@, '!'),
{
    proof {
        reveal_strlit("!");
    }
    let mut text = trim_end(message, '!').to_owned();
    text.append("!");
    assert(text@ =~= ended_with(message@, '!'));
    text
}

/// A message with exactly one full stop at its end.
pub(crate) fn stopped(message: &str) -> (res: String)
    ensures
        res@ == ended_with(message@, '.'),
{
    proof {
        reveal_strlit(".");
    }
    let mut text = trim_end(message, '.').to_owned();
    text.append(".");
    assert(text@ =~= ended_with(message@, '.'));
    text
}

} // verus!
