//! What an alert says and which programs show it, said of the text itself.
use vstd::prelude::*;

use crate::alert::{
    after_first, alert_for, dialog_script, ended_with, escape, escaped, escaped_char, native_alert,
    second_program, CommandLine, CommandView, NativeAlert, Platform,
};
use crate::text_laws::only_the_trailing_run_goes;

verus! {

/// A backslash stands before a backslash and before a quote, and every other
/// character stands for itself.
pub proof fn one_character_is_escaped(c: char)
    ensures
        c == '\\' ==> escaped(seq![c]) == seq!['\\', '\\'],
        c == '"' ==> escaped(seq![c]) == seq!['\\', '"'],
        c != '\\' && c != '"' ==> escaped(seq![c]) == seq![c],
{
    assert(seq![c].skip(1) =~= Seq::<char>::empty());
    assert(escaped(Seq::<char>::empty()) =~= Seq::<char>::empty());
    assert(escaped(seq![c]) =~= escaped_char(c));
}

/// Each part of a text is escaped by itself, wherever it stands and however long
/// the text is.
pub proof fn parts_are_escaped_by_themselves(a: Seq<char>, b: Seq<char>)
    ensures
        escaped(a + b) == escaped(a) + escaped(b),
    decreases a.len(),
{
    if a.len() == 0 {
        assert(a + b =~= b);
        assert(escaped(a) + escaped(b) =~= escaped(b));
    } else {
        let tail = a.skip(1);
        parts_are_escaped_by_themselves(tail, b);
        assert((a + b).skip(1) =~= tail + b);
        assert((a + b)[0] == a[0]);
        assert(escaped(a + b) =~= escaped(a) + escaped(b));
    }
}

/// A text without backslash and quote is left as it is.
pub proof fn plain_text_needs_no_escape(s: Seq<char>)
    requires
        forall|i: int| 0 <= i < s.len() ==> #[trigger] s[i] != '\\' && s[i] != '"',
    ensures
        escaped(s) == s,
    decreases s.len(),
{
    if s.len() > 0 {
        plain_text_needs_no_escape(s.skip(1));
        assert(escaped(s) =~= s);
    } else {
        assert(escaped(s) =~= s);
    }
}

/// What escaping gives back grows by two characters with a backslash or a quote
/// behind the text, and by the character itself with any other.
pub proof fn escape_takes_one_character_after_another(
    text: &str,
    longer: &str,
    c: char,
    before: String,
    after: String,
)
    requires
        call_ensures(escape, (text,), before),
        call_ensures(escape, (longer,), after),
        longer@ == text@.push(c),
    ensures
        text@.len() == 0 ==> before@.len() == 0,
        c == '\\' || c == '"' ==> after@ == before@ + seq!['\\', c],
        c != '\\' && c != '"' ==> after@ == before@ + seq![c],
{
    assert(longer@ =~= text@ + seq![c]);
    parts_are_escaped_by_themselves(text@, seq![c]);
    one_character_is_escaped(c);
}

/// The text of an alert is its message, less the marks at its end, and one mark.
/// How many marks the message ended in makes no difference.
pub proof fn one_mark_ends_the_message(body: Seq<char>, mark: char, n: nat)
    requires
        body.len() > 0 ==> body.last() != mark,
    ensures
        ended_with(body + Seq::new(n, |i: int| mark), mark) == body + seq![mark],
{
    only_the_trailing_run_goes(body, mark, n);
    assert(body.push(mark) =~= body + seq![mark]);
}

/// A service process is shown nothing, and neither is a desktop that is not known.
pub proof fn no_desktop_no_alert(
    platform: Platform,
    is_service_process: bool,
    text: &str,
    alert: Option<NativeAlert>,
)
    requires
        call_ensures(native_alert, (platform, is_service_process, text), alert),
    ensures
        alert is None <==> is_service_process || platform is Other,
{
}

/// On Windows the system shows the text as it is.
pub proof fn windows_shows_the_text(text: &str, alert: Option<NativeAlert>)
    requires
        call_ensures(native_alert, (Platform::Windows, false, text), alert),
    ensures
        alert matches Some(NativeAlert::MessageBox { text: shown }) && shown@ == text@,
{
}

/// Whether a command runs the program with these arguments.
pub open spec fn runs(command: CommandLine, program: Seq<char>, args: Seq<Seq<char>>) -> bool {
    &&& command.program@ == program
    &&& command.args@.len() == args.len()
    &&& forall|i: int| 0 <= i < args.len() ==> (#[trigger] command.args@[i])@ == args[i]
}

proof fn lemma_runs(command: CommandLine, view: CommandView)
    requires
        command@ == view,
    ensures
        runs(command, view.program, view.args),
{
    assert forall|i: int| 0 <= i < view.args.len() implies (#[trigger] command.args@[i])@
        == view.args[i] by {
        assert(command@.args[i] == command.args@[i]@);
    }
}

/// On macOS a script shows the text, which stands in it escaped and between
/// quotes. Nothing takes its place.
pub proof fn macos_runs_one_script(text: &str, alert: Option<NativeAlert>)
    requires
        call_ensures(native_alert, (Platform::MacOs, false, text), alert),
    ensures
        alert matches Some(NativeAlert::Command { first, fallback }) && fallback is None && runs(
            first,
            "osascript"@,
            seq![
                "-e"@,
                "display dialog \""@ + escaped(text@)
                    + "\" with title \"Infomek — Licença\" buttons {\"OK\"} default button \"OK\" with icon caution"@,
            ],
        ),
{
    assert(dialog_script(text@) =~= "display dialog \""@ + escaped(text@)
        + "\" with title \"Infomek — Licença\" buttons {\"OK\"} default button \"OK\" with icon caution"@);
    if let Some(NativeAlert::Command { first, fallback }) = alert {
        lemma_runs(first, alert_for(Platform::MacOs, false, text@)->0->first);
        assert(fallback is None);
    }
}

/// On Linux zenity shows the text, and kdialog is there to take its place with the
/// same text.
pub proof fn linux_runs_zenity_or_kdialog(text: &str, alert: Option<NativeAlert>)
    requires
        call_ensures(native_alert, (Platform::Linux, false, text), alert),
    ensures
        alert matches Some(NativeAlert::Command { first, fallback: Some(second) }) && {
            &&& runs(
                first,
                "zenity"@,
                seq![
                    "--error"@,
                    "--title=Infomek — Licença"@,
                    "--text="@ + text@,
                ],
            )
            &&& runs(
                second,
                "kdialog"@,
                seq!["--title"@, "Infomek — Licença"@, "--error"@, text@],
            )
        },
{
    reveal_strlit("--title=");
    reveal_strlit("Infomek — Licença");
    reveal_strlit("--title=Infomek — Licença");
    assert("--title="@ + "Infomek — Licença"@ =~= "--title=Infomek — Licença"@);
    let view = alert_for(Platform::Linux, false, text@)->0;
    if let Some(NativeAlert::Command { first, fallback: Some(second) }) = alert {
        lemma_runs(first, view->first);
        lemma_runs(second, view->fallback->0);
    }
}

/// A second program runs exactly when there is one and the first did not start,
/// and it is that one.
pub proof fn second_program_only_replaces_the_first(
    alert: &NativeAlert,
    started: bool,
    next: Option<&CommandLine>,
)
    requires
        call_ensures(after_first, (alert, started), next),
    ensures
        started ==> next is None,
        alert is MessageBox ==> next is None,
        !started && alert is Command ==> match alert->fallback {
            Some(command) => next is Some && *next->0 == command,
            None => next is None,
        },
        alert@ is Command && !started ==> second_program(alert@, started) == alert@->fallback,
{
}

} // verus!
