use crate::text::{append, begins_with, chain, chars_of, contains, framed, includes, is_ascii_letter, lines, lower, pairs, piece_after, second_piece, slice, split_lines, starts_with, str_same, string_of, strings, to_lower, trim, trimmed, views};
use vstd::prelude::*;

verus! {

/// A program to run, with its arguments and what is added to its
/// environment, each addition written as `NAME=value`.
#[derive(Debug, Clone)]
pub struct Probe {
    pub program: String,
    pub args: Vec<String>,
    pub env: Vec<String>,
}

/// What a `Probe` holds.
pub struct ProbeView {
    pub program: Seq<char>,
    pub args: Seq<Seq<char>>,
    pub env: Seq<Seq<char>>,
}

impl View for Probe {
    type V = ProbeView;

    open spec fn view(&self) -> ProbeView {
        ProbeView { program: self.program@, args: strings(self.args@), env: strings(self.env@) }
    }
}

/// How the run of a program ended. Its output is text: bytes that are no
/// UTF-8 are replaced before they come here.
#[derive(Debug, Clone)]
pub enum Launch {
    /// The program ran; `success` tells whether it reported success.
    Ran { success: bool, stdout: String, stderr: String },
    /// The program was not found.
    Missing { error: String },
    /// The program could not be run for another reason.
    Failed { error: String },
}

/// What a `Launch` holds.
pub enum LaunchView {
    Ran { success: bool, stdout: Seq<char>, stderr: Seq<char> },
    Missing { error: Seq<char> },
    Failed { error: Seq<char> },
}

impl View for Launch {
    type V = LaunchView;

    open spec fn view(&self) -> LaunchView {
        match self {
            Launch::Ran { success, stdout, stderr } => LaunchView::Ran {
                success: *success,
                stdout: stdout@,
                stderr: stderr@,
            },
            Launch::Missing { error } => LaunchView::Missing { error: error@ },
            Launch::Failed { error } => LaunchView::Failed { error: error@ },
        }
    }
}

/// What each of `v` holds.
pub open spec fn launches(v: Seq<Launch>) -> Seq<LaunchView> {
    Seq::new(v.len(), |i: int| v[i]@)
}

/// A help text with the name of its source, or the reason why there is
/// none.
pub type Captured = Result<(Seq<char>, Seq<char>), Seq<char>>;

/// What is to be done next to obtain the help text of a command.
#[derive(Debug)]
pub enum HelpStep {
    /// Run this program and come back with how it ended.
    Run(Probe),
    /// The text with the name of its source, or why there is none.
    Done(Result<(String, String), String>),
}

/// What a `HelpStep` holds.
pub enum HelpStepView {
    Run(ProbeView),
    Done(Captured),
}

impl View for HelpStep {
    type V = HelpStepView;

    open spec fn view(&self) -> HelpStepView {
        match self {
            HelpStep::Run(probe) => HelpStepView::Run(probe@),
            HelpStep::Done(Ok(pair)) => HelpStepView::Done(Ok((pair.0@, pair.1@))),
            HelpStep::Done(Err(reason)) => HelpStepView::Done(Err(reason@)),
        }
    }
}

/// Tells whether a text reads as help: it is not blank, and it holds one
/// of the words `usage`, `options`, `help`, `commands`, `synopsis` and
/// `description`, in any case of letters, or has more than 50 characters
/// between its first and its last that are no white space.
pub open spec fn valid_help(content: Seq<char>) -> bool {
    let t = trim(content);
    t.len() > 0 && (contains(lower(t), "usage"@) || contains(lower(t), "options"@) || contains(
        lower(t),
        "help"@,
    ) || contains(lower(t), "commands"@) || contains(lower(t), "synopsis"@) || contains(
        lower(t),
        "description"@,
    ) || t.len() > 50)
}

fn valid_help_chars(content: &Vec<char>) -> (b: bool)
    ensures
        b == valid_help(content@),
{
    let t = trimmed(content);
    if t.len() == 0 {
        return false;
    }
    let low = to_lower(&t);
    includes(&low, &chars_of("usage")) || includes(&low, &chars_of("options")) || includes(
        &low,
        &chars_of("help"),
    ) || includes(&low, &chars_of("commands")) || includes(&low, &chars_of("synopsis"))
        || includes(&low, &chars_of("description")) || t.len() > 50
}

/// Tells whether a text reads as help.
pub fn is_valid_help_content(content: &str) -> (b: bool)
    ensures
        b == valid_help(content@),
{
    valid_help_chars(&chars_of(content))
}

/// The text `s` from index `i` on without its escape sequences, added to
/// `out`. An escape character followed by `[` opens a sequence that ends
/// with the first ASCII letter; `in_escape` tells that one is open. An
/// escape character alone is dropped. A backspace drops the last
/// character that was kept.
pub open spec fn strip_ansi_from(s: Seq<char>, i: int, in_escape: bool, out: Seq<char>) -> Seq<
    char,
>
    decreases s.len() - i,
{
    if i < 0 || i >= s.len() {
        out
    } else if in_escape {
        strip_ansi_from(s, i + 1, !is_ascii_letter(s[i]), out)
    } else if s[i] == '\x1b' {
        if i + 1 < s.len() && s[i + 1] == '[' {
            strip_ansi_from(s, i + 2, true, out)
        } else {
            strip_ansi_from(s, i + 1, false, out)
        }
    } else if s[i] == '\x08' {
        strip_ansi_from(
            s,
            i + 1,
            false,
            if out.len() > 0 {
                out.drop_last()
            } else {
                out
            },
        )
    } else {
        strip_ansi_from(s, i + 1, false, out.push(s[i]))
    }
}

/// The text `s` without its escape sequences and backspaces.
pub open spec fn strip_ansi(s: Seq<char>) -> Seq<char> {
    strip_ansi_from(s, 0, false, seq![])
}

/// Tells whether a text holds neither an escape character nor a
/// backspace.
pub open spec fn is_plain(s: Seq<char>) -> bool {
    forall|i: int| 0 <= i < s.len() ==> s[i] != '\x1b' && s[i] != '\x08'
}

/// What is kept of a text holds neither an escape character nor a
/// backspace, where what was kept before holds none.
pub proof fn lemma_strip_ansi_from(s: Seq<char>, i: int, in_escape: bool, out: Seq<char>)
    requires
        is_plain(out),
    ensures
        is_plain(strip_ansi_from(s, i, in_escape, out)),
    decreases s.len() - i,
{
    if 0 <= i < s.len() {
        if in_escape {
            lemma_strip_ansi_from(s, i + 1, !is_ascii_letter(s[i]), out);
        } else if s[i] == '\x1b' {
            if i + 1 < s.len() && s[i + 1] == '[' {
                lemma_strip_ansi_from(s, i + 2, true, out);
            } else {
                lemma_strip_ansi_from(s, i + 1, false, out);
            }
        } else if s[i] == '\x08' {
            lemma_strip_ansi_from(
                s,
                i + 1,
                false,
                if out.len() > 0 {
                    out.drop_last()
                } else {
                    out
                },
            );
        } else {
            lemma_strip_ansi_from(s, i + 1, false, out.push(s[i]));
        }
    }
}

/// A text without its escape sequences holds neither an escape
/// character nor a backspace.
pub proof fn lemma_strip_ansi_is_plain(s: Seq<char>)
    ensures
        is_plain(strip_ansi(s)),
{
    lemma_strip_ansi_from(s, 0, false, seq![]);
}

fn strip_ansi_chars(v: &Vec<char>) -> (out: Vec<char>)
    ensures
        out@ == strip_ansi(v@),
{
    let mut out: Vec<char> = Vec::new();
    let mut in_escape = false;
    let mut i: usize = 0;
    while i < v.len()
        invariant
            i <= v.len(),
            strip_ansi(v@) == strip_ansi_from(v@, i as int, in_escape, out@),
        decreases v.len() - i,
    {
        let c = v[i];
        if in_escape {
            in_escape = !(('a' <= c && c <= 'z') || ('A' <= c && c <= 'Z'));
            i += 1;
        } else if c == '\x1b' {
            if i + 1 < v.len() && v[i + 1] == '[' {
                in_escape = true;
                i += 2;
            } else {
                i += 1;
            }
        } else if c == '\x08' {
            if out.len() > 0 {
                out.pop();
            }
            i += 1;
        } else {
            out.push(c);
            i += 1;
        }
    }
    out
}

/// Removes the escape sequences that colour a terminal, and what a
/// backspace strikes out, from the text of a manual page.
pub fn strip_ansi_codes(s: &str) -> (r: String)
    ensures
        r@ == strip_ansi(s@),
        is_plain(r@),
{
    proof {
        lemma_strip_ansi_is_plain(s@);
    }
    string_of(&strip_ansi_chars(&chars_of(s)))
}

/// The index of the first character of `line` at or after `from` that ends
/// a name in a manual listing: `(`, `,` or a space; or the length of `line`.
pub open spec fn name_end(line: Seq<char>, from: int) -> int
    decreases line.len() - from,
{
    if from < 0 || from >= line.len() {
        line.len() as int
    } else if line[from] == '(' || line[from] == ',' || line[from] == ' ' {
        from
    } else {
        name_end(line, from + 1)
    }
}

/// The name and the description that a line of a manual listing gives for
/// a section. The line must hold the section in brackets, or after an
/// opening bracket and before a comma. The name is what stands before the
/// first `(`, `,` or space; the description is what follows the first
/// ` - `, up to the next. `None` where the section is not there or the
/// name is empty.
pub open spec fn man_list_line(line: Seq<char>, section: Seq<char>) -> Option<
    (Seq<char>, Seq<char>),
> {
    let name = trim(line.take(name_end(line, 0)));
    if !contains(line, "("@ + section + ")"@) && !contains(line, "("@ + section + ","@) {
        None
    } else if name.len() == 0 {
        None
    } else {
        Some(
            (
                name,
                match second_piece(line, " - "@) {
                    Some(piece) => trim(piece),
                    None => seq![],
                },
            ),
        )
    }
}

fn man_list_line_chars(line: &Vec<char>, section: &Vec<char>) -> (r: Option<
    (Vec<char>, Vec<char>),
>)
    ensures
        match r {
            Some(pair) => man_list_line(line@, section@) == Some((pair.0@, pair.1@)),
            None => man_list_line(line@, section@) is None,
        },
{
    let closed = framed("(", section, ")");
    let listed = framed("(", section, ",");
    if !includes(line, &closed) && !includes(line, &listed) {
        return None;
    }
    let mut end: usize = 0;
    while end < line.len() && !(line[end] == '(' || line[end] == ',' || line[end] == ' ')
        invariant
            end <= line.len(),
            name_end(line@, 0) == name_end(line@, end as int),
        decreases line.len() - end,
    {
        end += 1;
    }
    let head = slice(line, 0, end);
    assert(head@ =~= line@.take(end as int));
    let name = trimmed(&head);
    if name.len() == 0 {
        return None;
    }
    let description = match piece_after(line, &chars_of(" - ")) {
        Some(piece) => trimmed(&piece),
        None => Vec::new(),
    };
    Some((name, description))
}

/// Reads one line of a manual listing, such as
/// `docker-ps (1) - list containers`, for a section.
pub fn parse_man_list_line(line: &str, section: &str) -> (r: Option<(String, String)>)
    ensures
        match r {
            Some(pair) => man_list_line(line@, section@) == Some((pair.0@, pair.1@)),
            None => man_list_line(line@, section@) is None,
        },
{
    match man_list_line_chars(&chars_of(line), &chars_of(section)) {
        Some(pair) => Some((string_of(&pair.0), string_of(&pair.1))),
        None => None,
    }
}

/// The names and descriptions that the lines of a manual listing give for
/// a section, in the order of the lines.
pub open spec fn man_listing(all: Seq<Seq<char>>, section: Seq<char>) -> Seq<
    (Seq<char>, Seq<char>),
>
    decreases all.len(),
{
    if all.len() == 0 {
        seq![]
    } else {
        match man_list_line(all.last(), section) {
            Some(pair) => man_listing(all.drop_last(), section).push(pair),
            None => man_listing(all.drop_last(), section),
        }
    }
}

/// Reads a manual listing for a section.
pub fn parse_man_listing(content: &str, section: &str) -> (r: Vec<(String, String)>)
    ensures
        pairs(r@) == man_listing(lines(content@), section@),
{
    let all = split_lines(&chars_of(content));
    let wanted = chars_of(section);
    let mut out: Vec<(String, String)> = Vec::new();
    let mut i: usize = 0;
    assert(pairs(out@) =~= seq![]);
    while i < all.len()
        invariant
            i <= all.len(),
            wanted@ == section@,
            pairs(out@) == man_listing(views(all@).take(i as int), section@),
        decreases all.len() - i,
    {
        proof {
            let done = views(all@).take(i + 1);
            assert(done.drop_last() =~= views(all@).take(i as int));
            assert(done.last() == all[i as int]@);
        }
        match man_list_line_chars(&all[i], &wanted) {
            Some(pair) => {
                let ghost before = pairs(out@);
                out.push((string_of(&pair.0), string_of(&pair.1)));
                assert(pairs(out@) =~= before.push((pair.0@, pair.1@)));
            },
            None => {},
        }
        i += 1;
    }
    assert(views(all@).take(i as int) =~= views(all@));
    out
}

/// What a captured text or a reason holds.
pub open spec fn captured(r: Result<(String, String), String>) -> Captured {
    match r {
        Ok(pair) => Ok((pair.0@, pair.1@)),
        Err(reason) => Err(reason@),
    }
}

fn found(text: &Vec<char>, source: &Vec<char>) -> (r: Result<(String, String), String>)
    ensures
        captured(r) == Ok::<(Seq<char>, Seq<char>), Seq<char>>((text@, source@)),
{
    Ok((string_of(text), string_of(source)))
}

fn failure(reason: &Vec<char>) -> (r: Result<(String, String), String>)
    ensures
        captured(r) == Err::<(Seq<char>, Seq<char>), Seq<char>>(reason@),
{
    Err(string_of(reason))
}

fn probe_of(program: &str, args: Vec<String>, env: Vec<String>) -> (p: Probe)
    ensures
        p@ == (ProbeView { program: program@, args: strings(args@), env: strings(env@) }),
{
    Probe { program: program.to_owned(), args, env }
}

fn no_strings() -> (v: Vec<String>)
    ensures
        strings(v@) == Seq::<Seq<char>>::empty(),
{
    let v: Vec<String> = Vec::new();
    assert(strings(v@) =~= Seq::<Seq<char>>::empty());
    v
}

fn one_string(a: &str) -> (v: Vec<String>)
    ensures
        strings(v@) == seq![a@],
{
    let mut v: Vec<String> = Vec::new();
    v.push(a.to_owned());
    assert(strings(v@) =~= seq![a@]);
    v
}

fn two_strings(a: &str, b: &str) -> (v: Vec<String>)
    ensures
        strings(v@) == seq![a@, b@],
{
    let mut v: Vec<String> = Vec::new();
    v.push(a.to_owned());
    v.push(b.to_owned());
    assert(strings(v@) =~= seq![a@, b@]);
    v
}

fn three_strings(a: &str, b: &str, c: &str) -> (v: Vec<String>)
    ensures
        strings(v@) == seq![a@, b@, c@],
{
    let mut v: Vec<String> = Vec::new();
    v.push(a.to_owned());
    v.push(b.to_owned());
    v.push(c.to_owned());
    assert(strings(v@) =~= seq![a@, b@, c@]);
    v
}

fn four_strings(a: &str, b: &str, c: &str, d: &str) -> (v: Vec<String>)
    ensures
        strings(v@) == seq![a@, b@, c@, d@],
{
    let mut v: Vec<String> = Vec::new();
    v.push(a.to_owned());
    v.push(b.to_owned());
    v.push(c.to_owned());
    v.push(d.to_owned());
    assert(strings(v@) =~= seq![a@, b@, c@, d@]);
    v
}

/// What a help flag gave: the standard output where the program reported
/// success or wrote any, and it reads as help; else the standard error
/// where that reads as help; else the reason.
pub open spec fn flag_outcome(cmd: Seq<char>, flag: Seq<char>, launch: LaunchView) -> Captured {
    match launch {
        LaunchView::Ran { success, stdout, stderr } => {
            if (success || stdout.len() > 0) && valid_help(stdout) {
                Ok((stdout, flag))
            } else if stderr.len() > 0 && valid_help(stderr) {
                Ok((stderr, flag + " (stderr)"@))
            } else {
                Err("No usable output from "@ + cmd + " "@ + flag)
            }
        },
        LaunchView::Missing { error } => Err(
            "Command '"@ + cmd + "' not found (program not found)"@,
        ),
        LaunchView::Failed { error } => Err(
            "Failed to execute '"@ + cmd + " "@ + flag + "': "@ + error,
        ),
    }
}

/// Judges what the run of a command with a help flag gave.
pub fn try_help_flag(cmd: &str, flag: &str, launch: &Launch) -> (r: Result<
    (String, String),
    String,
>)
    ensures
        captured(r) == flag_outcome(cmd@, flag@, launch@),
{
    let name = chars_of(cmd);
    let option = chars_of(flag);
    match launch {
        Launch::Ran { success, stdout, stderr } => {
            let out = chars_of(stdout.as_str());
            let err = chars_of(stderr.as_str());
            if (*success || out.len() > 0) && valid_help_chars(&out) {
                found(&out, &option)
            } else if err.len() > 0 && valid_help_chars(&err) {
                found(&err, &chain(&option, &chars_of(" (stderr)")))
            } else {
                let mut reason = framed("No usable output from ", &name, " ");
                append(&mut reason, &option);
                failure(&reason)
            }
        },
        Launch::Missing { error } => failure(
            &framed("Command '", &name, "' not found (program not found)"),
        ),
        Launch::Failed { error } => {
            let mut reason = framed("Failed to execute '", &name, " ");
            append(&mut reason, &option);
            append(&mut reason, &chars_of("': "));
            append(&mut reason, &chars_of(error.as_str()));
            failure(&reason)
        },
    }
}

/// What PowerShell's `Get-Help` gave: its output, unless it is blank or a
/// short notice that there is no help.
pub open spec fn powershell_outcome(cmd: Seq<char>, launch: LaunchView) -> Captured {
    match launch {
        LaunchView::Ran { success, stdout, stderr } => {
            if !success {
                Err("Get-Help failed for '"@ + cmd + "'"@)
            } else if trim(stdout).len() == 0 || ((contains(trim(stdout), "No help topic found"@)
                || starts_with(trim(stdout), "Get-Help cannot"@)) && trim(stdout).len() < 200) {
                Err("Get-Help found no help for '"@ + cmd + "'"@)
            } else {
                Ok((stdout, "Get-Help (PowerShell)"@))
            }
        },
        LaunchView::Missing { error } => Err("Failed to run PowerShell Get-Help: "@ + error),
        LaunchView::Failed { error } => Err("Failed to run PowerShell Get-Help: "@ + error),
    }
}

/// Judges what PowerShell's `Get-Help` gave for a command.
pub fn get_powershell_help(cmd: &str, launch: &Launch) -> (r: Result<(String, String), String>)
    ensures
        captured(r) == powershell_outcome(cmd@, launch@),
{
    let name = chars_of(cmd);
    match launch {
        Launch::Ran { success, stdout, stderr } => {
            let out = chars_of(stdout.as_str());
            let t = trimmed(&out);
            if !*success {
                failure(&framed("Get-Help failed for '", &name, "'"))
            } else if t.len() == 0 || ((includes(&t, &chars_of("No help topic found"))
                || begins_with(&t, &chars_of("Get-Help cannot"))) && t.len() < 200) {
                failure(&framed("Get-Help found no help for '", &name, "'"))
            } else {
                found(&out, &chars_of("Get-Help (PowerShell)"))
            }
        },
        Launch::Missing { error } => failure(
            &chain(&chars_of("Failed to run PowerShell Get-Help: "), &chars_of(error.as_str())),
        ),
        Launch::Failed { error } => failure(
            &chain(&chars_of("Failed to run PowerShell Get-Help: "), &chars_of(error.as_str())),
        ),
    }
}

/// What the `help` command of the Windows console gave: its output where
/// that reads as help and does not say that the command is not supported.
pub open spec fn console_outcome(cmd: Seq<char>, launch: LaunchView) -> Captured {
    match launch {
        LaunchView::Ran { success, stdout, stderr } => {
            if valid_help(stdout) && !contains(stdout, "is not supported"@) {
                Ok((stdout, "help (cmd)"@))
            } else {
                Err("No cmd help for '"@ + cmd + "'"@)
            }
        },
        LaunchView::Missing { error } => Err("Failed to run cmd help: "@ + error),
        LaunchView::Failed { error } => Err("Failed to run cmd help: "@ + error),
    }
}

/// Judges what the `help` command of the Windows console gave.
pub fn get_cmd_help(cmd: &str, launch: &Launch) -> (r: Result<(String, String), String>)
    ensures
        captured(r) == console_outcome(cmd@, launch@),
{
    let name = chars_of(cmd);
    match launch {
        Launch::Ran { success, stdout, stderr } => {
            let out = chars_of(stdout.as_str());
            if valid_help_chars(&out) && !includes(&out, &chars_of("is not supported")) {
                found(&out, &chars_of("help (cmd)"))
            } else {
                failure(&framed("No cmd help for '", &name, "'"))
            }
        },
        Launch::Missing { error } => failure(
            &chain(&chars_of("Failed to run cmd help: "), &chars_of(error.as_str())),
        ),
        Launch::Failed { error } => failure(
            &chain(&chars_of("Failed to run cmd help: "), &chars_of(error.as_str())),
        ),
    }
}

/// The number of ways in which help is asked of a command itself: two
/// flags, and on Windows a third flag, PowerShell and the console.
pub open spec fn help_attempts(windows: bool) -> int {
    if windows {
        5
    } else {
        2
    }
}

/// The program to run for attempt `k`.
pub open spec fn attempt_probe(cmd: Seq<char>, k: int) -> ProbeView {
    if k == 0 {
        ProbeView { program: cmd, args: seq!["--help"@], env: seq![] }
    } else if k == 1 {
        ProbeView { program: cmd, args: seq!["-h"@], env: seq![] }
    } else if k == 2 {
        ProbeView { program: cmd, args: seq!["/?"@], env: seq![] }
    } else if k == 3 {
        ProbeView {
            program: "powershell"@,
            args: seq![
                "-NoProfile"@,
                "-Command"@,
                "Get-Help "@ + cmd + " -ErrorAction SilentlyContinue | Out-String -Width 120"@,
            ],
            env: seq![],
        }
    } else {
        ProbeView { program: "cmd"@, args: seq!["/c"@, "help"@, cmd], env: seq![] }
    }
}

/// What attempt `k` gave.
pub open spec fn attempt_outcome(cmd: Seq<char>, k: int, launch: LaunchView) -> Captured {
    if k == 0 {
        flag_outcome(cmd, "--help"@, launch)
    } else if k == 1 {
        flag_outcome(cmd, "-h"@, launch)
    } else if k == 2 {
        flag_outcome(cmd, "/?"@, launch)
    } else if k == 3 {
        powershell_outcome(cmd, launch)
    } else {
        console_outcome(cmd, launch)
    }
}

/// The program that tells whether a command exists.
pub open spec fn locate_probe(cmd: Seq<char>, windows: bool) -> ProbeView {
    ProbeView {
        program: if windows {
            "where"@
        } else {
            "which"@
        },
        args: seq![cmd],
        env: seq![],
    }
}

/// Why there is no help, once it is known whether the command exists.
pub open spec fn locate_reason(cmd: Seq<char>, windows: bool, launch: LaunchView) -> Seq<char> {
    if launch is Ran && launch->success {
        if windows {
            "Command '"@ + cmd + "' exists but no help output available"@
        } else {
            "Command '"@ + cmd + "' exists but --help/-h didn't provide usable output"@
        }
    } else {
        "Command '"@ + cmd + "' not found (program not found)"@
    }
}

/// What is to be done after the runs `seen`, of which the first `k` gave
/// no help: the first attempt that gave help ends the search; after the
/// last attempt the command is looked for, and the answer gives the reason.
pub open spec fn help_step(cmd: Seq<char>, windows: bool, seen: Seq<LaunchView>, k: int) -> HelpStepView
    decreases help_attempts(windows) - k,
{
    if k < 0 || k >= seen.len() {
        if k < help_attempts(windows) {
            HelpStepView::Run(attempt_probe(cmd, k))
        } else {
            HelpStepView::Run(locate_probe(cmd, windows))
        }
    } else if k < help_attempts(windows) {
        if attempt_outcome(cmd, k, seen[k]) is Ok {
            HelpStepView::Done(attempt_outcome(cmd, k, seen[k]))
        } else {
            help_step(cmd, windows, seen, k + 1)
        }
    } else {
        HelpStepView::Done(Err(locate_reason(cmd, windows, seen[k])))
    }
}

fn attempt(cmd: &str, k: usize) -> (p: Probe)
    requires
        k < 5,
    ensures
        p@ == attempt_probe(cmd@, k as int),
{
    if k == 0 {
        probe_of(cmd, one_string("--help"), no_strings())
    } else if k == 1 {
        probe_of(cmd, one_string("-h"), no_strings())
    } else if k == 2 {
        probe_of(cmd, one_string("/?"), no_strings())
    } else if k == 3 {
        let script = string_of(
            &framed(
                "Get-Help ",
                &chars_of(cmd),
                " -ErrorAction SilentlyContinue | Out-String -Width 120",
            ),
        );
        probe_of("powershell", three_strings("-NoProfile", "-Command", script.as_str()), no_strings())
    } else {
        probe_of("cmd", three_strings("/c", "help", cmd), no_strings())
    }
}

fn judge(cmd: &str, k: usize, launch: &Launch) -> (r: Result<(String, String), String>)
    requires
        k < 5,
    ensures
        captured(r) == attempt_outcome(cmd@, k as int, launch@),
{
    if k == 0 {
        try_help_flag(cmd, "--help", launch)
    } else if k == 1 {
        try_help_flag(cmd, "-h", launch)
    } else if k == 2 {
        try_help_flag(cmd, "/?", launch)
    } else if k == 3 {
        get_powershell_help(cmd, launch)
    } else {
        get_cmd_help(cmd, launch)
    }
}

/// Says what to do next to obtain the help text of `cmd` on the operating
/// system `os`, after the runs `seen`, which are the answers to the steps
/// that this function gave before, in order. The command is asked with
/// `--help`, then `-h`; on Windows then with `/?`, through PowerShell and
/// through the console. The first text that reads as help is the result.
pub fn get_help_output(cmd: &str, os: &str, seen: &Vec<Launch>) -> (step: HelpStep)
    ensures
        step@ == help_step(cmd@, os@ == "windows"@, launches(seen@), 0),
{
    let windows = str_same(os, "windows");
    let attempts: usize = if windows {
        5
    } else {
        2
    };
    let mut k: usize = 0;
    while k < seen.len() && k < attempts
        invariant
            k <= attempts,
            attempts == help_attempts(windows),
            windows == (os@ == "windows"@),
            help_step(cmd@, windows, launches(seen@), 0) == help_step(
                cmd@,
                windows,
                launches(seen@),
                k as int,
            ),
        decreases attempts - k,
    {
        let outcome = judge(cmd, k, &seen[k]);
        if outcome.is_ok() {
            return HelpStep::Done(outcome);
        }
        k += 1;
    }
    if k < seen.len() {
        let name = chars_of(cmd);
        let exists = match &seen[k] {
            Launch::Ran { success, stdout, stderr } => *success,
            _ => false,
        };
        let reason = if exists {
            if windows {
                framed("Command '", &name, "' exists but no help output available")
            } else {
                framed("Command '", &name, "' exists but --help/-h didn't provide usable output")
            }
        } else {
            framed("Command '", &name, "' not found (program not found)")
        };
        HelpStep::Done(Err(string_of(&reason)))
    } else if k < attempts {
        HelpStep::Run(attempt(cmd, k))
    } else if windows {
        HelpStep::Run(probe_of("where", one_string(cmd), no_strings()))
    } else {
        HelpStep::Run(probe_of("which", one_string(cmd), no_strings()))
    }
}

/// What the run of `man` for a command gave: the page without escape
/// sequences, unless it is blank.
pub open spec fn man_outcome(cmd: Seq<char>, launch: LaunchView) -> Captured {
    match launch {
        LaunchView::Ran { success, stdout, stderr } => {
            if success {
                if trim(strip_ansi(stdout)).len() == 0 {
                    Err("man page for '"@ + cmd + "' is empty"@)
                } else {
                    Ok((strip_ansi(stdout), "man"@))
                }
            } else if contains(lower(stderr), "no manual entry"@) || contains(
                lower(stderr),
                "no entry"@,
            ) {
                Err("No man page for '"@ + cmd + "'"@)
            } else {
                Err("man failed for '"@ + cmd + "': "@ + trim(stderr))
            }
        },
        LaunchView::Missing { error } => Err("'man' command not available (program not found)"@),
        LaunchView::Failed { error } => Err("Failed to run man: "@ + error),
    }
}

/// The additions to the environment under which `man` writes plain text.
pub open spec fn man_env() -> Seq<Seq<char>> {
    seq!["MANPAGER=cat"@, "MANWIDTH=80"@, "GROFF_NO_SGR=1"@]
}

/// What is to be done to obtain the manual page of a command.
pub open spec fn man_step(cmd: Seq<char>, windows: bool, seen: Seq<LaunchView>) -> HelpStepView {
    if windows {
        HelpStepView::Done(
            Err("'man' is not available on Windows. Use --help or Get-Help instead."@),
        )
    } else if seen.len() == 0 {
        HelpStepView::Run(ProbeView { program: "man"@, args: seq![cmd], env: man_env() })
    } else {
        HelpStepView::Done(man_outcome(cmd, seen[0]))
    }
}

fn man_failure(launch: &Launch) -> (r: Result<(String, String), String>)
    requires
        !(launch is Ran),
    ensures
        launch@ is Missing ==> captured(r) == Err::<(Seq<char>, Seq<char>), Seq<char>>(
            "'man' command not available (program not found)"@,
        ),
        launch@ is Failed ==> captured(r) == Err::<(Seq<char>, Seq<char>), Seq<char>>(
            "Failed to run man: "@ + launch@->Failed_error,
        ),
{
    match launch {
        Launch::Failed { error } => failure(
            &chain(&chars_of("Failed to run man: "), &chars_of(error.as_str())),
        ),
        _ => failure(&chars_of("'man' command not available (program not found)")),
    }
}

/// Says what to do next to obtain the manual page of `cmd` on the
/// operating system `os`, after the runs `seen`. There are no manual pages
/// on Windows.
pub fn get_man_page(cmd: &str, os: &str, seen: &Vec<Launch>) -> (step: HelpStep)
    ensures
        step@ == man_step(cmd@, os@ == "windows"@, launches(seen@)),
{
    if str_same(os, "windows") {
        return HelpStep::Done(
            Err("'man' is not available on Windows. Use --help or Get-Help instead.".to_owned()),
        );
    }
    if seen.len() == 0 {
        return HelpStep::Run(
            probe_of(
                "man",
                one_string(cmd),
                three_strings("MANPAGER=cat", "MANWIDTH=80", "GROFF_NO_SGR=1"),
            ),
        );
    }
    let name = chars_of(cmd);
    let outcome = match &seen[0] {
        Launch::Ran { success, stdout, stderr } => {
            if *success {
                let clean = strip_ansi_chars(&chars_of(stdout.as_str()));
                if trimmed(&clean).len() == 0 {
                    failure(&framed("man page for '", &name, "' is empty"))
                } else {
                    found(&clean, &chars_of("man"))
                }
            } else {
                let err = chars_of(stderr.as_str());
                let low = to_lower(&err);
                if includes(&low, &chars_of("no manual entry")) || includes(
                    &low,
                    &chars_of("no entry"),
                ) {
                    failure(&framed("No man page for '", &name, "'"))
                } else {
                    failure(&chain(&framed("man failed for '", &name, "': "), &trimmed(&err)))
                }
            }
        },
        other => man_failure(other),
    };
    HelpStep::Done(outcome)
}

/// What the run of `man` for a command in a section gave.
pub open spec fn man_section_outcome(
    cmd: Seq<char>,
    section: Seq<char>,
    launch: LaunchView,
) -> Captured {
    match launch {
        LaunchView::Ran { success, stdout, stderr } => {
            if success {
                if trim(strip_ansi(stdout)).len() == 0 {
                    Err("man page for '"@ + cmd + "("@ + section + ")' is empty"@)
                } else {
                    Ok((strip_ansi(stdout), "man("@ + section + ")"@))
                }
            } else {
                Err(
                    "No man page for '"@ + cmd + "' in section "@ + section + ": "@ + trim(
                        stderr,
                    ),
                )
            }
        },
        LaunchView::Missing { error } => Err("'man' command not available (program not found)"@),
        LaunchView::Failed { error } => Err("Failed to run man: "@ + error),
    }
}

/// What is to be done to obtain the manual page of a command in a section.
pub open spec fn man_section_step(
    cmd: Seq<char>,
    section: Seq<char>,
    windows: bool,
    seen: Seq<LaunchView>,
) -> HelpStepView {
    if windows {
        HelpStepView::Done(Err("'man' is not available on Windows"@))
    } else if seen.len() == 0 {
        HelpStepView::Run(ProbeView { program: "man"@, args: seq![section, cmd], env: man_env() })
    } else {
        HelpStepView::Done(man_section_outcome(cmd, section, seen[0]))
    }
}

/// Says what to do next to obtain the manual page of `cmd` in `section`
/// on the operating system `os`, after the runs `seen`.
pub fn get_man_page_with_section(cmd: &str, section: &str, os: &str, seen: &Vec<Launch>) -> (step:
    HelpStep)
    ensures
        step@ == man_section_step(cmd@, section@, os@ == "windows"@, launches(seen@)),
{
    if str_same(os, "windows") {
        return HelpStep::Done(Err("'man' is not available on Windows".to_owned()));
    }
    if seen.len() == 0 {
        return HelpStep::Run(
            probe_of(
                "man",
                two_strings(section, cmd),
                three_strings("MANPAGER=cat", "MANWIDTH=80", "GROFF_NO_SGR=1"),
            ),
        );
    }
    let name = chars_of(cmd);
    let part = chars_of(section);
    let outcome = match &seen[0] {
        Launch::Ran { success, stdout, stderr } => {
            if *success {
                let clean = strip_ansi_chars(&chars_of(stdout.as_str()));
                if trimmed(&clean).len() == 0 {
                    let mut reason = framed("man page for '", &name, "(");
                    append(&mut reason, &part);
                    append(&mut reason, &chars_of(")' is empty"));
                    failure(&reason)
                } else {
                    found(&clean, &framed("man(", &part, ")"))
                }
            } else {
                let mut reason = framed("No man page for '", &name, "' in section ");
                append(&mut reason, &part);
                append(&mut reason, &chars_of(": "));
                append(&mut reason, &trimmed(&chars_of(stderr.as_str())));
                failure(&reason)
            }
        },
        other => man_failure(other),
    };
    HelpStep::Done(outcome)
}

/// A list of names with their descriptions, or the reason why there is
/// none.
pub type Listed = Result<Seq<(Seq<char>, Seq<char>)>, Seq<char>>;

/// What is to be done next to list the commands that can be learned.
#[derive(Debug)]
pub enum ListStep {
    /// Run this program and come back with how it ended.
    Run(Probe),
    /// Collect the names of the executable files in the directories of the
    /// search path and hand them to `list_path_commands`.
    ScanPath,
    /// The names with their descriptions, or why there are none.
    Done(Result<Vec<(String, String)>, String>),
}

/// What a `ListStep` holds.
pub enum ListStepView {
    Run(ProbeView),
    ScanPath,
    Done(Listed),
}

impl View for ListStep {
    type V = ListStepView;

    open spec fn view(&self) -> ListStepView {
        match self {
            ListStep::Run(probe) => ListStepView::Run(probe@),
            ListStep::ScanPath => ListStepView::ScanPath,
            ListStep::Done(Ok(list)) => ListStepView::Done(Ok(pairs(list@))),
            ListStep::Done(Err(reason)) => ListStepView::Done(Err(reason@)),
        }
    }
}

/// What is to be done to list the manual pages of a section: `man -k`
/// is asked for the section; where that gives nothing, for all sections;
/// where that fails, `apropos` is asked.
pub open spec fn man_list_step(
    section: Seq<char>,
    windows: bool,
    seen: Seq<LaunchView>,
) -> ListStepView {
    if windows {
        ListStepView::Done(
            Err("'man' is not available on Windows. This feature only works on Linux/macOS."@),
        )
    } else if seen.len() == 0 {
        ListStepView::Run(
            ProbeView { program: "man"@, args: seq!["-k"@, "-s"@, section, "."@], env: seq![] },
        )
    } else if seen[0] is Ran && seen[0]->success && seen[0]->stdout.len() > 0 {
        ListStepView::Done(Ok(man_listing(lines(seen[0]->stdout), section)))
    } else if seen.len() == 1 {
        ListStepView::Run(ProbeView { program: "man"@, args: seq!["-k"@, "."@], env: seq![] })
    } else {
        match seen[1] {
            LaunchView::Ran { success, stdout, stderr } => {
                if success {
                    ListStepView::Done(Ok(man_listing(lines(stdout), section)))
                } else if seen.len() == 2 {
                    ListStepView::Run(
                        ProbeView { program: "apropos"@, args: seq!["."@], env: seq![] },
                    )
                } else {
                    match seen[2] {
                        LaunchView::Ran { success: found, stdout: listing, stderr: _ } => {
                            if found {
                                ListStepView::Done(Ok(man_listing(lines(listing), section)))
                            } else {
                                ListStepView::Done(Err("Failed to list man pages: "@ + stderr))
                            }
                        },
                        LaunchView::Missing { error } => ListStepView::Done(Err(error)),
                        LaunchView::Failed { error } => ListStepView::Done(Err(error)),
                    }
                }
            },
            LaunchView::Missing { error } => ListStepView::Done(
                Err("man/apropos not available: "@ + error),
            ),
            LaunchView::Failed { error } => ListStepView::Done(
                Err("man/apropos not available: "@ + error),
            ),
        }
    }
}

fn listed(content: &String, section: &str) -> (step: ListStep)
    ensures
        step@ == ListStepView::Done(Ok(man_listing(lines(content@), section@))),
{
    ListStep::Done(Ok(parse_man_listing(content.as_str(), section)))
}

fn unlisted(reason: &Vec<char>) -> (step: ListStep)
    ensures
        step@ == ListStepView::Done(Err(reason@)),
{
    ListStep::Done(Err(string_of(reason)))
}

/// Says what to do next to list the manual pages of `section` on the
/// operating system `os`, after the runs `seen`.
pub fn list_man_pages(section: &str, os: &str, seen: &Vec<Launch>) -> (step: ListStep)
    ensures
        step@ == man_list_step(section@, os@ == "windows"@, launches(seen@)),
{
    if str_same(os, "windows") {
        return unlisted(
            &chars_of("'man' is not available on Windows. This feature only works on Linux/macOS."),
        );
    }
    if seen.len() == 0 {
        return ListStep::Run(probe_of("man", four_strings("-k", "-s", section, "."), no_strings()));
    }
    match &seen[0] {
        Launch::Ran { success, stdout, stderr } => {
            if *success && chars_of(stdout.as_str()).len() > 0 {
                return listed(stdout, section);
            }
        },
        _ => {},
    }
    if seen.len() == 1 {
        return ListStep::Run(probe_of("man", two_strings("-k", "."), no_strings()));
    }
    match &seen[1] {
        Launch::Ran { success, stdout, stderr } => {
            if *success {
                listed(stdout, section)
            } else if seen.len() == 2 {
                ListStep::Run(probe_of("apropos", one_string("."), no_strings()))
            } else {
                match &seen[2] {
                    Launch::Ran { success: found, stdout: listing, stderr: _ } => {
                        if *found {
                            listed(listing, section)
                        } else {
                            unlisted(
                                &chain(
                                    &chars_of("Failed to list man pages: "),
                                    &chars_of(stderr.as_str()),
                                ),
                            )
                        }
                    },
                    Launch::Missing { error } => unlisted(&chars_of(error.as_str())),
                    Launch::Failed { error } => unlisted(&chars_of(error.as_str())),
                }
            }
        },
        Launch::Missing { error } => unlisted(
            &chain(&chars_of("man/apropos not available: "), &chars_of(error.as_str())),
        ),
        Launch::Failed { error } => unlisted(
            &chain(&chars_of("man/apropos not available: "), &chars_of(error.as_str())),
        ),
    }
}

/// The cmdlets that the lines of a listing name: each line that is not
/// blank, trimmed, with the description `PowerShell cmdlet`.
pub open spec fn cmdlets(all: Seq<Seq<char>>) -> Seq<(Seq<char>, Seq<char>)>
    decreases all.len(),
{
    if all.len() == 0 {
        seq![]
    } else if trim(all.last()).len() == 0 {
        cmdlets(all.drop_last())
    } else {
        cmdlets(all.drop_last()).push((trim(all.last()), "PowerShell cmdlet"@))
    }
}

/// The command line that makes PowerShell list its cmdlets and functions.
pub open spec fn cmdlet_script() -> Seq<char> {
    "Get-Command -CommandType Cmdlet,Function | Select-Object -Property Name | ForEach-Object { $_.Name }"@
}

/// What is to be done to list the cmdlets of PowerShell, which only
/// Windows has.
pub open spec fn cmdlet_list_step(windows: bool, seen: Seq<LaunchView>) -> ListStepView {
    if !windows {
        ListStepView::Done(Err("PowerShell cmdlet listing is only available on Windows"@))
    } else if seen.len() == 0 {
        ListStepView::Run(
            ProbeView {
                program: "powershell"@,
                args: seq!["-NoProfile"@, "-Command"@, cmdlet_script()],
                env: seq![],
            },
        )
    } else {
        match seen[0] {
            LaunchView::Ran { success, stdout, stderr } => {
                if !success {
                    ListStepView::Done(Err("Failed to list PowerShell cmdlets: "@ + trim(stderr)))
                } else if cmdlets(lines(stdout)).len() == 0 {
                    ListStepView::Done(Err("No PowerShell cmdlets found"@))
                } else {
                    ListStepView::Done(Ok(cmdlets(lines(stdout))))
                }
            },
            LaunchView::Missing { error } => ListStepView::Done(
                Err("Failed to run PowerShell: "@ + error),
            ),
            LaunchView::Failed { error } => ListStepView::Done(
                Err("Failed to run PowerShell: "@ + error),
            ),
        }
    }
}

fn parse_cmdlets(content: &str) -> (r: Vec<(String, String)>)
    ensures
        pairs(r@) == cmdlets(lines(content@)),
{
    let all = split_lines(&chars_of(content));
    let mut out: Vec<(String, String)> = Vec::new();
    let mut i: usize = 0;
    assert(pairs(out@) =~= seq![]);
    while i < all.len()
        invariant
            i <= all.len(),
            pairs(out@) == cmdlets(views(all@).take(i as int)),
        decreases all.len() - i,
    {
        proof {
            let done = views(all@).take(i + 1);
            assert(done.drop_last() =~= views(all@).take(i as int));
            assert(done.last() == all[i as int]@);
        }
        let t = trimmed(&all[i]);
        if t.len() > 0 {
            let ghost before = pairs(out@);
            out.push((string_of(&t), "PowerShell cmdlet".to_owned()));
            assert(pairs(out@) =~= before.push((t@, "PowerShell cmdlet"@)));
        }
        i += 1;
    }
    assert(views(all@).take(i as int) =~= views(all@));
    out
}

/// Says what to do next to list the cmdlets of PowerShell on the
/// operating system `os`, after the runs `seen`.
pub fn list_powershell_cmdlets(os: &str, seen: &Vec<Launch>) -> (step: ListStep)
    ensures
        step@ == cmdlet_list_step(os@ == "windows"@, launches(seen@)),
{
    if !str_same(os, "windows") {
        return unlisted(&chars_of("PowerShell cmdlet listing is only available on Windows"));
    }
    if seen.len() == 0 {
        return ListStep::Run(
            probe_of(
                "powershell",
                three_strings(
                    "-NoProfile",
                    "-Command",
                    "Get-Command -CommandType Cmdlet,Function | Select-Object -Property Name | ForEach-Object { $_.Name }",
                ),
                no_strings(),
            ),
        );
    }
    match &seen[0] {
        Launch::Ran { success, stdout, stderr } => {
            if !*success {
                unlisted(
                    &chain(
                        &chars_of("Failed to list PowerShell cmdlets: "),
                        &trimmed(&chars_of(stderr.as_str())),
                    ),
                )
            } else {
                let names = parse_cmdlets(stdout.as_str());
                if names.len() == 0 {
                    unlisted(&chars_of("No PowerShell cmdlets found"))
                } else {
                    ListStep::Done(Ok(names))
                }
            }
        },
        Launch::Missing { error } => unlisted(
            &chain(&chars_of("Failed to run PowerShell: "), &chars_of(error.as_str())),
        ),
        Launch::Failed { error } => unlisted(
            &chain(&chars_of("Failed to run PowerShell: "), &chars_of(error.as_str())),
        ),
    }
}

/// What is to be done to list the commands of a source: `man` lists the
/// manual pages of section 1, `powershell` the cmdlets, `path` the
/// executable files of the search path, and `auto` is `powershell` on
/// Windows and `man` elsewhere.
pub open spec fn source_list_step(
    source: Seq<char>,
    windows: bool,
    seen: Seq<LaunchView>,
) -> ListStepView {
    if source == "powershell"@ {
        cmdlet_list_step(windows, seen)
    } else if source == "path"@ {
        ListStepView::ScanPath
    } else if source == "man"@ {
        if windows {
            ListStepView::Done(
                Err("'man' is not available on Windows. Use 'powershell' or 'path' instead."@),
            )
        } else {
            man_list_step("1"@, false, seen)
        }
    } else if source == "auto"@ {
        if windows {
            cmdlet_list_step(true, seen)
        } else {
            man_list_step("1"@, false, seen)
        }
    } else {
        ListStepView::Done(
            Err(
                "Unknown source '"@ + source
                    + "'. Use 'man', 'powershell', 'path', or 'auto'."@,
            ),
        )
    }
}

/// Says what to do next to list the commands that the source `source`
/// offers on the operating system `os`, after the runs `seen`.
pub fn list_available_commands(source: &str, os: &str, seen: &Vec<Launch>) -> (step: ListStep)
    ensures
        step@ == source_list_step(source@, os@ == "windows"@, launches(seen@)),
{
    let windows = str_same(os, "windows");
    if str_same(source, "powershell") {
        list_powershell_cmdlets(os, seen)
    } else if str_same(source, "path") {
        ListStep::ScanPath
    } else if str_same(source, "man") {
        if windows {
            unlisted(
                &chars_of("'man' is not available on Windows. Use 'powershell' or 'path' instead."),
            )
        } else {
            list_man_pages("1", os, seen)
        }
    } else if str_same(source, "auto") {
        if windows {
            list_powershell_cmdlets(os, seen)
        } else {
            list_man_pages("1", os, seen)
        }
    } else {
        unlisted(
            &framed(
                "Unknown source '",
                &chars_of(source),
                "'. Use 'man', 'powershell', 'path', or 'auto'.",
            ),
        )
    }
}

/// What is to be done next to learn a command.
#[derive(Debug)]
pub enum LearnStep {
    /// Run this program and come back with how it ended.
    Run(Probe),
    /// The help text and the name of its source.
    Done { text: String, source: String },
    /// Neither the command nor the manual gave a text: the reason of each.
    Failed { help_reason: String, man_reason: String },
}

/// What a `LearnStep` holds.
pub enum LearnStepView {
    Run(ProbeView),
    Done { text: Seq<char>, source: Seq<char> },
    Failed { help_reason: Seq<char>, man_reason: Seq<char> },
}

impl View for LearnStep {
    type V = LearnStepView;

    open spec fn view(&self) -> LearnStepView {
        match self {
            LearnStep::Run(probe) => LearnStepView::Run(probe@),
            LearnStep::Done { text, source } => LearnStepView::Done {
                text: text@,
                source: source@,
            },
            LearnStep::Failed { help_reason, man_reason } => LearnStepView::Failed {
                help_reason: help_reason@,
                man_reason: man_reason@,
            },
        }
    }
}

/// The number of the runs `seen` that asking the command itself took,
/// where it is done after them and the first `k` gave no help; -1 where
/// it is not done.
pub open spec fn help_runs(cmd: Seq<char>, windows: bool, seen: Seq<LaunchView>, k: int) -> int
    decreases help_attempts(windows) - k,
{
    if k < 0 || k >= seen.len() {
        -1
    } else if k < help_attempts(windows) {
        if attempt_outcome(cmd, k, seen[k]) is Ok {
            k + 1
        } else {
            help_runs(cmd, windows, seen, k + 1)
        }
    } else {
        k + 1
    }
}

/// The number of the runs `seen` that asking the manual took where it is
/// done: none on Windows, where there is no manual, and one elsewhere.
pub open spec fn man_runs(windows: bool) -> int {
    if windows {
        0
    } else {
        1
    }
}

/// What is to be done after the runs `seen` where the second way of
/// asking is all that is left, the first having failed for `first_reason`.
pub open spec fn second_step(
    second: HelpStepView,
    man_first: bool,
    first_reason: Seq<char>,
) -> LearnStepView {
    match second {
        HelpStepView::Run(probe) => LearnStepView::Run(probe),
        HelpStepView::Done(Ok(found)) => LearnStepView::Done { text: found.0, source: found.1 },
        HelpStepView::Done(Err(reason)) => if man_first {
            LearnStepView::Failed { help_reason: reason, man_reason: first_reason }
        } else {
            LearnStepView::Failed { help_reason: first_reason, man_reason: reason }
        },
    }
}

/// What is to be done next to learn a command after the runs `seen`: the
/// command itself is asked and then the manual, or, with `man_first`, the
/// manual and then the command. The first text ends the search; where
/// both fail, both reasons are told.
pub open spec fn learn_step(
    cmd: Seq<char>,
    windows: bool,
    man_first: bool,
    seen: Seq<LaunchView>,
) -> LearnStepView {
    if man_first {
        match man_step(cmd, windows, seen) {
            HelpStepView::Run(probe) => LearnStepView::Run(probe),
            HelpStepView::Done(Ok(found)) => LearnStepView::Done {
                text: found.0,
                source: found.1,
            },
            HelpStepView::Done(Err(reason)) => second_step(
                help_step(cmd, windows, seen.skip(man_runs(windows)), 0),
                true,
                reason,
            ),
        }
    } else {
        match help_step(cmd, windows, seen, 0) {
            HelpStepView::Run(probe) => LearnStepView::Run(probe),
            HelpStepView::Done(Ok(found)) => LearnStepView::Done {
                text: found.0,
                source: found.1,
            },
            HelpStepView::Done(Err(reason)) => second_step(
                man_step(cmd, windows, seen.skip(help_runs(cmd, windows, seen, 0))),
                false,
                reason,
            ),
        }
    }
}

/// Where asking the command itself is done, it took some of the runs.
pub proof fn lemma_help_runs(cmd: Seq<char>, windows: bool, seen: Seq<LaunchView>, k: int)
    requires
        0 <= k,
        help_step(cmd, windows, seen, k) is Done,
    ensures
        k < help_runs(cmd, windows, seen, k) <= seen.len(),
    decreases help_attempts(windows) - k,
{
    if k < seen.len() && k < help_attempts(windows) && !(attempt_outcome(cmd, k, seen[k]) is Ok) {
        lemma_help_runs(cmd, windows, seen, k + 1);
    }
}

fn copy_launch(launch: &Launch) -> (r: Launch)
    ensures
        r@ == launch@,
{
    match launch {
        Launch::Ran { success, stdout, stderr } => Launch::Ran {
            success: *success,
            stdout: stdout.clone(),
            stderr: stderr.clone(),
        },
        Launch::Missing { error } => Launch::Missing { error: error.clone() },
        Launch::Failed { error } => Launch::Failed { error: error.clone() },
    }
}

fn later_runs(seen: &Vec<Launch>, from: usize) -> (r: Vec<Launch>)
    requires
        from <= seen.len(),
    ensures
        launches(r@) == launches(seen@).skip(from as int),
{
    let mut r: Vec<Launch> = Vec::new();
    let mut i: usize = from;
    assert(launches(r@) =~= launches(seen@).skip(from as int).take(0));
    while i < seen.len()
        invariant
            from <= i <= seen.len(),
            launches(r@) == launches(seen@).skip(from as int).take(i - from),
        decreases seen.len() - i,
    {
        let ghost before = launches(r@);
        r.push(copy_launch(&seen[i]));
        assert(launches(r@) =~= before.push(seen[i as int]@));
        assert(launches(r@) =~= launches(seen@).skip(from as int).take(i + 1 - from));
        i += 1;
    }
    assert(launches(seen@).skip(from as int).take(i - from) =~= launches(seen@).skip(from as int));
    r
}

fn count_help_runs(cmd: &str, windows: bool, seen: &Vec<Launch>) -> (n: usize)
    requires
        help_step(cmd@, windows, launches(seen@), 0) is Done,
    ensures
        n == help_runs(cmd@, windows, launches(seen@), 0),
        n <= seen.len(),
{
    let attempts: usize = if windows {
        5
    } else {
        2
    };
    let mut k: usize = 0;
    proof {
        lemma_help_runs(cmd@, windows, launches(seen@), 0);
    }
    while k < seen.len() && k < attempts
        invariant
            k <= attempts,
            k <= seen.len(),
            attempts == help_attempts(windows),
            help_runs(cmd@, windows, launches(seen@), 0) == help_runs(
                cmd@,
                windows,
                launches(seen@),
                k as int,
            ),
            0 < help_runs(cmd@, windows, launches(seen@), 0) <= seen.len(),
        decreases attempts - k,
    {
        if judge(cmd, k, &seen[k]).is_ok() {
            return k + 1;
        }
        k += 1;
    }
    k + 1
}

fn second(step: HelpStep, man_first: bool, first_reason: String) -> (r: LearnStep)
    ensures
        r@ == second_step(step@, man_first, first_reason@),
{
    match step {
        HelpStep::Run(probe) => LearnStep::Run(probe),
        HelpStep::Done(Ok(found)) => LearnStep::Done { text: found.0, source: found.1 },
        HelpStep::Done(Err(reason)) => {
            if man_first {
                LearnStep::Failed { help_reason: reason, man_reason: first_reason }
            } else {
                LearnStep::Failed { help_reason: first_reason, man_reason: reason }
            }
        },
    }
}

/// Says what to do next to learn `cmd` on the operating system `os`
/// after the runs `seen`, which are the answers to the steps that this
/// function gave before, in order. The command itself is asked first and
/// the manual after it, or the other way round with `man_first`.
pub fn learn_command(cmd: &str, os: &str, man_first: bool, seen: &Vec<Launch>) -> (step: LearnStep)
    ensures
        step@ == learn_step(cmd@, os@ == "windows"@, man_first, launches(seen@)),
{
    let windows = str_same(os, "windows");
    if man_first {
        match get_man_page(cmd, os, seen) {
            HelpStep::Run(probe) => LearnStep::Run(probe),
            HelpStep::Done(Ok(found)) => LearnStep::Done { text: found.0, source: found.1 },
            HelpStep::Done(Err(reason)) => {
                let used: usize = if windows {
                    0
                } else {
                    1
                };
                let rest = later_runs(seen, used);
                second(get_help_output(cmd, os, &rest), true, reason)
            },
        }
    } else {
        match get_help_output(cmd, os, seen) {
            HelpStep::Run(probe) => LearnStep::Run(probe),
            HelpStep::Done(Ok(found)) => LearnStep::Done { text: found.0, source: found.1 },
            HelpStep::Done(Err(reason)) => {
                let used = count_help_runs(cmd, windows, seen);
                let rest = later_runs(seen, used);
                second(get_man_page(cmd, os, &rest), false, reason)
            },
        }
    }
}

} // verus!
