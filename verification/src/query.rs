use crate::storage::{Command, CommandView, ExampleView};
use crate::text::{append, chars_of, framed, replace_char, replaced_char, same, slice, string_of, strings, trim, trimmed};
use vstd::prelude::*;

verus! {

/// A text cut to at most `max_len` characters: the text itself where it
/// is no longer, else its first `max_len - 3` characters and three dots.
pub open spec fn truncated(s: Seq<char>, max_len: nat) -> Seq<char> {
    if s.len() <= max_len {
        s
    } else {
        s.take(max_len - 3) + "..."@
    }
}

/// Cuts a text to at most `max_len` characters, with three dots at its
/// end where something was cut off.
pub fn truncate(s: &str, max_len: usize) -> (r: String)
    requires
        max_len >= 3 || s@.len() <= max_len,
    ensures
        r@ == truncated(s@, max_len as nat),
{
    let v = chars_of(s);
    if v.len() <= max_len {
        string_of(&v)
    } else {
        let mut head = slice(&v, 0, max_len - 3);
        append(&mut head, &chars_of("..."));
        assert(head@ =~= s@.take(max_len - 3) + "..."@);
        string_of(&head)
    }
}

/// Cuts a text as `truncate` does where that can be done, and hands the
/// text back as it is where `max_len` is under 3 and the text is longer.
pub fn truncate_checked(s: &str, max_len: usize) -> (r: String)
    ensures
        r@ == if max_len >= 3 || s@.len() <= max_len {
            truncated(s@, max_len as nat)
        } else {
            s@
        },
{
    if max_len >= 3 || chars_of(s).len() <= max_len {
        truncate(s, max_len)
    } else {
        s.to_owned()
    }
}

/// The name under which a command of several words is stored: each space
/// made a hyphen.
pub fn normalize_command_name(name: &str) -> (r: String)
    ensures
        r@ == replace_char(name@, ' ', '-'),
{
    string_of(&replaced_char(&chars_of(name), ' ', '-'))
}

/// The names to look up for a query, in order: the query trimmed, and,
/// where that holds a space, with each space made a hyphen.
pub fn lookup_names(query: &str) -> (names: Vec<String>)
    ensures
        strings(names@) == if replace_char(trim(query@), ' ', '-') == trim(query@) {
            seq![trim(query@)]
        } else {
            seq![trim(query@), replace_char(trim(query@), ' ', '-')]
        },
{
    let name = trimmed(&chars_of(query));
    let normalized = replaced_char(&name, ' ', '-');
    let mut names: Vec<String> = Vec::new();
    names.push(string_of(&name));
    if !same(&normalized, &name) {
        names.push(string_of(&normalized));
        assert(strings(names@) =~= seq![name@, normalized@]);
    } else {
        assert(strings(names@) =~= seq![name@]);
    }
    names
}

/// The languages in which a command is looked up from the command line,
/// in order: the one asked for, then English, then Chinese.
pub fn lookup_langs(lang: &str) -> (langs: Vec<String>)
    ensures
        strings(langs@) == seq![lang@, "en"@, "zh"@],
{
    let mut langs: Vec<String> = Vec::new();
    langs.push(lang.to_owned());
    langs.push("en".to_owned());
    langs.push("zh".to_owned());
    assert(strings(langs@) =~= seq![lang@, "en"@, "zh"@]);
    langs
}

/// The languages in which the details of a search result are looked up,
/// in order: the one of the result, then Chinese, then English.
pub fn detail_langs(lang: &str) -> (langs: Vec<String>)
    ensures
        strings(langs@) == seq![lang@, "zh"@, "en"@],
{
    let mut langs: Vec<String> = Vec::new();
    langs.push(lang.to_owned());
    langs.push("zh".to_owned());
    langs.push("en".to_owned());
    assert(strings(langs@) =~= seq![lang@, "zh"@, "en"@]);
    langs
}

/// The examples as the detail view shows them: for each a heading with
/// the description, and the code between fences.
pub open spec fn detail_examples(examples: Seq<ExampleView>) -> Seq<char>
    decreases examples.len(),
{
    if examples.len() == 0 {
        seq![]
    } else {
        detail_examples(examples.drop_last()) + "## "@ + examples.last().description + "\n```\n"@
            + examples.last().code + "\n```\n\n"@
    }
}

/// A command as the detail view shows it: a heading with the name, the
/// description, and the examples.
pub open spec fn detail_text(cmd: CommandView) -> Seq<char> {
    "# "@ + cmd.name + "\n\n"@ + cmd.description + "\n\n"@ + detail_examples(cmd.examples)
}

/// The text of the detail view for a command.
pub fn command_detail(cmd: &Command) -> (r: String)
    ensures
        r@ == detail_text(cmd@),
{
    let mut out = chars_of("# ");
    append(&mut out, &chars_of(cmd.name.as_str()));
    append(&mut out, &chars_of("\n\n"));
    append(&mut out, &chars_of(cmd.description.as_str()));
    append(&mut out, &chars_of("\n\n"));
    let ghost head = out@;
    let mut i: usize = 0;
    assert(head + detail_examples(cmd@.examples.take(0)) =~= head);
    while i < cmd.examples.len()
        invariant
            i <= cmd.examples.len(),
            head == "# "@ + cmd@.name + "\n\n"@ + cmd@.description + "\n\n"@,
            out@ == head + detail_examples(cmd@.examples.take(i as int)),
        decreases cmd.examples.len() - i,
    {
        let ghost before = out@;
        let ghost done = cmd@.examples.take(i + 1);
        proof {
            assert(done.drop_last() =~= cmd@.examples.take(i as int));
            assert(done.last() == cmd.examples[i as int]@);
        }
        append(&mut out, &chars_of("## "));
        append(&mut out, &chars_of(cmd.examples[i].description.as_str()));
        append(&mut out, &chars_of("\n```\n"));
        append(&mut out, &chars_of(cmd.examples[i].code.as_str()));
        append(&mut out, &chars_of("\n```\n\n"));
        assert(out@ =~= head + detail_examples(done));
        i += 1;
    }
    assert(cmd@.examples.take(i as int) =~= cmd@.examples);
    string_of(&out)
}

/// What is said where a query finds nothing: that it found nothing, and
/// how to get pages.
pub fn no_results_hint(query: &str) -> (r: String)
    ensures
        r@ == "No results for '"@ + query@
            + "'.\nTry 'rtfm update' to download the latest cheatsheets."@,
{
    string_of(
        &framed(
            "No results for '",
            &chars_of(query),
            "'.\nTry 'rtfm update' to download the latest cheatsheets.",
        ),
    )
}

} // verus!
