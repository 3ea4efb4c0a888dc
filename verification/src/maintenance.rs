use crate::storage::{Command, CommandView, ExampleView, Metadata};
use crate::text::{append, chain, chars_of, framed, lower, same, str_same, string_of, strings, to_lower, trim, trimmed};
use vstd::prelude::*;

verus! {

/// Tells whether an answer to the question before a reset says yes: it is
/// `y` or `yes`, in any case of letters, with white space around it or
/// without.
pub open spec fn says_yes(answer: Seq<char>) -> bool {
    lower(trim(answer)) == "y"@ || lower(trim(answer)) == "yes"@
}

/// Tells whether an answer to the question before a reset says yes.
pub fn confirms(answer: &str) -> (b: bool)
    ensures
        b == says_yes(answer@),
{
    let given = to_lower(&trimmed(&chars_of(answer)));
    same(&given, &chars_of("y")) || same(&given, &chars_of("yes"))
}

/// Tells whether an entry of a backup is put back on a restore: all but
/// the notes that the backup carries for its reader.
pub fn is_restored(path: &str) -> (b: bool)
    ensures
        b == (path@ != "README.md"@ && path@ != "metadata.json"@),
{
    !str_same(path, "README.md") && !str_same(path, "metadata.json")
}

/// The name under which what a restore replaces is kept.
pub fn backup_name(name: &str) -> (r: String)
    ensures
        r@ == name@ + ".backup"@,
{
    string_of(&chain(&chars_of(name), &chars_of(".backup")))
}

/// The metadata after an import or an update to the version `version` at
/// the time `now`, with `count` commands stored: the languages are `zh`
/// and `en`.
pub fn fresh_metadata(version: String, count: usize, now: String) -> (m: Metadata)
    ensures
        m.version@ == version@,
        m.command_count == count,
        m.last_update@ == now@,
        strings(m.languages@) == seq!["zh"@, "en"@],
{
    let mut languages: Vec<String> = Vec::new();
    languages.push("zh".to_owned());
    languages.push("en".to_owned());
    assert(strings(languages@) =~= seq!["zh"@, "en"@]);
    Metadata { version, command_count: count, last_update: now, languages }
}

/// Tells whether an update is due: it is forced, or the stored version,
/// empty where none is stored, is not the latest.
pub fn update_is_due(force: bool, stored: &Option<Metadata>, latest: &str) -> (b: bool)
    ensures
        b == (force || latest@ != match stored {
            Some(meta) => meta.version@,
            None => Seq::<char>::empty(),
        }),
{
    if force {
        return true;
    }
    match stored {
        Some(meta) => !str_same(meta.version.as_str(), latest),
        None => {
            assert(latest@.len() == 0 ==> latest@ =~= Seq::<char>::empty());
            chars_of(latest).len() != 0
        },
    }
}

/// The examples as the terminal shows them: for each a line with the
/// description in yellow after a dash, a line with the code in cyan, and an
/// empty line.
pub open spec fn shown_examples(examples: Seq<ExampleView>) -> Seq<char>
    decreases examples.len(),
{
    if examples.len() == 0 {
        seq![]
    } else {
        shown_examples(examples.drop_last()) + "\x1b[33m- "@ + examples.last().description
            + "\x1b[0m\n  \x1b[36m"@ + examples.last().code + "\x1b[0m\n\n"@
    }
}

/// A command as the terminal shows it: the name in bold green, the
/// description, and the examples.
pub open spec fn shown_command(cmd: CommandView) -> Seq<char> {
    "\x1b[1;32m"@ + cmd.name + "\x1b[0m\n\n"@ + cmd.description + "\n\n"@ + shown_examples(
        cmd.examples,
    )
}

/// The text that shows a command on the terminal.
pub fn render_command(cmd: &Command) -> (r: String)
    ensures
        r@ == shown_command(cmd@),
{
    let mut out = framed("\x1b[1;32m", &chars_of(cmd.name.as_str()), "\x1b[0m\n\n");
    append(&mut out, &chars_of(cmd.description.as_str()));
    append(&mut out, &chars_of("\n\n"));
    let ghost head = out@;
    let mut i: usize = 0;
    assert(head + shown_examples(cmd@.examples.take(0)) =~= head);
    while i < cmd.examples.len()
        invariant
            i <= cmd.examples.len(),
            head == "\x1b[1;32m"@ + cmd@.name + "\x1b[0m\n\n"@ + cmd@.description + "\n\n"@,
            out@ == head + shown_examples(cmd@.examples.take(i as int)),
        decreases cmd.examples.len() - i,
    {
        let ghost done = cmd@.examples.take(i + 1);
        proof {
            assert(done.drop_last() =~= cmd@.examples.take(i as int));
            assert(done.last() == cmd.examples[i as int]@);
        }
        append(&mut out, &chars_of("\x1b[33m- "));
        append(&mut out, &chars_of(cmd.examples[i].description.as_str()));
        append(&mut out, &chars_of("\x1b[0m\n  \x1b[36m"));
        append(&mut out, &chars_of(cmd.examples[i].code.as_str()));
        append(&mut out, &chars_of("\x1b[0m\n\n"));
        assert(out@ =~= head + shown_examples(done));
        i += 1;
    }
    assert(cmd@.examples.take(i as int) =~= cmd@.examples);
    string_of(&out)
}

/// The start of the note that a backup carries for its reader, up to
/// the date of the backup.
pub open spec fn readme_head() -> Seq<char> {
    "# RTFM Backup\n\nThis archive contains backup data from RTFM (Read The F***ing Manual).\n\n## Contents\n\n- `data.redb` - Command database (redb format)\n- `index/` - Full-text search index (Tantivy format)\n- `config.toml` - Application configuration\n- `metadata.json` - Backup metadata (version, command count, etc.)\n\n## Restore\n\nTo restore this backup on another machine:\n\n```bash\nrtfm restore rtfm-backup.tar.gz\n```\n\nOptions:\n- `--merge` - Merge with existing data instead of replacing\n\n## Version Info\n\n- Backup date: "@
}

/// The end of the note that a backup carries for its reader, after the
/// version of the program.
pub open spec fn readme_tail() -> Seq<char> {
    "\n\n## Data Format\n\nThe database uses redb (Rust embedded database) format.\nThe search index uses Tantivy format.\n\nThese files are cross-platform compatible (Windows/Linux/macOS).\n"@
}

/// The note that a backup carries for its reader: what the archive holds,
/// how to restore it, and when and by which version it was made.
pub fn backup_readme(date: &str, version: &str) -> (r: String)
    ensures
        r@ == readme_head() + date@ + "\n- RTFM version: "@ + version@ + readme_tail(),
{
    let mut out = framed(
        "# RTFM Backup\n\nThis archive contains backup data from RTFM (Read The F***ing Manual).\n\n## Contents\n\n- `data.redb` - Command database (redb format)\n- `index/` - Full-text search index (Tantivy format)\n- `config.toml` - Application configuration\n- `metadata.json` - Backup metadata (version, command count, etc.)\n\n## Restore\n\nTo restore this backup on another machine:\n\n```bash\nrtfm restore rtfm-backup.tar.gz\n```\n\nOptions:\n- `--merge` - Merge with existing data instead of replacing\n\n## Version Info\n\n- Backup date: ",
        &chars_of(date),
        "\n- RTFM version: ",
    );
    append(&mut out, &chars_of(version));
    append(
        &mut out,
        &chars_of(
            "\n\n## Data Format\n\nThe database uses redb (Rust embedded database) format.\nThe search index uses Tantivy format.\n\nThese files are cross-platform compatible (Windows/Linux/macOS).\n",
        ),
    );
    string_of(&out)
}

} // verus!
