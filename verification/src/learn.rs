use crate::storage::{example_views, Command, CommandView, Example, ExampleView};
use crate::text::{append, begins_with, chain, char_position, chars_of, contains, find, find_at, find_char, has_ink, includes, lemma_find_char_from, lemma_find_from, lemma_ink_after, lemma_replace_ink, lemma_trim_ink, lines, lower, piece_after, replace, replaced, same, second_piece, slice, split_at_char, split_char, split_lines, starts_with, str_same, string_of, strip_prefixes, to_lower, trim, trimmed, views, without_prefix};
use vstd::prelude::*;

verus! {

/// The platform name that records carry for an operating system name.
pub open spec fn platform_of(os: Seq<char>) -> Seq<char> {
    if os == "windows"@ {
        "windows"@
    } else if os == "macos"@ {
        "osx"@
    } else {
        "linux"@
    }
}

/// The platform name for the operating system `os`, named as
/// `std::env::consts::OS` names it: `windows`, `osx` for `macos`, and
/// `linux` for every other.
pub fn get_platform(os: &str) -> (r: String)
    ensures
        r@ == platform_of(os@),
{
    if str_same(os, "windows") {
        "windows".to_owned()
    } else if str_same(os, "macos") {
        "osx".to_owned()
    } else {
        "linux".to_owned()
    }
}

/// The index of the first of `parts` at or after `from` that is a long
/// option when trimmed, or -1.
pub open spec fn first_long(parts: Seq<Seq<char>>, from: int) -> int
    decreases parts.len() - from,
{
    if from < 0 || from >= parts.len() {
        -1
    } else if starts_with(trim(parts[from]), "--"@) {
        from
    } else {
        first_long(parts, from + 1)
    }
}

/// The option that stands for a list of options separated by commas: the
/// first long one, or the first one where none is long.
pub open spec fn main_option(opt: Seq<char>) -> Seq<char> {
    let parts = split_char(opt, ',');
    if first_long(parts, 0) >= 0 {
        trim(parts[first_long(parts, 0)])
    } else {
        trim(parts[0])
    }
}

/// The option and the description of an option line. The line is cut at its
/// first run of two spaces; both halves are trimmed. `None` where there is
/// no such run, the description is empty or the option is.
pub open spec fn option_line(line: Seq<char>) -> Option<(Seq<char>, Seq<char>)> {
    let i = find(line, "  "@);
    if i < 0 {
        None
    } else {
        let main = main_option(trim(line.take(i)));
        let desc = trim(line.skip(i + 2));
        if main.len() > 0 && desc.len() > 0 {
            Some((main, desc))
        } else {
            None
        }
    }
}

fn pick_option(opt: &Vec<char>) -> (r: Vec<char>)
    ensures
        r@ == main_option(opt@),
{
    let parts = split_at_char(opt, ',');
    let dashes = chars_of("--");
    let mut k: usize = 0;
    while k < parts.len()
        invariant
            k <= parts.len(),
            views(parts@) == split_char(opt@, ','),
            dashes@ == "--"@,
            first_long(views(parts@), 0) == first_long(views(parts@), k as int),
        decreases parts.len() - k,
    {
        let t = trimmed(&parts[k]);
        if begins_with(&t, &dashes) {
            return t;
        }
        k += 1;
    }
    trimmed(&parts[0])
}

fn option_line_chars(line: &Vec<char>) -> (r: Option<(Vec<char>, Vec<char>)>)
    ensures
        match r {
            Some(pair) => option_line(line@) == Some((pair.0@, pair.1@)),
            None => option_line(line@) is None,
        },
{
    let gap = chars_of("  ");
    proof {
        reveal_strlit("  ");
        lemma_find_from(line@, "  "@, 0);
    }
    match find_at(line, &gap, 0) {
        None => None,
        Some(i) => {
            let total: usize = line.len();
            let head = slice(line, 0, i);
            let tail = slice(line, i + 2, total);
            assert(head@ =~= line@.take(i as int));
            assert(tail@ =~= line@.skip(i + 2));
            let main = pick_option(&trimmed(&head));
            let desc = trimmed(&tail);
            if main.len() > 0 && desc.len() > 0 {
                Some((main, desc))
            } else {
                None
            }
        },
    }
}

/// Reads an option line such as `-v, --verbose  Enable verbose mode`: the
/// option, the long form where there is one, and its description.
pub fn parse_option_line(line: &str) -> (r: Option<(String, String)>)
    ensures
        match r {
            Some(pair) => option_line(line@) == Some((pair.0@, pair.1@)),
            None => option_line(line@) is None,
        },
{
    match option_line_chars(&chars_of(line)) {
        Some(pair) => Some((string_of(&pair.0), string_of(&pair.1))),
        None => None,
    }
}

/// The examples made of the option lines at or after line `i`, added to
/// `acc`. Option lines count only after a line that begins with `options`
/// or `flags`, in any case of letters; the fifth example is the last.
pub open spec fn option_examples(
    lines: Seq<Seq<char>>,
    name: Seq<char>,
    i: int,
    found: bool,
    acc: Seq<ExampleView>,
) -> Seq<ExampleView>
    decreases lines.len() - i,
{
    if i < 0 || i >= lines.len() {
        acc
    } else {
        let t = trim(lines[i]);
        if starts_with(lower(t), "options"@) || starts_with(lower(t), "flags"@) {
            option_examples(lines, name, i + 1, true, acc)
        } else if found && starts_with(t, "-"@) && option_line(t) is Some {
            let pair = option_line(t).unwrap();
            let more = acc.push(
                ExampleView { description: pair.1, code: name + " "@ + pair.0 },
            );
            if more.len() >= 5 {
                more
            } else {
                option_examples(lines, name, i + 1, found, more)
            }
        } else {
            option_examples(lines, name, i + 1, found, acc)
        }
    }
}

/// Makes examples of the options that the help text lists: each option
/// line gives the name followed by the option, with the option's own
/// description.
pub fn extract_options_as_examples(lines: &Vec<Vec<char>>, name: &Vec<char>) -> (r: Vec<Example>)
    ensures
        example_views(r@) == option_examples(views(lines@), name@, 0, false, seq![]),
{
    let mut acc: Vec<Example> = Vec::new();
    let mut found = false;
    let mut i: usize = 0;
    let options = chars_of("options");
    let flags = chars_of("flags");
    let dash = chars_of("-");
    let space = chars_of(" ");
    assert(example_views(acc@) =~= seq![]);
    while i < lines.len()
        invariant
            i <= lines.len(),
            options@ == "options"@,
            flags@ == "flags"@,
            dash@ == "-"@,
            space@ == " "@,
            option_examples(views(lines@), name@, 0, false, seq![]) == option_examples(
                views(lines@),
                name@,
                i as int,
                found,
                example_views(acc@),
            ),
        decreases lines.len() - i,
    {
        let t = trimmed(&lines[i]);
        let low = to_lower(&t);
        if begins_with(&low, &options) || begins_with(&low, &flags) {
            found = true;
        } else if found && begins_with(&t, &dash) {
            match option_line_chars(&t) {
                Some(pair) => {
                    let ghost before = example_views(acc@);
                    let mut code = chain(name, &space);
                    append(&mut code, &pair.0);
                    acc.push(Example { description: string_of(&pair.1), code: string_of(&code) });
                    assert(example_views(acc@) =~= before.push(
                        ExampleView { description: pair.1@, code: name@ + " "@ + pair.0@ },
                    ));
                    if acc.len() >= 5 {
                        return acc;
                    }
                },
                None => {},
            }
        }
        i += 1;
    }
    acc
}

/// The description that an example line carries in itself: what follows its
/// first `#`, trimmed, or `Example usage`.
pub open spec fn inline_description(line: Seq<char>) -> Seq<char> {
    if find_char(line, '#') >= 0 {
        trim(line.skip(find_char(line, '#') + 1))
    } else {
        "Example usage"@
    }
}

/// The description that an example line carries in itself.
pub fn extract_inline_description(line: &Vec<char>) -> (r: Vec<char>)
    ensures
        r@ == inline_description(line@),
{
    proof {
        lemma_find_char_from(line@, '#', 0);
    }
    match char_position(line, '#', 0) {
        Some(i) => {
            let total: usize = line.len();
            let tail = slice(line, i + 1, total);
            assert(tail@ =~= line@.skip(i + 1));
            trimmed(&tail)
        },
        None => chars_of("Example usage"),
    }
}

/// Tells whether a trimmed line calls the command: it begins with the name,
/// or with `$ ` and the name.
pub open spec fn is_invocation(t: Seq<char>, name: Seq<char>) -> bool {
    starts_with(t, name) || starts_with(t, "$ "@ + name)
}

/// Tells whether a trimmed line can describe the example after it: it is
/// not empty, does not begin with `-` or `[`, and has under 100 characters.
pub open spec fn is_caption(t: Seq<char>) -> bool {
    t.len() > 0 && !starts_with(t, "-"@) && !starts_with(t, "["@) && t.len() < 100
}

/// The index of a line as a number: -1 where there is no line.
pub open spec fn line_index(line: Option<usize>) -> int {
    match line {
        Some(k) => k as int,
        None => -1,
    }
}

/// The examples made of the lines at or after line `i` that call the
/// command, added to `acc`. The line `skip`, which gave the description,
/// is passed over. A line that does not call the command and holds
/// `example` or `synopsis`, in any case of letters, is no caption. The
/// description of an example is the last caption
/// line before it, if no example came in between, else what the line
/// carries in itself. The tenth example is the last.
pub open spec fn line_examples(
    lines: Seq<Seq<char>>,
    name: Seq<char>,
    skip: int,
    i: int,
    caption: Seq<char>,
    acc: Seq<ExampleView>,
) -> Seq<ExampleView>
    decreases lines.len() - i,
{
    if i < 0 || i >= lines.len() {
        acc
    } else {
        let t = trim(lines[i]);
        if i == skip {
            line_examples(lines, name, skip, i + 1, caption, acc)
        } else if is_invocation(t, name) {
            let more = acc.push(
                ExampleView {
                    description: if caption.len() == 0 {
                        inline_description(t)
                    } else {
                        caption
                    },
                    code: strip_prefixes(t, "$ "@),
                },
            );
            if more.len() >= 10 {
                more
            } else {
                line_examples(lines, name, skip, i + 1, seq![], more)
            }
        } else if contains(lower(lines[i]), "example"@) || contains(
            lower(lines[i]),
            "synopsis"@,
        ) {
            line_examples(lines, name, skip, i + 1, caption, acc)
        } else if is_caption(t) {
            line_examples(lines, name, skip, i + 1, t, acc)
        } else {
            line_examples(lines, name, skip, i + 1, caption, acc)
        }
    }
}

/// The examples of a help text whose line `skip` gave the description:
/// the lines that call the command, or, where there is none, the options
/// that the text lists.
pub open spec fn examples_of(lines: Seq<Seq<char>>, name: Seq<char>, skip: int) -> Seq<
    ExampleView,
> {
    if line_examples(lines, name, skip, 0, seq![], seq![]).len() == 0 {
        option_examples(lines, name, 0, false, seq![])
    } else {
        line_examples(lines, name, skip, 0, seq![], seq![])
    }
}

/// Lines that call the command give at most ten examples.
pub proof fn lemma_line_examples_cap(
    lines: Seq<Seq<char>>,
    name: Seq<char>,
    skip: int,
    i: int,
    caption: Seq<char>,
    acc: Seq<ExampleView>,
)
    requires
        acc.len() < 10,
    ensures
        line_examples(lines, name, skip, i, caption, acc).len() <= 10,
        acc.len() <= line_examples(lines, name, skip, i, caption, acc).len(),
    decreases lines.len() - i,
{
    if 0 <= i < lines.len() {
        let t = trim(lines[i]);
        if i == skip {
            lemma_line_examples_cap(lines, name, skip, i + 1, caption, acc);
        } else if is_invocation(t, name) {
            let more = acc.push(
                ExampleView {
                    description: if caption.len() == 0 {
                        inline_description(t)
                    } else {
                        caption
                    },
                    code: strip_prefixes(t, "$ "@),
                },
            );
            if more.len() < 10 {
                lemma_line_examples_cap(lines, name, skip, i + 1, seq![], more);
            }
        } else if contains(lower(lines[i]), "example"@) || contains(
            lower(lines[i]),
            "synopsis"@,
        ) {
            lemma_line_examples_cap(lines, name, skip, i + 1, caption, acc);
        } else if is_caption(t) {
            lemma_line_examples_cap(lines, name, skip, i + 1, t, acc);
        } else {
            lemma_line_examples_cap(lines, name, skip, i + 1, caption, acc);
        }
    }
}

/// Option lines give at most five examples.
pub proof fn lemma_option_examples_cap(
    lines: Seq<Seq<char>>,
    name: Seq<char>,
    i: int,
    found: bool,
    acc: Seq<ExampleView>,
)
    requires
        acc.len() < 5,
    ensures
        option_examples(lines, name, i, found, acc).len() <= 5,
    decreases lines.len() - i,
{
    if 0 <= i < lines.len() {
        let t = trim(lines[i]);
        if starts_with(lower(t), "options"@) || starts_with(lower(t), "flags"@) {
            lemma_option_examples_cap(lines, name, i + 1, true, acc);
        } else if found && starts_with(t, "-"@) && option_line(t) is Some {
            let pair = option_line(t).unwrap();
            let more = acc.push(
                ExampleView { description: pair.1, code: name + " "@ + pair.0 },
            );
            if more.len() < 5 {
                lemma_option_examples_cap(lines, name, i + 1, found, more);
            }
        } else {
            lemma_option_examples_cap(lines, name, i + 1, found, acc);
        }
    }
}

/// A help text gives at most ten examples, and at most five where no
/// line of it calls the command.
pub proof fn lemma_examples_are_capped(lines: Seq<Seq<char>>, name: Seq<char>, skip: int)
    ensures
        examples_of(lines, name, skip).len() <= 10,
        line_examples(lines, name, skip, 0, seq![], seq![]).len() == 0 ==> examples_of(
            lines,
            name,
            skip,
        ).len() <= 5,
{
    lemma_line_examples_cap(lines, name, skip, 0, seq![], seq![]);
    lemma_option_examples_cap(lines, name, 0, false, seq![]);
}

/// Finds the examples in the lines of a help text; `skip` is the index
/// of the line that gave the description, where one line gave it.
pub fn extract_examples(lines: &Vec<Vec<char>>, name: &Vec<char>, skip: Option<usize>) -> (r: Vec<
    Example,
>)
    ensures
        example_views(r@) == examples_of(views(lines@), name@, line_index(skip)),
{
    let mut acc: Vec<Example> = Vec::new();
    let mut caption: Vec<char> = Vec::new();
    let mut i: usize = 0;
    let example = chars_of("example");
    let synopsis = chars_of("synopsis");
    let prompt = chars_of("$ ");
    let prompted = chain(&prompt, name);
    let dash = chars_of("-");
    let bracket = chars_of("[");
    assert(example_views(acc@) =~= seq![]);
    while i < lines.len() && acc.len() < 10
        invariant
            i <= lines.len(),
            example@ == "example"@,
            synopsis@ == "synopsis"@,
            prompt@ == "$ "@,
            prompted@ == "$ "@ + name@,
            dash@ == "-"@,
            bracket@ == "["@,
            acc.len() >= 10 ==> line_examples(views(lines@), name@, line_index(skip), 0, seq![], seq![])
                == example_views(acc@),
            acc.len() < 10 ==> line_examples(views(lines@), name@, line_index(skip), 0, seq![], seq![])
                == line_examples(
                views(lines@),
                name@,
                line_index(skip),
                i as int,
                caption@,
                example_views(acc@),
            ),
        decreases lines.len() - i,
    {
        let low = to_lower(&lines[i]);
        let t = trimmed(&lines[i]);
        let passed = match skip {
            Some(k) => k == i,
            None => false,
        };
        if passed {
        } else if begins_with(&t, name) || begins_with(&t, &prompted) {
            let ghost before = example_views(acc@);
            let code = without_prefix(&t, &prompt);
            let description = if caption.len() == 0 {
                extract_inline_description(&t)
            } else {
                caption
            };
            acc.push(Example { description: string_of(&description), code: string_of(&code) });
            caption = Vec::new();
            assert(example_views(acc@) =~= before.push(
                ExampleView { description: description@, code: code@ },
            ));
        } else if includes(&low, &example) || includes(&low, &synopsis) {
        } else if t.len() > 0 && !begins_with(&t, &dash) && !begins_with(&t, &bracket) && t.len()
            < 100 {
            caption = t;
        }
        i += 1;
    }
    if acc.len() == 0 {
        extract_options_as_examples(lines, name)
    } else {
        acc
    }
}

/// Tells whether a trimmed line reads as prose: it does not begin with `-`
/// or `[` and holds no `--`.
pub open spec fn is_prose(t: Seq<char>) -> bool {
    !starts_with(t, "-"@) && !starts_with(t, "["@) && !contains(t, "--"@)
}

/// The description of a command of which the help text says nothing.
pub open spec fn fallback_description(name: Seq<char>) -> Seq<char> {
    name + " command (learned from local system)"@
}

/// The description made of the gathered text `acc`: its runs of two spaces
/// made one, trimmed; or the fallback where nothing was gathered.
pub open spec fn clean_description(acc: Seq<char>, name: Seq<char>) -> Seq<char> {
    if acc.len() == 0 {
        fallback_description(name)
    } else {
        trim(replace(acc, "  "@, " "@))
    }
}

/// The description that a trimmed line gives at once: where the line
/// begins with the name and holds ` - `, what stands between the first
/// ` - ` and the next, trimmed, if that is not empty.
pub open spec fn title_of(t: Seq<char>, name: Seq<char>) -> Option<Seq<char>> {
    if starts_with(t, name) && second_piece(t, " - "@) is Some && trim(
        second_piece(t, " - "@)->0,
    ).len() > 0 {
        Some(trim(second_piece(t, " - "@)->0))
    } else {
        None
    }
}

/// The description that the lines at or after line `i` give, where `seen`
/// lines that are not empty came before and `acc` was gathered from them;
/// with it the index of the line that gave the description at once, or -1.
/// Only the first 20 lines that are not empty are read. A line that begins
/// with `usage`, in any case of letters, is passed over. A line that begins
/// with the name and holds ` - ` gives the description at once: what
/// follows the ` - `, if that is not blank. Lines of prose are gathered,
/// joined by one space, until an empty line follows them or they hold more
/// than 200 characters.
pub open spec fn described(
    lines: Seq<Seq<char>>,
    name: Seq<char>,
    i: int,
    seen: int,
    acc: Seq<char>,
) -> (Seq<char>, int)
    decreases lines.len() - i,
{
    if i < 0 || i >= lines.len() {
        (clean_description(acc, name), -1)
    } else {
        let t = trim(lines[i]);
        if t.len() == 0 {
            if acc.len() > 0 {
                (clean_description(acc, name), -1)
            } else {
                described(lines, name, i + 1, seen, acc)
            }
        } else if seen >= 20 {
            (clean_description(acc, name), -1)
        } else if starts_with(lower(t), "usage"@) {
            described(lines, name, i + 1, seen + 1, acc)
        } else if title_of(t, name) is Some {
            (title_of(t, name)->0, i)
        } else if is_prose(t) {
            let more = if acc.len() == 0 {
                t
            } else {
                acc + " "@ + t
            };
            if more.len() > 200 {
                (clean_description(more, name), -1)
            } else {
                described(lines, name, i + 1, seen + 1, more)
            }
        } else {
            described(lines, name, i + 1, seen + 1, acc)
        }
    }
}

/// The description of a help text.
pub open spec fn describe(lines: Seq<Seq<char>>, name: Seq<char>) -> Seq<char> {
    described(lines, name, 0, 0, seq![]).0
}

/// The index of the line of a help text that gave the description at
/// once, or -1.
pub open spec fn title_line(lines: Seq<Seq<char>>, name: Seq<char>) -> int {
    described(lines, name, 0, 0, seq![]).1
}

/// What is made of gathered text that holds a character that is no white
/// space, or of none, is not empty.
pub proof fn lemma_clean_description(acc: Seq<char>, name: Seq<char>)
    requires
        acc.len() == 0 || has_ink(acc),
    ensures
        clean_description(acc, name).len() > 0,
{
    reveal_strlit(" command (learned from local system)");
    reveal_strlit("  ");
    reveal_strlit(" ");
    if acc.len() > 0 {
        lemma_replace_ink(acc, "  "@, " "@);
        lemma_trim_ink(replace(acc, "  "@, " "@));
    }
}

/// The description that lines give is not empty, where what was gathered
/// before them is empty or holds a character that is no white space.
pub proof fn lemma_described(
    lines: Seq<Seq<char>>,
    name: Seq<char>,
    i: int,
    seen: int,
    acc: Seq<char>,
)
    requires
        acc.len() == 0 || has_ink(acc),
    ensures
        described(lines, name, i, seen, acc).0.len() > 0,
    decreases lines.len() - i,
{
    lemma_clean_description(acc, name);
    if 0 <= i < lines.len() {
        let t = trim(lines[i]);
        if t.len() == 0 {
            if acc.len() == 0 {
                lemma_described(lines, name, i + 1, seen, acc);
            }
        } else if seen >= 20 {
        } else if starts_with(lower(t), "usage"@) {
            lemma_described(lines, name, i + 1, seen + 1, acc);
        } else if title_of(t, name) is Some {
        } else if is_prose(t) {
            let more = if acc.len() == 0 {
                t
            } else {
                acc + " "@ + t
            };
            lemma_trim_ink(lines[i]);
            if acc.len() > 0 {
                lemma_ink_after(acc + " "@, t);
            }
            lemma_clean_description(more, name);
            if more.len() <= 200 {
                lemma_described(lines, name, i + 1, seen + 1, more);
            }
        } else {
            lemma_described(lines, name, i + 1, seen + 1, acc);
        }
    }
}

/// Tells whether a trimmed line has a part in the description: it is not
/// empty, does not begin with `usage`, and gives the description at once or
/// reads as prose.
pub open spec fn qualifies(t: Seq<char>, name: Seq<char>) -> bool {
    t.len() > 0 && !starts_with(lower(t), "usage"@) && (title_of(t, name) is Some || is_prose(t))
}

/// Where no line at or after line `i` has a part in the description and
/// nothing was gathered before, the description is the one that is made up
/// from the name.
pub proof fn lemma_nothing_qualifies(lines: Seq<Seq<char>>, name: Seq<char>, i: int, seen: int)
    requires
        forall|k: int| 0 <= k < lines.len() ==> !qualifies(trim(#[trigger] lines[k]), name),
    ensures
        described(lines, name, i, seen, seq![]) == (fallback_description(name), -1int),
    decreases lines.len() - i,
{
    if 0 <= i < lines.len() {
        assert(!qualifies(trim(lines[i]), name));
        lemma_nothing_qualifies(lines, name, i + 1, seen);
        lemma_nothing_qualifies(lines, name, i + 1, seen + 1);
    }
}

/// The description of a help text is never empty: where nothing in the
/// text qualifies, it is the one that is made up from the name.
pub proof fn lemma_description_is_not_empty(lines: Seq<Seq<char>>, name: Seq<char>)
    ensures
        describe(lines, name).len() > 0,
{
    lemma_described(lines, name, 0, 0, seq![]);
}

fn title_in(t: &Vec<char>, name: &Vec<char>) -> (r: Option<Vec<char>>)
    ensures
        match r {
            Some(title) => title_of(t@, name@) == Some(title@),
            None => title_of(t@, name@) is None,
        },
{
    if !begins_with(t, name) {
        return None;
    }
    match piece_after(t, &chars_of(" - ")) {
        Some(piece) => {
            let title = trimmed(&piece);
            if title.len() > 0 {
                Some(title)
            } else {
                None
            }
        },
        None => None,
    }
}

fn cleaned(acc: &Vec<char>, name: &Vec<char>) -> (r: Vec<char>)
    ensures
        r@ == clean_description(acc@, name@),
{
    if acc.len() == 0 {
        chain(name, &chars_of(" command (learned from local system)"))
    } else {
        let two = chars_of("  ");
        let one = chars_of(" ");
        proof {
            reveal_strlit("  ");
        }
        trimmed(&replaced(acc, &two, &one))
    }
}

/// Finds the description in the lines of a help text, and the index of
/// the line that gave it where one line gave it at once. The description
/// is never empty.
pub fn extract_description(lines: &Vec<Vec<char>>, name: &Vec<char>) -> (r: (
    Vec<char>,
    Option<usize>,
))
    ensures
        r.0@ == describe(views(lines@), name@),
        line_index(r.1) == title_line(views(lines@), name@),
        r.0.len() > 0,
{
    proof {
        lemma_description_is_not_empty(views(lines@), name@);
    }
    let mut acc: Vec<char> = Vec::new();
    let mut seen: usize = 0;
    let mut i: usize = 0;
    let usage = chars_of("usage");
    let dash = chars_of("-");
    let bracket = chars_of("[");
    let dashes = chars_of("--");
    let space = chars_of(" ");
    while i < lines.len()
        invariant
            i <= lines.len(),
            seen <= 20,
            usage@ == "usage"@,
            dash@ == "-"@,
            bracket@ == "["@,
            dashes@ == "--"@,
            space@ == " "@,
            describe(views(lines@), name@).len() > 0,
            described(views(lines@), name@, 0, 0, seq![]) == described(
                views(lines@),
                name@,
                i as int,
                seen as int,
                acc@,
            ),
        decreases lines.len() - i,
    {
        let t = trimmed(&lines[i]);
        if t.len() == 0 {
            if acc.len() > 0 {
                return (cleaned(&acc, name), None);
            }
        } else if seen >= 20 {
            return (cleaned(&acc, name), None);
        } else {
            seen += 1;
            if begins_with(&to_lower(&t), &usage) {
            } else {
                match title_in(&t, name) {
                    Some(title) => {
                        return (title, Some(i));
                    },
                    None => {
                        if !begins_with(&t, &dash) && !begins_with(&t, &bracket) && !includes(
                            &t,
                            &dashes,
                        ) {
                            if acc.len() == 0 {
                                acc = t;
                            } else {
                                let ghost before = acc@;
                                append(&mut acc, &space);
                                append(&mut acc, &t);
                                assert(acc@ =~= before + " "@ + t@);
                            }
                            if acc.len() > 200 {
                                return (cleaned(&acc, name), None);
                            }
                        }
                    },
                }
            }
        }
        i += 1;
    }
    (cleaned(&acc, name), None)
}

/// The record that a help text gives for the command `name`: category and
/// language `local`, the platform of `os`, and as content the text after a
/// line that names its source. The line that gave the description is no
/// example.
pub open spec fn help_command(
    name: Seq<char>,
    content: Seq<char>,
    source: Seq<char>,
    os: Seq<char>,
) -> CommandView {
    CommandView {
        name: name,
        description: describe(lines(content), name),
        category: "local"@,
        platform: platform_of(os),
        lang: "local"@,
        examples: examples_of(lines(content), name, title_line(lines(content), name)),
        content: "Source: "@ + source + "\n\n"@ + content,
    }
}

/// Makes a record of the help text of a command, whatever the text holds.
/// `source` says how the text was obtained, and `os` names the operating
/// system as `std::env::consts::OS` does.
pub fn parse_help_content(name: &str, content: &str, source: &str, os: &str) -> (cmd: Command)
    ensures
        cmd@ == help_command(name@, content@, source@, os@),
        cmd.examples.len() <= 10,
        cmd.description@.len() > 0,
{
    proof {
        lemma_description_is_not_empty(lines(content@), name@);
        lemma_examples_are_capped(
            lines(content@),
            name@,
            title_line(lines(content@), name@),
        );
    }
    let text = chars_of(content);
    let all = split_lines(&text);
    let key = chars_of(name);
    let found = extract_description(&all, &key);
    let description = found.0;
    let examples = extract_examples(&all, &key, found.1);
    let mut full = chars_of("Source: ");
    append(&mut full, &chars_of(source));
    append(&mut full, &chars_of("\n\n"));
    append(&mut full, &text);
    Command {
        name: name.to_owned(),
        description: string_of(&description),
        category: "local".to_owned(),
        platform: get_platform(os),
        lang: "local".to_owned(),
        examples,
        content: string_of(&full),
    }
}

/// Tells whether the description of a record is the one that is made up
/// where a help text says nothing of its command.
pub fn has_fallback_description(cmd: &Command) -> (b: bool)
    ensures
        b == (cmd@.description == fallback_description(cmd@.name)),
{
    let made_up = chain(
        &chars_of(cmd.name.as_str()),
        &chars_of(" command (learned from local system)"),
    );
    same(&chars_of(cmd.description.as_str()), &made_up)
}

} // verus!
