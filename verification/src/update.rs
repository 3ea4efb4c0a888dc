use crate::archive::{
    entry_views, extension, extension_of, file_name, file_name_of, listing_view, lossy_text,
    read_lossy, read_tar, read_tar_gz, read_zip, tar_gz_listing, tar_listing, zip_listing,
    ArchiveEntry, ArchiveEntryView, Listing,
};
use crate::storage::{command_views, example_views, Command, CommandView, Example, ExampleView};
use crate::text::{append, begins_with, chain, chars_of, contains, ends_with, finishes_with, includes, lower, piece_after, replace_char, replaced_char, same, second_piece, slice, split_at_char, split_char, starts_with, string_of, strip_suffixes, to_lower, trim, trimmed, views, without_suffix};
use pulldown_cmark::Event::{End, HardBreak, SoftBreak, Start};
use pulldown_cmark::{Event, Parser, Tag, TagEnd};
use vstd::prelude::*;

verus! {

/// What the scan of a cheatsheet needs to know of one markdown event.
#[derive(Debug, Clone)]
pub enum MdEvent {
    /// A heading of the given level begins.
    HeadingStart(u8),
    /// A heading ends.
    HeadingEnd,
    /// A block quote begins.
    QuoteStart,
    /// A block quote ends.
    QuoteEnd,
    /// A list item begins.
    ItemStart,
    /// A list item ends.
    ItemEnd,
    /// A code block begins.
    CodeBlockStart,
    /// A code block ends.
    CodeBlockEnd,
    /// A run of text.
    Text(String),
    /// An inline code span.
    Code(String),
    /// A paragraph begins.
    ParagraphStart,
    /// A line of text breaks off and the next begins.
    SoftBreak,
    /// A line of text ends with a break that is kept.
    HardBreak,
    /// Any other event.
    Other,
}

/// What an `MdEvent` holds.
pub enum MdEventView {
    HeadingStart(u8),
    HeadingEnd,
    QuoteStart,
    QuoteEnd,
    ItemStart,
    ItemEnd,
    CodeBlockStart,
    CodeBlockEnd,
    Text(Seq<char>),
    Code(Seq<char>),
    ParagraphStart,
    SoftBreak,
    HardBreak,
    Other,
}

impl View for MdEvent {
    type V = MdEventView;

    open spec fn view(&self) -> MdEventView {
        match self {
            MdEvent::HeadingStart(level) => MdEventView::HeadingStart(*level),
            MdEvent::HeadingEnd => MdEventView::HeadingEnd,
            MdEvent::QuoteStart => MdEventView::QuoteStart,
            MdEvent::QuoteEnd => MdEventView::QuoteEnd,
            MdEvent::ItemStart => MdEventView::ItemStart,
            MdEvent::ItemEnd => MdEventView::ItemEnd,
            MdEvent::CodeBlockStart => MdEventView::CodeBlockStart,
            MdEvent::CodeBlockEnd => MdEventView::CodeBlockEnd,
            MdEvent::Text(t) => MdEventView::Text(t@),
            MdEvent::Code(c) => MdEventView::Code(c@),
            MdEvent::ParagraphStart => MdEventView::ParagraphStart,
            MdEvent::SoftBreak => MdEventView::SoftBreak,
            MdEvent::HardBreak => MdEventView::HardBreak,
            MdEvent::Other => MdEventView::Other,
        }
    }
}

/// What each of `v` holds.
pub open spec fn event_views(v: Seq<MdEvent>) -> Seq<MdEventView> {
    Seq::new(v.len(), |i: int| v[i]@)
}

/// The events that the markdown parser yields for a text, in order.
pub uninterp spec fn markdown_events(text: Seq<char>) -> Seq<MdEventView>;

/// Runs `pulldown_cmark::Parser` with its default options over `text` and
/// hands out its events, each reduced to what the scan reads. Believed:
/// the events are a function of the text alone.
#[verifier::external_body]
fn parse_events(text: &str) -> (events: Vec<MdEvent>)
    ensures
        event_views(events@) == markdown_events(text@),
{
    Parser::new(text).map(|event| match event {
        Start(Tag::Heading { level, .. }) => MdEvent::HeadingStart(level as u8),
        End(TagEnd::Heading(_)) => MdEvent::HeadingEnd,
        Start(Tag::BlockQuote) => MdEvent::QuoteStart,
        End(TagEnd::BlockQuote) => MdEvent::QuoteEnd,
        Start(Tag::Item) => MdEvent::ItemStart,
        End(TagEnd::Item) => MdEvent::ItemEnd,
        Start(Tag::CodeBlock(_)) => MdEvent::CodeBlockStart,
        End(TagEnd::CodeBlock) => MdEvent::CodeBlockEnd,
        Event::Text(t) => MdEvent::Text(t.to_string()),
        Event::Code(c) => MdEvent::Code(c.to_string()),
        Start(Tag::Paragraph) => MdEvent::ParagraphStart,
        SoftBreak => MdEvent::SoftBreak, HardBreak => MdEvent::HardBreak,
        _ => MdEvent::Other,
    }).collect()
}

/// The state of the scan of a cheatsheet after some of its events.
pub struct Scan {
    /// The description gathered so far.
    pub description: Seq<char>,
    /// The examples completed so far.
    pub examples: Seq<ExampleView>,
    /// The text of the last list item, waiting for its code.
    pub pending: Seq<char>,
    /// The text of the code block that is open.
    pub code: Seq<char>,
    pub in_heading: bool,
    /// The level of the last heading that began.
    pub level: u8,
    pub in_item: bool,
    pub in_code: bool,
    pub in_quote: bool,
    /// The text of the quoted line that is open, as far as it was read.
    pub line: Seq<char>,
    /// Text of the quoted line that is open was read.
    pub line_begun: bool,
    /// The quoted line that is open is no description.
    pub skip_line: bool,
}

/// The state before the first event.
pub open spec fn scan_start() -> Scan {
    Scan {
        description: seq![],
        examples: seq![],
        pending: seq![],
        code: seq![],
        in_heading: false,
        level: 0,
        in_item: false,
        in_code: false,
        in_quote: false,
        line: seq![],
        line_begun: false,
        skip_line: false,
    }
}

/// The description of an example: the text of its list item without the
/// white space around it and without colons at its end.
pub open spec fn example_title(pending: Seq<char>) -> Seq<char> {
    strip_suffixes(trim(pending), ":"@)
}

/// Tells whether a piece of quoted text points to more information.
pub open spec fn mentions_more(t: Seq<char>) -> bool {
    contains(t, "More information"@) || contains(t, "更多信息"@)
}

/// Tells whether a piece of quoted text is a link: an address, or what
/// stands in angle brackets.
pub open spec fn is_link_text(t: Seq<char>) -> bool {
    starts_with(t, "http"@) || starts_with(t, "<"@)
}

/// The state after a piece of text of a quoted line. A blank piece counts
/// for nothing. A line is no description where a piece of it points to
/// more information, or where it begins with a link. A link within a line
/// is no part of its text. The other pieces, trimmed and joined by one
/// space, are the text of the line.
pub open spec fn scan_quoted(s: Scan, t: Seq<char>) -> Scan {
    if t.len() == 0 {
        s
    } else if mentions_more(t) || (!s.line_begun && is_link_text(t)) {
        Scan { line_begun: true, skip_line: true, ..s }
    } else if is_link_text(t) {
        Scan { line_begun: true, ..s }
    } else if s.line.len() == 0 {
        Scan { line: t, line_begun: true, ..s }
    } else {
        Scan { line: s.line + seq![' '] + t, line_begun: true, ..s }
    }
}

/// The state after the end of a quoted line: its text is added to the
/// description, after one space where there is a description, unless the
/// line is no description or has no text.
pub open spec fn close_line(s: Scan) -> Scan {
    Scan {
        description: if s.skip_line || s.line.len() == 0 {
            s.description
        } else if s.description.len() == 0 {
            s.line
        } else {
            s.description + seq![' '] + s.line
        },
        line: seq![],
        line_begun: false,
        skip_line: false,
        ..s
    }
}

/// The state after a run of text.
pub open spec fn scan_text(s: Scan, text: Seq<char>) -> Scan {
    if s.in_heading && s.level == 1 {
        s
    } else if s.in_code {
        Scan { code: s.code + text, ..s }
    } else if s.in_item {
        Scan { pending: s.pending + text, ..s }
    } else if s.in_quote {
        scan_quoted(s, trim(text))
    } else {
        s
    }
}

/// The state after an inline code span.
pub open spec fn scan_code(s: Scan, code: Seq<char>) -> Scan {
    if s.in_item {
        Scan { pending: s.pending + seq!['`'] + code + seq!['`'], ..s }
    } else if !s.in_code && !s.in_quote && !s.in_heading && s.pending.len() > 0 {
        Scan {
            examples: s.examples.push(
                ExampleView { description: example_title(s.pending), code: code },
            ),
            pending: seq![],
            ..s
        }
    } else {
        s
    }
}

/// The state after the end of a code block.
pub open spec fn scan_block_end(s: Scan) -> Scan {
    if s.code.len() > 0 {
        Scan {
            examples: s.examples.push(
                ExampleView {
                    description: if s.pending.len() == 0 {
                        "Example"@
                    } else {
                        example_title(s.pending)
                    },
                    code: trim(s.code),
                },
            ),
            pending: seq![],
            in_code: false,
            ..s
        }
    } else {
        Scan { in_code: false, ..s }
    }
}

/// The state after one more event. A quoted line ends where a paragraph
/// begins, where a line breaks, and where a block quote begins or ends.
pub open spec fn scan_step(s: Scan, event: MdEventView) -> Scan {
    match event {
        MdEventView::HeadingStart(level) => Scan { in_heading: true, level: level, ..s },
        MdEventView::HeadingEnd => Scan { in_heading: false, ..s },
        MdEventView::QuoteStart => Scan { in_quote: true, ..close_line(s) },
        MdEventView::QuoteEnd => Scan { in_quote: false, ..close_line(s) },
        MdEventView::ItemStart => Scan { in_item: true, ..s },
        MdEventView::ItemEnd => Scan { in_item: false, ..s },
        MdEventView::CodeBlockStart => Scan { in_code: true, code: seq![], ..s },
        MdEventView::CodeBlockEnd => scan_block_end(s),
        MdEventView::Text(text) => scan_text(s, text),
        MdEventView::Code(code) => scan_code(s, code),
        MdEventView::ParagraphStart => close_line(s),
        MdEventView::SoftBreak => close_line(s),
        MdEventView::HardBreak => close_line(s),
        MdEventView::Other => s,
    }
}

/// The state after all of `events`, taken in order from state `s`.
pub open spec fn scan_all(s: Scan, events: Seq<MdEventView>) -> Scan
    decreases events.len(),
{
    if events.len() == 0 {
        s
    } else {
        scan_step(scan_all(s, events.drop_last()), events.last())
    }
}

/// The record that a cheatsheet with these events gives: the description is
/// what the scan gathered from the quoted lines, or the name where it
/// gathered nothing; the category is the platform.
pub open spec fn command_of_events(
    events: Seq<MdEventView>,
    content: Seq<char>,
    name: Seq<char>,
    lang: Seq<char>,
    platform: Seq<char>,
) -> CommandView {
    let end = close_line(scan_all(scan_start(), events));
    CommandView {
        name: name,
        description: if end.description.len() == 0 {
            name
        } else {
            end.description
        },
        category: platform,
        platform: platform,
        lang: lang,
        examples: end.examples,
        content: content,
    }
}

/// The scan while it runs.
struct Scanner {
    description: Vec<char>,
    examples: Vec<Example>,
    pending: Vec<char>,
    code: Vec<char>,
    in_heading: bool,
    level: u8,
    in_item: bool,
    in_code: bool,
    in_quote: bool,
    line: Vec<char>,
    line_begun: bool,
    skip_line: bool,
}

impl View for Scanner {
    type V = Scan;

    closed spec fn view(&self) -> Scan {
        Scan {
            description: self.description@,
            examples: example_views(self.examples@),
            pending: self.pending@,
            code: self.code@,
            in_heading: self.in_heading,
            level: self.level,
            in_item: self.in_item,
            in_code: self.in_code,
            in_quote: self.in_quote,
            line: self.line@,
            line_begun: self.line_begun,
            skip_line: self.skip_line,
        }
    }
}

impl Scanner {
    fn new() -> (s: Scanner)
        ensures
            s@ == scan_start(),
    {
        let s = Scanner {
            description: Vec::new(),
            examples: Vec::new(),
            pending: Vec::new(),
            code: Vec::new(),
            in_heading: false,
            level: 0,
            in_item: false,
            in_code: false,
            in_quote: false,
            line: Vec::new(),
            line_begun: false,
            skip_line: false,
        };
        assert(example_views(s.examples@) =~= seq![]);
        s
    }

    /// Completes an example with the given code.
    fn push_example(&mut self, title: Vec<char>, code: Vec<char>)
        ensures
            final(self)@ == (Scan {
                examples: old(self)@.examples.push(
                    ExampleView { description: title@, code: code@ },
                ),
                pending: seq![],
                ..old(self)@
            }),
    {
        let example = Example { description: string_of(&title), code: string_of(&code) };
        self.examples.push(example);
        self.pending = Vec::new();
        assert(example_views(self.examples@) =~= old(self)@.examples.push(
            ExampleView { description: title@, code: code@ },
        ));
    }

    fn quoted(&mut self, t: Vec<char>)
        ensures
            final(self)@ == scan_quoted(old(self)@, t@),
    {
        if t.len() == 0 {
            return ;
        }
        let more = includes(&t, &chars_of("More information")) || includes(
            &t,
            &chars_of("更多信息"),
        );
        let link = begins_with(&t, &chars_of("http")) || begins_with(&t, &chars_of("<"));
        if more || (!self.line_begun && link) {
            self.skip_line = true;
        } else if link {
        } else if self.line.len() == 0 {
            self.line = t;
        } else {
            self.line.push(' ');
            append(&mut self.line, &t);
            assert(self.line@ =~= old(self)@.line + seq![' '] + t@);
        }
        self.line_begun = true;
    }

    fn close_line(&mut self)
        ensures
            final(self)@ == close_line(old(self)@),
    {
        if !self.skip_line && self.line.len() > 0 {
            if self.description.len() > 0 {
                self.description.push(' ');
            }
            append(&mut self.description, &self.line);
            assert(self.description@ =~= close_line(old(self)@).description);
        }
        self.line = Vec::new();
        self.line_begun = false;
        self.skip_line = false;
    }

    fn text(&mut self, text: &str)
        ensures
            final(self)@ == scan_text(old(self)@, text@),
    {
        let raw = chars_of(text);
        if self.in_heading && self.level == 1 {
        } else if self.in_code {
            append(&mut self.code, &raw);
        } else if self.in_item {
            append(&mut self.pending, &raw);
        } else if self.in_quote {
            self.quoted(trimmed(&raw));
        }
    }

    fn code(&mut self, code: &str)
        ensures
            final(self)@ == scan_code(old(self)@, code@),
    {
        let raw = chars_of(code);
        if self.in_item {
            self.pending.push('`');
            append(&mut self.pending, &raw);
            self.pending.push('`');
            assert(self.pending@ =~= old(self)@.pending + seq!['`'] + code@ + seq!['`']);
        } else if !self.in_code && !self.in_quote && !self.in_heading && self.pending.len() > 0 {
            let title = without_suffix(&trimmed(&self.pending), &chars_of(":"));
            self.push_example(title, raw);
        }
    }

    fn block_end(&mut self)
        ensures
            final(self)@ == scan_block_end(old(self)@),
    {
        if self.code.len() > 0 {
            let title = if self.pending.len() == 0 {
                chars_of("Example")
            } else {
                without_suffix(&trimmed(&self.pending), &chars_of(":"))
            };
            let code = trimmed(&self.code);
            self.push_example(title, code);
        }
        self.in_code = false;
    }

    fn step(&mut self, event: &MdEvent)
        ensures
            final(self)@ == scan_step(old(self)@, event@),
    {
        match event {
            MdEvent::HeadingStart(level) => {
                self.in_heading = true;
                self.level = *level;
            },
            MdEvent::HeadingEnd => {
                self.in_heading = false;
            },
            MdEvent::QuoteStart => {
                self.close_line();
                self.in_quote = true;
            },
            MdEvent::QuoteEnd => {
                self.close_line();
                self.in_quote = false;
            },
            MdEvent::ItemStart => {
                self.in_item = true;
            },
            MdEvent::ItemEnd => {
                self.in_item = false;
            },
            MdEvent::CodeBlockStart => {
                self.in_code = true;
                self.code = Vec::new();
            },
            MdEvent::CodeBlockEnd => {
                self.block_end();
            },
            MdEvent::Text(text) => {
                self.text(text.as_str());
            },
            MdEvent::Code(code) => {
                self.code(code.as_str());
            },
            MdEvent::ParagraphStart => {
                self.close_line();
            },
            MdEvent::SoftBreak => {
                self.close_line();
            },
            MdEvent::HardBreak => {
                self.close_line();
            },
            MdEvent::Other => {},
        }
    }
}

/// The record that a cheatsheet with these events gives.
pub fn command_from_events(
    events: &Vec<MdEvent>,
    content: &str,
    name: String,
    lang: String,
    platform: String,
) -> (cmd: Command)
    ensures
        cmd@ == command_of_events(event_views(events@), content@, name@, lang@, platform@),
{
    let mut scanner = Scanner::new();
    let mut i: usize = 0;
    while i < events.len()
        invariant
            i <= events.len(),
            scanner@ == scan_all(scan_start(), event_views(events@).take(i as int)),
        decreases events.len() - i,
    {
        proof {
            let done = event_views(events@).take(i + 1);
            assert(done.drop_last() =~= event_views(events@).take(i as int));
            assert(done.last() == events[i as int]@);
        }
        scanner.step(&events[i]);
        i += 1;
    }
    assert(event_views(events@).take(i as int) =~= event_views(events@));
    scanner.close_line();
    let description = if scanner.description.len() == 0 {
        name.clone()
    } else {
        string_of(&scanner.description)
    };
    Command {
        name,
        description,
        category: platform.clone(),
        platform,
        lang,
        examples: scanner.examples,
        content: content.to_owned(),
    }
}

/// Reads a cheatsheet in the markdown form of tldr pages. The level-1
/// heading is passed over: the name comes from the caller. The quoted
/// lines are the description, joined by one space, but for the lines that
/// point to more information or begin with a link. Each list item
/// gives the description of the example whose code is the next code block
/// or code span. Every text is read, so the result is never `None`.
pub fn parse_tldr_markdown(content: &str, name: String, lang: String, platform: String) -> (r:
    Option<Command>)
    ensures
        r is Some,
        r->0@ == command_of_events(markdown_events(content@), content@, name@, lang@, platform@),
{
    let events = parse_events(content);
    Some(command_from_events(&events, content, name, lang, platform))
}

/// Reading a cheatsheet twice gives the same record both times: the
/// record is a function of the text, the name, the language and the
/// platform, whatever was read in between.
pub proof fn lemma_parse_is_deterministic(
    content: Seq<char>,
    name: Seq<char>,
    lang: Seq<char>,
    platform: Seq<char>,
    first: CommandView,
    second: CommandView,
)
    requires
        first == command_of_events(markdown_events(content), content, name, lang, platform),
        second == command_of_events(markdown_events(content), content, name, lang, platform),
    ensures
        first == second,
        first.name == name && first.lang == lang && first.platform == platform
            && first.category == platform && first.content == content,
        first.description.len() > 0 || name.len() == 0,
{
}

/// Reads a cheatsheet from a local markdown file: the name is the file's
/// name without `.md` at its end, the language `zh`, the platform `common`.
pub fn parse_local_markdown(content: &str, filename: &str) -> (r: Option<Command>)
    ensures
        r is Some,
        r->0@ == command_of_events(
            markdown_events(content@),
            content@,
            strip_suffixes(filename@, ".md"@),
            "zh"@,
            "common"@,
        ),
{
    let name = string_of(&without_suffix(&chars_of(filename), &chars_of(".md")));
    parse_tldr_markdown(content, name, "zh".to_owned(), "common".to_owned())
}

/// The index of the first of `parts` at or after `from` that begins with
/// `pages`, or -1.
pub open spec fn first_pages(parts: Seq<Seq<char>>, from: int) -> int
    decreases parts.len() - from,
{
    if from < 0 || from >= parts.len() {
        -1
    } else if starts_with(parts[from], "pages"@) {
        from
    } else {
        first_pages(parts, from + 1)
    }
}

/// The language that a `pages` directory names: what stands between its
/// first `.` and the next, or `en` where it has no `.`.
pub open spec fn pages_lang(part: Seq<char>) -> Seq<char> {
    match second_piece(part, "."@) {
        Some(lang) => lang,
        None => "en"@,
    }
}

/// The language, the platform and the command name that the path of a
/// page in an archive of tldr pages gives. A backslash counts as `/`. The
/// first part that begins with `pages` names the language, the part after
/// it the platform, and the last part, without `.md` at its end, the
/// command. `None` where no part begins with `pages` or fewer than two
/// parts follow it.
pub open spec fn tldr_path(path: Seq<char>) -> Option<(Seq<char>, Seq<char>, Seq<char>)> {
    let parts = split_char(replace_char(path, '\\', '/'), '/');
    let k = first_pages(parts, 0);
    if k < 0 || parts.len() < k + 3 {
        None
    } else {
        Some((pages_lang(parts[k]), parts[k + 1], strip_suffixes(parts.last(), ".md"@)))
    }
}

fn tldr_path_chars(path: &Vec<char>) -> (r: Option<(Vec<char>, Vec<char>, Vec<char>)>)
    ensures
        match r {
            Some(t) => tldr_path(path@) == Some((t.0@, t.1@, t.2@)),
            None => tldr_path(path@) is None,
        },
{
    let parts = split_at_char(&replaced_char(path, '\\', '/'), '/');
    let pages = chars_of("pages");
    let mut k: usize = 0;
    while k < parts.len() && !begins_with(&parts[k], &pages)
        invariant
            k <= parts.len(),
            pages@ == "pages"@,
            first_pages(views(parts@), 0) == first_pages(views(parts@), k as int),
        decreases parts.len() - k,
    {
        k += 1;
    }
    if k >= parts.len() || parts.len() - k < 3 {
        return None;
    }
    let lang = match piece_after(&parts[k], &chars_of(".")) {
        Some(lang) => lang,
        None => chars_of("en"),
    };
    let platform = slice(&parts[k + 1], 0, parts[k + 1].len());
    assert(platform@ =~= parts[k + 1]@);
    let name = without_suffix(&parts[parts.len() - 1], &chars_of(".md"));
    assert(views(parts@).last() == parts[parts.len() - 1]@);
    Some((lang, platform, name))
}

/// Reads the path of a page in an archive of tldr pages, such as
/// `pages.zh/common/docker.md`: language, platform and command name.
pub fn parse_tldr_path(path: &str) -> (r: Option<(String, String, String)>)
    ensures
        match r {
            Some(t) => tldr_path(path@) == Some((t.0@, t.1@, t.2@)),
            None => tldr_path(path@) is None,
        },
{
    match tldr_path_chars(&chars_of(path)) {
        Some(t) => Some((string_of(&t.0), string_of(&t.1), string_of(&t.2))),
        None => None,
    }
}

/// Why an import failed.
#[derive(Debug)]
pub enum UpdateError {
    /// An entry of an archive could not be read.
    Io(String),
    /// A ZIP archive could not be read.
    Zip(String),
    /// The data has no form that is known.
    Parse(String),
}

/// What an `UpdateError` holds.
pub enum UpdateErrorView {
    Io(Seq<char>),
    Zip(Seq<char>),
    Parse(Seq<char>),
}

impl View for UpdateError {
    type V = UpdateErrorView;

    open spec fn view(&self) -> UpdateErrorView {
        match self {
            UpdateError::Io(reason) => UpdateErrorView::Io(reason@),
            UpdateError::Zip(reason) => UpdateErrorView::Zip(reason@),
            UpdateError::Parse(reason) => UpdateErrorView::Parse(reason@),
        }
    }
}

impl UpdateError {
    /// The error in words.
    pub fn message(&self) -> (r: String)
        ensures
            r@ == match self@ {
                UpdateErrorView::Io(reason) => "IO error: "@ + reason,
                UpdateErrorView::Zip(reason) => "ZIP error: "@ + reason,
                UpdateErrorView::Parse(reason) => "Parse error: "@ + reason,
            },
    {
        match self {
            UpdateError::Io(reason) => string_of(
                &chain(&chars_of("IO error: "), &chars_of(reason.as_str())),
            ),
            UpdateError::Zip(reason) => string_of(
                &chain(&chars_of("ZIP error: "), &chars_of(reason.as_str())),
            ),
            UpdateError::Parse(reason) => string_of(
                &chain(&chars_of("Parse error: "), &chars_of(reason.as_str())),
            ),
        }
    }
}

/// The record of the page with this text, stored in an archive of tldr
/// pages under a path that gives the three values `place`.
pub open spec fn page_command(text: Seq<char>, place: (Seq<char>, Seq<char>, Seq<char>)) -> CommandView {
    command_of_events(markdown_events(text), text, place.2, place.0, place.1)
}

/// The records of the pages among the entries at or after entry `i`,
/// added to `acc`. An entry counts where its path ends in `.md` and reads
/// as the path of a page; a page that is no text is passed over. The first
/// entry that cannot be had ends the walk with its reason: nothing is
/// taken from an archive that is broken.
pub open spec fn page_commands(
    entries: Seq<Result<ArchiveEntryView, Seq<char>>>,
    i: int,
    acc: Seq<CommandView>,
) -> Result<Seq<CommandView>, Seq<char>>
    decreases entries.len() - i,
{
    if i < 0 || i >= entries.len() {
        Ok(acc)
    } else {
        match entries[i] {
            Err(reason) => Err(reason),
            Ok(entry) => {
                if !ends_with(entry.path, ".md"@) || tldr_path(entry.path) is None {
                    page_commands(entries, i + 1, acc)
                } else {
                    match entry.text {
                        Err(_) => page_commands(entries, i + 1, acc),
                        Ok(text) => page_commands(
                            entries,
                            i + 1,
                            acc.push(page_command(text, tldr_path(entry.path).unwrap())),
                        ),
                    }
                }
            },
        }
    }
}

/// The records of the pages among the entries of an archive of tldr pages.
pub fn commands_from_entries(entries: &Vec<Result<ArchiveEntry, String>>) -> (r: Result<
    Vec<Command>,
    String,
>)
    ensures
        match r {
            Ok(cmds) => page_commands(entry_views(entries@), 0, seq![]) == Ok::<
                Seq<CommandView>,
                Seq<char>,
            >(command_views(cmds@)),
            Err(reason) => page_commands(entry_views(entries@), 0, seq![]) == Err::<
                Seq<CommandView>,
                Seq<char>,
            >(reason@),
        },
{
    let mut acc: Vec<Command> = Vec::new();
    let md = chars_of(".md");
    let mut i: usize = 0;
    assert(command_views(acc@) =~= seq![]);
    while i < entries.len()
        invariant
            i <= entries.len(),
            md@ == ".md"@,
            page_commands(entry_views(entries@), 0, seq![]) == page_commands(
                entry_views(entries@),
                i as int,
                command_views(acc@),
            ),
        decreases entries.len() - i,
    {
        match &entries[i] {
            Err(reason) => {
                return Err(reason.clone());
            },
            Ok(entry) => {
                let path = chars_of(entry.path.as_str());
                if finishes_with(&path, &md) {
                    match tldr_path_chars(&path) {
                        None => {},
                        Some(place) => {
                            match &entry.text {
                                Err(_) => {},
                                Ok(text) => {
                                    let parsed = parse_tldr_markdown(
                                        text.as_str(),
                                        string_of(&place.2),
                                        string_of(&place.0),
                                        string_of(&place.1),
                                    );
                                    let ghost before = command_views(acc@);
                                    match parsed {
                                        Some(cmd) => {
                                            acc.push(cmd);
                                            assert(command_views(acc@) =~= before.push(
                                                page_command(text@, (place.0@, place.1@, place.2@)),
                                            ));
                                        },
                                        None => {},
                                    }
                                },
                            }
                        },
                    }
                }
            },
        }
        i += 1;
    }
    Ok(acc)
}

/// The records of an archive whose entries read as `listing`.
pub open spec fn listing_commands(listing: Listing) -> Result<Seq<CommandView>, Seq<char>> {
    match listing {
        Ok(entries) => page_commands(entries, 0, seq![]),
        Err(reason) => Err(reason),
    }
}

/// The records of an archive of tldr pages: those of the ZIP archive
/// where the data reads as one without failure, else those of the
/// gzipped tar archive where it reads as one; an error where it reads as
/// neither.
pub open spec fn archive_commands(zip: Listing, tar_gz: Listing) -> Result<
    Seq<CommandView>,
    UpdateErrorView,
> {
    if listing_commands(zip) is Ok {
        Ok(listing_commands(zip)->Ok_0)
    } else if listing_commands(tar_gz) is Ok {
        Ok(listing_commands(tar_gz)->Ok_0)
    } else {
        Err(UpdateErrorView::Parse("Unrecognized archive format"@))
    }
}

fn listed_commands(listing: &Result<Vec<Result<ArchiveEntry, String>>, String>) -> (r: Result<
    Vec<Command>,
    String,
>)
    ensures
        match r {
            Ok(cmds) => listing_commands(listing_view(*listing)) == Ok::<
                Seq<CommandView>,
                Seq<char>,
            >(command_views(cmds@)),
            Err(reason) => listing_commands(listing_view(*listing)) == Err::<
                Seq<CommandView>,
                Seq<char>,
            >(reason@),
        },
{
    match listing {
        Ok(entries) => commands_from_entries(entries),
        Err(reason) => Err(reason.clone()),
    }
}

/// Reads an archive of tldr pages, ZIP or gzipped tar, and gives the
/// record of each page in it.
pub fn parse_tldr_archive(data: &[u8]) -> (r: Result<Vec<Command>, UpdateError>)
    ensures
        match r {
            Ok(cmds) => archive_commands(zip_listing(data@), tar_gz_listing(data@)) == Ok::<
                Seq<CommandView>,
                UpdateErrorView,
            >(command_views(cmds@)),
            Err(e) => archive_commands(zip_listing(data@), tar_gz_listing(data@)) == Err::<
                Seq<CommandView>,
                UpdateErrorView,
            >(e@),
        },
{
    let zip = read_zip(data);
    match listed_commands(&zip) {
        Ok(cmds) => {
            return Ok(cmds);
        },
        Err(_) => {},
    }
    let tar_gz = read_tar_gz(data);
    match listed_commands(&tar_gz) {
        Ok(cmds) => Ok(cmds),
        Err(_) => Err(UpdateError::Parse("Unrecognized archive format".to_owned())),
    }
}

/// The name under which a file in an archive is read as a local page: its
/// file name, or `unknown`.
pub open spec fn local_name(path: Seq<char>) -> Seq<char> {
    match file_name(path) {
        Some(name) => name,
        None => "unknown"@,
    }
}

/// The record of a local page with this text and file name.
pub open spec fn local_command(text: Seq<char>, filename: Seq<char>) -> CommandView {
    command_of_events(
        markdown_events(text),
        text,
        strip_suffixes(filename, ".md"@),
        "zh"@,
        "common"@,
    )
}

/// The records of the local pages among the entries at or after entry
/// `i`, added to `acc`, with the number of pages that were passed over
/// because they are no text, added to `skipped`. With `by_name` an entry
/// counts where its path ends in `.md`, else where its extension is `md`.
/// The first entry that cannot be had ends the walk with its reason.
pub open spec fn local_commands(
    entries: Seq<Result<ArchiveEntryView, Seq<char>>>,
    by_name: bool,
    i: int,
    acc: Seq<CommandView>,
    skipped: nat,
) -> Result<(Seq<CommandView>, nat), Seq<char>>
    decreases entries.len() - i,
{
    if i < 0 || i >= entries.len() {
        Ok((acc, skipped))
    } else {
        match entries[i] {
            Err(reason) => Err(reason),
            Ok(entry) => {
                if (by_name && !ends_with(entry.path, ".md"@)) || (!by_name && extension(
                    entry.path,
                ) != Some("md"@)) {
                    local_commands(entries, by_name, i + 1, acc, skipped)
                } else {
                    match entry.text {
                        Err(_) => local_commands(entries, by_name, i + 1, acc, skipped + 1),
                        Ok(text) => local_commands(
                            entries,
                            by_name,
                            i + 1,
                            acc.push(local_command(text, local_name(entry.path))),
                            skipped,
                        ),
                    }
                }
            },
        }
    }
}

/// What a walk over local pages gave, as the views of what it holds.
pub open spec fn walk_view(r: Result<(Vec<Command>, usize), String>) -> Result<
    (Seq<CommandView>, nat),
    Seq<char>,
> {
    match r {
        Ok(pair) => Ok((command_views(pair.0@), pair.1 as nat)),
        Err(reason) => Err(reason@),
    }
}

/// The records of the local pages among the entries of an archive, with
/// the number of pages that were passed over.
pub fn local_commands_from_entries(entries: &Vec<Result<ArchiveEntry, String>>, by_name: bool) -> (r:
    Result<(Vec<Command>, usize), String>)
    ensures
        walk_view(r) == local_commands(entry_views(entries@), by_name, 0, seq![], 0),
{
    let mut acc: Vec<Command> = Vec::new();
    let mut skipped: usize = 0;
    let dot_md = chars_of(".md");
    let md = chars_of("md");
    let mut i: usize = 0;
    assert(command_views(acc@) =~= seq![]);
    while i < entries.len()
        invariant
            i <= entries.len(),
            skipped <= i,
            dot_md@ == ".md"@,
            md@ == "md"@,
            local_commands(entry_views(entries@), by_name, 0, seq![], 0) == local_commands(
                entry_views(entries@),
                by_name,
                i as int,
                command_views(acc@),
                skipped as nat,
            ),
        decreases entries.len() - i,
    {
        match &entries[i] {
            Err(reason) => {
                return Err(reason.clone());
            },
            Ok(entry) => {
                let path = chars_of(entry.path.as_str());
                let counts = if by_name {
                    finishes_with(&path, &dot_md)
                } else {
                    match extension_of(&path) {
                        Some(ext) => same(&ext, &md),
                        None => false,
                    }
                };
                if counts {
                    match &entry.text {
                        Err(_) => {
                            skipped += 1;
                        },
                        Ok(text) => {
                            let name = match file_name_of(&path) {
                                Some(name) => name,
                                None => chars_of("unknown"),
                            };
                            let ghost before = command_views(acc@);
                            match parse_local_markdown(text.as_str(), string_of(&name).as_str()) {
                                Some(cmd) => {
                                    acc.push(cmd);
                                    assert(command_views(acc@) =~= before.push(
                                        local_command(text@, name@),
                                    ));
                                },
                                None => {},
                            }
                        },
                    }
                }
            },
        }
        i += 1;
    }
    Ok((acc, skipped))
}

/// The kind of a file by the extension of its name, in any case of
/// letters.
pub open spec fn file_kind(filename: Seq<char>) -> Seq<char> {
    match extension(filename) {
        Some(ext) => lower(ext),
        None => seq![],
    }
}

/// How a file is read.
#[derive(Debug, Clone, Copy, PartialEq, Eq, Structural)]
pub enum FileKind {
    /// As one page, by its name.
    Markdown,
    /// As a ZIP archive of pages.
    Zip,
    /// As a gzipped tar archive of pages.
    TarGz,
    /// As a tar archive of pages.
    Tar,
    /// As one page, for want of a kind that is known.
    Other,
}

/// How a file with this name is read: by the extension of the name, in
/// any case of letters; `md` is a page, `zip`, `gz`, `tgz` and `tar` are
/// archives.
pub open spec fn kind_of(filename: Seq<char>) -> FileKind {
    if file_kind(filename) == "md"@ {
        FileKind::Markdown
    } else if file_kind(filename) == "zip"@ {
        FileKind::Zip
    } else if file_kind(filename) == "gz"@ || file_kind(filename) == "tgz"@ {
        FileKind::TarGz
    } else if file_kind(filename) == "tar"@ {
        FileKind::Tar
    } else {
        FileKind::Other
    }
}

/// Tells how a file with this name is read.
pub fn classify_file(filename: &str) -> (kind: FileKind)
    ensures
        kind == kind_of(filename@),
{
    let ext = match extension_of(&chars_of(filename)) {
        Some(ext) => to_lower(&ext),
        None => Vec::new(),
    };
    proof {
        reveal_strlit("md");
        reveal_strlit("zip");
        reveal_strlit("gz");
        reveal_strlit("tgz");
        reveal_strlit("tar");
    }
    if same(&ext, &chars_of("md")) {
        FileKind::Markdown
    } else if same(&ext, &chars_of("zip")) {
        FileKind::Zip
    } else if same(&ext, &chars_of("gz")) || same(&ext, &chars_of("tgz")) {
        FileKind::TarGz
    } else if same(&ext, &chars_of("tar")) {
        FileKind::Tar
    } else {
        FileKind::Other
    }
}

/// What the walk over the local pages of an archive with this listing
/// gives; an archive that cannot be opened gives its reason.
pub open spec fn listing_walk(listing: Listing, by_name: bool) -> Result<
    (Seq<CommandView>, nat),
    Seq<char>,
> {
    match listing {
        Err(reason) => Err(reason),
        Ok(entries) => local_commands(entries, by_name, 0, seq![], 0),
    }
}

/// The records that a file with this name and these bytes gives, with
/// the number of pages that were passed over. A file of kind `zip` is read
/// as a ZIP archive of local pages, one of kind `gz` or `tgz` as a gzipped
/// tar archive, one of kind `tar` as a tar archive; every other file is
/// read as one local page. An archive that is broken gives an error and
/// no record.
pub open spec fn file_commands(
    filename: Seq<char>,
    page: Seq<char>,
    zip: Listing,
    tar_gz: Listing,
    tar: Listing,
) -> Result<(Seq<CommandView>, nat), UpdateErrorView> {
    match kind_of(filename) {
        FileKind::Zip => match listing_walk(zip, true) {
            Ok(found) => Ok(found),
            Err(reason) => Err(UpdateErrorView::Zip(reason)),
        },
        FileKind::TarGz => match listing_walk(tar_gz, false) {
            Ok(found) => Ok(found),
            Err(reason) => Err(UpdateErrorView::Io(reason)),
        },
        FileKind::Tar => match listing_walk(tar, false) {
            Ok(found) => Ok(found),
            Err(reason) => Err(UpdateErrorView::Io(reason)),
        },
        _ => Ok((seq![local_command(page, filename)], 0)),
    }
}

fn archive_result(
    listing: &Result<Vec<Result<ArchiveEntry, String>>, String>,
    by_name: bool,
) -> (r: Result<(Vec<Command>, usize), String>)
    ensures
        walk_view(r) == listing_walk(listing_view(*listing), by_name),
{
    match listing {
        Err(reason) => Err(reason.clone()),
        Ok(entries) => local_commands_from_entries(entries, by_name),
    }
}

/// What the reading of a file gave, as the views of what it holds.
pub open spec fn import_view(r: Result<(Vec<Command>, usize), UpdateError>) -> Result<
    (Seq<CommandView>, nat),
    UpdateErrorView,
> {
    match r {
        Ok(pair) => Ok((command_views(pair.0@), pair.1 as nat)),
        Err(e) => Err(e@),
    }
}

/// Reads the file that was handed in under `filename` with the bytes
/// `data`, by the extension of its name, and gives the records in it with
/// the number of pages that were passed over.
pub fn parse_file_data(filename: &str, data: &[u8]) -> (r: Result<(Vec<Command>, usize), UpdateError>)
    ensures
        import_view(r) == file_commands(
            filename@,
            lossy_text(data@),
            zip_listing(data@),
            tar_gz_listing(data@),
            tar_listing(data@),
        ),
{
    match classify_file(filename) {
        FileKind::Zip => match archive_result(&read_zip(data), true) {
            Ok(found) => Ok(found),
            Err(reason) => Err(UpdateError::Zip(reason)),
        },
        FileKind::TarGz => match archive_result(&read_tar_gz(data), false) {
            Ok(found) => Ok(found),
            Err(reason) => Err(UpdateError::Io(reason)),
        },
        FileKind::Tar => match archive_result(&read_tar(data), false) {
            Ok(found) => Ok(found),
            Err(reason) => Err(UpdateError::Io(reason)),
        },
        _ => {
            let text = read_lossy(data);
            let mut cmds: Vec<Command> = Vec::new();
            let mut skipped: usize = 0;
            match parse_local_markdown(text.as_str(), filename) {
                Some(cmd) => {
                    cmds.push(cmd);
                },
                None => {
                    skipped = 1;
                },
            }
            assert(command_views(cmds@) =~= seq![local_command(text@, filename@)]);
            Ok((cmds, skipped))
        },
    }
}

} // verus!
