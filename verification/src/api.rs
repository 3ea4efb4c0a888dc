use crate::archive::{lossy_text, tar_gz_listing, tar_listing, zip_listing};
use crate::capture::{learn_command, learn_step, launches, Launch, LearnStep};
use crate::storage::{Command, Metadata};
use crate::update::{file_commands, import_view, parse_file_data, UpdateError};
use crate::text::{append, begins_with, chain, chars_of, contains, ends_with, finishes_with, framed, includes, pairs, replace, replaced, same, starts_with, str_same, string_of, strings, strip_prefixes, without_prefix};
use vstd::prelude::*;

verus! {

/// The decimal digit for a number under ten.
pub open spec fn digit(d: nat) -> char {
    (('0' as u8) + (d as u8)) as char
}

/// The decimal digits of a number.
pub open spec fn digits(n: nat) -> Seq<char>
    decreases n,
{
    if n < 10 {
        seq![digit(n)]
    } else {
        digits(n / 10).push(digit(n % 10))
    }
}

/// The decimal digits of a number.
pub fn decimal(n: usize) -> (r: Vec<char>)
    ensures
        r@ == digits(n as nat),
{
    let mut rev: Vec<char> = Vec::new();
    let mut m: usize = n;
    assert(digits(m as nat) + rev@.reverse() =~= digits(n as nat));
    while m >= 10
        invariant
            digits(n as nat) == digits(m as nat) + rev@.reverse(),
        decreases m,
    {
        let d: u8 = (m % 10) as u8;
        let ghost before = rev@;
        rev.push((48u8 + d) as char);
        assert(rev@.reverse() =~= seq![digit((m % 10) as nat)] + before.reverse());
        assert(digits((m / 10) as nat).push(digit((m % 10) as nat)) + before.reverse() =~= digits(
            (m / 10) as nat,
        ) + rev@.reverse());
        m = m / 10;
    }
    let ghost before = rev@;
    rev.push((48u8 + (m as u8)) as char);
    assert(rev@.reverse() =~= digits(m as nat) + before.reverse());
    let mut out: Vec<char> = Vec::new();
    let mut i: usize = rev.len();
    while i > 0
        invariant
            i <= rev.len(),
            out@ == rev@.reverse().take(rev.len() - i),
        decreases i,
    {
        i -= 1;
        out.push(rev[i]);
        assert(out@ =~= rev@.reverse().take(rev.len() - i));
    }
    assert(rev@.reverse().take(rev.len() as int) =~= rev@.reverse());
    out
}

/// An error as the interface reports it.
#[derive(Debug, Clone)]
pub struct ErrorResponse {
    /// Error message.
    pub error: String,
}

/// The language filter of a listing.
#[derive(Debug, Clone)]
pub struct ListQuery {
    /// Language; `zh` where none is given.
    pub lang: Option<String>,
}

/// The language filter of a lookup.
#[derive(Debug, Clone)]
pub struct CommandQuery {
    /// Language; `zh` where none is given.
    pub lang: Option<String>,
}

/// The language of a request: the one it names, or `zh`.
pub fn language_or_default(lang: &Option<String>) -> (r: String)
    ensures
        r@ == match lang {
            Some(l) => l@,
            None => "zh"@,
        },
{
    match lang {
        Some(l) => l.clone(),
        None => "zh".to_owned(),
    }
}

impl ListQuery {
    /// The language to list.
    pub fn language(&self) -> (r: String)
        ensures
            r@ == match self.lang {
                Some(l) => l@,
                None => "zh"@,
            },
    {
        language_or_default(&self.lang)
    }
}

impl CommandQuery {
    /// The language to look up.
    pub fn language(&self) -> (r: String)
        ensures
            r@ == match self.lang {
                Some(l) => l@,
                None => "zh"@,
            },
    {
        language_or_default(&self.lang)
    }
}

/// The error of a lookup that found nothing.
pub fn command_not_found(name: &str) -> (r: ErrorResponse)
    ensures
        r.error@ == "Command '"@ + name@ + "' not found"@,
{
    ErrorResponse { error: string_of(&framed("Command '", &chars_of(name), "' not found")) }
}

/// The metadata of a store that holds none.
pub fn empty_metadata() -> (m: Metadata)
    ensures
        m.version@ == "0.0.0"@,
        m.command_count == 0,
        m.last_update@ == "never"@,
        m.languages@.len() == 0,
{
    Metadata {
        version: "0.0.0".to_owned(),
        command_count: 0,
        last_update: "never".to_owned(),
        languages: Vec::new(),
    }
}

/// A search request as it arrives.
#[derive(Debug, Clone)]
pub struct SearchQuery {
    /// Query text.
    pub q: String,
    /// Language filter.
    pub lang: Option<String>,
    /// Largest number of results.
    pub limit: Option<usize>,
}

impl SearchQuery {
    /// The number of results to ask for: the one the request names, or
    /// `default_limit`, and never more than `max_limit`.
    pub fn effective_limit(&self, default_limit: usize, max_limit: usize) -> (n: usize)
        ensures
            n == match self.limit {
                Some(asked) => if asked <= max_limit {
                    asked
                } else {
                    max_limit
                },
                None => if default_limit <= max_limit {
                    default_limit
                } else {
                    max_limit
                },
            },
    {
        let asked = match self.limit {
            Some(asked) => asked,
            None => default_limit,
        };
        if asked <= max_limit {
            asked
        } else {
            max_limit
        }
    }
}

/// The result of an import.
#[derive(Debug, Clone)]
pub struct ImportResponse {
    /// Number of commands imported.
    pub imported: usize,
    /// Number of files passed over.
    pub skipped: usize,
    /// Status message.
    pub message: String,
}

/// An uploaded file.
#[derive(Debug, Clone)]
pub struct FileUpload {
    /// The bytes of the file.
    pub file: Vec<u8>,
}

impl FileUpload {
    /// The records that the uploaded file gives under the name `filename`,
    /// with the number of pages that were passed over.
    pub fn parse(&self, filename: &str) -> (r: Result<(Vec<Command>, usize), UpdateError>)
        ensures
            import_view(r) == file_commands(
                filename@,
                lossy_text(self.file@),
                zip_listing(self.file@),
                tar_gz_listing(self.file@),
                tar_listing(self.file@),
            ),
    {
        parse_file_data(filename, self.file.as_slice())
    }
}

/// The answer to an import of `imported` commands, or the error where
/// there is none to import.
pub fn import_outcome(imported: usize, skipped: usize) -> (r: Result<ImportResponse, ErrorResponse>)
    ensures
        imported == 0 ==> r is Err && r->Err_0.error@
            == "No valid Markdown files found. Files must follow tldr-pages format with description or examples."@,
        imported > 0 ==> r is Ok && r->Ok_0.imported == imported && r->Ok_0.skipped == skipped
            && r->Ok_0.message@ == "Successfully imported "@ + digits(imported as nat)
            + " commands"@,
{
    if imported == 0 {
        Err(
            ErrorResponse {
                error: "No valid Markdown files found. Files must follow tldr-pages format with description or examples.".to_owned(),
            },
        )
    } else {
        Ok(
            ImportResponse {
                imported,
                skipped,
                message: string_of(&framed("Successfully imported ", &decimal(imported), " commands")),
            },
        )
    }
}

/// The result of a reset.
#[derive(Debug, Clone)]
pub struct ResetResponse {
    /// Whether the reset succeeded.
    pub success: bool,
    /// Status message.
    pub message: String,
    /// What was deleted.
    pub deleted: Vec<String>,
}

/// The answer to a reset that went through: the commands, the metadata and
/// the search index are gone.
pub fn reset_done() -> (r: ResetResponse)
    ensures
        r.success,
        r.message@ == "All data has been reset. RTFM is now in factory state."@,
        strings(r.deleted@) == seq!["commands"@, "metadata"@, "search_index"@],
{
    let mut deleted: Vec<String> = Vec::new();
    deleted.push("commands".to_owned());
    deleted.push("metadata".to_owned());
    deleted.push("search_index".to_owned());
    assert(strings(deleted@) =~= seq!["commands"@, "metadata"@, "search_index"@]);
    ResetResponse {
        success: true,
        message: "All data has been reset. RTFM is now in factory state.".to_owned(),
        deleted,
    }
}

/// A release of the pages.
#[derive(Debug, Clone)]
pub struct ReleaseInfo {
    /// The version: the tag without `v` at its start.
    pub tag_name: String,
    /// Where the release is downloaded.
    pub download_url: Option<String>,
}

/// The version that a tag names: the tag without any `v` at its start.
pub open spec fn version_of(tag: Seq<char>) -> Seq<char> {
    strip_prefixes(tag, "v"@)
}

/// The address of a release: the template with the tag in the place of
/// each `{version}`.
pub open spec fn release_url(template: Seq<char>, tag: Seq<char>) -> Seq<char> {
    replace(template, "{version}"@, tag)
}

/// The release with the tag `tag`, or with the fallback tag where the
/// latest could not be asked for, to be downloaded by the template.
pub fn release_info(tag: Option<&str>, fallback: &str, template: &str) -> (r: ReleaseInfo)
    ensures
        r.tag_name@ == version_of(
            match tag {
                Some(t) => t@,
                None => fallback@,
            },
        ),
        r.download_url is Some,
        r.download_url->0@ == release_url(
            template@,
            match tag {
                Some(t) => t@,
                None => fallback@,
            },
        ),
{
    let name = match tag {
        Some(t) => chars_of(t),
        None => chars_of(fallback),
    };
    let hole = chars_of("{version}");
    proof {
        reveal_strlit("{version}");
    }
    ReleaseInfo {
        tag_name: string_of(&without_prefix(&name, &chars_of("v"))),
        download_url: Some(string_of(&replaced(&chars_of(template), &hole, &name))),
    }
}

/// What is known of an update.
#[derive(Debug, Clone)]
pub struct UpdateInfo {
    /// Whether the latest version differs from the installed one.
    pub available: bool,
    /// Installed version.
    pub current_version: String,
    /// Latest version.
    pub latest_version: String,
    /// Where the latest version is downloaded.
    pub download_url: Option<String>,
}

/// The index of the first asset at or after `from` whose name holds
/// `pages` and ends in `.zip`, or -1.
pub open spec fn first_pages_asset(assets: Seq<(Seq<char>, Seq<char>)>, from: int) -> int
    decreases assets.len() - from,
{
    if from < 0 || from >= assets.len() {
        -1
    } else if contains(assets[from].0, "pages"@) && ends_with(assets[from].0, ".zip"@) {
        from
    } else {
        first_pages_asset(assets, from + 1)
    }
}

/// What is known of an update once the latest release is known by its tag
/// and its assets, each a name with its address: the download is the
/// first asset whose name holds `pages` and ends in `.zip`, or, where
/// there is none, what the template gives.
pub fn update_info(
    current_version: String,
    tag: &str,
    assets: &Vec<(String, String)>,
    template: &str,
) -> (r: UpdateInfo)
    ensures
        r.current_version@ == current_version@,
        r.latest_version@ == version_of(tag@),
        r.available == (version_of(tag@) != current_version@),
        r.download_url is Some,
        r.download_url->0@ == if first_pages_asset(pairs(assets@), 0) >= 0 {
            pairs(assets@)[first_pages_asset(pairs(assets@), 0)].1
        } else {
            release_url(template@, tag@)
        },
{
    let latest = without_prefix(&chars_of(tag), &chars_of("v"));
    let available = !same(&latest, &chars_of(current_version.as_str()));
    let pages = chars_of("pages");
    let zip = chars_of(".zip");
    let mut k: usize = 0;
    while k < assets.len()
        invariant
            k <= assets.len(),
            pages@ == "pages"@,
            zip@ == ".zip"@,
            latest@ == version_of(tag@),
            available == (version_of(tag@) != current_version@),
            first_pages_asset(pairs(assets@), 0) == first_pages_asset(pairs(assets@), k as int),
        decreases assets.len() - k,
    {
        let name = chars_of(assets[k].0.as_str());
        if includes(&name, &pages) && finishes_with(&name, &zip) {
            return UpdateInfo {
                available,
                current_version,
                latest_version: string_of(&latest),
                download_url: Some(assets[k].1.clone()),
            };
        }
        k += 1;
    }
    let hole = chars_of("{version}");
    proof {
        reveal_strlit("{version}");
    }
    UpdateInfo {
        available,
        current_version,
        latest_version: string_of(&latest),
        download_url: Some(string_of(&replaced(&chars_of(template), &hole, &chars_of(tag)))),
    }
}

/// A request to learn one command.
#[derive(Debug, Clone)]
pub struct LearnQuery {
    /// Command name.
    pub command: String,
    /// Learn again what is known.
    pub force: bool,
    /// Ask the manual before the command itself.
    pub man: bool,
}

/// The result of learning one command.
#[derive(Debug, Clone)]
pub struct LearnResponse {
    /// Whether the command was learned.
    pub success: bool,
    /// Command name.
    pub command: String,
    /// Where the help text came from.
    pub source: String,
    /// Status message.
    pub message: String,
}

impl LearnQuery {
    /// The answer without learning, where the command is known and is not
    /// to be learned again.
    pub fn answer_if_known(&self, known: bool) -> (r: Option<LearnResponse>)
        ensures
            r is Some <==> known && !self.force,
            r is Some ==> !r->0.success && r->0.command@ == self.command@ && r->0.source@ == ""@
                && r->0.message@ == "Command '"@ + self.command@
                + "' already learned. Use force=true to re-learn."@,
    {
        if known && !self.force {
            Some(already_learned(self.command.as_str()))
        } else {
            None
        }
    }

    /// What to do next to learn the command on the operating system `os`
    /// after the runs `seen`.
    pub fn step(&self, os: &str, seen: &Vec<Launch>) -> (r: LearnStep)
        ensures
            r@ == learn_step(self.command@, os@ == "windows"@, self.man, launches(seen@)),
    {
        learn_command(self.command.as_str(), os, self.man, seen)
    }
}

/// The answer for a command that is known and was not to be learned again.
pub fn already_learned(command: &str) -> (r: LearnResponse)
    ensures
        !r.success,
        r.command@ == command@,
        r.source@ == ""@,
        r.message@ == "Command '"@ + command@ + "' already learned. Use force=true to re-learn."@,
{
    LearnResponse {
        success: false,
        command: command.to_owned(),
        source: "".to_owned(),
        message: string_of(
            &framed("Command '", &chars_of(command), "' already learned. Use force=true to re-learn."),
        ),
    }
}

/// The answer for a command that was learned from `source`.
pub fn learned(command: &str, source: String) -> (r: LearnResponse)
    ensures
        r.success,
        r.command@ == command@,
        r.source@ == source@,
        r.message@ == "Learned '"@ + command@ + "' successfully"@,
{
    LearnResponse {
        success: true,
        command: command.to_owned(),
        source,
        message: string_of(&framed("Learned '", &chars_of(command), "' successfully")),
    }
}

/// The error for a command of which no help text could be had.
pub fn no_help(command: &str, reason: &str) -> (r: ErrorResponse)
    ensures
        r.error@ == "Failed to get help for '"@ + command@ + "': "@ + reason@,
{
    ErrorResponse {
        error: string_of(
            &chain(&framed("Failed to get help for '", &chars_of(command), "': "), &chars_of(reason)),
        ),
    }
}

/// A request to learn many commands.
#[derive(Debug, Clone)]
pub struct LearnAllQuery {
    /// Section of the manual, for the source `man`.
    pub section: String,
    /// Largest number of commands; 0 for all.
    pub limit: usize,
    /// Pass over what is known.
    pub skip_existing: bool,
    /// Take only names with this prefix.
    pub prefix: Option<String>,
    /// `man`, `powershell`, `path` or `auto`.
    pub source: String,
}

/// The section where a request names none.
pub fn default_section() -> (r: String)
    ensures
        r@ == "1"@,
{
    "1".to_owned()
}

/// The source where a request names none.
pub fn default_source() -> (r: String)
    ensures
        r@ == "auto"@,
{
    "auto".to_owned()
}

/// The source that a request means: `auto` is `powershell` on Windows
/// and `man` elsewhere.
pub open spec fn actual_source(source: Seq<char>, windows: bool) -> Seq<char> {
    if source == "auto"@ {
        if windows {
            "powershell"@
        } else {
            "man"@
        }
    } else {
        source
    }
}

/// The source that a request means on the operating system `os`, or the
/// error where it is none of `man`, `powershell`, `path` and `auto`.
pub fn resolve_source(source: &str, os: &str) -> (r: Result<String, ErrorResponse>)
    ensures
        match r {
            Ok(actual) => actual@ == actual_source(source@, os@ == "windows"@) && (actual@
                == "man"@ || actual@ == "powershell"@ || actual@ == "path"@),
            Err(e) => actual_source(source@, os@ == "windows"@) != "man"@ && actual_source(
                source@,
                os@ == "windows"@,
            ) != "powershell"@ && actual_source(source@, os@ == "windows"@) != "path"@ && e.error@
                == "Unknown source '"@ + source@
                + "'. Use 'man', 'powershell', 'path', or 'auto'."@,
        },
{
    let actual = if str_same(source, "auto") {
        if str_same(os, "windows") {
            "powershell".to_owned()
        } else {
            "man".to_owned()
        }
    } else {
        source.to_owned()
    };
    if str_same(actual.as_str(), "man") || str_same(actual.as_str(), "powershell") || str_same(
        actual.as_str(),
        "path",
    ) {
        Ok(actual)
    } else {
        Err(
            ErrorResponse {
                error: string_of(
                    &framed(
                        "Unknown source '",
                        &chars_of(source),
                        "'. Use 'man', 'powershell', 'path', or 'auto'.",
                    ),
                ),
            },
        )
    }
}

/// A text with its letters made small, as `str::to_lowercase` makes them.
pub uninterp spec fn lowercase(text: Seq<char>) -> Seq<char>;

/// Calls `str::to_lowercase`, which makes every letter small by the rules
/// of Unicode.
#[verifier::external_body]
fn to_lowercase(s: &str) -> (r: String)
    ensures
        r@ == lowercase(s@),
{
    s.to_lowercase()
}

/// Tells whether a name is taken under a prefix: there is no prefix, or
/// the name begins with it, both with their letters made small.
pub open spec fn takes_name(name: Seq<char>, prefix: Option<Seq<char>>) -> bool {
    match prefix {
        Some(p) => starts_with(lowercase(name), lowercase(p)),
        None => true,
    }
}

/// The pages whose names are taken under the prefix, in their order.
pub open spec fn with_prefix(
    pages: Seq<(Seq<char>, Seq<char>)>,
    prefix: Option<Seq<char>>,
) -> Seq<(Seq<char>, Seq<char>)>
    decreases pages.len(),
{
    if pages.len() == 0 {
        seq![]
    } else if takes_name(pages.last().0, prefix) {
        with_prefix(pages.drop_last(), prefix).push(pages.last())
    } else {
        with_prefix(pages.drop_last(), prefix)
    }
}

/// The first `limit` of the pages, or all of them where `limit` is 0.
pub open spec fn limited(pages: Seq<(Seq<char>, Seq<char>)>, limit: nat) -> Seq<
    (Seq<char>, Seq<char>),
> {
    if limit > 0 && pages.len() > limit {
        pages.take(limit as int)
    } else {
        pages
    }
}

/// Tells whether a name with its letters made small begins with a prefix
/// with its letters made small.
pub fn name_has_prefix(small_name: &str, small_prefix: &str) -> (b: bool)
    ensures
        b == starts_with(small_name@, small_prefix@),
{
    begins_with(&chars_of(small_name), &chars_of(small_prefix))
}

/// The commands to learn among `pages`: those whose names begin with the
/// prefix, where there is one, without regard to the case of letters; of
/// these the first `limit`, where `limit` is not 0.
pub fn select_targets(pages: Vec<(String, String)>, prefix: Option<&str>, limit: usize) -> (r: Vec<
    (String, String),
>)
    ensures
        pairs(r@) == limited(
            with_prefix(
                pairs(pages@),
                match prefix {
                    Some(p) => Some(p@),
                    None => None,
                },
            ),
            limit as nat,
        ),
        limit > 0 ==> r.len() <= limit,
        r.len() <= pages.len(),
{
    let ghost wanted = match prefix {
        Some(p) => Some(p@),
        None => None,
    };
    let mut out: Vec<(String, String)> = Vec::new();
    let mut i: usize = 0;
    assert(pairs(out@) =~= seq![]);
    while i < pages.len()
        invariant
            i <= pages.len(),
            wanted == match prefix {
                Some(p) => Some(p@),
                None => None,
            },
            pairs(out@) == with_prefix(pairs(pages@).take(i as int), wanted),
            out.len() <= i,
        decreases pages.len() - i,
    {
        proof {
            let done = pairs(pages@).take(i + 1);
            assert(done.drop_last() =~= pairs(pages@).take(i as int));
            assert(done.last() == (pages[i as int].0@, pages[i as int].1@));
        }
        let taken = match prefix {
            Some(p) => name_has_prefix(
                to_lowercase(pages[i].0.as_str()).as_str(),
                to_lowercase(p).as_str(),
            ),
            None => true,
        };
        if taken {
            let ghost before = pairs(out@);
            out.push((pages[i].0.clone(), pages[i].1.clone()));
            assert(pairs(out@) =~= before.push((pages[i as int].0@, pages[i as int].1@)));
        }
        i += 1;
    }
    assert(pairs(pages@).take(i as int) =~= pairs(pages@));
    if limit > 0 && out.len() > limit {
        let ghost all = pairs(out@);
        out.truncate(limit);
        assert(pairs(out@) =~= all.take(limit as int));
    }
    out
}

impl Default for LearnAllQuery {
    fn default() -> (q: Self)
        ensures
            q.section@ == "1"@,
            q.limit == 0,
            !q.skip_existing,
            q.prefix is None,
            q.source@ == "auto"@,
    {
        LearnAllQuery {
            section: default_section(),
            limit: 0,
            skip_existing: false,
            prefix: None,
            source: default_source(),
        }
    }
}

impl LearnAllQuery {
    /// The source that the request means on the operating system `os`.
    pub fn actual_source(&self, os: &str) -> (r: Result<String, ErrorResponse>)
        ensures
            match r {
                Ok(actual) => actual@ == actual_source(self.source@, os@ == "windows"@) && (actual@
                    == "man"@ || actual@ == "powershell"@ || actual@ == "path"@),
                Err(e) => actual_source(self.source@, os@ == "windows"@) != "man"@
                    && actual_source(self.source@, os@ == "windows"@) != "powershell"@
                    && actual_source(self.source@, os@ == "windows"@) != "path"@ && e.error@
                    == "Unknown source '"@ + self.source@
                    + "'. Use 'man', 'powershell', 'path', or 'auto'."@,
            },
    {
        resolve_source(self.source.as_str(), os)
    }

    /// The commands to learn among `pages`.
    pub fn targets(&self, pages: Vec<(String, String)>) -> (r: Vec<(String, String)>)
        ensures
            pairs(r@) == limited(
                with_prefix(
                    pairs(pages@),
                    match self.prefix {
                        Some(p) => Some(p@),
                        None => None,
                    },
                ),
                self.limit as nat,
            ),
            self.limit > 0 ==> r.len() <= self.limit,
    {
        match &self.prefix {
            Some(p) => select_targets(pages, Some(p.as_str()), self.limit),
            None => select_targets(pages, None, self.limit),
        }
    }

    /// Tells whether a command is passed over: it is known, and what is
    /// known is to be passed over.
    pub fn skips(&self, known: bool) -> (b: bool)
        ensures
            b == (self.skip_existing && known),
    {
        self.skip_existing && known
    }
}

/// How the learning of one command of a batch ended.
#[derive(Debug, Clone, Copy, PartialEq, Eq)]
pub enum ItemOutcome {
    /// The command was known and passed over.
    Skipped,
    /// The command was learned.
    Learned,
    /// Its help text was had, but the record could not be kept.
    NotKept,
    /// No help text could be had.
    Failed,
}

/// The number of `wanted` among `outcomes`.
pub open spec fn count_of(outcomes: Seq<ItemOutcome>, wanted: ItemOutcome) -> nat
    decreases outcomes.len(),
{
    if outcomes.len() == 0 {
        0
    } else if outcomes.last() == wanted {
        count_of(outcomes.drop_last(), wanted) + 1
    } else {
        count_of(outcomes.drop_last(), wanted)
    }
}

/// The result of learning many commands.
#[derive(Debug, Clone)]
pub struct LearnAllResponse {
    /// Whether the batch ran.
    pub success: bool,
    /// Number of commands that were to be learned.
    pub total: usize,
    /// Number of commands learned.
    pub learned: usize,
    /// Number of commands passed over because they were known.
    pub skipped: usize,
    /// Number of commands of which no help text could be had.
    pub failed: usize,
    /// Status message.
    pub message: String,
}

/// The answer for a source that offers no command.
pub fn nothing_to_learn(source: &str) -> (r: LearnAllResponse)
    ensures
        r.success,
        r.total == 0 && r.learned == 0 && r.skipped == 0 && r.failed == 0,
        r.message@ == "No commands found for source '"@ + source@ + "'"@,
{
    LearnAllResponse {
        success: true,
        total: 0,
        learned: 0,
        skipped: 0,
        failed: 0,
        message: string_of(&framed("No commands found for source '", &chars_of(source), "'")),
    }
}

/// The answer for a batch whose commands ended as `outcomes` say, one for
/// each command: the counts of those learned, passed over and failed.
pub fn learn_all_summary(outcomes: &Vec<ItemOutcome>, source: &str) -> (r: LearnAllResponse)
    ensures
        r.success,
        r.total == outcomes.len(),
        r.learned == count_of(outcomes@, ItemOutcome::Learned),
        r.skipped == count_of(outcomes@, ItemOutcome::Skipped),
        r.failed == count_of(outcomes@, ItemOutcome::Failed),
        r.learned + r.skipped + r.failed <= r.total,
        r.message@ == "Learned "@ + digits(r.learned as nat) + " commands from source '"@
            + source@ + "'"@,
{
    let mut learned: usize = 0;
    let mut skipped: usize = 0;
    let mut failed: usize = 0;
    let mut i: usize = 0;
    while i < outcomes.len()
        invariant
            i <= outcomes.len(),
            learned == count_of(outcomes@.take(i as int), ItemOutcome::Learned),
            skipped == count_of(outcomes@.take(i as int), ItemOutcome::Skipped),
            failed == count_of(outcomes@.take(i as int), ItemOutcome::Failed),
            learned + skipped + failed <= i,
        decreases outcomes.len() - i,
    {
        proof {
            assert(outcomes@.take(i + 1).drop_last() =~= outcomes@.take(i as int));
        }
        match outcomes[i] {
            ItemOutcome::Learned => {
                learned += 1;
            },
            ItemOutcome::Skipped => {
                skipped += 1;
            },
            ItemOutcome::Failed => {
                failed += 1;
            },
            ItemOutcome::NotKept => {},
        }
        i += 1;
    }
    assert(outcomes@.take(i as int) =~= outcomes@);
    let mut message = framed("Learned ", &decimal(learned), " commands from source '");
    append(&mut message, &chars_of(source));
    append(&mut message, &chars_of("'"));
    LearnAllResponse {
        success: true,
        total: outcomes.len(),
        learned,
        skipped,
        failed,
        message: string_of(&message),
    }
}

/// Why a command could not be learned, as far as the two reasons tell.
#[derive(Debug, Clone, Copy, PartialEq, Eq)]
pub enum LearnFailure {
    /// The command is not there, and neither is `man`.
    NothingFound,
    /// The command is not there.
    CommandMissing,
    /// The command gave no help, and `man` is not there.
    ManMissing,
    /// The command is there and gave no help that can be used.
    NoUsableHelp,
}

/// Tells whether a reason says that a program is not there.
pub open spec fn says_missing(reason: Seq<char>) -> bool {
    contains(reason, "program not found"@) || contains(reason, "No such file"@) || contains(
        reason,
        "not recognized"@,
    ) || contains(reason, "command not found"@)
}

/// Tells from the reason why the command gave no help and the reason why
/// the manual gave none what to tell the user.
pub fn classify_learn_failure(help_reason: &str, man_reason: &str) -> (r: LearnFailure)
    ensures
        r == if says_missing(help_reason@) && contains(man_reason@, "program not found"@) {
            LearnFailure::NothingFound
        } else if says_missing(help_reason@) {
            LearnFailure::CommandMissing
        } else if contains(man_reason@, "program not found"@) {
            LearnFailure::ManMissing
        } else {
            LearnFailure::NoUsableHelp
        },
{
    let help = chars_of(help_reason);
    let man = chars_of(man_reason);
    let missing = includes(&help, &chars_of("program not found")) || includes(
        &help,
        &chars_of("No such file"),
    ) || includes(&help, &chars_of("not recognized")) || includes(
        &help,
        &chars_of("command not found"),
    );
    let no_man = includes(&man, &chars_of("program not found"));
    if missing && no_man {
        LearnFailure::NothingFound
    } else if missing {
        LearnFailure::CommandMissing
    } else if no_man {
        LearnFailure::ManMissing
    } else {
        LearnFailure::NoUsableHelp
    }
}

/// What a backup would hold.
#[derive(Debug, Clone)]
pub struct BackupInfo {
    /// Data directory.
    pub data_dir: String,
    /// Size of the database file, in bytes.
    pub db_size: u64,
    /// Size of the index, in bytes.
    pub index_size: u64,
    /// Number of stored commands.
    pub command_count: usize,
    /// Whether a configuration file is there.
    pub config_exists: bool,
}

} // verus!
