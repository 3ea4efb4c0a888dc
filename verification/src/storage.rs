use crate::text::{append, begins_with, chars_of, find_char, lemma_find_char_from, starts_with, string_of};
use vstd::prelude::*;

verus! {

/// One usage example of a command.
#[derive(Debug, Clone)]
pub struct Example {
    /// What the example does.
    pub description: String,
    /// The command line.
    pub code: String,
}

/// What an `Example` holds.
pub struct ExampleView {
    pub description: Seq<char>,
    pub code: Seq<char>,
}

impl View for Example {
    type V = ExampleView;

    open spec fn view(&self) -> ExampleView {
        ExampleView { description: self.description@, code: self.code@ }
    }
}

/// What each of `v` holds.
pub open spec fn example_views(v: Seq<Example>) -> Seq<ExampleView> {
    Seq::new(v.len(), |i: int| v[i]@)
}

/// A cheatsheet record: one command with its description and examples.
/// The pair of `lang` and `name` is the key under which it is stored.
#[derive(Debug, Clone)]
pub struct Command {
    /// Command name.
    pub name: String,
    /// Command description.
    pub description: String,
    /// Coarse classification, such as `common`, `linux` or `local`.
    pub category: String,
    /// Target platform.
    pub platform: String,
    /// Language code, such as `en` or `zh`.
    pub lang: String,
    /// Usage examples, in the order in which they were found.
    pub examples: Vec<Example>,
    /// The text from which the record was made.
    pub content: String,
}

/// What a `Command` holds.
pub struct CommandView {
    pub name: Seq<char>,
    pub description: Seq<char>,
    pub category: Seq<char>,
    pub platform: Seq<char>,
    pub lang: Seq<char>,
    pub examples: Seq<ExampleView>,
    pub content: Seq<char>,
}

impl View for Command {
    type V = CommandView;

    open spec fn view(&self) -> CommandView {
        CommandView {
            name: self.name@,
            description: self.description@,
            category: self.category@,
            platform: self.platform@,
            lang: self.lang@,
            examples: example_views(self.examples@),
            content: self.content@,
        }
    }
}

/// What each of `v` holds.
pub open spec fn command_views(v: Seq<Command>) -> Seq<CommandView> {
    Seq::new(v.len(), |i: int| v[i]@)
}

/// What is known of the stored data as a whole.
#[derive(Debug, Clone)]
pub struct Metadata {
    /// Data version.
    pub version: String,
    /// Number of stored commands.
    pub command_count: usize,
    /// When the data was last updated.
    pub last_update: String,
    /// Languages that the data holds.
    pub languages: Vec<String>,
}

/// The key of the record with language `lang` and name `name`: the
/// language, a colon, the name.
pub open spec fn key_of(lang: Seq<char>, name: Seq<char>) -> Seq<char> {
    lang + seq![':'] + name
}

/// The language component of a key: what stands before its first colon, or
/// all of it where it has none.
pub open spec fn key_lang(key: Seq<char>) -> Seq<char> {
    if find_char(key, ':') >= 0 {
        key.take(find_char(key, ':'))
    } else {
        key
    }
}

/// Tells whether a listing of language `lang` takes the record stored
/// under `key`: the key begins with the language and a colon.
pub open spec fn listed_under(key: Seq<char>, lang: Seq<char>) -> bool {
    starts_with(key, lang + seq![':'])
}

/// The key under which the record with this language and name is stored.
pub fn record_key(lang: &str, name: &str) -> (key: String)
    ensures
        key@ == key_of(lang@, name@),
{
    let mut k = chars_of(lang);
    k.push(':');
    let n = chars_of(name);
    append(&mut k, &n);
    string_of(&k)
}

/// Tells whether a listing of language `lang` takes the record stored
/// under `key`.
pub fn key_matches_lang(key: &str, lang: &str) -> (b: bool)
    ensures
        b == listed_under(key@, lang@),
{
    let k = chars_of(key);
    let mut p = chars_of(lang);
    p.push(':');
    assert(p@ =~= lang@ + seq![':']);
    begins_with(&k, &p)
}

/// The indices of the keys that a listing of language `lang` takes, in
/// ascending order.
pub fn keys_of_lang(keys: &Vec<String>, lang: &str) -> (picked: Vec<usize>)
    ensures
        forall|j: int| 0 <= j < picked.len() ==> 0 <= #[trigger] picked[j] < keys.len(),
        forall|j: int|
            0 <= j < picked.len() ==> listed_under(keys[#[trigger] picked[j] as int]@, lang@),
        forall|j: int, k: int| 0 <= j < k < picked.len() ==> picked[j] < picked[k],
        forall|i: int|
            0 <= i < keys.len() && listed_under(#[trigger] keys[i]@, lang@) ==> exists|j: int|
                0 <= j < picked.len() && picked[j] == i,
{
    let mut picked: Vec<usize> = Vec::new();
    let mut i: usize = 0;
    while i < keys.len()
        invariant
            i <= keys.len(),
            forall|j: int| 0 <= j < picked.len() ==> 0 <= #[trigger] picked[j] < i,
            forall|j: int|
                0 <= j < picked.len() ==> listed_under(keys[#[trigger] picked[j] as int]@, lang@),
            forall|j: int, k: int| 0 <= j < k < picked.len() ==> picked[j] < picked[k],
            forall|m: int|
                0 <= m < i && listed_under(#[trigger] keys[m]@, lang@) ==> exists|j: int|
                    0 <= j < picked.len() && picked[j] == m,
        decreases keys.len() - i,
    {
        if key_matches_lang(keys[i].as_str(), lang) {
            let ghost before = picked@;
            picked.push(i);
            assert forall|m: int|
                0 <= m < i + 1 && listed_under(#[trigger] keys[m]@, lang@) implies exists|j: int|
                0 <= j < picked.len() && picked[j] == m by {
                if m < i {
                    let j = choose|j: int| 0 <= j < before.len() && before[j] == m;
                    assert(picked[j] == m);
                } else {
                    assert(picked[picked.len() - 1] == m);
                }
            }
        }
        i += 1;
    }
    picked
}

/// A listing of a language that holds no colon takes only keys whose
/// language component is that language.
pub proof fn lemma_listing_takes_own_language(key: Seq<char>, lang: Seq<char>)
    requires
        find_char(lang, ':') == -1,
        listed_under(key, lang),
    ensures
        key_lang(key) == lang,
{
    let p = lang + seq![':'];
    let n = lang.len() as int;
    assert(key.subrange(0, n + 1) == p);
    assert forall|j: int| 0 <= j <= n implies key[j] == p[j] by {
        assert(key.subrange(0, n + 1)[j] == key[j]);
    }
    lemma_find_char_from(lang, ':', 0);
    lemma_find_char_from(key, ':', 0);
    assert(key[n] == ':');
    assert forall|j: int| 0 <= j < n implies key[j] != ':' by {
        assert(key[j] == lang[j]);
    }
    assert(find_char(key, ':') == n);
    assert(key.take(n) =~= lang);
}

/// The record with language `lang`, where that holds no colon, is stored
/// under a key whose language component is `lang`, and a listing of a
/// language without a colon takes it just when the language is `lang`.
pub proof fn lemma_key_keeps_language(lang: Seq<char>, name: Seq<char>, wanted: Seq<char>)
    requires
        find_char(lang, ':') == -1,
        find_char(wanted, ':') == -1,
    ensures
        key_lang(key_of(lang, name)) == lang,
        listed_under(key_of(lang, name), wanted) <==> wanted == lang,
{
    let key = key_of(lang, name);
    let p = lang + seq![':'];
    assert(key.subrange(0, lang.len() as int + 1) =~= p);
    lemma_listing_takes_own_language(key, lang);
    if listed_under(key, wanted) {
        lemma_listing_takes_own_language(key, wanted);
    }
}

/// The key tells the record: two records whose languages hold no colon
/// have the same key just when they have the same language and the same
/// name.
pub proof fn lemma_key_is_identity(
    lang: Seq<char>,
    name: Seq<char>,
    other_lang: Seq<char>,
    other_name: Seq<char>,
)
    requires
        find_char(lang, ':') == -1,
        find_char(other_lang, ':') == -1,
    ensures
        key_of(lang, name) == key_of(other_lang, other_name) <==> (lang == other_lang && name
            == other_name),
{
    if key_of(lang, name) == key_of(other_lang, other_name) {
        lemma_key_keeps_language(lang, name, lang);
        lemma_key_keeps_language(other_lang, other_name, other_lang);
        let key = key_of(lang, name);
        assert(key.skip(lang.len() as int + 1) =~= name);
        assert(key.skip(other_lang.len() as int + 1) =~= other_name);
    }
}

} // verus!
