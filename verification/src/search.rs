use crate::storage::{command_views, Command, CommandView};
use crate::text::{append, chars_of, framed, join, string_of, strings};
use jieba_rs::Jieba;
use vstd::prelude::*;

verus! {

/// The segmenter of the `jieba_rs` crate, of which nothing is read here.
#[verifier::external_type_specification]
#[verifier::external_body]
pub struct ExJieba(Jieba);

/// The words into which the segmenter, with the dictionary that it ships
/// and its model for unknown words switched on, cuts a text.
pub uninterp spec fn jieba_words(text: Seq<char>) -> Seq<Seq<char>>;

/// Tells whether what a segmenter holds is the dictionary that the
/// `jieba_rs` crate ships, as `Jieba::new` loads it.
pub uninterp spec fn holds_embedded_dictionary(segmenter: Jieba) -> bool;

/// Calls `jieba_rs::Jieba::new`, which makes an empty segmenter and loads
/// into it the dictionary that the crate ships.
#[verifier::external_body]
fn new_segmenter() -> (segmenter: Jieba)
    ensures
        holds_embedded_dictionary(segmenter),
{
    Jieba::new()
}

/// Calls `jieba_rs::Jieba::cut` with the model for unknown words switched
/// on, and copies the words out. Believed: for a segmenter with the
/// dictionary that the crate ships, the words are a function of the text
/// alone.
#[verifier::external_body]
fn cut(segmenter: &Jieba, text: &str) -> (words: Vec<String>)
    requires
        holds_embedded_dictionary(*segmenter),
    ensures
        strings(words@) == jieba_words(text@),
{
    segmenter.cut(text, true).into_iter().map(|word| word.to_string()).collect()
}

/// Tells whether a character has a meaning of its own in the query
/// language of the index.
pub open spec fn is_special(c: char) -> bool {
    c == '+' || c == '-' || c == '!' || c == '(' || c == ')' || c == '{' || c == '}' || c == '['
        || c == ']' || c == '^' || c == '"' || c == '~' || c == '*' || c == '?' || c == ':' || c
        == '\\' || c == '/'
}

/// The text `s` with a backslash before each special character.
pub open spec fn escape(s: Seq<char>) -> Seq<char>
    decreases s.len(),
{
    if s.len() == 0 {
        seq![]
    } else if is_special(s.last()) {
        escape(s.drop_last()) + seq!['\\', s.last()]
    } else {
        escape(s.drop_last()) + seq![s.last()]
    }
}

/// Tells whether `s` holds no special character but after a backslash
/// that stands for nothing else: read from the left, a backslash takes the
/// character after it, and a character that no backslash took is not
/// special.
pub open spec fn is_escaped(s: Seq<char>) -> bool
    decreases s.len(),
{
    if s.len() == 0 {
        true
    } else if s[0] == '\\' {
        s.len() >= 2 && is_escaped(s.skip(2))
    } else {
        !is_special(s[0]) && is_escaped(s.skip(1))
    }
}

/// The text that stands escaped in `s`: `s` without the backslashes that
/// take the character after them.
pub open spec fn unescape(s: Seq<char>) -> Seq<char>
    decreases s.len(),
{
    if s.len() == 0 {
        seq![]
    } else if s[0] == '\\' && s.len() >= 2 {
        seq![s[1]] + unescape(s.skip(2))
    } else {
        seq![s[0]] + unescape(s.skip(1))
    }
}

/// The number of special characters in `s`.
pub open spec fn count_special(s: Seq<char>) -> nat
    decreases s.len(),
{
    if s.len() == 0 {
        0
    } else if is_special(s.last()) {
        count_special(s.drop_last()) + 1
    } else {
        count_special(s.drop_last())
    }
}

/// Two escaped texts, one after the other, are an escaped text, and what
/// stands escaped in it is what stands escaped in the two.
pub proof fn lemma_escaped_concat(a: Seq<char>, b: Seq<char>)
    requires
        is_escaped(a),
        is_escaped(b),
    ensures
        is_escaped(a + b),
        unescape(a + b) == unescape(a) + unescape(b),
    decreases a.len(),
{
    if a.len() == 0 {
        assert(a + b =~= b);
        assert(unescape(a) + unescape(b) =~= unescape(b));
    } else if a[0] == '\\' {
        assert((a + b).skip(2) =~= a.skip(2) + b);
        lemma_escaped_concat(a.skip(2), b);
        assert(unescape(a + b) =~= unescape(a) + unescape(b));
    } else {
        assert((a + b).skip(1) =~= a.skip(1) + b);
        lemma_escaped_concat(a.skip(1), b);
        assert(unescape(a + b) =~= unescape(a) + unescape(b));
    }
}

/// Escaping gives an escaped text in which the given text stands escaped,
/// and adds one character for each special character.
pub proof fn lemma_escape(s: Seq<char>)
    ensures
        is_escaped(escape(s)),
        unescape(escape(s)) == s,
        escape(s).len() == s.len() + count_special(s),
    decreases s.len(),
{
    if s.len() > 0 {
        lemma_escape(s.drop_last());
        let c = s.last();
        let tail = if is_special(c) {
            seq!['\\', c]
        } else {
            seq![c]
        };
        assert(is_escaped(tail)) by {
            if is_special(c) {
                assert(tail.skip(2) =~= seq![]);
                assert(is_escaped(tail.skip(2)));
            } else {
                assert(tail.skip(1) =~= seq![]);
                assert(is_escaped(tail.skip(1)));
            }
        }
        assert(unescape(tail) =~= seq![c]) by {
            if is_special(c) {
                assert(tail.skip(2) =~= seq![]);
                assert(unescape(tail.skip(2)) =~= seq![]);
            } else {
                assert(tail.skip(1) =~= seq![]);
                assert(unescape(tail.skip(1)) =~= seq![]);
            }
        }
        lemma_escaped_concat(escape(s.drop_last()), tail);
        assert(s.drop_last() + seq![c] =~= s);
    }
}

/// Puts a backslash before each character of `s` that has a meaning of
/// its own in the query language of the index.
pub fn escape_special_chars(s: &str) -> (r: String)
    ensures
        r@ == escape(s@),
{
    let v = chars_of(s);
    let mut out: Vec<char> = Vec::new();
    let mut i: usize = 0;
    while i < v.len()
        invariant
            i <= v.len(),
            out@ == escape(v@.take(i as int)),
        decreases v.len() - i,
    {
        let c = v[i];
        proof {
            assert(v@.take(i + 1).drop_last() =~= v@.take(i as int));
        }
        if c == '+' || c == '-' || c == '!' || c == '(' || c == ')' || c == '{' || c == '}' || c
            == '[' || c == ']' || c == '^' || c == '"' || c == '~' || c == '*' || c == '?' || c
            == ':' || c == '\\' || c == '/' {
            out.push('\\');
            out.push(c);
            assert(out@ =~= escape(v@.take(i as int)) + seq!['\\', c]);
        } else {
            out.push(c);
            assert(out@ =~= escape(v@.take(i as int)) + seq![c]);
        }
        i += 1;
    }
    assert(v@.take(i as int) =~= v@);
    string_of(&out)
}

/// Each of `words` escaped.
pub open spec fn escape_each(words: Seq<Seq<char>>) -> Seq<Seq<char>> {
    Seq::new(words.len(), |i: int| escape(words[i]))
}

/// The words of an indexed text as the index takes them: joined by one
/// space.
pub open spec fn indexed_text(words: Seq<Seq<char>>) -> Seq<char> {
    join(words, " "@)
}

/// The words of a query as the query language takes them: each escaped,
/// joined by one space.
pub open spec fn query_text(words: Seq<Seq<char>>) -> Seq<char> {
    join(escape_each(words), " "@)
}

/// The query of any words is an escaped text: no character of it is read
/// as an operator of the query language.
pub proof fn lemma_query_is_escaped(words: Seq<Seq<char>>)
    ensures
        is_escaped(query_text(words)),
    decreases words.len(),
{
    reveal_strlit(" ");
    let each = escape_each(words);
    if words.len() == 0 {
    } else if words.len() == 1 {
        lemma_escape(words[0]);
    } else {
        lemma_query_is_escaped(words.drop_last());
        assert(escape_each(words.drop_last()) =~= each.drop_last());
        lemma_escape(words.last());
        let space = " "@;
        assert(is_escaped(space)) by {
            assert(space.skip(1) =~= seq![]);
            assert(is_escaped(space.skip(1)));
        }
        lemma_escaped_concat(join(each.drop_last(), space), space);
        lemma_escaped_concat(join(each.drop_last(), space) + space, each.last());
    }
}

/// The words joined by one space.
pub fn join_words(words: &Vec<String>) -> (r: String)
    ensures
        r@ == indexed_text(strings(words@)),
{
    let space = chars_of(" ");
    let mut out: Vec<char> = Vec::new();
    let mut i: usize = 0;
    while i < words.len()
        invariant
            i <= words.len(),
            space@ == " "@,
            out@ == join(strings(words@).take(i as int), " "@),
        decreases words.len() - i,
    {
        proof {
            let done = strings(words@).take(i + 1);
            assert(done.drop_last() =~= strings(words@).take(i as int));
            assert(done.last() == words[i as int]@);
        }
        if i > 0 {
            append(&mut out, &space);
        }
        append(&mut out, &chars_of(words[i].as_str()));
        i += 1;
    }
    assert(strings(words@).take(i as int) =~= strings(words@));
    string_of(&out)
}

/// The words, each escaped, joined by one space.
pub fn escape_words(words: &Vec<String>) -> (r: String)
    ensures
        r@ == query_text(strings(words@)),
        is_escaped(r@),
{
    let space = chars_of(" ");
    let mut out: Vec<char> = Vec::new();
    let mut i: usize = 0;
    let ghost each = escape_each(strings(words@));
    while i < words.len()
        invariant
            i <= words.len(),
            space@ == " "@,
            each == escape_each(strings(words@)),
            out@ == join(each.take(i as int), " "@),
        decreases words.len() - i,
    {
        proof {
            let done = each.take(i + 1);
            assert(done.drop_last() =~= each.take(i as int));
            assert(done.last() == escape(words[i as int]@));
        }
        if i > 0 {
            append(&mut out, &space);
        }
        let escaped = escape_special_chars(words[i].as_str());
        append(&mut out, &chars_of(escaped.as_str()));
        i += 1;
    }
    proof {
        assert(each.take(i as int) =~= each);
        lemma_query_is_escaped(strings(words@));
    }
    string_of(&out)
}

/// The query that is put to the index: the escaped words alone, or, with
/// a language, in brackets and joined to an exact match on the language.
pub open spec fn composed_query(words: Seq<char>, lang: Option<Seq<char>>) -> Seq<char> {
    match lang {
        Some(l) => "("@ + words + ") AND lang:"@ + l,
        None => words,
    }
}

/// Puts the language filter, where there is one, to the escaped words of
/// a query.
pub fn compose_query(words: &str, lang: Option<&str>) -> (r: String)
    ensures
        r@ == composed_query(
            words@,
            match lang {
                Some(l) => Some(l@),
                None => None,
            },
        ),
{
    match lang {
        Some(l) => {
            let mut q = framed("(", &chars_of(words), ") AND lang:");
            append(&mut q, &chars_of(l));
            string_of(&q)
        },
        None => words.to_owned(),
    }
}

/// What the index holds of one command: name, description and content as
/// words joined by spaces, category and language as they are.
#[derive(Debug, Clone)]
pub struct IndexDoc {
    pub name: String,
    pub description: String,
    pub content: String,
    pub category: String,
    pub lang: String,
}

/// What an `IndexDoc` holds.
pub struct IndexDocView {
    pub name: Seq<char>,
    pub description: Seq<char>,
    pub content: Seq<char>,
    pub category: Seq<char>,
    pub lang: Seq<char>,
}

impl View for IndexDoc {
    type V = IndexDocView;

    open spec fn view(&self) -> IndexDocView {
        IndexDocView {
            name: self.name@,
            description: self.description@,
            content: self.content@,
            category: self.category@,
            lang: self.lang@,
        }
    }
}

/// The document that the index holds of a command.
pub open spec fn doc_of(cmd: CommandView) -> IndexDocView {
    IndexDocView {
        name: indexed_text(jieba_words(cmd.name)),
        description: indexed_text(jieba_words(cmd.description)),
        content: indexed_text(jieba_words(cmd.content)),
        category: cmd.category,
        lang: cmd.lang,
    }
}

/// The documents of the commands, in their order.
pub open spec fn docs_of(cmds: Seq<CommandView>) -> Seq<IndexDocView> {
    Seq::new(cmds.len(), |i: int| doc_of(cmds[i]))
}

/// One step of a change of the index.
#[derive(Debug, Clone)]
pub enum IndexOp {
    /// Mark every document for removal.
    DeleteAll,
    /// Add a document.
    Add(IndexDoc),
    /// Make the changes since the last commit lasting.
    Commit,
    /// Let searches see the last commit.
    Reload,
}

/// What an `IndexOp` holds.
pub enum IndexOpView {
    DeleteAll,
    Add(IndexDocView),
    Commit,
    Reload,
}

impl View for IndexOp {
    type V = IndexOpView;

    open spec fn view(&self) -> IndexOpView {
        match self {
            IndexOp::DeleteAll => IndexOpView::DeleteAll,
            IndexOp::Add(doc) => IndexOpView::Add(doc@),
            IndexOp::Commit => IndexOpView::Commit,
            IndexOp::Reload => IndexOpView::Reload,
        }
    }
}

/// What each of `v` holds.
pub open spec fn op_views(v: Seq<IndexOp>) -> Seq<IndexOpView> {
    Seq::new(v.len(), |i: int| v[i]@)
}

/// The index as its users see it: the documents of the last commit, those
/// that the writer holds and will commit, and those that searches see.
pub struct IndexModel {
    pub committed: Seq<IndexDocView>,
    pub staged: Seq<IndexDocView>,
    pub visible: Seq<IndexDocView>,
}

/// The index after one step.
pub open spec fn apply_op(m: IndexModel, op: IndexOpView) -> IndexModel {
    match op {
        IndexOpView::DeleteAll => IndexModel { staged: seq![], ..m },
        IndexOpView::Add(doc) => IndexModel { staged: m.staged.push(doc), ..m },
        IndexOpView::Commit => IndexModel { committed: m.staged, ..m },
        IndexOpView::Reload => IndexModel { visible: m.committed, ..m },
    }
}

/// The index after the steps `ops`, in order.
pub open spec fn apply_ops(m: IndexModel, ops: Seq<IndexOpView>) -> IndexModel
    decreases ops.len(),
{
    if ops.len() == 0 {
        m
    } else {
        apply_op(apply_ops(m, ops.drop_last()), ops.last())
    }
}

/// The `Add` steps for the documents `docs`.
pub open spec fn add_ops(docs: Seq<IndexDocView>) -> Seq<IndexOpView> {
    Seq::new(docs.len(), |i: int| IndexOpView::Add(docs[i]))
}

/// The steps of a full rebuild: remove all, add one document for each
/// command, commit, reload.
pub open spec fn rebuild_ops(cmds: Seq<CommandView>) -> Seq<IndexOpView> {
    seq![IndexOpView::DeleteAll] + add_ops(docs_of(cmds)) + seq![
        IndexOpView::Commit,
        IndexOpView::Reload,
    ]
}

/// The steps that add one command: add its document, commit, reload.
pub open spec fn upsert_ops(cmd: CommandView) -> Seq<IndexOpView> {
    seq![IndexOpView::Add(doc_of(cmd)), IndexOpView::Commit, IndexOpView::Reload]
}

/// The steps that empty the index: remove all, commit, reload.
pub open spec fn clear_ops() -> Seq<IndexOpView> {
    seq![IndexOpView::DeleteAll, IndexOpView::Commit, IndexOpView::Reload]
}

/// Adding documents to the writer leaves the rest of the index as it is.
pub proof fn lemma_add_ops(m: IndexModel, docs: Seq<IndexDocView>)
    ensures
        apply_ops(m, add_ops(docs)) == (IndexModel { staged: m.staged + docs, ..m }),
    decreases docs.len(),
{
    if docs.len() == 0 {
        assert(m.staged + docs =~= m.staged);
    } else {
        lemma_add_ops(m, docs.drop_last());
        assert(add_ops(docs).drop_last() =~= add_ops(docs.drop_last()));
        assert((m.staged + docs.drop_last()).push(docs.last()) =~= m.staged + docs);
    }
}

/// The steps `a` and then the steps `b` are the steps `a + b`.
pub proof fn lemma_apply_concat(m: IndexModel, a: Seq<IndexOpView>, b: Seq<IndexOpView>)
    ensures
        apply_ops(m, a + b) == apply_ops(apply_ops(m, a), b),
    decreases b.len(),
{
    if b.len() == 0 {
        assert(a + b =~= a);
    } else {
        lemma_apply_concat(m, a, b.drop_last());
        assert((a + b).drop_last() =~= a + b.drop_last());
    }
}

/// Steps that end with a reload leave nothing stale: searches see the
/// last commit.
pub proof fn lemma_reload_shows_commit(m: IndexModel, ops: Seq<IndexOpView>)
    requires
        ops.len() > 0,
        ops.last() == IndexOpView::Reload,
    ensures
        apply_ops(m, ops).visible == apply_ops(m, ops).committed,
{
}

/// One more step after the steps `ops`.
pub proof fn lemma_apply_push(m: IndexModel, ops: Seq<IndexOpView>, op: IndexOpView)
    ensures
        apply_ops(m, ops.push(op)) == apply_op(apply_ops(m, ops), op),
{
    assert(ops.push(op).drop_last() =~= ops);
}

/// After a full rebuild the index holds, and searches see, exactly one
/// document for each command, whatever it held before.
pub proof fn lemma_rebuild(m: IndexModel, cmds: Seq<CommandView>)
    ensures
        apply_ops(m, rebuild_ops(cmds)).visible == docs_of(cmds),
        apply_ops(m, rebuild_ops(cmds)).committed == docs_of(cmds),
        apply_ops(m, rebuild_ops(cmds)).staged == docs_of(cmds),
        apply_ops(m, rebuild_ops(cmds)).visible.len() == cmds.len(),
{
    let none = Seq::<IndexOpView>::empty();
    let head = seq![IndexOpView::DeleteAll];
    let adds = add_ops(docs_of(cmds));
    lemma_apply_push(m, none, IndexOpView::DeleteAll);
    assert(none.push(IndexOpView::DeleteAll) =~= head);
    let m1 = apply_ops(m, head);
    lemma_add_ops(m1, docs_of(cmds));
    lemma_apply_concat(m, head, adds);
    let m2 = apply_ops(m, head + adds);
    assert(m2.staged =~= docs_of(cmds));
    lemma_apply_push(m, head + adds, IndexOpView::Commit);
    lemma_apply_push(m, (head + adds).push(IndexOpView::Commit), IndexOpView::Reload);
    assert((head + adds).push(IndexOpView::Commit).push(IndexOpView::Reload) =~= rebuild_ops(
        cmds,
    ));
}

/// Rebuilding twice from the same commands gives what rebuilding once
/// gives: one document for each command.
pub proof fn lemma_rebuild_twice(m: IndexModel, cmds: Seq<CommandView>)
    ensures
        apply_ops(apply_ops(m, rebuild_ops(cmds)), rebuild_ops(cmds)) == apply_ops(
            m,
            rebuild_ops(cmds),
        ),
        apply_ops(apply_ops(m, rebuild_ops(cmds)), rebuild_ops(cmds)).visible.len() == cmds.len(),
{
    lemma_rebuild(m, cmds);
    lemma_rebuild(apply_ops(m, rebuild_ops(cmds)), cmds);
}

/// Adding one command to an index without changes in waiting puts its
/// document behind those that are there; adding it twice puts it there
/// twice.
pub proof fn lemma_upsert(m: IndexModel, cmd: CommandView)
    requires
        m.staged == m.committed,
    ensures
        apply_ops(m, upsert_ops(cmd)).visible == m.committed.push(doc_of(cmd)),
        apply_ops(m, upsert_ops(cmd)).visible == apply_ops(m, upsert_ops(cmd)).committed,
        apply_ops(m, upsert_ops(cmd)).staged == apply_ops(m, upsert_ops(cmd)).committed,
        apply_ops(apply_ops(m, upsert_ops(cmd)), upsert_ops(cmd)).visible == m.committed.push(
            doc_of(cmd),
        ).push(doc_of(cmd)),
{
    lemma_upsert_once(m, cmd);
    lemma_upsert_once(apply_ops(m, upsert_ops(cmd)), cmd);
}

proof fn lemma_upsert_once(m: IndexModel, cmd: CommandView)
    requires
        m.staged == m.committed,
    ensures
        apply_ops(m, upsert_ops(cmd)).visible == m.committed.push(doc_of(cmd)),
        apply_ops(m, upsert_ops(cmd)).committed == m.committed.push(doc_of(cmd)),
        apply_ops(m, upsert_ops(cmd)).staged == m.committed.push(doc_of(cmd)),
{
    let none = Seq::<IndexOpView>::empty();
    let add = IndexOpView::Add(doc_of(cmd));
    lemma_apply_push(m, none, add);
    lemma_apply_push(m, none.push(add), IndexOpView::Commit);
    lemma_apply_push(m, none.push(add).push(IndexOpView::Commit), IndexOpView::Reload);
    assert(none.push(add).push(IndexOpView::Commit).push(IndexOpView::Reload) =~= upsert_ops(cmd));
}

/// Emptying the index leaves no document, whatever it held.
pub proof fn lemma_clear(m: IndexModel)
    ensures
        apply_ops(m, clear_ops()).visible == Seq::<IndexDocView>::empty(),
        apply_ops(m, clear_ops()).committed == Seq::<IndexDocView>::empty(),
        apply_ops(m, clear_ops()).staged == Seq::<IndexDocView>::empty(),
{
    let none = Seq::<IndexOpView>::empty();
    lemma_apply_push(m, none, IndexOpView::DeleteAll);
    lemma_apply_push(m, none.push(IndexOpView::DeleteAll), IndexOpView::Commit);
    lemma_apply_push(
        m,
        none.push(IndexOpView::DeleteAll).push(IndexOpView::Commit),
        IndexOpView::Reload,
    );
    assert(none.push(IndexOpView::DeleteAll).push(IndexOpView::Commit).push(IndexOpView::Reload)
        =~= clear_ops());
}

/// One field of the index.
#[derive(Debug, Clone)]
pub struct IndexField {
    /// The name of the field.
    pub name: String,
    /// Whether the index hands the text of the field back with a hit.
    pub stored: bool,
    /// Whether a query without a field name is looked for in the field.
    pub searched: bool,
}

/// The fields of the index, all of them text: name and description are
/// searched and handed back, the content is searched only, category and
/// language are handed back and matched by their names only.
pub fn index_fields() -> (fields: Vec<IndexField>)
    ensures
        fields.len() == 5,
        fields[0].name@ == "name"@ && fields[0].stored && fields[0].searched,
        fields[1].name@ == "description"@ && fields[1].stored && fields[1].searched,
        fields[2].name@ == "content"@ && !fields[2].stored && fields[2].searched,
        fields[3].name@ == "category"@ && fields[3].stored && !fields[3].searched,
        fields[4].name@ == "lang"@ && fields[4].stored && !fields[4].searched,
{
    let mut fields: Vec<IndexField> = Vec::new();
    fields.push(IndexField { name: "name".to_owned(), stored: true, searched: true });
    fields.push(IndexField { name: "description".to_owned(), stored: true, searched: true });
    fields.push(IndexField { name: "content".to_owned(), stored: false, searched: true });
    fields.push(IndexField { name: "category".to_owned(), stored: true, searched: false });
    fields.push(IndexField { name: "lang".to_owned(), stored: true, searched: false });
    fields
}

/// One hit of a search. The score is kept as the bits of the 32-bit
/// floating-point number that the index gave.
#[derive(Debug, Clone)]
pub struct SearchResult {
    /// Command name.
    pub name: String,
    /// Command description.
    pub description: String,
    /// Command category.
    pub category: String,
    /// Language code.
    pub lang: String,
    /// The bits of the relevance score; a higher score is a better match.
    pub score_bits: u32,
}

/// The answer to a search.
#[derive(Debug, Clone)]
pub struct SearchResponse {
    /// The number of results.
    pub total: usize,
    /// The results, best first.
    pub results: Vec<SearchResult>,
    /// The time that the search took, in milliseconds.
    pub took_ms: u64,
}

/// What is asked of the index for a search.
#[derive(Debug, Clone)]
pub struct SearchRequest {
    /// The query in the query language of the index.
    pub query: String,
    /// The largest number of hits to fetch.
    pub limit: usize,
}

impl SearchRequest {
    /// Tells whether the index is to be asked at all: where no hit is
    /// wanted, the answer holds none, whatever the index holds.
    pub fn wants_hits(&self) -> (b: bool)
        ensures
            b == (self.limit > 0),
    {
        self.limit > 0
    }
}

/// The searching logic, with the segmenter that serves both the indexed
/// texts and the queries. It says what to write to the index and what to
/// ask of it; the index itself is with the caller, who carries the steps
/// out in order and gives up at the first that fails.
pub struct SearchEngine {
    segmenter: Jieba,
}

impl SearchEngine {
    /// Tells whether the segmenter of the engine holds the dictionary
    /// that the `jieba_rs` crate ships: the one for which `jieba_words`
    /// names the words of a text.
    pub closed spec fn has_embedded_dictionary(&self) -> bool {
        holds_embedded_dictionary(self.segmenter)
    }

    /// Every engine has a segmenter with the dictionary that the crate
    /// ships.
    #[verifier::type_invariant]
    spec fn ready(&self) -> bool {
        self.has_embedded_dictionary()
    }

    /// An engine with a segmenter of its own, newly made with the
    /// dictionary that the `jieba_rs` crate ships.
    pub fn open() -> (engine: SearchEngine)
        ensures
            engine.has_embedded_dictionary(),
    {
        SearchEngine { segmenter: new_segmenter() }
    }

    /// The text as the index takes it: its words joined by one space.
    pub fn tokenize_chinese(&self, text: &str) -> (r: String)
        ensures
            r@ == indexed_text(jieba_words(text@)),
    {
        proof {
            use_type_invariant(self);
        }
        let words = cut(&self.segmenter, text);
        join_words(&words)
    }

    /// The query text as the query language takes it: its words, each
    /// escaped, joined by one space. No character of the result is read as
    /// an operator.
    pub fn tokenize_and_escape(&self, text: &str) -> (r: String)
        ensures
            r@ == query_text(jieba_words(text@)),
            is_escaped(r@),
    {
        proof {
            use_type_invariant(self);
        }
        let words = cut(&self.segmenter, text);
        escape_words(&words)
    }

    /// The document that the index is to hold of a command.
    pub fn document(&self, cmd: &Command) -> (doc: IndexDoc)
        ensures
            doc@ == doc_of(cmd@),
    {
        IndexDoc {
            name: self.tokenize_chinese(cmd.name.as_str()),
            description: self.tokenize_chinese(cmd.description.as_str()),
            content: self.tokenize_chinese(cmd.content.as_str()),
            category: cmd.category.clone(),
            lang: cmd.lang.clone(),
        }
    }

    /// The steps that rebuild the index from `commands`.
    pub fn index_commands(&self, commands: &Vec<Command>) -> (ops: Vec<IndexOp>)
        ensures
            op_views(ops@) == rebuild_ops(command_views(commands@)),
    {
        let mut ops: Vec<IndexOp> = Vec::new();
        ops.push(IndexOp::DeleteAll);
        let ghost docs = docs_of(command_views(commands@));
        let mut i: usize = 0;
        assert(op_views(ops@) =~= seq![IndexOpView::DeleteAll] + add_ops(docs.take(0)));
        while i < commands.len()
            invariant
                i <= commands.len(),
                docs == docs_of(command_views(commands@)),
                op_views(ops@) == seq![IndexOpView::DeleteAll] + add_ops(docs.take(i as int)),
            decreases commands.len() - i,
        {
            let doc = self.document(&commands[i]);
            let ghost before = op_views(ops@);
            assert(docs[i as int] == doc@);
            ops.push(IndexOp::Add(doc));
            assert(op_views(ops@) =~= before.push(IndexOpView::Add(docs[i as int])));
            assert(add_ops(docs.take(i + 1)) =~= add_ops(docs.take(i as int)).push(
                IndexOpView::Add(docs[i as int]),
            ));
            assert(op_views(ops@) =~= seq![IndexOpView::DeleteAll] + add_ops(
                docs.take(i + 1),
            ));
            i += 1;
        }
        assert(docs.take(i as int) =~= docs);
        ops.push(IndexOp::Commit);
        ops.push(IndexOp::Reload);
        assert(op_views(ops@) =~= rebuild_ops(command_views(commands@)));
        ops
    }

    /// The steps that add one command to the index. A document that the
    /// index holds of the same command stays beside the new one until the
    /// next rebuild.
    pub fn index_single_command(&self, cmd: &Command) -> (ops: Vec<IndexOp>)
        ensures
            op_views(ops@) == upsert_ops(cmd@),
    {
        let mut ops: Vec<IndexOp> = Vec::new();
        ops.push(IndexOp::Add(self.document(cmd)));
        ops.push(IndexOp::Commit);
        ops.push(IndexOp::Reload);
        assert(op_views(ops@) =~= upsert_ops(cmd@));
        ops
    }

    /// The steps that empty the index.
    pub fn clear(&self) -> (ops: Vec<IndexOp>)
        ensures
            op_views(ops@) == clear_ops(),
    {
        let mut ops: Vec<IndexOp> = Vec::new();
        ops.push(IndexOp::DeleteAll);
        ops.push(IndexOp::Commit);
        ops.push(IndexOp::Reload);
        assert(op_views(ops@) =~= clear_ops());
        ops
    }

    /// The step that lets searches see the last commit.
    pub fn reload(&self) -> (ops: Vec<IndexOp>)
        ensures
            op_views(ops@) == seq![IndexOpView::Reload],
    {
        let mut ops: Vec<IndexOp> = Vec::new();
        ops.push(IndexOp::Reload);
        assert(op_views(ops@) =~= seq![IndexOpView::Reload]);
        ops
    }

    /// What to ask of the index for the query `query`, filtered by the
    /// language `lang` where there is one, for at most `limit` hits. The
    /// text is searched in the name, the description and the content.
    pub fn search(&self, query: &str, lang: Option<&str>, limit: usize) -> (request: SearchRequest)
        ensures
            request.limit == limit,
            request.query@ == composed_query(
                query_text(jieba_words(query@)),
                match lang {
                    Some(l) => Some(l@),
                    None => None,
                },
            ),
    {
        let words = self.tokenize_and_escape(query);
        SearchRequest { query: compose_query(words.as_str(), lang), limit }
    }
}

/// The answer made of the hits that the index gave, best first: at most
/// `limit` of them, with their number.
pub fn respond(hits: Vec<SearchResult>, limit: usize, took_ms: u64) -> (response: SearchResponse)
    ensures
        response.results@ == hits@.take(
            if hits.len() <= limit {
                hits.len() as int
            } else {
                limit as int
            },
        ),
        response.results.len() <= limit,
        response.total == response.results.len(),
        response.took_ms == took_ms,
{
    let mut results = hits;
    if results.len() > limit {
        results.truncate(limit);
    }
    assert(results@ =~= hits@.take(results.len() as int));
    SearchResponse { total: results.len(), results, took_ms }
}

} // verus!
