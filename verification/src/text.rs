use vstd::prelude::*;

verus! {

/// The characters that count as white space: those with the Unicode
/// property `White_Space`.
pub open spec fn is_space(c: char) -> bool {
    ||| ('\u{9}' <= c && c <= '\u{d}')
    ||| c == ' '
    ||| c == '\u{85}'
    ||| c == '\u{a0}'
    ||| c == '\u{1680}'
    ||| ('\u{2000}' <= c && c <= '\u{200a}')
    ||| c == '\u{2028}'
    ||| c == '\u{2029}'
    ||| c == '\u{202f}'
    ||| c == '\u{205f}'
    ||| c == '\u{3000}'
}

/// Tells whether `c` is white space.
pub fn is_whitespace(c: char) -> (b: bool)
    ensures
        b == is_space(c),
{
    ('\u{9}' <= c && c <= '\u{d}') || c == ' ' || c == '\u{85}' || c == '\u{a0}' || c == '\u{1680}'
        || ('\u{2000}' <= c && c <= '\u{200a}') || c == '\u{2028}' || c == '\u{2029}' || c
        == '\u{202f}' || c == '\u{205f}' || c == '\u{3000}'
}

/// `c` with an ASCII capital letter replaced by its small letter.
pub open spec fn lower_char(c: char) -> char {
    if 'A' <= c && c <= 'Z' {
        ((c as u8) + 32) as char
    } else {
        c
    }
}

/// `s` with every ASCII capital letter replaced by its small letter.
pub open spec fn lower(s: Seq<char>) -> Seq<char> {
    Seq::new(s.len(), |i: int| lower_char(s[i]))
}

/// Tells whether `c` is an ASCII letter.
pub open spec fn is_ascii_letter(c: char) -> bool {
    ('a' <= c && c <= 'z') || ('A' <= c && c <= 'Z')
}

/// The index of the first character of `s` at or after `from` that is not
/// white space, or the length of `s` if there is none.
pub open spec fn skip_spaces(s: Seq<char>, from: int) -> int
    decreases s.len() - from,
{
    if 0 <= from < s.len() && is_space(s[from]) {
        skip_spaces(s, from + 1)
    } else {
        from
    }
}

/// The end of the part of `s` before `to` that does not end in white space.
pub open spec fn back_spaces(s: Seq<char>, to: int) -> int
    decreases to,
{
    if 0 < to <= s.len() && is_space(s[to - 1]) {
        back_spaces(s, to - 1)
    } else {
        to
    }
}

/// `s` without its leading white space.
pub open spec fn trim_start(s: Seq<char>) -> Seq<char> {
    s.skip(skip_spaces(s, 0))
}

/// `s` without its trailing white space.
pub open spec fn trim_end(s: Seq<char>) -> Seq<char> {
    s.take(back_spaces(s, s.len() as int))
}

/// `s` without its leading and trailing white space.
pub open spec fn trim(s: Seq<char>) -> Seq<char> {
    trim_end(trim_start(s))
}

/// Tells whether `p` occurs in `s` at index `i`.
pub open spec fn occurs_at(s: Seq<char>, p: Seq<char>, i: int) -> bool {
    0 <= i && i + p.len() <= s.len() && s.subrange(i, i + p.len()) == p
}

/// The index of the first occurrence of `p` in `s` at or after `from`, or
/// -1 if there is none.
pub open spec fn find_from(s: Seq<char>, p: Seq<char>, from: int) -> int
    decreases s.len() + 1 - from,
{
    if from < 0 || from + p.len() > s.len() {
        -1
    } else if occurs_at(s, p, from) {
        from
    } else {
        find_from(s, p, from + 1)
    }
}

/// The index of the first occurrence of `p` in `s`, or -1.
pub open spec fn find(s: Seq<char>, p: Seq<char>) -> int {
    find_from(s, p, 0)
}

/// Tells whether `p` occurs in `s`.
pub open spec fn contains(s: Seq<char>, p: Seq<char>) -> bool {
    find(s, p) >= 0
}

/// The index of the first character of `s` at or after `from` that equals
/// `c`, or -1 if there is none.
pub open spec fn find_char_from(s: Seq<char>, c: char, from: int) -> int
    decreases s.len() - from,
{
    if from < 0 || from >= s.len() {
        -1
    } else if s[from] == c {
        from
    } else {
        find_char_from(s, c, from + 1)
    }
}

/// The index of the first `c` in `s`, or -1.
pub open spec fn find_char(s: Seq<char>, c: char) -> int {
    find_char_from(s, c, 0)
}

/// The pieces of `s` between the occurrences of `sep`; at least one piece.
pub open spec fn split_char(s: Seq<char>, sep: char) -> Seq<Seq<char>>
    decreases s.len(),
{
    let i = find_char(s, sep);
    if 0 <= i < s.len() {
        seq![s.take(i)] + split_char(s.skip(i + 1), sep)
    } else {
        seq![s]
    }
}

/// The lines of `s`: the pieces that end at a line feed, each without a
/// carriage return before the line feed, and the rest of `s` after the last
/// line feed if that rest is not empty.
pub open spec fn lines(s: Seq<char>) -> Seq<Seq<char>>
    decreases s.len(),
{
    let i = find_char(s, '\n');
    if s.len() == 0 {
        seq![]
    } else if 0 <= i < s.len() {
        seq![strip_cr(s.take(i))] + lines(s.skip(i + 1))
    } else {
        seq![s]
    }
}

/// `s` without one carriage return at its end.
pub open spec fn strip_cr(s: Seq<char>) -> Seq<char> {
    if s.len() > 0 && s.last() == '\r' {
        s.drop_last()
    } else {
        s
    }
}

/// `s` with every occurrence of `from` replaced by `to`, the occurrences
/// taken from the left and not overlapping.
pub open spec fn replace(s: Seq<char>, from: Seq<char>, to: Seq<char>) -> Seq<char>
    recommends
        from.len() > 0,
    decreases s.len(),
{
    let i = find(s, from);
    if from.len() > 0 && 0 <= i && i + from.len() <= s.len() {
        s.take(i) + to + replace(s.skip(i + from.len()), from, to)
    } else {
        s
    }
}

/// `s` with every `from` replaced by `to`.
pub open spec fn replace_char(s: Seq<char>, from: char, to: char) -> Seq<char> {
    Seq::new(
        s.len(),
        |i: int|
            if s[i] == from {
                to
            } else {
                s[i]
            },
    )
}

/// Tells whether `s` begins with `p`.
pub open spec fn starts_with(s: Seq<char>, p: Seq<char>) -> bool {
    occurs_at(s, p, 0)
}

/// Tells whether `s` ends with `p`.
pub open spec fn ends_with(s: Seq<char>, p: Seq<char>) -> bool {
    occurs_at(s, p, s.len() - p.len())
}

/// `s` without any number of copies of `p` at its end.
pub open spec fn strip_suffixes(s: Seq<char>, p: Seq<char>) -> Seq<char>
    recommends
        p.len() > 0,
    decreases s.len(),
{
    if p.len() > 0 && ends_with(s, p) {
        strip_suffixes(s.take(s.len() - p.len()), p)
    } else {
        s
    }
}

/// `s` without any number of copies of `p` at its start.
pub open spec fn strip_prefixes(s: Seq<char>, p: Seq<char>) -> Seq<char>
    recommends
        p.len() > 0,
    decreases s.len(),
{
    if p.len() > 0 && starts_with(s, p) {
        strip_prefixes(s.skip(p.len() as int), p)
    } else {
        s
    }
}

/// The pieces of `parts` in one sequence, with `sep` between neighbours.
pub open spec fn join(parts: Seq<Seq<char>>, sep: Seq<char>) -> Seq<char>
    decreases parts.len(),
{
    if parts.len() == 0 {
        seq![]
    } else if parts.len() == 1 {
        parts[0]
    } else {
        join(parts.drop_last(), sep) + sep + parts.last()
    }
}

/// What each of `v` holds.
pub open spec fn views(v: Seq<Vec<char>>) -> Seq<Seq<char>> {
    Seq::new(v.len(), |i: int| v[i]@)
}

/// What each of `v` holds.
pub open spec fn strings(v: Seq<String>) -> Seq<Seq<char>> {
    Seq::new(v.len(), |i: int| v[i]@)
}

/// What each pair of `v` holds.
pub open spec fn pairs(v: Seq<(String, String)>) -> Seq<(Seq<char>, Seq<char>)> {
    Seq::new(v.len(), |i: int| (v[i].0@, v[i].1@))
}

/// The characters of `s`, in order.
pub fn chars_of(s: &str) -> (v: Vec<char>)
    ensures
        v@ == s@,
{
    let mut v: Vec<char> = Vec::new();
    for c in it: s.chars()
        invariant
            v@ == it.seq().take(it.index() as int),
            it.seq() == s@,
    {
        v.push(c);
    }
    v
}

/// Appends one character to a string, as `String::push` does.
#[verifier::external_body]
fn push_char(s: &mut String, c: char)
    ensures
        final(s)@ == old(s)@.push(c),
{
    s.push(c)
}

/// The string made of the characters of `v`.
pub fn string_of(v: &Vec<char>) -> (s: String)
    ensures
        s@ == v@,
{
    let mut s = String::new();
    let mut i: usize = 0;
    while i < v.len()
        invariant
            i <= v.len(),
            s@ == v@.take(i as int),
        decreases v.len() - i,
    {
        push_char(&mut s, v[i]);
        i += 1;
    }
    s
}

/// The part of `v` from `from` up to `to`.
pub fn slice(v: &Vec<char>, from: usize, to: usize) -> (r: Vec<char>)
    requires
        from <= to <= v.len(),
    ensures
        r@ == v@.subrange(from as int, to as int),
{
    let mut r: Vec<char> = Vec::new();
    let mut i: usize = from;
    while i < to
        invariant
            from <= i <= to <= v.len(),
            r@ == v@.subrange(from as int, i as int),
        decreases to - i,
    {
        r.push(v[i]);
        i += 1;
    }
    r
}

/// Appends the characters of `tail` to `v`.
pub fn append(v: &mut Vec<char>, tail: &Vec<char>)
    ensures
        final(v)@ == old(v)@ + tail@,
{
    let mut i: usize = 0;
    while i < tail.len()
        invariant
            i <= tail.len(),
            v@ == old(v)@ + tail@.take(i as int),
        decreases tail.len() - i,
    {
        v.push(tail[i]);
        i += 1;
    }
}

/// ASCII capital letters made small.
pub fn to_lower(v: &Vec<char>) -> (r: Vec<char>)
    ensures
        r@ == lower(v@),
{
    let mut r: Vec<char> = Vec::new();
    let mut i: usize = 0;
    while i < v.len()
        invariant
            i <= v.len(),
            r@ == lower(v@).take(i as int),
        decreases v.len() - i,
    {
        let c = v[i];
        if 'A' <= c && c <= 'Z' {
            r.push(((c as u8) + 32) as char);
        } else {
            r.push(c);
        }
        i += 1;
    }
    r
}

/// `v` without its leading and trailing white space.
pub fn trimmed(v: &Vec<char>) -> (r: Vec<char>)
    ensures
        r@ == trim(v@),
{
    let mut a: usize = 0;
    while a < v.len() && is_whitespace(v[a])
        invariant
            a <= v.len(),
            skip_spaces(v@, 0) == skip_spaces(v@, a as int),
        decreases v.len() - a,
    {
        a += 1;
    }
    let ghost t = v@.skip(a as int);
    let mut b: usize = v.len();
    while b > a && is_whitespace(v[b - 1])
        invariant
            a <= b <= v.len(),
            t == v@.skip(a as int),
            back_spaces(t, t.len() as int) == back_spaces(t, b - a),
        decreases b,
    {
        b -= 1;
    }
    assert(t.take(b - a) =~= v@.subrange(a as int, b as int));
    slice(v, a, b)
}

/// Tells whether `p` occurs in `v` at index `i`.
pub fn matches_at(v: &Vec<char>, p: &Vec<char>, i: usize) -> (b: bool)
    ensures
        b == occurs_at(v@, p@, i as int),
{
    if p.len() > v.len() || i > v.len() - p.len() {
        return false;
    }
    let mut k: usize = 0;
    while k < p.len()
        invariant
            k <= p.len(),
            i + p.len() <= v.len(),
            forall|j: int| 0 <= j < k ==> v@[i + j] == p@[j],
        decreases p.len() - k,
    {
        if v[i + k] != p[k] {
            assert(v@.subrange(i as int, i + p.len())[k as int] == v@[i + k]);
            return false;
        }
        k += 1;
    }
    assert(v@.subrange(i as int, i + p.len()) =~= p@);
    true
}

/// Tells whether `v` begins with `p`.
pub fn begins_with(v: &Vec<char>, p: &Vec<char>) -> (b: bool)
    ensures
        b == starts_with(v@, p@),
{
    matches_at(v, p, 0)
}

/// Tells whether `v` ends with `p`.
pub fn finishes_with(v: &Vec<char>, p: &Vec<char>) -> (b: bool)
    ensures
        b == ends_with(v@, p@),
{
    if p.len() > v.len() {
        return false;
    }
    matches_at(v, p, v.len() - p.len())
}

/// What `find_from` returns lies at or after `from`, and `p` occurs there.
pub proof fn lemma_find_from(s: Seq<char>, p: Seq<char>, from: int)
    requires
        0 <= from,
    ensures
        find_from(s, p, from) == -1 || (from <= find_from(s, p, from) && occurs_at(
            s,
            p,
            find_from(s, p, from),
        )),
        forall|j: int|
            from <= j && (j < find_from(s, p, from) || find_from(s, p, from) == -1)
                ==> !occurs_at(s, p, j),
    decreases s.len() + 1 - from,
{
    if from + p.len() > s.len() {
    } else if occurs_at(s, p, from) {
    } else {
        lemma_find_from(s, p, from + 1);
    }
}

/// Searching `s` from `from` on is searching what is left of `s` after
/// `from` characters.
pub proof fn lemma_find_skip(s: Seq<char>, p: Seq<char>, from: int, k: int)
    requires
        0 <= from <= s.len(),
        0 <= k,
    ensures
        find_from(s.skip(from), p, k) == if find_from(s, p, from + k) == -1 {
            -1
        } else {
            find_from(s, p, from + k) - from
        },
    decreases s.len() + 1 - from - k,
{
    let t = s.skip(from);
    if k + p.len() > t.len() {
    } else {
        assert(t.subrange(k, k + p.len()) =~= s.subrange(from + k, from + k + p.len()));
        if occurs_at(t, p, k) {
        } else {
            lemma_find_skip(s, p, from, k + 1);
        }
    }
}

/// The index of the first occurrence of `p` in `v` at or after `from`.
pub fn find_at(v: &Vec<char>, p: &Vec<char>, from: usize) -> (r: Option<usize>)
    ensures
        match r {
            Some(i) => find_from(v@, p@, from as int) == i,
            None => find_from(v@, p@, from as int) == -1,
        },
{
    if p.len() > v.len() || from > v.len() - p.len() {
        return None;
    }
    let last: usize = v.len() - p.len();
    let mut i: usize = from;
    loop
        invariant
            from <= i <= last,
            last == v.len() - p.len(),
            find_from(v@, p@, from as int) == find_from(v@, p@, i as int),
        decreases last - i,
    {
        if matches_at(v, p, i) {
            return Some(i);
        }
        if i == last {
            assert(find_from(v@, p@, i + 1) == -1);
            return None;
        }
        i += 1;
    }
}

/// Tells whether `p` occurs in `v`.
pub fn includes(v: &Vec<char>, p: &Vec<char>) -> (b: bool)
    ensures
        b == contains(v@, p@),
{
    find_at(v, p, 0).is_some()
}

/// What `find_char_from` returns lies at or after `from`, and the
/// character is there and nowhere before.
pub proof fn lemma_find_char_from(s: Seq<char>, c: char, from: int)
    requires
        0 <= from,
    ensures
        find_char_from(s, c, from) == -1 || (from <= find_char_from(s, c, from) < s.len()
            && s[find_char_from(s, c, from)] == c),
        forall|j: int|
            from <= j < s.len() && (j < find_char_from(s, c, from) || find_char_from(s, c, from)
                == -1) ==> s[j] != c,
    decreases s.len() - from,
{
    if from >= s.len() {
    } else if s[from] == c {
    } else {
        lemma_find_char_from(s, c, from + 1);
    }
}

/// The index of the first `c` in `v` at or after `from`.
pub fn char_position(v: &Vec<char>, c: char, from: usize) -> (r: Option<usize>)
    ensures
        match r {
            Some(i) => find_char_from(v@, c, from as int) == i,
            None => find_char_from(v@, c, from as int) == -1,
        },
{
    let mut i: usize = from;
    while i < v.len()
        invariant
            from <= i,
            find_char_from(v@, c, from as int) == find_char_from(v@, c, i as int),
        decreases v.len() - i,
    {
        if v[i] == c {
            return Some(i);
        }
        i += 1;
    }
    None
}

/// Searching `s` for a character from `from` on is searching what is left
/// of `s` after `from` characters.
pub proof fn lemma_find_char_skip(s: Seq<char>, c: char, from: int, k: int)
    requires
        0 <= from <= s.len(),
        0 <= k,
    ensures
        find_char_from(s.skip(from), c, k) == if find_char_from(s, c, from + k) == -1 {
            -1
        } else {
            find_char_from(s, c, from + k) - from
        },
    decreases s.len() - from - k,
{
    let t = s.skip(from);
    if k >= t.len() {
    } else if t[k] == c {
    } else {
        lemma_find_char_skip(s, c, from, k + 1);
    }
}

/// The lines of `v`.
pub fn split_lines(v: &Vec<char>) -> (out: Vec<Vec<char>>)
    ensures
        views(out@) == lines(v@),
{
    let mut out: Vec<Vec<char>> = Vec::new();
    let mut start: usize = 0;
    assert(v@.skip(0) =~= v@);
    assert(views(out@) + lines(v@) =~= lines(v@));
    while start < v.len()
        invariant
            start <= v.len(),
            lines(v@) == views(out@) + lines(v@.skip(start as int)),
        decreases v.len() - start,
    {
        let ghost rest = v@.skip(start as int);
        let ghost before = views(out@);
        proof {
            lemma_find_char_skip(v@, '\n', start as int, 0);
            lemma_find_char_from(v@, '\n', start as int);
        }
        match char_position(v, '\n', start) {
            Some(i) => {
                let mut end: usize = i;
                if end > start && v[end - 1] == '\r' {
                    end -= 1;
                }
                let line = slice(v, start, end);
                proof {
                    assert(rest.take(i - start) =~= v@.subrange(start as int, i as int));
                    assert(line@ =~= strip_cr(rest.take(i - start)));
                    assert(rest.skip(i - start + 1) =~= v@.skip(i + 1));
                }
                out.push(line);
                assert(views(out@) =~= before + seq![line@]);
                assert(before + (seq![line@] + lines(v@.skip(i + 1))) =~= before + seq![line@]
                    + lines(v@.skip(i + 1)));
                start = i + 1;
            },
            None => {
                let line = slice(v, start, v.len());
                assert(line@ =~= rest);
                out.push(line);
                assert(views(out@) =~= before + seq![rest]);
                start = v.len();
                assert(lines(v@.skip(start as int)) =~= seq![]);
                assert(before + seq![rest] + Seq::<Seq<char>>::empty() =~= before + seq![rest]);
            },
        }
    }
    assert(lines(v@.skip(start as int)) =~= seq![]);
    assert(views(out@) + Seq::<Seq<char>>::empty() =~= views(out@));
    out
}

/// The pieces of `v` between the occurrences of `sep`.
pub fn split_at_char(v: &Vec<char>, sep: char) -> (out: Vec<Vec<char>>)
    ensures
        views(out@) == split_char(v@, sep),
        out.len() >= 1,
{
    let mut out: Vec<Vec<char>> = Vec::new();
    let mut start: usize = 0;
    assert(v@.skip(0) =~= v@);
    assert(views(out@) + split_char(v@, sep) =~= split_char(v@, sep));
    loop
        invariant
            start <= v.len(),
            split_char(v@, sep) == views(out@) + split_char(v@.skip(start as int), sep),
        decreases v.len() - start,
    {
        let ghost rest = v@.skip(start as int);
        let ghost before = views(out@);
        proof {
            lemma_find_char_skip(v@, sep, start as int, 0);
            lemma_find_char_from(v@, sep, start as int);
        }
        match char_position(v, sep, start) {
            Some(i) => {
                let piece = slice(v, start, i);
                proof {
                    assert(rest.take(i - start) =~= v@.subrange(start as int, i as int));
                    assert(rest.skip(i - start + 1) =~= v@.skip(i + 1));
                }
                out.push(piece);
                assert(views(out@) =~= before + seq![piece@]);
                assert(before + (seq![piece@] + split_char(v@.skip(i + 1), sep)) =~= before
                    + seq![piece@] + split_char(v@.skip(i + 1), sep));
                start = i + 1;
            },
            None => {
                let piece = slice(v, start, v.len());
                assert(piece@ =~= rest);
                out.push(piece);
                assert(views(out@) =~= before + seq![rest]);
                return out;
            },
        }
    }
}

/// The piece of `s` between the first occurrence of `sep` and the next
/// one after it, or the end of `s`; `None` where `sep` does not occur.
pub open spec fn second_piece(s: Seq<char>, sep: Seq<char>) -> Option<Seq<char>> {
    let i = find(s, sep);
    if i < 0 {
        None
    } else {
        let rest = s.skip(i + sep.len());
        let j = find(rest, sep);
        Some(
            if j < 0 {
                rest
            } else {
                rest.take(j)
            },
        )
    }
}

/// The piece of `v` between the first occurrence of `sep` and the next.
pub fn piece_after(v: &Vec<char>, sep: &Vec<char>) -> (r: Option<Vec<char>>)
    ensures
        match r {
            Some(piece) => second_piece(v@, sep@) == Some(piece@),
            None => second_piece(v@, sep@) is None,
        },
{
    match find_at(v, sep, 0) {
        None => None,
        Some(i) => {
            proof {
                lemma_find_from(v@, sep@, 0);
                lemma_find_skip(v@, sep@, i + sep.len(), 0);
                lemma_find_from(v@, sep@, i + sep.len());
            }
            let total: usize = v.len();
            assert(i + sep.len() <= total);
            let from: usize = i + sep.len();
            let ghost rest = v@.skip(from as int);
            match find_at(v, sep, from) {
                None => {
                    let piece = slice(v, from, v.len());
                    assert(piece@ =~= rest);
                    Some(piece)
                },
                Some(j) => {
                    let piece = slice(v, from, j);
                    assert(piece@ =~= rest.take(j - from));
                    Some(piece)
                },
            }
        },
    }
}

/// `v` with every occurrence of `from` replaced by `to`.
pub fn replaced(v: &Vec<char>, from: &Vec<char>, to: &Vec<char>) -> (out: Vec<char>)
    requires
        from.len() > 0,
    ensures
        out@ == replace(v@, from@, to@),
{
    let mut out: Vec<char> = Vec::new();
    let mut start: usize = 0;
    assert(v@.skip(0) =~= v@);
    assert(out@ + replace(v@, from@, to@) =~= replace(v@, from@, to@));
    loop
        invariant
            start <= v.len(),
            from.len() > 0,
            replace(v@, from@, to@) == out@ + replace(v@.skip(start as int), from@, to@),
        decreases v.len() - start,
    {
        let ghost rest = v@.skip(start as int);
        let ghost before = out@;
        proof {
            lemma_find_skip(v@, from@, start as int, 0);
            lemma_find_from(v@, from@, start as int);
        }
        match find_at(v, from, start) {
            Some(i) => {
                let kept = slice(v, start, i);
                append(&mut out, &kept);
                append(&mut out, to);
                proof {
                    assert(rest.take(i - start) =~= kept@);
                    assert(rest.skip(i - start + from.len()) =~= v@.skip(i + from.len()));
                    assert(out@ =~= before + (rest.take(i - start) + to@));
                    assert(before + (rest.take(i - start) + to@ + replace(
                        v@.skip(i + from.len()),
                        from@,
                        to@,
                    )) =~= out@ + replace(v@.skip(i + from.len()), from@, to@));
                }
                start = i + from.len();
            },
            None => {
                let kept = slice(v, start, v.len());
                assert(kept@ =~= rest);
                append(&mut out, &kept);
                return out;
            },
        }
    }
}

/// `v` with every `from` replaced by `to`.
pub fn replaced_char(v: &Vec<char>, from: char, to: char) -> (out: Vec<char>)
    ensures
        out@ == replace_char(v@, from, to),
{
    let mut out: Vec<char> = Vec::new();
    let mut i: usize = 0;
    while i < v.len()
        invariant
            i <= v.len(),
            out@ == replace_char(v@, from, to).take(i as int),
        decreases v.len() - i,
    {
        if v[i] == from {
            out.push(to);
        } else {
            out.push(v[i]);
        }
        i += 1;
    }
    out
}

/// `v` without any number of copies of `p` at its end.
pub fn without_suffix(v: &Vec<char>, p: &Vec<char>) -> (r: Vec<char>)
    ensures
        r@ == strip_suffixes(v@, p@),
{
    let mut n: usize = v.len();
    assert(v@.take(n as int) =~= v@);
    if p.len() > 0 {
        while n >= p.len() && matches_at(v, p, n - p.len())
            invariant
                n <= v.len(),
                p.len() > 0,
                strip_suffixes(v@, p@) == strip_suffixes(v@.take(n as int), p@),
            decreases n,
        {
            let ghost t = v@.take(n as int);
            assert(t.subrange(n - p.len(), n as int) =~= v@.subrange(n - p.len(), n as int));
            assert(t.take(t.len() - p.len()) =~= v@.take(n - p.len()));
            n -= p.len();
        }
        proof {
            let t = v@.take(n as int);
            if n >= p.len() {
                assert(t.subrange(n - p.len(), n as int) =~= v@.subrange(n - p.len(), n as int));
            }
        }
    }
    slice(v, 0, n)
}

/// `v` without any number of copies of `p` at its start.
pub fn without_prefix(v: &Vec<char>, p: &Vec<char>) -> (r: Vec<char>)
    ensures
        r@ == strip_prefixes(v@, p@),
{
    let mut n: usize = 0;
    assert(v@.skip(0) =~= v@);
    if p.len() > 0 {
        while matches_at(v, p, n)
            invariant
                n <= v.len(),
                p.len() > 0,
                strip_prefixes(v@, p@) == strip_prefixes(v@.skip(n as int), p@),
            decreases v.len() - n,
        {
            let ghost t = v@.skip(n as int);
            assert(t.subrange(0, p.len() as int) =~= v@.subrange(n as int, n + p.len()));
            assert(t.skip(p.len() as int) =~= v@.skip(n + p.len()));
            n += p.len();
        }
        proof {
            let t = v@.skip(n as int);
            if n + p.len() <= v.len() {
                assert(t.subrange(0, p.len() as int) =~= v@.subrange(n as int, n + p.len()));
            }
        }
    }
    slice(v, n, v.len())
}

/// Tells whether `v` and `w` hold the same characters.
pub fn same(v: &Vec<char>, w: &Vec<char>) -> (b: bool)
    ensures
        b == (v@ == w@),
{
    if v.len() != w.len() {
        return false;
    }
    let mut i: usize = 0;
    while i < v.len()
        invariant
            i <= v.len(),
            v.len() == w.len(),
            forall|j: int| 0 <= j < i ==> v@[j] == w@[j],
        decreases v.len() - i,
    {
        if v[i] != w[i] {
            return false;
        }
        i += 1;
    }
    assert(v@ =~= w@);
    true
}

/// Tells whether the text `s` is the text `t`.
pub fn str_same(s: &str, t: &str) -> (b: bool)
    ensures
        b == (s@ == t@),
{
    same(&chars_of(s), &chars_of(t))
}

/// The characters of `a` followed by those of `b`.
pub fn chain(a: &Vec<char>, b: &Vec<char>) -> (r: Vec<char>)
    ensures
        r@ == a@ + b@,
{
    let mut r: Vec<char> = Vec::new();
    append(&mut r, a);
    append(&mut r, b);
    assert(r@ =~= a@ + b@);
    r
}

/// The text `a`, then `b`, then the text `c`.
pub fn framed(a: &str, b: &Vec<char>, c: &str) -> (r: Vec<char>)
    ensures
        r@ == a@ + b@ + c@,
{
    let mut r = chars_of(a);
    append(&mut r, b);
    append(&mut r, &chars_of(c));
    r
}

/// Tells whether `s` holds a character that is no white space.
pub open spec fn has_ink(s: Seq<char>) -> bool {
    exists|k: int| 0 <= k < s.len() && !is_space(#[trigger] s[k])
}

/// Where the white space from `from` on ends: all before that place is
/// white space, and what stands there is none.
pub proof fn lemma_skip_spaces(s: Seq<char>, from: int)
    requires
        0 <= from <= s.len(),
    ensures
        from <= skip_spaces(s, from) <= s.len(),
        skip_spaces(s, from) == s.len() || !is_space(s[skip_spaces(s, from)]),
        forall|k: int| from <= k < skip_spaces(s, from) ==> is_space(#[trigger] s[k]),
    decreases s.len() - from,
{
    if from < s.len() && is_space(s[from]) {
        lemma_skip_spaces(s, from + 1);
    }
}

/// Where the white space before `to` begins: all from that place on is
/// white space, and what stands before it is none.
pub proof fn lemma_back_spaces(s: Seq<char>, to: int)
    requires
        0 <= to <= s.len(),
    ensures
        0 <= back_spaces(s, to) <= to,
        back_spaces(s, to) == 0 || !is_space(s[back_spaces(s, to) - 1]),
        forall|k: int| back_spaces(s, to) <= k < to ==> is_space(#[trigger] s[k]),
    decreases to,
{
    if 0 < to && is_space(s[to - 1]) {
        lemma_back_spaces(s, to - 1);
    }
}

/// A text is not empty when trimmed just when it holds a character that
/// is no white space; what is left then begins with such a character.
pub proof fn lemma_trim_ink(s: Seq<char>)
    ensures
        trim(s).len() > 0 <==> has_ink(s),
        trim(s).len() > 0 ==> !is_space(trim(s)[0]) && has_ink(trim(s)),
{
    let a = skip_spaces(s, 0);
    lemma_skip_spaces(s, 0);
    let t = s.skip(a);
    let b = back_spaces(t, t.len() as int);
    lemma_back_spaces(t, t.len() as int);
    if has_ink(s) {
        let k = choose|k: int| 0 <= k < s.len() && !is_space(#[trigger] s[k]);
        assert(k >= a);
        assert(t[k - a] == s[k]);
        assert(k - a < b);
    }
    if trim(s).len() > 0 {
        assert(t[0] == s[a]);
        assert(trim(s)[0] == t[0]);
    }
}

/// What follows a text with a character that is no white space holds
/// such a character, whatever stands before it.
pub proof fn lemma_ink_after(head: Seq<char>, tail: Seq<char>)
    requires
        has_ink(tail),
    ensures
        has_ink(head + tail),
{
    let k = choose|k: int| 0 <= k < tail.len() && !is_space(#[trigger] tail[k]);
    assert((head + tail)[head.len() + k] == tail[k]);
}

/// Replacing runs of white space by others leaves a character that is no
/// white space in the text.
pub proof fn lemma_replace_ink(s: Seq<char>, from: Seq<char>, to: Seq<char>)
    requires
        from.len() > 0,
        forall|j: int| 0 <= j < from.len() ==> is_space(#[trigger] from[j]),
        has_ink(s),
    ensures
        has_ink(replace(s, from, to)),
    decreases s.len(),
{
    let i = find(s, from);
    if 0 <= i && i + from.len() <= s.len() {
        lemma_find_from(s, from, 0);
        let k = choose|k: int| 0 <= k < s.len() && !is_space(#[trigger] s[k]);
        let rest = s.skip(i + from.len());
        let out = s.take(i) + to + replace(rest, from, to);
        if k < i {
            assert(out[k] == s[k]);
        } else if k < i + from.len() {
            assert(s.subrange(i, i + from.len())[k - i] == s[k]);
            assert(is_space(from[k - i]));
        } else {
            assert(rest[k - i - from.len()] == s[k]);
            lemma_replace_ink(rest, from, to);
            lemma_ink_after(s.take(i) + to, replace(rest, from, to));
        }
    }
}

} // verus!
