use crate::text::{chars_of, pairs, same, string_of, strings, views};
use vstd::prelude::*;

verus! {

/// Tells whether `a` comes before `b` in the order of a dictionary, the
/// characters taken by their numbers: the order of `str`.
pub open spec fn lex_less(a: Seq<char>, b: Seq<char>) -> bool
    decreases a.len(),
{
    if b.len() == 0 {
        false
    } else if a.len() == 0 {
        true
    } else if a[0] != b[0] {
        a[0] < b[0]
    } else {
        lex_less(a.skip(1), b.skip(1))
    }
}

/// Tells whether each of `names` comes before those after it.
pub open spec fn ascending(names: Seq<Seq<char>>) -> bool {
    forall|i: int, j: int| 0 <= i < j < names.len() ==> lex_less(names[i], names[j])
}

/// Of two texts that differ, one comes before the other.
pub proof fn lemma_lex_total(a: Seq<char>, b: Seq<char>)
    ensures
        a == b || lex_less(a, b) || lex_less(b, a),
    decreases a.len(),
{
    if a.len() == 0 || b.len() == 0 {
        if a.len() == 0 && b.len() == 0 {
            assert(a =~= b);
        }
    } else if a[0] == b[0] {
        lemma_lex_total(a.skip(1), b.skip(1));
        if a.skip(1) == b.skip(1) {
            assert forall|i: int| 0 <= i < a.len() implies a[i] == b[i] by {
                if i > 0 {
                    assert(a.skip(1)[i - 1] == a[i]);
                    assert(b.skip(1)[i - 1] == b[i]);
                }
            }
            assert(a.skip(1).len() == b.skip(1).len());
            assert(a =~= b);
        }
    }
}

/// What comes before a text that comes before a third comes before the
/// third.
pub proof fn lemma_lex_trans(a: Seq<char>, b: Seq<char>, c: Seq<char>)
    requires
        lex_less(a, b),
        lex_less(b, c),
    ensures
        lex_less(a, c),
    decreases a.len(),
{
    if a.len() > 0 && b.len() > 0 && c.len() > 0 && a[0] == b[0] && b[0] == c[0] {
        lemma_lex_trans(a.skip(1), b.skip(1), c.skip(1));
    }
}

/// No text comes before itself.
pub proof fn lemma_lex_irreflexive(a: Seq<char>)
    ensures
        !lex_less(a, a),
    decreases a.len(),
{
    if a.len() > 0 {
        lemma_lex_irreflexive(a.skip(1));
    }
}

/// Tells whether `a` comes before `b`.
pub fn comes_before(a: &Vec<char>, b: &Vec<char>) -> (r: bool)
    ensures
        r == lex_less(a@, b@),
{
    let mut i: usize = 0;
    assert(a@.skip(0) =~= a@ && b@.skip(0) =~= b@);
    loop
        invariant
            i <= a.len(),
            i <= b.len(),
            lex_less(a@, b@) == lex_less(a@.skip(i as int), b@.skip(i as int)),
        decreases a.len() - i,
    {
        if i >= b.len() {
            return false;
        }
        if i >= a.len() {
            return true;
        }
        if a[i] != b[i] {
            return a[i] < b[i];
        }
        assert(a@.skip(i as int).skip(1) =~= a@.skip(i + 1));
        assert(b@.skip(i as int).skip(1) =~= b@.skip(i + 1));
        i += 1;
    }
}

/// Puts `name` in its place among the ascending `names`, unless it is
/// there.
pub fn insert_name(names: &mut Vec<Vec<char>>, name: Vec<char>)
    requires
        ascending(views(old(names)@)),
    ensures
        ascending(views(final(names)@)),
        views(final(names)@).contains(name@),
        forall|s: Seq<char>| views(old(names)@).contains(s) ==> views(final(names)@).contains(s),
        forall|s: Seq<char>|
            views(final(names)@).contains(s) ==> s == name@ || views(old(names)@).contains(s),
{
    let ghost before = views(names@);
    let mut p: usize = 0;
    while p < names.len() && comes_before(&names[p], &name)
        invariant
            p <= names.len(),
            views(names@) == before,
            forall|j: int| 0 <= j < p ==> lex_less(before[j], name@),
        decreases names.len() - p,
    {
        p += 1;
    }
    if p < names.len() && same(&names[p], &name) {
        assert(before[p as int] == name@);
        return ;
    }
    proof {
        if p < names.len() {
            lemma_lex_total(before[p as int], name@);
            assert forall|j: int| p <= j < before.len() implies lex_less(name@, before[j]) by {
                if j > p {
                    lemma_lex_trans(name@, before[p as int], before[j]);
                }
            }
        }
    }
    names.insert(p, name);
    let ghost after = views(names@);
    proof {
        assert(after =~= before.insert(p as int, name@));
        assert(after[p as int] == name@);
        assert forall|s: Seq<char>| before.contains(s) implies after.contains(s) by {
            let j = choose|j: int| 0 <= j < before.len() && before[j] == s;
            if j < p {
                assert(after[j] == s);
            } else {
                assert(after[j + 1] == s);
            }
        }
        assert forall|s: Seq<char>| after.contains(s) implies s == name@ || before.contains(
            s,
        ) by {
            let j = choose|j: int| 0 <= j < after.len() && after[j] == s;
            if j < p {
                assert(before[j] == s);
            } else if j > p {
                assert(before[j - 1] == s);
            }
        }
        assert forall|i: int, j: int| 0 <= i < j < after.len() implies lex_less(
            after[i],
            after[j],
        ) by {
            if j < p {
                assert(after[i] == before[i] && after[j] == before[j]);
            } else if j == p {
                assert(after[i] == before[i]);
            } else if i < p {
                assert(after[i] == before[i] && after[j] == before[j - 1]);
            } else if i == p {
                assert(after[j] == before[j - 1]);
            } else {
                assert(after[i] == before[i - 1] && after[j] == before[j - 1]);
            }
        }
    }
}

/// The first of each pair.
pub open spec fn names_of(list: Seq<(Seq<char>, Seq<char>)>) -> Seq<Seq<char>> {
    Seq::new(list.len(), |i: int| list[i].0)
}

/// The commands of the search path: the names that were found, each
/// once, in ascending order, each described as `PATH executable`.
pub fn list_path_commands(found: &Vec<String>) -> (list: Vec<(String, String)>)
    ensures
        ascending(names_of(pairs(list@))),
        forall|i: int, j: int|
            0 <= i < j < list.len() ==> names_of(pairs(list@))[i] != names_of(pairs(list@))[j],
        forall|i: int| 0 <= i < found.len() ==> names_of(pairs(list@)).contains(found[i]@),
        forall|j: int|
            0 <= j < list.len() ==> strings(found@).contains(#[trigger] pairs(list@)[j].0),
        forall|j: int| 0 <= j < list.len() ==> #[trigger] pairs(list@)[j].1 == "PATH executable"@,
{
    let mut names: Vec<Vec<char>> = Vec::new();
    let mut i: usize = 0;
    while i < found.len()
        invariant
            i <= found.len(),
            ascending(views(names@)),
            forall|k: int| 0 <= k < i ==> views(names@).contains(found[k]@),
            forall|s: Seq<char>| views(names@).contains(s) ==> strings(found@).contains(s),
        decreases found.len() - i,
    {
        let ghost before = views(names@);
        insert_name(&mut names, chars_of(found[i].as_str()));
        proof {
            assert(strings(found@)[i as int] == found[i as int]@);
            assert forall|k: int| 0 <= k < i + 1 implies views(names@).contains(found[k]@) by {
                if k < i {
                    assert(before.contains(found[k]@));
                }
            }
        }
        i += 1;
    }
    let mut list: Vec<(String, String)> = Vec::new();
    let mut j: usize = 0;
    while j < names.len()
        invariant
            j <= names.len(),
            list.len() == j,
            forall|k: int| 0 <= k < j ==> #[trigger] pairs(list@)[k].0 == names[k]@,
            forall|k: int| 0 <= k < j ==> #[trigger] pairs(list@)[k].1 == "PATH executable"@,
        decreases names.len() - j,
    {
        let ghost before = pairs(list@);
        list.push((string_of(&names[j]), "PATH executable".to_owned()));
        assert(pairs(list@) =~= before.push((names[j as int]@, "PATH executable"@)));
        j += 1;
    }
    proof {
        assert(names_of(pairs(list@)) =~= views(names@));
        assert forall|i: int, j: int| 0 <= i < j < list.len() implies names_of(pairs(list@))[i]
            != names_of(pairs(list@))[j] by {
            lemma_lex_irreflexive(names_of(pairs(list@))[i]);
        }
        assert forall|k: int| 0 <= k < list.len() implies strings(found@).contains(
            #[trigger] pairs(list@)[k].0,
        ) by {
            assert(views(names@)[k] == names[k]@);
            assert(views(names@).contains(names[k]@));
        }
    }
    list
}

} // verus!
