//! Lists of paths, read as sets of texts.

use vstd::prelude::*;

verus! {

/// The texts that a list of strings holds, in order.
pub open spec fn texts(list: Seq<String>) -> Seq<Seq<char>> {
    Seq::new(list.len(), |i: int| list[i]@)
}

/// Whether some path of `paths` is a member of `list`.
pub open spec fn any_listed(paths: Seq<Seq<char>>, list: Seq<Seq<char>>) -> bool {
    exists|i: int| 0 <= i < paths.len() && list.contains(#[trigger] paths[i])
}

/// Whether some path of `paths` is no member of `list`.
pub open spec fn any_unlisted(paths: Seq<Seq<char>>, list: Seq<Seq<char>>) -> bool {
    exists|i: int| 0 <= i < paths.len() && !list.contains(#[trigger] paths[i])
}

/// `acc`, followed by the members of `more` that it lacks, each once and in
/// the order of their first occurrence.
pub open spec fn with_new(acc: Seq<Seq<char>>, more: Seq<Seq<char>>) -> Seq<Seq<char>>
    decreases more.len(),
{
    if more.len() == 0 {
        acc
    } else {
        let before = with_new(acc, more.drop_last());
        if before.contains(more.last()) {
            before
        } else {
            before.push(more.last())
        }
    }
}

/// `with_new` adds what is new and nothing else, and repeats nothing.
pub proof fn lemma_with_new(acc: Seq<Seq<char>>, more: Seq<Seq<char>>)
    ensures
        forall|p: Seq<char>| #[trigger]
            with_new(acc, more).contains(p) <==> acc.contains(p) || more.contains(p),
        acc.no_duplicates() ==> with_new(acc, more).no_duplicates(),
        acc.is_prefix_of(with_new(acc, more)),
    decreases more.len(),
{
    if more.len() > 0 {
        let front = more.drop_last();
        let last = more.last();
        lemma_with_new(acc, front);
        let before = with_new(acc, front);
        assert forall|p: Seq<char>| #[trigger]
            with_new(acc, more).contains(p) <==> acc.contains(p) || more.contains(p) by {
            if more.contains(p) {
                let i = choose|i: int| 0 <= i < more.len() && more[i] == p;
                if i < front.len() {
                    assert(front[i] == p);
                }
            }
            if !before.contains(last) {
                let after = before.push(last);
                assert(after[before.len() as int] == last);
                if before.contains(p) {
                    let i = choose|i: int| 0 <= i < before.len() && before[i] == p;
                    assert(after[i] == p);
                }
            }
        }
    }
}

/// Whether `list` holds the text of `path`.
pub fn has_text(list: &[String], path: &String) -> (found: bool)
    ensures
        found == texts(list@).contains(path@),
{
    let n = list.len();
    let mut i: usize = 0;
    while i < n
        invariant
            n == list@.len(),
            i <= n,
            forall|k: int| 0 <= k < i ==> texts(list@)[k] != path@,
        decreases n - i,
    {
        if list[i] == *path {
            assert(texts(list@)[i as int] == path@);
            return true;
        }
        i += 1;
    }
    false
}

/// Whether some path of `paths` is a member of `list`.
pub fn any_path_listed(paths: &[String], list: &[String]) -> (found: bool)
    ensures
        found == any_listed(texts(paths@), texts(list@)),
{
    let n = paths.len();
    let mut i: usize = 0;
    while i < n
        invariant
            n == paths@.len(),
            i <= n,
            forall|k: int| 0 <= k < i ==> !texts(list@).contains(#[trigger] texts(paths@)[k]),
        decreases n - i,
    {
        if has_text(list, &paths[i]) {
            assert(texts(list@).contains(texts(paths@)[i as int]));
            return true;
        }
        i += 1;
    }
    false
}

/// Whether some path of `paths` is no member of `list`.
pub fn any_path_unlisted(paths: &[String], list: &[String]) -> (found: bool)
    ensures
        found == any_unlisted(texts(paths@), texts(list@)),
{
    let n = paths.len();
    let mut i: usize = 0;
    while i < n
        invariant
            n == paths@.len(),
            i <= n,
            forall|k: int| 0 <= k < i ==> texts(list@).contains(#[trigger] texts(paths@)[k]),
        decreases n - i,
    {
        if !has_text(list, &paths[i]) {
            assert(!texts(list@).contains(texts(paths@)[i as int]));
            return true;
        }
        i += 1;
    }
    false
}

/// Adds to `acc` the paths of `more` that it lacks.
pub fn add_new(acc: &mut Vec<String>, more: &[String])
    ensures
        texts(final(acc)@) == with_new(texts(old(acc)@), texts(more@)),
{
    let n = more.len();
    let ghost start = texts(acc@);
    let mut i: usize = 0;
    while i < n
        invariant
            n == more@.len(),
            i <= n,
            start == texts(old(acc)@),
            texts(acc@) == with_new(start, texts(more@).take(i as int)),
        decreases n - i,
    {
        let ghost front = texts(more@).take(i as int);
        let ghost next = texts(more@).take(i + 1);
        assert(next.drop_last() =~= front);
        if !has_text(acc.as_slice(), &more[i]) {
            acc.push(more[i].clone());
        }
        i += 1;
    }
    assert(texts(more@).take(n as int) =~= texts(more@));
}

} // verus!
