//! Finding the session logs below a directory.

use vstd::prelude::*;

use crate::text::same_text;

verus! {

/// An entry of a directory.
#[derive(Debug)]
pub struct DirEntry<P> {
    pub path: P,
    pub is_dir: bool,
    /// The extension of the file name, where it has one that is text.
    pub extension: Option<String>,
}

impl<P> DirEntry<P> {
    /// Whether the entry is a session log.
    pub open spec fn is_log(self) -> bool {
        !self.is_dir && self.extension is Some && self.extension->0@ == "jsonl"@
    }
}

/// The directories among `entries`, in order.
pub open spec fn directories<P>(entries: Seq<DirEntry<P>>) -> Seq<P>
    decreases entries.len(),
{
    if entries.len() == 0 {
        seq![]
    } else if entries.last().is_dir {
        directories(entries.drop_last()).push(entries.last().path)
    } else {
        directories(entries.drop_last())
    }
}

/// The session logs among `entries`, in order.
pub open spec fn logs<P>(entries: Seq<DirEntry<P>>) -> Seq<P>
    decreases entries.len(),
{
    if entries.len() == 0 {
        seq![]
    } else if entries.last().is_log() {
        logs(entries.drop_last()).push(entries.last().path)
    } else {
        logs(entries.drop_last())
    }
}

/// Takes in the entries of one directory: its directories join those that are
/// still to be visited, on top, and its session logs join those that were
/// found.
pub fn collect_jsonl_files<P>(
    entries: Vec<DirEntry<P>>,
    to_visit: &mut Vec<P>,
    found: &mut Vec<P>,
)
    ensures
        final(to_visit)@ == old(to_visit)@ + directories(entries@),
        final(found)@ == old(found)@ + logs(entries@),
        forall|i: int|
            0 <= i < entries@.len() && (#[trigger] entries@[i]).is_dir
                ==> final(to_visit)@.contains(entries@[i].path),
        forall|i: int|
            0 <= i < entries@.len() && !(#[trigger] entries@[i]).is_dir && entries@[i].extension
                is Some && entries@[i].extension->0@ == "jsonl"@ ==> final(found)@.contains(
                entries@[i].path,
            ),
{
    let ghost all = entries@;
    proof {
        law_every_entry_is_told_apart(all);
        assert forall|i: int| 0 <= i < all.len() && (#[trigger] all[i]).is_dir implies (
        to_visit@ + directories(all)).contains(all[i].path) by {
            lemma_contains_of_both(to_visit@, directories(all), all[i].path);
        }
        assert forall|i: int|
            0 <= i < all.len() && !(#[trigger] all[i]).is_dir && all[i].extension is Some
                && all[i].extension->0@ == "jsonl"@ implies (found@ + logs(all)).contains(
            all[i].path,
        ) by {
            lemma_contains_of_both(found@, logs(all), all[i].path);
        }
    }
    for entry in it: entries.into_iter()
        invariant
            it.seq() == all,
            to_visit@ == old(to_visit)@ + directories(all.take(it.index())),
            found@ == old(found)@ + logs(all.take(it.index())),
    {
        let ghost i = it.index();
        assert(all.take(i + 1).drop_last() == all.take(i));
        assert(all.take(i + 1).last() == entry);
        if entry.is_dir {
            to_visit.push(entry.path);
        } else if let Some(extension) = &entry.extension {
            if same_text(extension.as_str(), "jsonl") {
                found.push(entry.path);
            }
        }
    }
    assert(all.take(all.len() as int) == all);
}

/// A directory with all that is below it. Each directory among the entries has
/// its tree among `below`, in the same order.
pub struct DirTree<P> {
    pub path: P,
    pub entries: Seq<DirEntry<P>>,
    pub below: Seq<DirTree<P>>,
}

/// The paths of the trees.
pub open spec fn paths_of<P>(trees: Seq<DirTree<P>>) -> Seq<P> {
    trees.map_values(|tree: DirTree<P>| tree.path)
}

/// Whether the trees below each directory are those of its directories.
pub open spec fn is_complete<P>(tree: DirTree<P>) -> bool
    decreases tree,
{
    &&& paths_of(tree.below) == directories(tree.entries)
    &&& are_complete(tree.below)
}

/// Whether all the trees are complete.
pub open spec fn are_complete<P>(trees: Seq<DirTree<P>>) -> bool
    decreases trees,
{
    trees.len() == 0 || (is_complete(trees.last()) && are_complete(trees.drop_last()))
}

/// The number of directories in a tree.
pub open spec fn size<P>(tree: DirTree<P>) -> nat
    decreases tree,
{
    1 + total_size(tree.below)
}

/// The number of directories in the trees.
pub open spec fn total_size<P>(trees: Seq<DirTree<P>>) -> nat
    decreases trees,
{
    if trees.len() == 0 {
        0
    } else {
        size(trees.last()) + total_size(trees.drop_last())
    }
}

/// All session logs in a tree: those of its own directory, and then those of
/// the directories below, from the last to the first.
pub open spec fn logs_in<P>(tree: DirTree<P>) -> Seq<P>
    decreases tree,
{
    logs(tree.entries) + logs_in_all(tree.below)
}

/// All session logs in the trees, from the last tree to the first.
pub open spec fn logs_in_all<P>(trees: Seq<DirTree<P>>) -> Seq<P>
    decreases trees,
{
    if trees.len() == 0 {
        seq![]
    } else {
        logs_in(trees.last()) + logs_in_all(trees.drop_last())
    }
}

/// What a search has to visit and has found after visiting `steps`
/// directories, each time the one on top. The trees stand for the directories
/// to visit, whose entries each visit takes in.
pub open spec fn search<P>(to_visit: Seq<DirTree<P>>, found: Seq<P>, steps: nat) -> (
    Seq<DirTree<P>>,
    Seq<P>,
)
    decreases steps,
{
    if steps == 0 || to_visit.len() == 0 {
        (to_visit, found)
    } else {
        search(
            to_visit.drop_last() + to_visit.last().below,
            found + logs(to_visit.last().entries),
            (steps - 1) as nat,
        )
    }
}

proof fn lemma_trees_of_both<P>(a: Seq<DirTree<P>>, b: Seq<DirTree<P>>)
    ensures
        logs_in_all(a + b) == logs_in_all(b) + logs_in_all(a),
        total_size(a + b) == total_size(a) + total_size(b),
    decreases b.len(),
{
    if b.len() == 0 {
        assert(a + b == a);
        assert(logs_in_all(b) + logs_in_all(a) =~= logs_in_all(a));
    } else {
        lemma_trees_of_both(a, b.drop_last());
        assert((a + b).drop_last() == a + b.drop_last());
        assert(logs_in_all(a + b) =~= logs_in_all(b) + logs_in_all(a));
    }
}

proof fn lemma_search_finds_all<P>(to_visit: Seq<DirTree<P>>, found: Seq<P>)
    ensures
        search(to_visit, found, total_size(to_visit)) == (
            Seq::<DirTree<P>>::empty(),
            found + logs_in_all(to_visit),
        ),
    decreases total_size(to_visit),
{
    if to_visit.len() == 0 {
        assert(to_visit =~= seq![]);
        assert(found + logs_in_all(to_visit) =~= found);
    } else {
        let top = to_visit.last();
        let next = to_visit.drop_last() + top.below;
        let more = found + logs(top.entries);
        reveal_with_fuel(total_size, 2);
        reveal_with_fuel(logs_in_all, 2);
        lemma_trees_of_both(to_visit.drop_last(), top.below);
        lemma_search_finds_all(next, more);
        assert(more + logs_in_all(next) =~= found + logs_in_all(to_visit));
    }
}

/// The paths of all entries in a tree, of its own directory and of those below.
pub open spec fn paths_in<P>(tree: DirTree<P>) -> Seq<P>
    decreases tree,
{
    tree.entries.map_values(|entry: DirEntry<P>| entry.path) + paths_in_all(tree.below)
}

/// The paths of all entries in the trees.
pub open spec fn paths_in_all<P>(trees: Seq<DirTree<P>>) -> Seq<P>
    decreases trees,
{
    if trees.len() == 0 {
        seq![]
    } else {
        paths_in(trees.last()) + paths_in_all(trees.drop_last())
    }
}

/// Whether the paths in `picked` are among those in `all`, none of them twice
/// unless it is in `all` twice.
spec fn are_picked<P>(picked: Seq<P>, all: Seq<P>) -> bool {
    &&& forall|p: P| #[trigger] picked.contains(p) ==> all.contains(p)
    &&& all.no_duplicates() ==> picked.no_duplicates()
}

proof fn lemma_no_duplicates_of_both<P>(a: Seq<P>, b: Seq<P>)
    ensures
        (a + b).no_duplicates() <==> a.no_duplicates() && b.no_duplicates() && (forall|p: P|
            #[trigger] a.contains(p) ==> !b.contains(p)),
{
    let both = a + b;
    if both.no_duplicates() {
        assert forall|i: int, j: int| 0 <= i < a.len() && 0 <= j < a.len() && i != j implies a[i]
            != a[j] by {
            assert(both[i] == a[i] && both[j] == a[j]);
        }
        assert forall|i: int, j: int| 0 <= i < b.len() && 0 <= j < b.len() && i != j implies b[i]
            != b[j] by {
            assert(both[a.len() + i] == b[i] && both[a.len() + j] == b[j]);
        }
        assert forall|p: P| #[trigger] a.contains(p) implies !b.contains(p) by {
            let i = choose|i: int| 0 <= i < a.len() && a[i] == p;
            if b.contains(p) {
                let j = choose|j: int| 0 <= j < b.len() && b[j] == p;
                assert(both[i] == p && both[a.len() + j] == p);
            }
        }
    }
    if a.no_duplicates() && b.no_duplicates() && (forall|p: P|
        #[trigger] a.contains(p) ==> !b.contains(p)) {
        assert forall|i: int, j: int|
            0 <= i < both.len() && 0 <= j < both.len() && i != j implies both[i] != both[j] by {
            let la = a.len() as int;
            if i < la && j >= la {
                assert(a.contains(both[i]) && b.contains(b[j - la]));
            } else if i >= la && j < la {
                assert(a.contains(both[j]) && b.contains(b[i - la]));
            }
        }
    }
}

proof fn lemma_contains_of_both<P>(a: Seq<P>, b: Seq<P>, p: P)
    ensures
        (a + b).contains(p) <==> a.contains(p) || b.contains(p),
{
    let both = a + b;
    if a.contains(p) {
        let i = choose|i: int| 0 <= i < a.len() && a[i] == p;
        assert(both[i] == p);
    }
    if b.contains(p) {
        let i = choose|i: int| 0 <= i < b.len() && b[i] == p;
        assert(both[a.len() + i] == p);
    }
    if both.contains(p) {
        let i = choose|i: int| 0 <= i < both.len() && both[i] == p;
        if i < a.len() {
            assert(a[i] == p);
        } else {
            assert(b[i - a.len()] == p);
        }
    }
}

proof fn lemma_picked_of_both<P>(picked: Seq<P>, all: Seq<P>, more: Seq<P>, others: Seq<P>)
    requires
        are_picked(picked, all),
        are_picked(more, others),
    ensures
        are_picked(picked + more, all + others),
{
    lemma_no_duplicates_of_both(picked, more);
    lemma_no_duplicates_of_both(all, others);
    assert forall|p: P| #[trigger] (picked + more).contains(p) implies (all + others).contains(
        p,
    ) by {
        lemma_contains_of_both(picked, more, p);
        lemma_contains_of_both(all, others, p);
    }
    if (all + others).no_duplicates() {
        assert forall|p: P| #[trigger] picked.contains(p) implies !more.contains(p) by {
            assert(all.contains(p));
            if more.contains(p) {
                assert(others.contains(p));
            }
        }
    }
}

proof fn lemma_logs_are_picked<P>(entries: Seq<DirEntry<P>>)
    ensures
        are_picked(logs(entries), entries.map_values(|entry: DirEntry<P>| entry.path)),
    decreases entries.len(),
{
    let all = entries.map_values(|entry: DirEntry<P>| entry.path);
    if entries.len() > 0 {
        let front = entries.drop_last();
        let before = front.map_values(|entry: DirEntry<P>| entry.path);
        let last = seq![entries.last().path];
        lemma_logs_are_picked(front);
        assert(all =~= before + last);
        if entries.last().is_log() {
            lemma_picked_of_both(logs(front), before, last, last);
            assert(logs(entries) =~= logs(front) + last);
        } else {
            lemma_picked_of_both(logs(front), before, Seq::<P>::empty(), last);
            assert(logs(entries) =~= logs(front) + Seq::<P>::empty());
        }
    }
}

proof fn lemma_found_are_picked<P>(tree: DirTree<P>)
    ensures
        are_picked(logs_in(tree), paths_in(tree)),
    decreases tree,
{
    lemma_logs_are_picked(tree.entries);
    lemma_all_found_are_picked(tree.below);
    lemma_picked_of_both(
        logs(tree.entries),
        tree.entries.map_values(|entry: DirEntry<P>| entry.path),
        logs_in_all(tree.below),
        paths_in_all(tree.below),
    );
}

proof fn lemma_all_found_are_picked<P>(trees: Seq<DirTree<P>>)
    ensures
        are_picked(logs_in_all(trees), paths_in_all(trees)),
    decreases trees,
{
    if trees.len() > 0 {
        lemma_found_are_picked(trees.last());
        lemma_all_found_are_picked(trees.drop_last());
        lemma_picked_of_both(
            logs_in(trees.last()),
            paths_in(trees.last()),
            logs_in_all(trees.drop_last()),
            paths_in_all(trees.drop_last()),
        );
    }
}

/// A search that starts at a directory ends once every directory below it has
/// been visited. To what was found before it adds every session log in the
/// tree, each as often as it is there.
pub proof fn law_search_finds_every_log<P>(root: DirTree<P>, found: Seq<P>)
    ensures
        search(seq![root], found, size(root)) == (
            Seq::<DirTree<P>>::empty(),
            found + logs_in(root),
        ),
{
    let start = seq![root];
    reveal_with_fuel(total_size, 3);
    reveal_with_fuel(logs_in_all, 3);
    assert(start.drop_last() =~= seq![]);
    assert(total_size(start) == size(root));
    lemma_search_finds_all(start, found);
    assert(logs_in_all(start) =~= logs_in(root));
}

/// A search finds nothing but entries of the tree, and no path twice where no
/// two entries share a path. So it adds none twice to what was found before,
/// where none of that is in the tree.
pub proof fn law_search_finds_no_log_twice<P>(root: DirTree<P>, found: Seq<P>)
    ensures
        forall|p: P| #[trigger] logs_in(root).contains(p) ==> paths_in(root).contains(p),
        paths_in(root).no_duplicates() ==> logs_in(root).no_duplicates(),
        (found + paths_in(root)).no_duplicates() ==> search(
            seq![root],
            found,
            size(root),
        ).1.no_duplicates(),
{
    law_search_finds_every_log(root, found);
    lemma_found_are_picked(root);
    lemma_picked_of_both(found, found, logs_in(root), paths_in(root));
}

/// A visit does to the paths still to be visited what it does to the trees
/// that stand for them.
pub proof fn law_visit_follows_the_tree<P>(to_visit: Seq<DirTree<P>>)
    requires
        to_visit.len() > 0,
        are_complete(to_visit),
    ensures
        paths_of(to_visit.drop_last() + to_visit.last().below) == paths_of(to_visit).drop_last()
            + directories(to_visit.last().entries),
        are_complete(to_visit.drop_last() + to_visit.last().below),
{
    let top = to_visit.last();
    assert(is_complete(top));
    assert(paths_of(to_visit.drop_last() + top.below) =~= paths_of(to_visit).drop_last()
        + paths_of(top.below));
    lemma_complete_of_both(to_visit.drop_last(), top.below);
}

proof fn lemma_complete_of_both<P>(a: Seq<DirTree<P>>, b: Seq<DirTree<P>>)
    requires
        are_complete(a),
        are_complete(b),
    ensures
        are_complete(a + b),
    decreases b.len(),
{
    if b.len() == 0 {
        assert(a + b == a);
    } else {
        lemma_complete_of_both(a, b.drop_last());
        assert((a + b).drop_last() == a + b.drop_last());
    }
}

/// What is found among entries is the paths of those that are no directories
/// and have the extension `jsonl`, all of them and in their order; what is to
/// be visited is the paths of the directories.
pub proof fn law_entries_are_told_apart<P>(entries: Seq<DirEntry<P>>)
    ensures
        logs(entries) == entries.filter(
            |entry: DirEntry<P>|
                !entry.is_dir && entry.extension is Some && entry.extension->0@ == "jsonl"@,
        ).map_values(|entry: DirEntry<P>| entry.path),
        directories(entries) == entries.filter(|entry: DirEntry<P>| entry.is_dir).map_values(
            |entry: DirEntry<P>| entry.path,
        ),
    decreases entries.len(),
{
    reveal(Seq::filter);
    if entries.len() > 0 {
        law_entries_are_told_apart(entries.drop_last());
    }
    let is_log = |entry: DirEntry<P>|
        !entry.is_dir && entry.extension is Some && entry.extension->0@ == "jsonl"@;
    let is_dir = |entry: DirEntry<P>| entry.is_dir;
    let path = |entry: DirEntry<P>| entry.path;
    assert(logs(entries) =~= entries.filter(is_log).map_values(path));
    assert(directories(entries) =~= entries.filter(is_dir).map_values(path));
}

/// No entry is passed over: every entry that is no directory and has the
/// extension `jsonl` is found, every directory is to be visited, and nothing
/// else is either.
pub proof fn law_every_entry_is_told_apart<P>(entries: Seq<DirEntry<P>>)
    ensures
        forall|i: int|
            0 <= i < entries.len() && !(#[trigger] entries[i]).is_dir && entries[i].extension
                is Some && entries[i].extension->0@ == "jsonl"@ ==> logs(entries).contains(
                entries[i].path,
            ),
        forall|i: int|
            0 <= i < entries.len() && (#[trigger] entries[i]).is_dir ==> directories(
                entries,
            ).contains(entries[i].path),
        forall|p: P| #[trigger]
            logs(entries).contains(p) ==> exists|i: int|
                0 <= i < entries.len() && !(#[trigger] entries[i]).is_dir && entries[i].extension
                    is Some && entries[i].extension->0@ == "jsonl"@ && entries[i].path == p,
        forall|p: P| #[trigger]
            directories(entries).contains(p) ==> exists|i: int|
                0 <= i < entries.len() && (#[trigger] entries[i]).is_dir && entries[i].path == p,
    decreases entries.len(),
{
    if entries.len() > 0 {
        let front = entries.drop_last();
        let last = entries.last();
        let n = entries.len() - 1;
        law_every_entry_is_told_apart(front);
        let is_log = !last.is_dir && last.extension is Some && last.extension->0@ == "jsonl"@;
        let more_logs = if is_log { seq![last.path] } else { seq![] };
        let more_dirs = if last.is_dir { seq![last.path] } else { seq![] };
        assert(logs(entries) =~= logs(front) + more_logs);
        assert(directories(entries) =~= directories(front) + more_dirs);
        assert(seq![last.path][0] == last.path);
        assert forall|i: int|
            0 <= i < entries.len() && !(#[trigger] entries[i]).is_dir && entries[i].extension
                is Some && entries[i].extension->0@ == "jsonl"@ implies logs(entries).contains(
            entries[i].path,
        ) by {
            lemma_contains_of_both(logs(front), more_logs, entries[i].path);
            if i < n {
                assert(front[i] == entries[i]);
            }
        }
        assert forall|i: int|
            0 <= i < entries.len() && (#[trigger] entries[i]).is_dir implies directories(
            entries,
        ).contains(entries[i].path) by {
            lemma_contains_of_both(directories(front), more_dirs, entries[i].path);
            if i < n {
                assert(front[i] == entries[i]);
            }
        }
        assert forall|p: P| #[trigger] logs(entries).contains(p) implies exists|i: int|
            0 <= i < entries.len() && !(#[trigger] entries[i]).is_dir && entries[i].extension
                is Some && entries[i].extension->0@ == "jsonl"@ && entries[i].path == p by {
            lemma_contains_of_both(logs(front), more_logs, p);
            if logs(front).contains(p) {
                let i = choose|i: int|
                    0 <= i < front.len() && !(#[trigger] front[i]).is_dir && front[i].extension
                        is Some && front[i].extension->0@ == "jsonl"@ && front[i].path == p;
                assert(entries[i] == front[i]);
            } else {
                assert(entries[n].path == p);
            }
        }
        assert forall|p: P| #[trigger] directories(entries).contains(p) implies exists|i: int|
            0 <= i < entries.len() && (#[trigger] entries[i]).is_dir && entries[i].path == p by {
            lemma_contains_of_both(directories(front), more_dirs, p);
            if directories(front).contains(p) {
                let i = choose|i: int|
                    0 <= i < front.len() && (#[trigger] front[i]).is_dir && front[i].path == p;
                assert(entries[i] == front[i]);
            } else {
                assert(entries[n].path == p);
            }
        }
    }
}

} // verus!
