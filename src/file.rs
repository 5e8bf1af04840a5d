//! Directory entries, the order in which a listing shows them, and the
//! multi-selection of entries.
use vstd::prelude::*;
use crate::path::{basename, get_basename};
use crate::text::{
    chars_le, chars_le_exec, chars_of, ends_with, is_dot_name, lemma_chars_le_total,
    lemma_chars_le_trans, lower_of, lowercase, starts_with_dot, str_ends_with,
};

verus! {

broadcast use vstd::seq_lib::group_to_multiset_ensures;

/// One filesystem object as listed in a directory. `display_name` is the
/// basename, with a trailing `/` for a directory.
#[derive(Debug)]
pub struct File {
    pub display_name: String,
    pub full_path: String,
    pub is_dir: bool,
}

impl Clone for File {
    fn clone(&self) -> (r: Self)
        ensures
            r == *self,
    {
        File {
            display_name: self.display_name.clone(),
            full_path: self.full_path.clone(),
            is_dir: self.is_dir,
        }
    }
}

// ---------------------------------------------------------------------------
// Order of a listing
// ---------------------------------------------------------------------------

/// The listing order, given the folded (lowercase) name of each side:
/// directories before files; within a group, names without a leading dot
/// before dot names; then by folded name.
pub open spec fn entry_le_folded(a: File, fa: Seq<char>, b: File, fb: Seq<char>) -> bool {
    if a.is_dir != b.is_dir {
        a.is_dir
    } else if is_dot_name(a.display_name@) != is_dot_name(b.display_name@) {
        !is_dot_name(a.display_name@)
    } else {
        chars_le(fa, fb)
    }
}

/// The listing order on entries, folding names with `str::to_lowercase`.
pub open spec fn entry_le(a: File, b: File) -> bool {
    entry_le_folded(a, lower_of(a.display_name@), b, lower_of(b.display_name@))
}

pub open spec fn is_sorted_listing(s: Seq<File>) -> bool {
    forall|i: int, j: int| 0 <= i < j < s.len() ==> #[trigger] entry_le(s[i], s[j])
}

/// Inserts `x` into `s` after every element that does not follow it.
pub open spec fn insert_entry(s: Seq<File>, x: File) -> Seq<File>
    decreases s.len(),
{
    if s.len() == 0 {
        seq![x]
    } else if entry_le(s.last(), x) {
        s.push(x)
    } else {
        insert_entry(s.drop_last(), x).push(s.last())
    }
}

/// The stable sort of `s` in listing order.
pub open spec fn sorted_listing(s: Seq<File>) -> Seq<File>
    decreases s.len(),
{
    if s.len() == 0 {
        s
    } else {
        insert_entry(sorted_listing(s.drop_last()), s.last())
    }
}

/// Directories come before files.
pub open spec fn dirs_before_files(s: Seq<File>) -> bool {
    forall|i: int, j: int| 0 <= i < j < s.len() && #[trigger] s[j].is_dir ==> #[trigger] s[i].is_dir
}

/// Within the directories and within the files, dot names come after the others.
pub open spec fn dot_names_last(s: Seq<File>) -> bool {
    forall|i: int, j: int|
        0 <= i < j < s.len() && s[i].is_dir == s[j].is_dir && #[trigger] is_dot_name(
            s[i].display_name@,
        ) ==> #[trigger] is_dot_name(s[j].display_name@)
}

pub proof fn lemma_entry_le_total(a: File, b: File)
    ensures
        entry_le(a, b) || entry_le(b, a),
{
    lemma_chars_le_total(lower_of(a.display_name@), lower_of(b.display_name@));
}

pub proof fn lemma_entry_le_trans(a: File, b: File, c: File)
    requires
        entry_le(a, b),
        entry_le(b, c),
    ensures
        entry_le(a, c),
{
    if a.is_dir == b.is_dir && b.is_dir == c.is_dir && is_dot_name(a.display_name@) == is_dot_name(
        b.display_name@,
    ) && is_dot_name(b.display_name@) == is_dot_name(c.display_name@) {
        lemma_chars_le_trans(
            lower_of(a.display_name@),
            lower_of(b.display_name@),
            lower_of(c.display_name@),
        );
    }
}

proof fn lemma_insert_entry(s: Seq<File>, x: File)
    ensures
        insert_entry(s, x).to_multiset() == s.to_multiset().insert(x),
        insert_entry(s, x).len() == s.len() + 1,
        is_sorted_listing(s) ==> is_sorted_listing(insert_entry(s, x)),
    decreases s.len(),
{
    let r = insert_entry(s, x);
    if s.len() == 0 {
        assert(seq![x] =~= Seq::<File>::empty().push(x));
    } else if entry_le(s.last(), x) {
        if is_sorted_listing(s) {
            assert forall|i: int, j: int| 0 <= i < j < r.len() implies #[trigger] entry_le(
                r[i],
                r[j],
            ) by {
                if j == s.len() && i < s.len() - 1 {
                    lemma_entry_le_trans(s[i], s.last(), x);
                }
            }
        }
    } else {
        let t = s.drop_last();
        lemma_insert_entry(t, x);
        assert(s =~= t.push(s.last()));
        let r0 = insert_entry(t, x);
        if is_sorted_listing(s) {
            lemma_entry_le_total(s.last(), x);
            assert forall|i: int, j: int| 0 <= i < j < r.len() implies #[trigger] entry_le(
                r[i],
                r[j],
            ) by {
                if j == r0.len() {
                    let y = r0[i];
                    assert(r0.contains(y));
                    assert(r0.to_multiset().count(y) > 0);
                    if y != x {
                        assert(t.to_multiset().count(y) > 0);
                        assert(t.contains(y));
                        let m = choose|m: int| 0 <= m < t.len() && t[m] == y;
                        assert(entry_le(s[m], s[s.len() - 1]));
                    }
                }
            }
        }
    }
}

proof fn lemma_sorted_listing(s: Seq<File>)
    ensures
        sorted_listing(s).to_multiset() == s.to_multiset(),
        sorted_listing(s).len() == s.len(),
        is_sorted_listing(sorted_listing(s)),
    decreases s.len(),
{
    if s.len() > 0 {
        lemma_sorted_listing(s.drop_last());
        lemma_insert_entry(sorted_listing(s.drop_last()), s.last());
        assert(s =~= s.drop_last().push(s.last()));
    }
}

proof fn lemma_sorted_is_fixed(s: Seq<File>)
    requires
        is_sorted_listing(s),
    ensures
        sorted_listing(s) == s,
    decreases s.len(),
{
    if s.len() > 0 {
        let t = s.drop_last();
        assert(is_sorted_listing(t)) by {
            assert forall|i: int, j: int| 0 <= i < j < t.len() implies #[trigger] entry_le(
                t[i],
                t[j],
            ) by {
                assert(entry_le(s[i], s[j]));
            }
        }
        lemma_sorted_is_fixed(t);
        if t.len() > 0 {
            assert(entry_le(s[t.len() - 1], s[s.len() - 1]));
        }
        assert(s =~= t.push(s.last()));
    }
}

/// Sorting a listing is idempotent, and a sorted listing holds its directories
/// before its files and, within each of the two, dot names after the others.
pub proof fn lemma_sort_idempotent(s: Seq<File>)
    ensures
        sorted_listing(sorted_listing(s)) == sorted_listing(s),
        dirs_before_files(sorted_listing(s)),
        dot_names_last(sorted_listing(s)),
        sorted_listing(s).to_multiset() == s.to_multiset(),
{
    lemma_sorted_listing(s);
    let r = sorted_listing(s);
    lemma_sorted_is_fixed(r);
    assert forall|i: int, j: int| 0 <= i < j < r.len() && #[trigger] r[j].is_dir implies #[trigger] r[i].is_dir by {
        assert(entry_le(r[i], r[j]));
    }
    assert forall|i: int, j: int|
        0 <= i < j < r.len() && r[i].is_dir == r[j].is_dir && #[trigger] is_dot_name(
            r[i].display_name@,
        ) implies #[trigger] is_dot_name(r[j].display_name@) by {
        assert(entry_le(r[i], r[j]));
    }
}

/// Whether `a` may stand before `b` in a listing, given the lowercase form of
/// each one's name.
pub fn precedes_with_folded_names(a: &File, a_folded: &Vec<char>, b: &File, b_folded: &Vec<char>) -> (r: bool)
    ensures
        r == entry_le_folded(*a, a_folded@, *b, b_folded@),
{
    if a.is_dir != b.is_dir {
        return a.is_dir;
    }
    let a_dot = starts_with_dot(&a.display_name);
    let b_dot = starts_with_dot(&b.display_name);
    if a_dot != b_dot {
        return !a_dot;
    }
    chars_le_exec(a_folded, b_folded)
}

/// Sorts a listing: directories first, then files; in each group names
/// without a leading dot first; then by lowercase name. Entries that compare
/// equal keep their order.
pub fn sort_file_paths_dirs_first_then_files(files: &Vec<File>) -> (r: Vec<File>)
    ensures
        r@ == sorted_listing(files@),
{
    let mut out: Vec<File> = Vec::new();
    let mut keys: Vec<Vec<char>> = Vec::new();
    let mut i: usize = 0;
    while i < files.len()
        invariant
            i <= files.len(),
            out@ == sorted_listing(files@.take(i as int)),
            keys.len() == out.len(),
            forall|k: int| 0 <= k < out.len() ==> #[trigger] keys[k]@ == lower_of(out[k].display_name@),
        decreases files.len() - i,
    {
        let x = files[i].clone();
        let folded = lowercase(&x.display_name);
        let xk = chars_of(&folded);
        let ghost s = out@;
        let mut j: usize = out.len();
        assert(s.take(j as int) =~= s);
        assert(s.skip(j as int) =~= Seq::<File>::empty());
        while j > 0 && !precedes_with_folded_names(&out[j - 1], &keys[j - 1], &x, &xk)
            invariant
                j <= out.len(),
                out@ == s,
                keys.len() == out.len(),
                forall|k: int| 0 <= k < out.len() ==> #[trigger] keys[k]@ == lower_of(out[k].display_name@),
                xk@ == lower_of(x.display_name@),
                insert_entry(s, x) == insert_entry(s.take(j as int), x) + s.skip(j as int),
            decreases j,
        {
            let ghost t = s.take(j as int);
            assert(t.drop_last() =~= s.take(j - 1));
            assert(insert_entry(t, x) == insert_entry(s.take(j - 1), x).push(s[j - 1]));
            assert(insert_entry(s.take(j - 1), x).push(s[j - 1]) + s.skip(j as int)
                =~= insert_entry(s.take(j - 1), x) + s.skip(j - 1));
            j = j - 1;
        }
        proof {
            let t = s.take(j as int);
            if j > 0 {
                assert(t.last() == s[j - 1]);
                assert(insert_entry(t, x) == t.push(x));
            } else {
                assert(insert_entry(t, x) == seq![x]);
            }
            assert(insert_entry(s, x) =~= s.insert(j as int, x));
            assert(files@.take(i + 1).drop_last() =~= files@.take(i as int));
        }
        out.insert(j, x);
        keys.insert(j, xk);
        i = i + 1;
    }
    assert(files@.take(i as int) =~= files@);
    out
}

// ---------------------------------------------------------------------------
// Selection
// ---------------------------------------------------------------------------

/// Some entry of `s` has the full path `p`.
pub open spec fn has_path(s: Seq<File>, p: Seq<char>) -> bool {
    exists|i: int| 0 <= i < s.len() && #[trigger] s[i].full_path@ == p
}

/// `s` without its entries whose full path is `p`, in the order of `s`.
pub open spec fn without_path(s: Seq<File>, p: Seq<char>) -> Seq<File>
    decreases s.len(),
{
    if s.len() == 0 {
        s
    } else if s.last().full_path@ == p {
        without_path(s.drop_last(), p)
    } else {
        without_path(s.drop_last(), p).push(s.last())
    }
}

/// No two entries of `s` share a full path.
pub open spec fn unique_paths(s: Seq<File>) -> bool {
    forall|i: int, j: int| 0 <= i < j < s.len() ==> #[trigger] s[i].full_path@ != #[trigger] s[j].full_path@
}

/// The selection after toggling `e`: entries with the path of `e` leave it, or,
/// when there is none, `e` is put first.
pub open spec fn toggled(s: Seq<File>, e: File) -> Seq<File> {
    if has_path(s, e.full_path@) {
        without_path(s, e.full_path@)
    } else {
        seq![e] + s
    }
}

pub proof fn lemma_without_path(s: Seq<File>, p: Seq<char>)
    ensures
        !has_path(without_path(s, p), p),
        forall|y: File| without_path(s, p).contains(y) ==> s.contains(y),
        forall|y: File| s.contains(y) && y.full_path@ != p ==> without_path(s, p).contains(y),
        unique_paths(s) ==> unique_paths(without_path(s, p)),
        !has_path(s, p) ==> without_path(s, p) == s,
        without_path(s, p).len() <= s.len(),
    decreases s.len(),
{
    if s.len() > 0 {
        let t = s.drop_last();
        lemma_without_path(t, p);
        let r0 = without_path(t, p);
        if s.last().full_path@ == p {
            assert(without_path(s, p) == r0);
        } else {
            assert(without_path(s, p) == r0.push(s.last()));
        }
        assert forall|y: File| s.contains(y) && y.full_path@ != p implies without_path(s, p).contains(y) by {
            let k = choose|k: int| 0 <= k < s.len() && s[k] == y;
            if k < s.len() - 1 {
                assert(t[k] == y);
                assert(t.contains(y));
                let m = choose|m: int| 0 <= m < r0.len() && r0[m] == y;
                if s.last().full_path@ != p {
                    assert(without_path(s, p)[m] == y);
                }
            } else {
                assert(without_path(s, p).last() == y);
            }
        }
        assert forall|y: File| without_path(s, p).contains(y) implies s.contains(y) by {
            let k = choose|k: int| 0 <= k < without_path(s, p).len() && without_path(s, p)[k] == y;
            if k < r0.len() {
                assert(r0[k] == y);
                assert(r0.contains(y));
                assert(t.contains(y));
                let m = choose|m: int| 0 <= m < t.len() && t[m] == y;
                assert(s[m] == y);
            } else {
                assert(s[s.len() - 1] == y);
            }
        }
        if s.last().full_path@ != p {
            let r = without_path(s, p);
            assert(!has_path(r, p)) by {
                if has_path(r, p) {
                    let k = choose|k: int| 0 <= k < r.len() && #[trigger] r[k].full_path@ == p;
                    if k < r0.len() {
                        assert(r0[k].full_path@ == p);
                    }
                }
            }
            if unique_paths(s) {
                assert(unique_paths(t)) by {
                    assert forall|i: int, j: int| 0 <= i < j < t.len() implies #[trigger] t[i].full_path@
                        != #[trigger] t[j].full_path@ by {
                        assert(s[i] == t[i] && s[j] == t[j]);
                    }
                }
                assert forall|i: int, j: int| 0 <= i < j < r.len() implies #[trigger] r[i].full_path@
                    != #[trigger] r[j].full_path@ by {
                    if j == r0.len() {
                        let y = r0[i];
                        assert(r0.contains(y));
                        assert(t.contains(y));
                        let m = choose|m: int| 0 <= m < t.len() && t[m] == y;
                        assert(s[m] == y);
                        assert(s[m].full_path@ != s[s.len() - 1].full_path@);
                    } else {
                        assert(r[i] == r0[i] && r[j] == r0[j]);
                    }
                }
            }
            if !has_path(s, p) {
                assert(!has_path(t, p)) by {
                    if has_path(t, p) {
                        let k = choose|k: int| 0 <= k < t.len() && #[trigger] t[k].full_path@ == p;
                        assert(s[k].full_path@ == p);
                    }
                }
                assert(s =~= t.push(s.last()));
            }
        } else {
            if unique_paths(s) {
                assert(unique_paths(t)) by {
                    assert forall|i: int, j: int| 0 <= i < j < t.len() implies #[trigger] t[i].full_path@
                        != #[trigger] t[j].full_path@ by {
                        assert(s[i] == t[i] && s[j] == t[j]);
                    }
                }
            }
            assert(has_path(s, p)) by {
                assert(s[s.len() - 1].full_path@ == p);
            }
        }
    }
}

/// Removing the entries of one path from a sequence that starts with an entry
/// of that path is the same as removing them from the rest.
proof fn lemma_without_path_prepend(e: File, s: Seq<File>, p: Seq<char>)
    requires
        e.full_path@ == p,
    ensures
        without_path(seq![e] + s, p) == without_path(s, p),
    decreases s.len(),
{
    if s.len() == 0 {
        assert((seq![e] + s).drop_last() =~= Seq::<File>::empty());
        assert((seq![e] + s).last() == e);
        assert(without_path(Seq::<File>::empty(), p) == Seq::<File>::empty());
        assert(s =~= Seq::<File>::empty());
    } else {
        lemma_without_path_prepend(e, s.drop_last(), p);
        assert((seq![e] + s).drop_last() =~= seq![e] + s.drop_last());
        assert((seq![e] + s).last() == s.last());
    }
}

/// Toggling keeps a selection free of repeated paths.
pub proof fn lemma_toggled_unique(s: Seq<File>, e: File)
    requires
        unique_paths(s),
    ensures
        unique_paths(toggled(s, e)),
{
    lemma_without_path(s, e.full_path@);
    if !has_path(s, e.full_path@) {
        let r = seq![e] + s;
        assert forall|i: int, j: int| 0 <= i < j < r.len() implies #[trigger] r[i].full_path@
            != #[trigger] r[j].full_path@ by {
            if i == 0 {
                assert(r[j] == s[j - 1]);
            } else {
                assert(r[i] == s[i - 1] && r[j] == s[j - 1]);
            }
        }
    }
}

/// Toggling an entry twice gives back the selection, where the entry was not
/// selected or was the most recently selected one. Where another entry of the
/// same path is selected, or the entry was selected earlier than others, the
/// second toggle puts it first instead.
pub proof fn lemma_toggle_twice(s: Seq<File>, e: File)
    requires
        unique_paths(s),
        !has_path(s, e.full_path@) || s[0] == e,
    ensures
        toggled(toggled(s, e), e) == s,
{
    let p = e.full_path@;
    if !has_path(s, p) {
        let r = seq![e] + s;
        assert(r[0].full_path@ == p);
        lemma_without_path_prepend(e, s, p);
        lemma_without_path(s, p);
    } else {
        let t = s.drop_first();
        assert(s =~= seq![e] + t);
        assert(!has_path(t, p)) by {
            if has_path(t, p) {
                let k = choose|k: int| 0 <= k < t.len() && #[trigger] t[k].full_path@ == p;
                assert(s[k + 1].full_path@ == s[0].full_path@);
            }
        }
        lemma_without_path_prepend(e, t, p);
        lemma_without_path(t, p);
    }
}

/// Adds `selected_file` to the selection, first, or, when an entry of the same
/// full path is selected, removes that one.
pub fn toggle_selected_file(selected_files: &Vec<File>, selected_file: &File) -> (r: Vec<File>)
    ensures
        r@ == toggled(selected_files@, *selected_file),
{
    let p = &selected_file.full_path;
    let mut found = false;
    let mut i: usize = 0;
    while i < selected_files.len()
        invariant
            i <= selected_files.len(),
            found == exists|k: int| 0 <= k < i && #[trigger] selected_files@[k].full_path@ == p@,
        decreases selected_files.len() - i,
    {
        if selected_files[i].full_path == *p {
            found = true;
        }
        i = i + 1;
    }
    if found {
        remove_path(selected_files, p)
    } else {
        let mut r: Vec<File> = Vec::new();
        r.push(selected_file.clone());
        let mut i: usize = 0;
        while i < selected_files.len()
            invariant
                i <= selected_files.len(),
                r@ == seq![*selected_file] + selected_files@.take(i as int),
            decreases selected_files.len() - i,
        {
            r.push(selected_files[i].clone());
            i = i + 1;
            assert(r@ =~= seq![*selected_file] + selected_files@.take(i as int));
        }
        assert(selected_files@.take(i as int) =~= selected_files@);
        r
    }
}

/// The entries of `files` whose full path is not `path`, in order.
pub fn remove_path(files: &Vec<File>, path: &String) -> (r: Vec<File>)
    ensures
        r@ == without_path(files@, path@),
{
    let mut r: Vec<File> = Vec::new();
    let mut i: usize = 0;
    while i < files.len()
        invariant
            i <= files.len(),
            r@ == without_path(files@.take(i as int), path@),
        decreases files.len() - i,
    {
        assert(files@.take(i + 1).drop_last() =~= files@.take(i as int));
        if files[i].full_path != *path {
            r.push(files[i].clone());
        }
        i = i + 1;
    }
    assert(files@.take(i as int) =~= files@);
    r
}

// ---------------------------------------------------------------------------
// Building a listing
// ---------------------------------------------------------------------------

/// The name under which an entry is shown: its basename, with a `/` after it
/// for a directory.
pub open spec fn display_name_of(path: Seq<char>, is_dir: bool) -> Seq<char> {
    if is_dir {
        basename(path).push('/')
    } else {
        basename(path)
    }
}

/// `f` is the entry for the object at `path`.
pub open spec fn describes(f: File, path: Seq<char>, is_dir: bool) -> bool {
    &&& f.full_path@ == path
    &&& f.is_dir == is_dir
    &&& f.display_name@ == display_name_of(path, is_dir)
}

/// `out` lists the objects of `raw` (each a full path and whether it is a
/// directory), in the same order, leaving out dot names unless `hidden_files`.
pub open spec fn is_listing_of(out: Seq<File>, raw: Seq<(String, bool)>, hidden_files: bool) -> bool
    decreases raw.len(),
{
    if raw.len() == 0 {
        out.len() == 0
    } else if !hidden_files && is_dot_name(display_name_of(raw.last().0@, raw.last().1)) {
        is_listing_of(out, raw.drop_last(), hidden_files)
    } else {
        &&& out.len() > 0
        &&& describes(out.last(), raw.last().0@, raw.last().1)
        &&& is_listing_of(out.drop_last(), raw.drop_last(), hidden_files)
    }
}

impl File {
    /// The entry for the object at `full_path`.
    pub fn from_path(full_path: String, is_dir: bool) -> (r: File)
        ensures
            describes(r, full_path@, is_dir),
    {
        let mut display_name = get_basename(&full_path);
        if is_dir {
            display_name.append("/");
            proof {
                reveal_strlit("/");
            }
            assert(display_name@ =~= basename(full_path@).push('/'));
        }
        File { display_name, full_path, is_dir }
    }
}

/// The listing of a directory from what was read of it: each object's full
/// path and whether it is a directory. Dot names are left out unless
/// `hidden_files`.
pub fn get_files_for_dir(entries: &Vec<(String, bool)>, hidden_files: bool) -> (r: Vec<File>)
    ensures
        is_listing_of(r@, entries@, hidden_files),
{
    let mut r: Vec<File> = Vec::new();
    let mut i: usize = 0;
    while i < entries.len()
        invariant
            i <= entries.len(),
            is_listing_of(r@, entries@.take(i as int), hidden_files),
        decreases entries.len() - i,
    {
        let ghost before = r@;
        assert(entries@.take(i + 1).drop_last() =~= entries@.take(i as int));
        assert(entries@.take(i + 1).last() == entries@[i as int]);
        let f = File::from_path(entries[i].0.clone(), entries[i].1);
        let hidden = starts_with_dot(&f.display_name);
        if hidden_files || !hidden {
            r.push(f);
            assert(r@.drop_last() =~= before);
        }
        i = i + 1;
    }
    assert(entries@.take(i as int) =~= entries@);
    r
}

} // verus!
