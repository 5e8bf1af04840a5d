//! The highlighted position in a list, and the memory of that position for
//! every directory visited.
use vstd::prelude::*;

verus! {

/// `c` is unset or names an element of a list of length `len`.
pub open spec fn cursor_in(c: Option<usize>, len: nat) -> bool {
    match c {
        None => true,
        Some(i) => i < len,
    }
}

/// One step down, stopping at the last element; an unset cursor goes to the
/// first one.
pub open spec fn next_cursor(c: Option<usize>, len: nat) -> Option<usize> {
    if len == 0 {
        None
    } else {
        match c {
            None => Some(0),
            Some(i) => Some(if i + 1 < len { (i + 1) as usize } else { (len - 1) as usize }),
        }
    }
}

/// One step up, stopping at the first element; an unset cursor goes to the
/// last one.
pub open spec fn previous_cursor(c: Option<usize>, len: nat) -> Option<usize> {
    if len == 0 {
        None
    } else {
        match c {
            None => Some((len - 1) as usize),
            Some(i) => Some(
                if i == 0 {
                    0
                } else if i - 1 < len {
                    (i - 1) as usize
                } else {
                    (len - 1) as usize
                },
            ),
        }
    }
}

/// The cursor kept within a list that now has length `len`.
pub open spec fn clamped_cursor(c: Option<usize>, len: nat) -> Option<usize> {
    match c {
        None => None,
        Some(i) => if len == 0 {
            None
        } else if i < len {
            Some(i)
        } else {
            Some((len - 1) as usize)
        },
    }
}

/// The cursor on entering a directory whose listing has length `len`: the
/// position remembered for it while that still names an entry, else the first
/// entry; unset for an empty listing.
pub open spec fn restored_cursor(memory: Map<Seq<char>, usize>, dir: Seq<char>, len: nat) -> Option<usize> {
    if len == 0 {
        None
    } else if memory.contains_key(dir) && memory[dir] < len {
        Some(memory[dir])
    } else {
        Some(0)
    }
}

pub fn select_next(c: Option<usize>, len: usize) -> (r: Option<usize>)
    ensures
        r == next_cursor(c, len as nat),
{
    if len == 0 {
        None
    } else {
        match c {
            None => Some(0),
            Some(i) => Some(if i < len - 1 { i + 1 } else { len - 1 }),
        }
    }
}

pub fn select_previous(c: Option<usize>, len: usize) -> (r: Option<usize>)
    ensures
        r == previous_cursor(c, len as nat),
{
    if len == 0 {
        None
    } else {
        match c {
            None => Some(len - 1),
            Some(i) => Some(
                if i == 0 {
                    0
                } else if i - 1 < len {
                    i - 1
                } else {
                    len - 1
                },
            ),
        }
    }
}

pub fn clamp_cursor(c: Option<usize>, len: usize) -> (r: Option<usize>)
    ensures
        r == clamped_cursor(c, len as nat),
{
    match c {
        None => None,
        Some(i) => if len == 0 {
            None
        } else if i < len {
            Some(i)
        } else {
            Some(len - 1)
        },
    }
}

/// The map from directory to position that `entries` stands for: a later
/// entry for a directory overrides an earlier one.
pub open spec fn memory_map(entries: Seq<(String, usize)>) -> Map<Seq<char>, usize>
    decreases entries.len(),
{
    if entries.len() == 0 {
        Map::empty()
    } else {
        memory_map(entries.drop_last()).insert(entries.last().0@, entries.last().1)
    }
}

pub open spec fn unique_keys(entries: Seq<(String, usize)>) -> bool {
    forall|i: int, j: int| 0 <= i < j < entries.len() ==> #[trigger] entries[i].0@ != #[trigger] entries[j].0@
}

proof fn lemma_memory_map(entries: Seq<(String, usize)>)
    requires
        unique_keys(entries),
    ensures
        forall|i: int|
            0 <= i < entries.len() ==> #[trigger] memory_map(entries).contains_key(entries[i].0@)
                && memory_map(entries)[entries[i].0@] == entries[i].1,
        forall|k: Seq<char>|
            #[trigger] memory_map(entries).contains_key(k) ==> exists|i: int|
                0 <= i < entries.len() && #[trigger] entries[i].0@ == k,
    decreases entries.len(),
{
    if entries.len() > 0 {
        let t = entries.drop_last();
        assert(unique_keys(t)) by {
            assert forall|i: int, j: int| 0 <= i < j < t.len() implies #[trigger] t[i].0@ != #[trigger] t[j].0@ by {
                assert(t[i] == entries[i] && t[j] == entries[j]);
            }
        }
        lemma_memory_map(t);
        let last = entries.last();
        assert(memory_map(entries) == memory_map(t).insert(last.0@, last.1));
        assert forall|i: int| 0 <= i < entries.len() implies #[trigger] memory_map(entries).contains_key(
            entries[i].0@,
        ) && memory_map(entries)[entries[i].0@] == entries[i].1 by {
            if i < entries.len() - 1 {
                assert(t[i] == entries[i]);
                assert(memory_map(t).contains_key(t[i].0@));
                assert(entries[i].0@ != entries[entries.len() - 1].0@);
            }
        }
        assert forall|k: Seq<char>| #[trigger] memory_map(entries).contains_key(k) implies exists|i: int|
            0 <= i < entries.len() && #[trigger] entries[i].0@ == k by {
            if k != last.0@ {
                assert(memory_map(t).contains_key(k));
                let i = choose|i: int| 0 <= i < t.len() && #[trigger] t[i].0@ == k;
                assert(entries[i] == t[i]);
            } else {
                assert(entries[entries.len() - 1].0@ == k);
            }
        }
    }
}

/// For every directory visited, the position last highlighted in it.
pub struct CursorMemory {
    entries: Vec<(String, usize)>,
}

impl View for CursorMemory {
    type V = Map<Seq<char>, usize>;

    closed spec fn view(&self) -> Map<Seq<char>, usize> {
        memory_map(self.entries@)
    }
}

impl CursorMemory {
    pub closed spec fn wf(&self) -> bool {
        unique_keys(self.entries@)
    }

    /// A memory with no directory in it.
    pub fn new() -> (r: CursorMemory)
        ensures
            r.wf(),
            r@ == Map::<Seq<char>, usize>::empty(),
    {
        CursorMemory { entries: Vec::new() }
    }

    /// The position remembered for `dir`, if any.
    pub fn get(&self, dir: &String) -> (r: Option<usize>)
        requires
            self.wf(),
        ensures
            r == if self@.contains_key(dir@) {
                Some(self@[dir@])
            } else {
                None
            },
    {
        proof {
            lemma_memory_map(self.entries@);
        }
        let mut i: usize = 0;
        while i < self.entries.len()
            invariant
                i <= self.entries.len(),
                unique_keys(self.entries@),
                forall|k: int| 0 <= k < i ==> #[trigger] self.entries@[k].0@ != dir@,
            decreases self.entries.len() - i,
        {
            if self.entries[i].0 == *dir {
                proof {
                    lemma_memory_map(self.entries@);
                }
                assert(memory_map(self.entries@).contains_key(self.entries@[i as int].0@));
                return Some(self.entries[i].1);
            }
            i = i + 1;
        }
        None
    }

    /// Remembers `index` for `dir`, in place of what was remembered for it.
    pub fn insert(&mut self, dir: String, index: usize)
        requires
            old(self).wf(),
        ensures
            final(self).wf(),
            final(self)@ == old(self)@.insert(dir@, index),
    {
        proof {
            lemma_memory_map(self.entries@);
        }
        let ghost before = self.entries@;
        let mut i: usize = 0;
        while i < self.entries.len()
            invariant
                i <= self.entries.len(),
                self.entries@ == before,
                old(self).entries@ == before,
                unique_keys(before),
                forall|k: int| 0 <= k < i ==> #[trigger] self.entries@[k].0@ != dir@,
            decreases self.entries.len() - i,
        {
            if self.entries[i].0 == dir {
                let ghost key = dir@;
                proof {
                    lemma_memory_map(before);
                }
                assert(before[i as int].0@ == key);
                self.entries.set(i, (dir, index));
                proof {
                    let after = self.entries@;
                    assert(after == before.update(i as int, after[i as int]));
                    assert(after[i as int].0@ == key);
                    assert forall|a: int| 0 <= a < after.len() implies #[trigger] after[a].0@ == before[a].0@ by {
                        if a != i {
                            assert(after[a] == before[a]);
                        }
                    }
                    assert(unique_keys(after)) by {
                        assert forall|a: int, b: int| 0 <= a < b < after.len() implies #[trigger] after[a].0@
                            != #[trigger] after[b].0@ by {
                            assert(after[a].0@ == before[a].0@);
                            assert(after[b].0@ == before[b].0@);
                        }
                    }
                    lemma_memory_map(after);
                    let m0 = memory_map(before).insert(key, index);
                    assert forall|k: Seq<char>| #[trigger] memory_map(after).contains_key(k) implies m0.contains_key(k)
                        && memory_map(after)[k] == m0[k] by {
                        let a = choose|a: int| 0 <= a < after.len() && #[trigger] after[a].0@ == k;
                        assert(before[a].0@ == k);
                        assert(memory_map(before).contains_key(before[a].0@));
                        if a != i {
                            assert(after[a] == before[a]);
                        }
                    }
                    assert forall|k: Seq<char>| #[trigger] m0.contains_key(k) implies memory_map(after).contains_key(k) by {
                        if k != key {
                            assert(memory_map(before).contains_key(k));
                            let a = choose|a: int| 0 <= a < before.len() && #[trigger] before[a].0@ == k;
                            assert(after[a].0@ == k);
                        } else {
                            assert(after[i as int].0@ == k);
                        }
                    }
                    assert(memory_map(after) =~= m0);
                }
                return;
            }
            i = i + 1;
        }
        let ghost key = dir@;
        self.entries.push((dir, index));
        proof {
            let after = self.entries@;
            assert(after.drop_last() =~= before);
            assert(unique_keys(after)) by {
                assert forall|a: int, b: int| 0 <= a < b < after.len() implies #[trigger] after[a].0@
                    != #[trigger] after[b].0@ by {
                    assert(after[a] == before[a]);
                }
            }
        }
    }
}

} // verus!
