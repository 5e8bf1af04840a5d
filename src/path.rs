//! Paths as character sequences separated by `/`.
use vstd::prelude::*;

verus! {

/// The part of `p` after its last `/`, or all of `p` when it has none.
pub open spec fn basename(p: Seq<char>) -> Seq<char>
    decreases p.len(),
{
    if p.len() == 0 {
        p
    } else if p.last() == '/' {
        Seq::empty()
    } else {
        basename(p.drop_last()).push(p.last())
    }
}

/// The part of `p` before its last `/`, if it has one.
pub open spec fn before_last_slash(p: Seq<char>) -> Option<Seq<char>>
    decreases p.len(),
{
    if p.len() == 0 {
        None
    } else if p.last() == '/' {
        Some(p.drop_last())
    } else {
        before_last_slash(p.drop_last())
    }
}

/// The parent of a path: what comes before its last `/`, or `/` when that is
/// empty (the root is its own parent); empty when the path has no `/`.
pub open spec fn parent_dir(p: Seq<char>) -> Seq<char> {
    match before_last_slash(p) {
        None => Seq::empty(),
        Some(d) => if d.len() == 0 {
            seq!['/']
        } else {
            d
        },
    }
}

proof fn lemma_split_at_last_slash(p: Seq<char>, j: int)
    requires
        0 <= j <= p.len(),
        j == 0 || p[j - 1] == '/',
        forall|k: int| j <= k < p.len() ==> p[k] != '/',
    ensures
        basename(p) == p.skip(j),
        before_last_slash(p) == if j == 0 {
            None
        } else {
            Some(p.take(j - 1))
        },
    decreases p.len(),
{
    if p.len() > j {
        let t = p.drop_last();
        lemma_split_at_last_slash(t, j);
        assert(p.skip(j) =~= t.skip(j).push(p.last()));
        if j > 0 {
            assert(t.take(j - 1) =~= p.take(j - 1));
        }
    } else if p.len() > 0 {
        assert(p.skip(j) =~= Seq::<char>::empty());
        assert(p.drop_last() =~= p.take(j - 1));
    } else {
        assert(p.skip(j) =~= p);
    }
}

/// The position just after the last `/` of `s`, or 0 when it has none.
fn after_last_slash(s: &str) -> (j: usize)
    ensures
        j <= s@.len(),
        j == 0 || s@[j - 1] == '/',
        forall|k: int| j <= k < s@.len() ==> s@[k] != '/',
{
    let mut j = s.unicode_len();
    while j > 0 && s.get_char(j - 1) != '/'
        invariant
            j <= s@.len(),
            forall|k: int| j <= k < s@.len() ==> s@[k] != '/',
        decreases j,
    {
        j = j - 1;
    }
    j
}

/// The last component of `path`.
pub fn get_basename(path: &String) -> (r: String)
    ensures
        r@ == basename(path@),
{
    let text = path.as_str();
    let j = after_last_slash(text);
    proof {
        lemma_split_at_last_slash(path@, j as int);
    }
    let n = text.unicode_len();
    String::from_str(text.substring_char(j, n))
}

/// The parent directory of `current_path`.
pub fn get_parent_dir(current_path: &String) -> (r: String)
    ensures
        r@ == parent_dir(current_path@),
{
    let text = current_path.as_str();
    let j = after_last_slash(text);
    proof {
        lemma_split_at_last_slash(current_path@, j as int);
    }
    if j == 0 {
        String::new()
    } else if j == 1 {
        let r = String::from_str("/");
        proof {
            reveal_strlit("/");
            assert(r@ =~= seq!['/']);
        }
        r
    } else {
        String::from_str(text.substring_char(0, j - 1))
    }
}

} // verus!
