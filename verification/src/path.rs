//! File paths compared as paths are: by their components, so that repeated separators, a
//! trailing separator and `.` inside a path make no difference
use vstd::prelude::*;

use crate::scan::{chars_of, split_at_char, split_chars, views};

verus! {

/// The components that the pieces of a path between separators give, up to piece `k`: empty
/// pieces give none, and `.` gives one only as the first piece of a path that is not rooted
pub open spec fn key_pieces(ps: Seq<Seq<char>>, rooted: bool, k: int) -> Seq<Seq<char>>
    decreases k,
{
    if k <= 0 || k > ps.len() {
        seq![]
    } else {
        let q = ps[k - 1];
        key_pieces(ps, rooted, k - 1) + if q.len() == 0 {
            seq![]
        } else if q == seq!['.'] {
            if k - 1 == 0 && !rooted {
                seq![q]
            } else {
                seq![]
            }
        } else {
            seq![q]
        }
    }
}

/// The components of a path: the root, where it starts with `/`, then the pieces between
/// separators as `key_pieces` keeps them
pub open spec fn path_key(p: Seq<char>) -> Seq<Seq<char>> {
    let rooted = p.len() > 0 && p[0] == '/';
    let ps = split_at_char(p, '/');
    (if rooted {
        seq![seq!['/']]
    } else {
        seq![]
    }) + key_pieces(ps, rooted, ps.len() as int)
}

/// Check whether two lists of characters are the same
fn chars_eq(a: &Vec<char>, b: &Vec<char>) -> (r: bool)
    ensures
        r == (a@ == b@),
{
    if a.len() != b.len() {
        return false;
    }
    let mut i: usize = 0;
    while i < a.len()
        invariant
            a@.len() == b@.len(),
            i <= a@.len(),
            forall|k: int| 0 <= k < i ==> a@[k] == b@[k],
        decreases a@.len() - i,
    {
        if a[i] != b[i] {
            return false;
        }
        i += 1;
    }
    assert(a@ =~= b@);
    true
}

/// Get the components of a path
pub fn path_key_exec(p: &str) -> (r: Vec<Vec<char>>)
    ensures
        views(r@) == path_key(p@),
{
    let v = chars_of(p);
    let rooted = v.len() > 0 && v[0] == '/';
    let ps = split_chars(&v, '/');
    let ghost pv = views(ps@);
    let mut out: Vec<Vec<char>> = Vec::new();
    if rooted {
        let mut root: Vec<char> = Vec::new();
        root.push('/');
        out.push(root);
    }
    let ghost head = views(out@);
    assert(head =~= if rooted {
        seq![seq!['/']]
    } else {
        Seq::<Seq<char>>::empty()
    });
    let mut i: usize = 0;
    while i < ps.len()
        invariant
            pv == views(ps@),
            pv == split_at_char(p@, '/'),
            i <= ps@.len(),
            views(out@) == head + key_pieces(pv, rooted, i as int),
        decreases ps@.len() - i,
    {
        let q = &ps[i];
        assert(pv[i as int] == q@);
        let dot = q.len() == 1 && q[0] == '.';
        assert(dot == (q@ == seq!['.'])) by {
            if q@.len() == 1 {
                assert(q@ =~= seq![q@[0]]);
            }
        }
        let ghost before = views(out@);
        let c = q.clone();
        assert(c@ =~= q@);
        if q.len() == 0 {
        } else if dot {
            if i == 0 && !rooted {
                out.push(c);
            }
        } else {
            out.push(c);
        }
        proof {
            let prev = key_pieces(pv, rooted, i as int);
            assert(key_pieces(pv, rooted, i + 1) == prev + if q@.len() == 0 {
                Seq::<Seq<char>>::empty()
            } else if q@ == seq!['.'] {
                if i == 0 && !rooted {
                    seq![q@]
                } else {
                    Seq::<Seq<char>>::empty()
                }
            } else {
                seq![q@]
            });
            if views(out@).len() > before.len() {
                assert(views(out@) =~= before.push(q@));
            } else {
                assert(views(out@) =~= before);
            }
            assert(views(out@) =~= head + key_pieces(pv, rooted, i + 1));
        }
        i += 1;
    }
    out
}

/// Check whether two paths name the same file
pub fn same_path(a: &str, b: &str) -> (r: bool)
    ensures
        r == (path_key(a@) == path_key(b@)),
{
    let ka = path_key_exec(a);
    let kb = path_key_exec(b);
    if ka.len() != kb.len() {
        assert(views(ka@).len() != views(kb@).len());
        return false;
    }
    let mut i: usize = 0;
    while i < ka.len()
        invariant
            ka@.len() == kb@.len(),
            views(ka@) == path_key(a@),
            views(kb@) == path_key(b@),
            i <= ka@.len(),
            forall|k: int| 0 <= k < i ==> views(ka@)[k] == views(kb@)[k],
        decreases ka@.len() - i,
    {
        assert(views(ka@)[i as int] == ka@[i as int]@);
        assert(views(kb@)[i as int] == kb@[i as int]@);
        if !chars_eq(&ka[i], &kb[i]) {
            assert(views(ka@)[i as int] != views(kb@)[i as int]);
            assert(path_key(a@) != path_key(b@));
            return false;
        }
        i += 1;
    }
    assert(views(ka@) =~= views(kb@));
    true
}

} // verus!
