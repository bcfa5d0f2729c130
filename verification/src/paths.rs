//! Absolute paths, held as text: joining, taking parents, comparing
//! prefixes, and writing them with the home directory shortened to `~`.
use vstd::prelude::*;

use crate::text::{chars_of, push_chars, string_of};

verus! {

/// Whether `p` is an absolute path: it starts with `/`.
pub open spec fn is_absolute(p: Seq<char>) -> bool {
    p.len() > 0 && p[0] == '/'
}

/// `p` with the node `name` appended.
pub open spec fn join(p: Seq<char>, name: Seq<char>) -> Seq<char> {
    if p.len() > 0 && p.last() == '/' {
        p + name
    } else {
        p.push('/') + name
    }
}

/// The position of the last `/` in `p`, if any.
pub open spec fn last_slash(p: Seq<char>) -> Option<nat>
    decreases p.len(),
{
    if p.len() == 0 {
        None
    } else if p.last() == '/' {
        Some((p.len() - 1) as nat)
    } else {
        last_slash(p.drop_last())
    }
}

/// The parent of an absolute path, or `None` for the root.
pub open spec fn parent(p: Seq<char>) -> Option<Seq<char>> {
    if p.len() <= 1 {
        None
    } else {
        match last_slash(p) {
            None => None,
            Some(i) => if i == 0 { Some(seq!['/']) } else { Some(p.take(i as int)) },
        }
    }
}

/// The name of the last node of an absolute path, or `None` for the root.
pub open spec fn node_name(p: Seq<char>) -> Option<Seq<char>> {
    if p.len() <= 1 {
        None
    } else {
        match last_slash(p) {
            None => None,
            Some(i) => Some(p.skip(i as int + 1)),
        }
    }
}

/// Whether `base` is `p` or one of its ancestors, compared by whole path
/// components.
pub open spec fn starts_with(p: Seq<char>, base: Seq<char>) -> bool {
    &&& base.len() <= p.len()
    &&& p.take(base.len() as int) == base
    &&& (base.len() == p.len() || (base.len() > 0 && base.last() == '/') || p[base.len() as int] == '/')
}

/// How a path is shown to the user: when it lies strictly under the home
/// directory, the home directory is replaced by `~`.
pub open spec fn tilde_text(p: Seq<char>, home: Option<Seq<char>>) -> Seq<char> {
    match home {
        Some(h) => if starts_with(p, h) && p != h {
            seq!['~'] + p.skip(h.len() as int)
        } else {
            p
        },
        None => p,
    }
}

/// Whether a path spells `name` under an absolute path.
pub fn is_absolute_exec(p: &str) -> (r: bool)
    ensures
        r == is_absolute(p@),
{
    let cs = chars_of(p);
    cs.len() > 0 && cs[0] == '/'
}

/// `p` with the node `name` appended, with exactly one `/` between them.
pub fn join_exec(p: &str, name: &str) -> (r: String)
    ensures
        r@ == join(p@, name@),
{
    let mut cs = chars_of(p);
    if !(cs.len() > 0 && cs[cs.len() - 1] == '/') {
        cs.push('/');
    }
    let n = chars_of(name);
    push_chars(&mut cs, &n);
    string_of(cs.as_slice())
}

/// Finds the last `/` of `p`.
fn last_slash_exec(p: &Vec<char>) -> (r: Option<usize>)
    ensures
        match last_slash(p@) {
            None => r is None,
            Some(i) => r matches Some(j) && j as nat == i && i < p@.len(),
        },
{
    let mut i: usize = p.len();
    proof { assert(p@.take(p@.len() as int) == p@); }
    while i > 0
        invariant
            i <= p@.len(),
            last_slash(p@) == last_slash(p@.take(i as int)),
        decreases i,
    {
        proof { assert(p@.take(i as int).drop_last() == p@.take(i as int - 1)); }
        if p[i - 1] == '/' {
            return Some(i - 1);
        }
        i -= 1;
    }
    proof { assert(p@.take(0) =~= Seq::<char>::empty()); }
    None
}

/// The parent of an absolute path, or `None` for the root.
pub fn parent_exec(p: &str) -> (r: Option<String>)
    ensures
        match parent(p@) {
            None => r is None,
            Some(q) => r matches Some(s) && s@ == q,
        },
{
    let cs = chars_of(p);
    if cs.len() <= 1 {
        return None;
    }
    proof { assert(cs@.take(cs@.len() as int) == cs@); }
    match last_slash_exec(&cs) {
        None => None,
        Some(0) => {
            let root: [char; 1] = ['/'];
            proof { assert(root@ == seq!['/']); }
            Some(string_of(&root))
        },
        Some(i) => {
            let mut out: Vec<char> = Vec::new();
            let mut j: usize = 0;
            while j < i
                invariant
                    j <= i < cs@.len(),
                    out@ == cs@.take(j as int),
                decreases i - j,
            {
                out.push(cs[j]);
                proof { assert(cs@.take(j as int + 1) == cs@.take(j as int).push(cs@[j as int])); }
                j += 1;
            }
            Some(string_of(out.as_slice()))
        },
    }
}

/// The name of the last node of an absolute path, or `None` for the root.
pub fn node_name_exec(p: &str) -> (r: Option<String>)
    ensures
        match node_name(p@) {
            None => r is None,
            Some(q) => r matches Some(s) && s@ == q,
        },
{
    let cs = chars_of(p);
    if cs.len() <= 1 {
        return None;
    }
    proof { assert(cs@.take(cs@.len() as int) == cs@); }
    match last_slash_exec(&cs) {
        None => None,
        Some(i) => {
            let mut out: Vec<char> = Vec::new();
            let mut j: usize = i + 1;
            while j < cs.len()
                invariant
                    i < j <= cs@.len(),
                    out@ == cs@.subrange(i + 1, j as int),
                decreases cs@.len() - j,
            {
                out.push(cs[j]);
                proof { assert(cs@.subrange(i + 1, j as int + 1) == cs@.subrange(i + 1, j as int).push(cs@[j as int])); }
                j += 1;
            }
            proof { assert(cs@.subrange(i + 1, cs@.len() as int) == cs@.skip(i + 1)); }
            Some(string_of(out.as_slice()))
        },
    }
}

/// Whether `a` and `b` hold the same characters.
pub fn chars_eq(a: &Vec<char>, b: &Vec<char>) -> (r: bool)
    ensures
        r == (a@ == b@),
{
    if a.len() != b.len() {
        return false;
    }
    let mut i: usize = 0;
    while i < a.len()
        invariant
            a@.len() == b@.len(),
            i <= a@.len(),
            forall|j: int| 0 <= j < i ==> a@[j] == b@[j],
        decreases a@.len() - i,
    {
        if a[i] != b[i] {
            return false;
        }
        i += 1;
    }
    proof { assert(a@ =~= b@); }
    true
}

/// Whether `base` is `p` or one of its ancestors.
fn starts_with_chars(p: &Vec<char>, base: &Vec<char>) -> (r: bool)
    ensures
        r == starts_with(p@, base@),
{
    if base.len() > p.len() {
        return false;
    }
    let mut i: usize = 0;
    while i < base.len()
        invariant
            base@.len() <= p@.len(),
            i <= base@.len(),
            forall|j: int| 0 <= j < i ==> p@[j] == base@[j],
        decreases base@.len() - i,
    {
        if p[i] != base[i] {
            proof { assert(p@.take(base@.len() as int)[i as int] != base@[i as int]); }
            return false;
        }
        i += 1;
    }
    proof { assert(p@.take(base@.len() as int) =~= base@); }
    base.len() == p.len() || (base.len() > 0 && base[base.len() - 1] == '/') || p[base.len()] == '/'
}

/// Whether `base` is `p` or one of its ancestors, compared by whole path
/// components.
pub fn starts_with_exec(p: &str, base: &str) -> (r: bool)
    ensures
        r == starts_with(p@, base@),
{
    let pc = chars_of(p);
    let bc = chars_of(base);
    starts_with_chars(&pc, &bc)
}

/// Writes a path for the user, replacing the home directory with `~` when
/// the path lies strictly under it.
pub fn tilde_path(p: &str, home: Option<&str>) -> (r: String)
    ensures
        r@ == tilde_text(p@, match home { Some(h) => Some(h@), None => None }),
{
    let pc = chars_of(p);
    match home {
        None => string_of(pc.as_slice()),
        Some(h) => {
            let hc = chars_of(h);
            if starts_with_chars(&pc, &hc) && !chars_eq(&pc, &hc) {
                let mut out: Vec<char> = Vec::new();
                out.push('~');
                let mut j: usize = hc.len();
                while j < pc.len()
                    invariant
                        hc@.len() <= j <= pc@.len(),
                        out@ == seq!['~'] + pc@.subrange(hc@.len() as int, j as int),
                    decreases pc@.len() - j,
                {
                    out.push(pc[j]);
                    proof {
                        assert(pc@.subrange(hc@.len() as int, j as int + 1)
                            == pc@.subrange(hc@.len() as int, j as int).push(pc@[j as int]));
                    }
                    j += 1;
                }
                proof { assert(pc@.subrange(hc@.len() as int, pc@.len() as int) == pc@.skip(hc@.len() as int)); }
                string_of(out.as_slice())
            } else {
                string_of(pc.as_slice())
            }
        },
    }
}

/// The parent of a path with a node joined to it is the path itself, and
/// the joined node is its name.
pub proof fn lemma_join_parent(p: Seq<char>, name: Seq<char>)
    requires
        is_absolute(p),
        name.len() > 0,
        forall|i: int| 0 <= i < name.len() ==> name[i] != '/',
        p.len() == 1 || p.last() != '/',
    ensures
        parent(join(p, name)) == Some(p),
        node_name(join(p, name)) == Some(name),
{
    let j = join(p, name);
    let k: nat = if p.len() == 1 { 0 } else { p.len() };
    lemma_last_slash_after(j, k);
    if p.len() == 1 {
        assert(j == p + name);
        assert(p =~= seq!['/']);
        assert(j.skip(1) =~= name);
    } else {
        assert(j.take(p.len() as int) =~= p);
        assert(j.skip(p.len() as int + 1) =~= name);
    }
}

proof fn lemma_last_slash_after(s: Seq<char>, k: nat)
    requires
        k < s.len(),
        s[k as int] == '/',
        forall|j: int| k < j < s.len() ==> s[j] != '/',
    ensures
        last_slash(s) == Some(k),
    decreases s.len(),
{
    if s.len() > k + 1 {
        lemma_last_slash_after(s.drop_last(), k);
    }
}

/// A path under the home directory is shown as `~` followed by the rest of
/// the path.
pub proof fn lemma_tilde_under_home(home: Seq<char>, rest: Seq<char>)
    requires
        is_absolute(home),
        home.last() != '/',
        rest.len() > 0,
        rest[0] == '/',
    ensures
        tilde_text(home + rest, Some(home)) == seq!['~'] + rest,
{
    let p = home + rest;
    assert(p.take(home.len() as int) =~= home);
    assert(p[home.len() as int] == '/');
    assert(p.len() != home.len());
    assert(p.skip(home.len() as int) =~= rest);
}


/// `p` as a path inside the directory `base`: the part of `p` after `base`,
/// as an absolute path (`/` for `base` itself), when `p` lies under `base`.
pub open spec fn strip_prefix(p: Seq<char>, base: Seq<char>) -> Option<Seq<char>> {
    if starts_with(p, base) {
        Some(
            if p.len() == base.len() {
                seq!['/']
            } else if base.len() > 0 && base.last() == '/' {
                seq!['/'] + p.skip(base.len() as int)
            } else {
                p.skip(base.len() as int)
            },
        )
    } else {
        None
    }
}

/// The path at `rel`, an absolute path inside the directory `root`, as an
/// absolute path of its own.
pub open spec fn concat(root: Seq<char>, rel: Seq<char>) -> Seq<char> {
    if rel.len() <= 1 {
        root
    } else if root.len() > 0 && root.last() == '/' {
        root + rel.skip(1)
    } else {
        root + rel
    }
}

/// `p` as a path inside the directory `base`, if it lies under it.
pub fn strip_prefix_exec(p: &str, base: &str) -> (r: Option<String>)
    ensures
        match strip_prefix(p@, base@) {
            Some(q) => r matches Some(s) && s@ == q,
            None => r is None,
        },
{
    let pc = chars_of(p);
    let bc = chars_of(base);
    if !starts_with_chars(&pc, &bc) {
        return None;
    }
    let mut out: Vec<char> = Vec::new();
    let mut j: usize = bc.len();
    if pc.len() == bc.len() {
        out.push('/');
        return Some(string_of(out.as_slice()));
    }
    if bc.len() > 0 && bc[bc.len() - 1] == '/' {
        out.push('/');
    }
    let ghost start = out@;
    while j < pc.len()
        invariant
            bc@.len() <= j <= pc@.len(),
            out@ == start + pc@.subrange(bc@.len() as int, j as int),
        decreases pc@.len() - j,
    {
        out.push(pc[j]);
        proof {
            assert(pc@.subrange(bc@.len() as int, j as int + 1)
                == pc@.subrange(bc@.len() as int, j as int).push(pc@[j as int]));
        }
        j += 1;
    }
    proof {
        assert(pc@.subrange(bc@.len() as int, pc@.len() as int) == pc@.skip(bc@.len() as int));
        if !(bc@.len() > 0 && bc@.last() == '/') {
            assert(start =~= Seq::<char>::empty());
            assert(out@ =~= pc@.skip(bc@.len() as int));
        }
    }
    Some(string_of(out.as_slice()))
}

/// The path at `rel`, an absolute path inside the directory `root`.
pub fn concat_exec(root: &str, rel: &str) -> (r: String)
    ensures
        r@ == concat(root@, rel@),
{
    let mut out = chars_of(root);
    let rc = chars_of(rel);
    if rc.len() <= 1 {
        return string_of(out.as_slice());
    }
    let from: usize = if out.len() > 0 && out[out.len() - 1] == '/' { 1 } else { 0 };
    let ghost start = out@;
    let mut j: usize = from;
    while j < rc.len()
        invariant
            from <= j <= rc@.len(),
            out@ == start + rc@.subrange(from as int, j as int),
        decreases rc@.len() - j,
    {
        out.push(rc[j]);
        proof {
            assert(rc@.subrange(from as int, j as int + 1) == rc@.subrange(from as int, j as int).push(rc@[j as int]));
        }
        j += 1;
    }
    proof {
        assert(rc@.subrange(from as int, rc@.len() as int) == rc@.skip(from as int));
        assert(rc@.skip(0) =~= rc@);
    }
    string_of(out.as_slice())
}

/// A path (without a trailing `/`) under a directory is that directory's
/// path with the path inside it appended: `concat` undoes `strip_prefix`.
pub proof fn lemma_concat_strip_prefix(p: Seq<char>, base: Seq<char>)
    requires
        is_absolute(p),
        p.len() == 1 || p.last() != '/',
        is_absolute(base),
        starts_with(p, base),
    ensures
        strip_prefix(p, base) matches Some(rel) && is_absolute(rel) && concat(base, rel) == p,
{
    let rel = strip_prefix(p, base)->0;
    assert(p.take(base.len() as int) == base);
    if p.len() == base.len() {
        assert(p =~= base);
    } else if base.last() == '/' {
        assert((seq!['/'] + p.skip(base.len() as int)).skip(1) =~= p.skip(base.len() as int));
        assert(base + p.skip(base.len() as int) =~= p);
    } else {
        assert(p[base.len() as int] == '/');
        assert(rel[0] == '/');
        assert(rel.len() > 1);
        assert(base + p.skip(base.len() as int) =~= p);
    }
}

}
