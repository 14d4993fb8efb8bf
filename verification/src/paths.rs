//! Byte-string path handling: base names, extensions, the `.url` sibling of
//! a name, and joining a directory with a file name.
//!
//! Paths and names are byte strings (`Vec<u8>`). The separators are `/` (47)
//! and `\` (92); the extension dot is `.` (46).

use vstd::prelude::*;

verus! {

pub open spec fn is_sep(c: u8) -> bool {
    c == 47 || c == 92
}

/// The base file name of a path: everything after the last separator.
pub open spec fn base_name_of(p: Seq<u8>) -> Seq<u8>
    decreases p.len(),
{
    if p.len() == 0 {
        p
    } else if is_sep(p.last()) {
        Seq::empty()
    } else {
        base_name_of(p.drop_last()).push(p.last())
    }
}

/// The part of `s` after its last dot, or `None` when `s` has no dot.
pub open spec fn after_last_dot(s: Seq<u8>) -> Option<Seq<u8>>
    decreases s.len(),
{
    if s.len() == 0 {
        None
    } else if s.last() == 46 {
        Some(Seq::empty())
    } else {
        match after_last_dot(s.drop_last()) {
            Some(e) => Some(e.push(s.last())),
            None => None,
        }
    }
}

/// The extension of a file name: the part after the last dot, where a
/// leading dot (a hidden file) does not begin an extension.
pub open spec fn ext_of(name: Seq<u8>) -> Option<Seq<u8>> {
    if name.len() == 0 {
        None
    } else {
        after_last_dot(name.skip(1))
    }
}

pub open spec fn url_ext() -> Seq<u8> {
    seq![117u8, 114u8, 108u8]
}

pub open spec fn lnk_ext() -> Seq<u8> {
    seq![108u8, 110u8, 107u8]
}

/// The file name without its extension (the whole name when it has none).
pub open spec fn stem_of(name: Seq<u8>) -> Seq<u8> {
    match ext_of(name) {
        Some(e) => name.subrange(0, name.len() - e.len() - 1),
        None => name,
    }
}

/// The name with its extension replaced by `url`: the sibling that the
/// dedup check also treats as an existing registration.
pub open spec fn url_sibling_of(name: Seq<u8>) -> Seq<u8> {
    stem_of(name).push(46).add(url_ext())
}

/// A directory path joined with a file name.
pub open spec fn join_of(dir: Seq<u8>, name: Seq<u8>) -> Seq<u8> {
    dir.push(47).add(name)
}

/// What linking strategy a registered file calls for, by its extension.
#[derive(Clone, Copy, Debug, PartialEq, Eq, Structural)]
pub enum Kind {
    Executable,
    ShortcutLink,
    UrlLink,
}

pub open spec fn kind_of_name(name: Seq<u8>) -> Kind {
    if ext_of(name) matches Some(e) && e == url_ext() {
        Kind::UrlLink
    } else if ext_of(name) matches Some(e) && e == lnk_ext() {
        Kind::ShortcutLink
    } else {
        Kind::Executable
    }
}

/// An extension is shorter than the string it was cut from.
pub proof fn lemma_after_last_dot_len(s: Seq<u8>)
    ensures
        after_last_dot(s) matches Some(e) ==> e.len() < s.len(),
    decreases s.len(),
{
    if s.len() > 0 && s.last() != 46 {
        lemma_after_last_dot_len(s.drop_last());
    }
}

pub fn base_name(p: &Vec<u8>) -> (r: Vec<u8>)
    ensures
        r@ == base_name_of(p@),
{
    let mut r: Vec<u8> = Vec::new();
    let mut i: usize = 0;
    while i < p.len()
        invariant
            i <= p@.len(),
            r@ == base_name_of(p@.subrange(0, i as int)),
        decreases p@.len() - i,
    {
        let c: u8 = p[i];
        if c == 47 || c == 92 {
            r = Vec::new();
        } else {
            r.push(c);
        }
        proof {
            let pre = p@.subrange(0, i as int + 1);
            assert(pre.drop_last() =~= p@.subrange(0, i as int));
            assert(pre.last() == p@[i as int]);
        }
        i = i + 1;
    }
    proof {
        assert(p@.subrange(0, p@.len() as int) =~= p@);
    }
    r
}

pub fn extension(name: &Vec<u8>) -> (r: Option<Vec<u8>>)
    ensures
        ({
            match r {
                Some(e) => ext_of(name@) matches Some(x) && x == e@,
                None => ext_of(name@) is None,
            }
        }),
{
    if name.len() == 0 {
        return None;
    }
    let mut has: bool = false;
    let mut buf: Vec<u8> = Vec::new();
    let mut i: usize = 1;
    while i < name.len()
        invariant
            1 <= i <= name@.len(),
            ({
                if has {
                    after_last_dot(name@.subrange(1, i as int)) matches Some(x) && x == buf@
                } else {
                    after_last_dot(name@.subrange(1, i as int)) is None
                }
            }),
        decreases name@.len() - i,
    {
        let c: u8 = name[i];
        if c == 46 {
            has = true;
            buf = Vec::new();
        } else if has {
            buf.push(c);
        }
        proof {
            let pre = name@.subrange(1, i as int + 1);
            assert(pre.drop_last() =~= name@.subrange(1, i as int));
            assert(pre.last() == name@[i as int]);
        }
        i = i + 1;
    }
    proof {
        assert(name@.subrange(1, name@.len() as int) =~= name@.skip(1));
    }
    if has {
        Some(buf)
    } else {
        None
    }
}

pub fn classify(name: &Vec<u8>) -> (k: Kind)
    ensures
        k == kind_of_name(name@),
{
    match extension(name) {
        Some(e) => {
            if e.len() == 3 && e[0] == 117 && e[1] == 114 && e[2] == 108 {
                proof {
                    assert(e@ =~= url_ext());
                }
                Kind::UrlLink
            } else if e.len() == 3 && e[0] == 108 && e[1] == 110 && e[2] == 107 {
                proof {
                    assert(e@ =~= lnk_ext());
                    assert(e@ != url_ext()) by {
                        assert(url_ext()[0] == 117);
                        assert(lnk_ext()[0] == 108);
                    };
                }
                Kind::ShortcutLink
            } else {
                proof {
                    assert(e@ != url_ext()) by {
                        if e@ == url_ext() {
                            assert(e@.len() == 3);
                            assert(e@[0] == 117);
                            assert(e@[1] == 114);
                            assert(e@[2] == 108);
                        }
                    };
                    assert(e@ != lnk_ext()) by {
                        if e@ == lnk_ext() {
                            assert(e@.len() == 3);
                            assert(e@[0] == 108);
                            assert(e@[1] == 110);
                            assert(e@[2] == 107);
                        }
                    };
                }
                Kind::Executable
            }
        },
        None => Kind::Executable,
    }
}

pub fn url_sibling(name: &Vec<u8>) -> (r: Vec<u8>)
    ensures
        r@ == url_sibling_of(name@),
{
    let stem_len: usize = match extension(name) {
        Some(e) => {
            proof {
                lemma_after_last_dot_len(name@.skip(1));
            }
            name.len() - e.len() - 1
        },
        None => name.len(),
    };
    let mut r: Vec<u8> = Vec::new();
    let mut i: usize = 0;
    while i < stem_len
        invariant
            i <= stem_len <= name@.len(),
            r@ == name@.subrange(0, i as int),
        decreases stem_len - i,
    {
        r.push(name[i]);
        proof {
            assert(name@.subrange(0, i as int + 1) =~= name@.subrange(0, i as int).push(
                name@[i as int],
            ));
        }
        i = i + 1;
    }
    r.push(46);
    r.push(117);
    r.push(114);
    r.push(108);
    proof {
        assert(name@.subrange(0, stem_len as int) =~= stem_of(name@));
        assert(r@ =~= url_sibling_of(name@));
    }
    r
}

pub fn join_path(dir: &Vec<u8>, name: &Vec<u8>) -> (r: Vec<u8>)
    ensures
        r@ == join_of(dir@, name@),
{
    let mut r = clone_bytes(dir);
    r.push(47);
    let mut i: usize = 0;
    while i < name.len()
        invariant
            i <= name@.len(),
            r@ == dir@.push(47).add(name@.subrange(0, i as int)),
        decreases name@.len() - i,
    {
        r.push(name[i]);
        proof {
            assert(dir@.push(47).add(name@.subrange(0, i as int + 1)) =~= dir@.push(47).add(
                name@.subrange(0, i as int),
            ).push(name@[i as int]));
        }
        i = i + 1;
    }
    proof {
        assert(name@.subrange(0, name@.len() as int) =~= name@);
    }
    r
}

pub fn clone_bytes(b: &Vec<u8>) -> (r: Vec<u8>)
    ensures
        r@ == b@,
{
    let mut r: Vec<u8> = Vec::new();
    let mut i: usize = 0;
    while i < b.len()
        invariant
            i <= b@.len(),
            r@ == b@.subrange(0, i as int),
        decreases b@.len() - i,
    {
        r.push(b[i]);
        proof {
            assert(b@.subrange(0, i as int + 1) =~= b@.subrange(0, i as int).push(b@[i as int]));
        }
        i = i + 1;
    }
    proof {
        assert(b@.subrange(0, b@.len() as int) =~= b@);
    }
    r
}

pub fn bytes_eq(a: &Vec<u8>, b: &Vec<u8>) -> (r: bool)
    ensures
        r <==> a@ == b@,
{
    if a.len() != b.len() {
        return false;
    }
    let mut i: usize = 0;
    while i < a.len()
        invariant
            i <= a@.len(),
            a@.len() == b@.len(),
            forall|j: int| 0 <= j < i ==> a@[j] == b@[j],
        decreases a@.len() - i,
    {
        if a[i] != b[i] {
            return false;
        }
        i = i + 1;
    }
    proof {
        assert(a@ =~= b@);
    }
    true
}

} // verus!
