//! A small path model over byte strings.
//!
//! Header resolution only ever composes paths: take the directory that
//! holds a file, append a name to a directory, or split off a file name.
//! Paths are byte strings with `/` as the separator; nothing here touches
//! the file system.

use vstd::prelude::*;

verus! {

/// The path separator byte.
pub const SEPARATOR: u8 = 47;

/// Index of the last separator in `p`, if any.
pub open spec fn spec_last_separator(p: Seq<u8>) -> Option<int>
    decreases p.len(),
{
    if p.len() == 0 {
        None
    } else if p.last() == SEPARATOR {
        Some(p.len() - 1)
    } else {
        spec_last_separator(p.drop_last())
    }
}

/// The directory part of `p`: everything before the last separator, or
/// empty when `p` has no separator.
pub open spec fn spec_parent(p: Seq<u8>) -> Seq<u8> {
    match spec_last_separator(p) {
        Some(i) => p.take(i),
        None => Seq::empty(),
    }
}

/// The file-name part of `p`: everything after the last separator, or
/// all of `p` when it has no separator.
pub open spec fn spec_file_name(p: Seq<u8>) -> Seq<u8> {
    match spec_last_separator(p) {
        Some(i) => p.skip(i + 1),
        None => p,
    }
}

/// `name` appended to the directory `base`: `name` alone when it is
/// absolute or `base` is empty, with exactly one separator between the
/// two parts otherwise.
pub open spec fn spec_join(base: Seq<u8>, name: Seq<u8>) -> Seq<u8> {
    if name.len() > 0 && name[0] == SEPARATOR {
        name
    } else if base.len() == 0 {
        name
    } else if base.last() == SEPARATOR {
        base + name
    } else {
        base + seq![SEPARATOR] + name
    }
}

/// When position `k` holds a separator and nothing after it does, `k` is
/// the last separator.
proof fn lemma_last_separator_found(p: Seq<u8>, k: int)
    requires
        0 <= k < p.len(),
        p[k] == SEPARATOR,
        forall|j: int| k < j < p.len() ==> p[j] != SEPARATOR,
    ensures
        spec_last_separator(p) == Some(k),
    decreases p.len(),
{
    if k < p.len() - 1 {
        lemma_last_separator_found(p.drop_last(), k);
    }
}

/// When no position holds a separator, there is no last separator.
proof fn lemma_last_separator_none(p: Seq<u8>)
    requires
        forall|j: int| 0 <= j < p.len() ==> p[j] != SEPARATOR,
    ensures
        spec_last_separator(p) is None,
    decreases p.len(),
{
    if p.len() > 0 {
        lemma_last_separator_none(p.drop_last());
    }
}

/// Byte-for-byte equality of two paths.
pub fn bytes_eq(a: &Vec<u8>, b: &Vec<u8>) -> (r: bool)
    ensures
        r == (a@ == b@),
{
    if a.len() != b.len() {
        return false;
    }
    let mut i: usize = 0;
    while i < a.len()
        invariant
            0 <= i <= a@.len(),
            a@.len() == b@.len(),
            forall|j: int| 0 <= j < i ==> a@[j] == b@[j],
        decreases a.len() - i,
    {
        if a[i] != b[i] {
            return false;
        }
        i += 1;
    }
    proof {
        assert(a@ =~= b@);
    }
    true
}

/// A fresh copy of a byte string.
pub fn copy_bytes(v: &Vec<u8>) -> (r: Vec<u8>)
    ensures
        r@ == v@,
{
    let mut r: Vec<u8> = Vec::new();
    let mut i: usize = 0;
    while i < v.len()
        invariant
            0 <= i <= v@.len(),
            r@ == v@.take(i as int),
        decreases v.len() - i,
    {
        r.push(v[i]);
        proof {
            assert(v@.take(i + 1) == v@.take(i as int).push(v@[i as int]));
        }
        i += 1;
    }
    proof {
        assert(v@.take(v@.len() as int) == v@);
    }
    r
}

/// Appends all of `src` to `dst`.
fn push_all(dst: &mut Vec<u8>, src: &Vec<u8>)
    ensures
        final(dst)@ == old(dst)@ + src@,
{
    let mut i: usize = 0;
    while i < src.len()
        invariant
            0 <= i <= src@.len(),
            dst@ == old(dst)@ + src@.take(i as int),
        decreases src.len() - i,
    {
        dst.push(src[i]);
        proof {
            assert(src@.take(i + 1) == src@.take(i as int).push(src@[i as int]));
            assert(old(dst)@ + src@.take(i + 1) == (old(dst)@ + src@.take(i as int)).push(
                src@[i as int],
            ));
        }
        i += 1;
    }
    proof {
        assert(src@.take(src@.len() as int) == src@);
    }
}

/// Index of the last separator byte, if any.
fn last_separator(p: &Vec<u8>) -> (r: Option<usize>)
    ensures
        match r {
            Some(i) => i < p@.len() && spec_last_separator(p@) == Some(i as int),
            None => spec_last_separator(p@) is None,
        },
{
    let mut i: usize = p.len();
    while i > 0
        invariant
            0 <= i <= p@.len(),
            forall|j: int| i <= j < p@.len() ==> p@[j] != SEPARATOR,
        decreases i,
    {
        if p[i - 1] == SEPARATOR {
            proof {
                lemma_last_separator_found(p@, i - 1);
            }
            return Some(i - 1);
        }
        i -= 1;
    }
    proof {
        lemma_last_separator_none(p@);
    }
    None
}

/// The directory that holds `p`: the bytes before its last separator,
/// empty when `p` is a bare name.
pub fn parent_dir(p: &Vec<u8>) -> (r: Vec<u8>)
    ensures
        r@ == spec_parent(p@),
{
    let mut r: Vec<u8> = Vec::new();
    let end = match last_separator(p) {
        Some(i) => i,
        None => {
            return r;
        },
    };
    let mut i: usize = 0;
    while i < end
        invariant
            0 <= i <= end < p@.len(),
            r@ == p@.take(i as int),
        decreases end - i,
    {
        r.push(p[i]);
        proof {
            assert(p@.take(i + 1) == p@.take(i as int).push(p@[i as int]));
        }
        i += 1;
    }
    r
}

/// The file-name part of `p`: the bytes after its last separator, all of
/// `p` when it has none.
pub fn file_name(p: &Vec<u8>) -> (r: Vec<u8>)
    ensures
        r@ == spec_file_name(p@),
{
    let n = p.len();
    let sep = last_separator(p);
    let start: usize = match sep {
        Some(i) => {
            proof {
                assert(i < n);
            }
            i + 1
        },
        None => {
            return copy_bytes(p);
        },
    };
    let mut r: Vec<u8> = Vec::new();
    let mut i: usize = start;
    while i < p.len()
        invariant
            start <= i <= p@.len(),
            r@ == p@.skip(start as int).take(i - start),
        decreases p.len() - i,
    {
        r.push(p[i]);
        proof {
            assert(p@.skip(start as int).take(i + 1 - start) == p@.skip(start as int).take(
                i - start,
            ).push(p@[i as int]));
        }
        i += 1;
    }
    proof {
        assert(p@.skip(start as int).take(p@.len() - start) == p@.skip(start as int));
    }
    r
}

/// Joins `name` onto the directory `base`, inserting a separator only
/// where one is needed; an absolute `name` stands alone.
pub fn path_join(base: &Vec<u8>, name: &Vec<u8>) -> (r: Vec<u8>)
    ensures
        r@ == spec_join(base@, name@),
{
    if name.len() > 0 && name[0] == SEPARATOR {
        return copy_bytes(name);
    }
    if base.len() == 0 {
        return copy_bytes(name);
    }
    let mut r = copy_bytes(base);
    if base[base.len() - 1] != SEPARATOR {
        r.push(SEPARATOR);
        proof {
            assert(r@ =~= base@ + seq![SEPARATOR]);
        }
    }
    push_all(&mut r, name);
    r
}

} // verus!
