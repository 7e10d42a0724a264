//! Small verified helpers on byte strings.
//!
//! Application identifiers, URLs and file-system paths run through the
//! library as byte vectors, so their contracts can be stated over `Seq<u8>`.

use vstd::prelude::*;

verus! {

/// The byte value of `/`, the path separator.
pub const SLASH: u8 = 47;

/// Compare two byte strings for equality.
pub fn bytes_eq(a: &Vec<u8>, b: &Vec<u8>) -> (r: bool)
    ensures
        r == (a@ == b@),
{
    if a.len() != b.len() {
        assert(a@.len() != b@.len());
        return false;
    }
    let mut i: usize = 0;
    while i < a.len()
        invariant
            i <= a.len(),
            a.len() == b.len(),
            forall|j: int| 0 <= j < i ==> a@[j] == b@[j],
        decreases a.len() - i,
    {
        if a[i] != b[i] {
            return false;
        }
        i += 1;
    }
    assert(a@ =~= b@);
    true
}

/// Join a directory path and a file name with a single separator.
pub fn join_path(dir: &Vec<u8>, name: &Vec<u8>) -> (r: Vec<u8>)
    ensures
        r@ == dir@ + seq![SLASH] + name@,
{
    let mut r: Vec<u8> = Vec::new();
    let mut i: usize = 0;
    while i < dir.len()
        invariant
            i <= dir.len(),
            r@ == dir@.subrange(0, i as int),
        decreases dir.len() - i,
    {
        r.push(dir[i]);
        i += 1;
    }
    assert(r@ =~= dir@);
    r.push(SLASH);
    let mut j: usize = 0;
    while j < name.len()
        invariant
            j <= name.len(),
            r@ == dir@ + seq![SLASH] + name@.subrange(0, j as int),
        decreases name.len() - j,
    {
        r.push(name[j]);
        j += 1;
        assert(r@ =~= dir@ + seq![SLASH] + name@.subrange(0, j as int));
    }
    assert(r@ =~= dir@ + seq![SLASH] + name@);
    r
}

/// Distinct file names joined onto the same directory give distinct paths.
///
/// Each task of a run writes to its own destination path, so tasks never
/// contend on one file as long as their names differ.
pub proof fn lemma_join_path_distinct(dir: Seq<u8>, a: Seq<u8>, b: Seq<u8>)
    requires
        a != b,
    ensures
        dir + seq![SLASH] + a != dir + seq![SLASH] + b,
{
    let pa = dir + seq![SLASH] + a;
    let pb = dir + seq![SLASH] + b;
    if pa == pb {
        assert(pa.len() == pb.len());
        assert(a.len() == b.len());
        assert(a =~= b) by {
            assert(forall|i: int| 0 <= i < a.len() ==> a[i] == pa[dir.len() + 1 + i] && b[i] == pb[dir.len() + 1 + i]);
        }
    }
}

} // verus!
