//! Planning a recursive copy of one bundle.
//!
//! A bundle is a directory tree. [`CopyPlan`] is the worklist behind the
//! copy: it hands out source paths to inspect, pairs each with its
//! destination under the destination root, and takes back the children of
//! directories. The file-system reads and writes themselves happen outside
//! the library; the plan guarantees that every handed-out destination is
//! the source path re-rooted from the source root to the destination root.

use vstd::prelude::*;
use crate::bytes::{join_path, SLASH};

verus! {

/// The worklist of a recursive directory copy.
pub struct CopyPlan {
    /// The root being copied from; every pending path lies under it.
    pub source_root: Vec<u8>,
    /// The root being copied to.
    pub dest_root: Vec<u8>,
    /// Source paths not yet visited.
    pub stack: Vec<Vec<u8>>,
}

impl CopyPlan {
    /// Every pending path starts with the source root.
    pub open spec fn wf(self) -> bool {
        forall|i: int| 0 <= i < self.stack@.len()
            ==> self.source_root@.is_prefix_of((#[trigger] self.stack@[i])@)
    }

    /// A path's destination: the destination root, followed by whatever of
    /// the path lies below the source root.
    pub open spec fn dest_of(self, src: Seq<u8>) -> Seq<u8> {
        self.dest_root@ + src.skip(self.source_root@.len() as int)
    }

    /// A plan whose single pending path is the source root itself.
    pub fn new(source_root: Vec<u8>, dest_root: Vec<u8>) -> (r: Self)
        ensures
            r.wf(),
            r.source_root@ == source_root@,
            r.dest_root@ == dest_root@,
            r.stack@.len() == 1,
            r.stack@[0]@ == source_root@,
    {
        let first = source_root.clone();
        assert(first@ =~= source_root@);
        let mut stack: Vec<Vec<u8>> = Vec::new();
        stack.push(first);
        let r = CopyPlan { source_root, dest_root, stack };
        assert(r.source_root@.is_prefix_of(r.stack@[0]@));
        r
    }

    /// Hand out the next pending source path with its destination, or
    /// `None` when the copy is complete.
    pub fn pop_task(&mut self) -> (r: Option<(Vec<u8>, Vec<u8>)>)
        requires
            old(self).wf(),
        ensures
            final(self).wf(),
            final(self).source_root == old(self).source_root,
            final(self).dest_root == old(self).dest_root,
            old(self).stack@.len() == 0
                ==> r is None && final(self).stack@ == old(self).stack@,
            old(self).stack@.len() > 0 ==> {
                &&& final(self).stack@ == old(self).stack@.drop_last()
                &&& r matches Some(t)
                    && t.0@ == old(self).stack@.last()@
                    && t.1@ == old(self).dest_of(old(self).stack@.last()@)
            },
    {
        match self.stack.pop() {
            None => None,
            Some(src) => {
                assert(self.source_root@.is_prefix_of(src@));
                let root_len = self.source_root.len();
                let mut dest: Vec<u8> = Vec::new();
                let mut i: usize = 0;
                while i < self.dest_root.len()
                    invariant
                        i <= self.dest_root@.len(),
                        dest@ == self.dest_root@.subrange(0, i as int),
                    decreases self.dest_root@.len() - i,
                {
                    dest.push(self.dest_root[i]);
                    i += 1;
                }
                assert(dest@ =~= self.dest_root@);
                proof {
                    assert(src@.subrange(root_len as int, root_len as int)
                        =~= Seq::<u8>::empty());
                    assert(dest@ =~= self.dest_root@
                        + src@.subrange(root_len as int, root_len as int));
                }
                let mut k: usize = root_len;
                while k < src.len()
                    invariant
                        root_len <= k <= src@.len(),
                        root_len == self.source_root@.len(),
                        dest@ == self.dest_root@
                            + src@.subrange(root_len as int, k as int),
                    decreases src@.len() - k,
                {
                    dest.push(src[k]);
                    k += 1;
                    assert(dest@ =~= self.dest_root@
                        + src@.subrange(root_len as int, k as int));
                }
                assert(src@.subrange(root_len as int, src@.len() as int)
                    =~= src@.skip(root_len as int));
                Some((src, dest))
            },
        }
    }

    /// Take back one directory entry of a handed-out directory path: the
    /// child `dir/name` becomes pending.
    pub fn push_entry(&mut self, dir: &Vec<u8>, name: &Vec<u8>)
        requires
            old(self).wf(),
            old(self).source_root@.is_prefix_of(dir@),
        ensures
            final(self).wf(),
            final(self).source_root == old(self).source_root,
            final(self).dest_root == old(self).dest_root,
            final(self).stack@.len() == old(self).stack@.len() + 1,
            final(self).stack@.last()@ == dir@ + seq![SLASH] + name@,
            forall|i: int| 0 <= i < old(self).stack@.len()
                ==> final(self).stack@[i] == old(self).stack@[i],
    {
        let child = join_path(dir, name);
        proof {
            assert(self.source_root@.is_prefix_of(child@)) by {
                assert(child@.subrange(0, self.source_root@.len() as int)
                    =~= self.source_root@);
            }
        }
        self.stack.push(child);
    }
}

} // verus!
