//! A model of the database file the migration runs against: which
//! migration versions have been applied, and whether the `media` table
//! exists. Applying the version-1 migration is idempotent: the runner
//! skips versions it has already recorded, and the statement itself
//! creates the table only if it does not exist.

use vstd::prelude::*;

use crate::table::MediaTable;
use crate::table::RowModel;

verus! {

/// The state of one database file: the migration runner's bookkeeping
/// (`applied`) and the `media` table, present once the migration ran.
pub struct Database {
    pub media: Option<MediaTable>,
    pub applied: Vec<i64>,
}

impl Database {
    pub open spec fn wf(&self) -> bool {
        match self.media {
            Some(t) => t.wf(),
            None => true,
        }
    }

    /// The runner's bookkeeping: has version `v` been applied?
    pub open spec fn version_applied(&self, v: i64) -> bool {
        self.applied@.contains(v)
    }

    /// An empty database file: no tables, no versions recorded.
    pub fn new() -> (d: Database)
        ensures
            d.media is None,
            d.applied@ =~= Seq::<i64>::empty(),
            d.wf(),
    {
        Database { media: None, applied: Vec::new() }
    }

    fn has_version(&self, v: i64) -> (r: bool)
        ensures
            r == self.version_applied(v),
    {
        let mut i: usize = 0;
        while i < self.applied.len()
            invariant
                i <= self.applied.len(),
                forall|k: int| 0 <= k < i ==> self.applied@[k] != v,
            decreases self.applied.len() - i,
        {
            if self.applied[i] == v {
                return true;
            }
            i += 1;
        }
        false
    }

    /// Apply the version-1 migration (the `CREATE TABLE IF NOT EXISTS
    /// media ...` statement). A version already recorded is skipped, so
    /// re-applying changes nothing; otherwise the table is created when
    /// absent, kept as it is when present, and version 1 is recorded.
    pub fn apply_media_migration(&mut self)
        requires
            old(self).wf(),
        ensures
            final(self).wf(),
            final(self).version_applied(1),
            old(self).version_applied(1) ==> *final(self) == *old(self),
            !old(self).version_applied(1) ==> {
                &&& final(self).applied@ =~= old(self).applied@.push(1i64)
                &&& final(self).version_applied(1)
                &&& match old(self).media {
                    Some(t) => final(self).media == Some(t),
                    None => {
                        &&& final(self).media is Some
                        &&& final(self).media->0@ =~= Seq::<RowModel>::empty()
                        &&& final(self).media->0.next_id == 1
                    },
                }
            },
    {
        if self.has_version(1) {
            return ;
        }
        if self.media.is_none() {
            self.media = Some(MediaTable::new());
        }
        self.applied.push(1);
        proof {
            assert(self.applied@[self.applied@.len() - 1] == 1i64);
        }
    }
}

} // verus!
