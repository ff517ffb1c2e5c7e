//! The media repository: the built-in media list plus custom entries.

use vstd::prelude::*;
use crate::lability::config::{self, default_media_list, MediaEntry, MediaView};
use crate::text::str_equal;

verus! {

/// The media entries available to nodes.
#[derive(Debug, Clone)]
pub struct MediaRepository {
    pub entries: Vec<MediaEntry>,
}

impl View for MediaRepository {
    type V = Seq<MediaView>;

    open spec fn view(&self) -> Seq<MediaView> {
        config::media_view(self.entries@)
    }
}

impl Default for MediaRepository {
    fn default() -> (r: Self)
        ensures
            r@ == config::builtin_media(),
    {
        MediaRepository { entries: default_media_list() }
    }
}

impl MediaRepository {
    /// Appends a custom entry.
    pub fn add(&mut self, entry: MediaEntry)
        ensures
            final(self)@ == old(self)@.push(entry@),
    {
        let ghost before = self@;
        let ghost e = entry@;
        self.entries.push(entry);
        proof {
            assert(self@ =~= before.push(e));
        }
    }

    /// The first entry whose id is `id`, if any.
    pub fn find_by_id(&self, id: &str) -> (r: Option<&MediaEntry>)
        ensures
            r is None <==> forall|i: int| 0 <= i < self.entries@.len() ==> self.entries@[i].id@ != id@,
            r matches Some(e) ==> exists|i: int|
                0 <= i < self.entries@.len() && self.entries@[i] == *e && e.id@ == id@ && forall|j: int|
                    0 <= j < i ==> self.entries@[j].id@ != id@,
    {
        let n = self.entries.len();
        let mut i: usize = 0;
        while i < n
            invariant
                n == self.entries@.len(),
                i <= n,
                forall|j: int| 0 <= j < i ==> self.entries@[j].id@ != id@,
            decreases n - i,
        {
            if str_equal(self.entries[i].id.as_str(), id) {
                return Some(&self.entries[i]);
            }
            i = i + 1;
        }
        None
    }

    /// The ids of all entries, in order.
    pub fn ids(&self) -> (r: Vec<&str>)
        ensures
            r@.len() == self.entries@.len(),
            forall|i: int| 0 <= i < r@.len() ==> r@[i]@ == self.entries@[i].id@,
    {
        let mut r: Vec<&str> = Vec::new();
        let n = self.entries.len();
        let mut i: usize = 0;
        while i < n
            invariant
                n == self.entries@.len(),
                i <= n,
                r@.len() == i,
                forall|j: int| 0 <= j < i ==> r@[j]@ == self.entries@[j].id@,
            decreases n - i,
        {
            r.push(self.entries[i].id.as_str());
            i = i + 1;
        }
        r
    }
}

} // verus!
