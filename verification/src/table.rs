//! The camera table — a keyed collection of camera records, at most one
//! per identity — and the three operations that mutate it: create,
//! set-enabled, and move. Each operation is a pure function of the acting
//! identity, the table's state and its explicit inputs, so a host that
//! runs the operations as atomic units of work gets exactly the
//! transitions stated here.

use vstd::prelude::*;

use crate::types::{CreativeCamera, Identity};

verus! {

/// A keyed collection of camera records: at most one record per identity.
pub struct CameraTable {
    rows: Vec<CreativeCamera>,
}

/// No two rows of `s` share an identity.
spec fn seq_wf(s: Seq<CreativeCamera>) -> bool {
    forall|i: int, j: int|
        0 <= i < j < s.len() ==> s[i].identity != s[j].identity
}

/// Some row of `s` is keyed by `id`.
spec fn has_row(s: Seq<CreativeCamera>, id: Identity) -> bool {
    exists|i: int| 0 <= i < s.len() && s[i].identity == id
}

/// The index of the row of `s` keyed by `id` (unique when `seq_wf(s)`).
spec fn row_with(s: Seq<CreativeCamera>, id: Identity) -> int {
    choose|i: int| 0 <= i < s.len() && s[i].identity == id
}

/// The rows of `s` as a map from identity to record.
spec fn seq_view(s: Seq<CreativeCamera>) -> Map<Identity, CreativeCamera> {
    Map::new(|id: Identity| has_row(s, id), |id: Identity| s[row_with(s, id)])
}

impl View for CameraTable {
    type V = Map<Identity, CreativeCamera>;

    closed spec fn view(&self) -> Map<Identity, CreativeCamera> {
        seq_view(self.rows@)
    }
}

/// Under `seq_wf`, the row at index `i` is exactly what the map view
/// holds at that row's identity.
proof fn lemma_view_at(s: Seq<CreativeCamera>, i: int)
    requires
        seq_wf(s),
        0 <= i < s.len(),
    ensures
        seq_view(s).contains_key(s[i].identity),
        seq_view(s)[s[i].identity] == s[i],
{
    let id = s[i].identity;
    assert(has_row(s, id));
    let k = row_with(s, id);
    assert(0 <= k < s.len() && s[k].identity == id);
    if k < i {
        assert(s[k].identity != s[i].identity);
    }
    if i < k {
        assert(s[i].identity != s[k].identity);
    }
}

/// Appending a row with a fresh identity keeps the rows well formed and
/// inserts exactly that record into the map view.
proof fn lemma_push(s: Seq<CreativeCamera>, cam: CreativeCamera)
    requires
        seq_wf(s),
        !has_row(s, cam.identity),
    ensures
        seq_wf(s.push(cam)),
        seq_view(s.push(cam)) == seq_view(s).insert(cam.identity, cam),
{
    let s2 = s.push(cam);
    assert forall|i: int, j: int| 0 <= i < j < s2.len() implies s2[i].identity != s2[j].identity by {
        if j < s.len() {
            assert(s[i].identity != s[j].identity);
        } else {
            assert(s2[j] == cam);
            assert(s2[i] == s[i]);
            if s[i].identity == cam.identity {
                assert(has_row(s, cam.identity));
            }
        }
    }
    let v2 = seq_view(s2);
    let vi = seq_view(s).insert(cam.identity, cam);
    assert forall|id: Identity| v2.contains_key(id) implies vi.contains_key(id) && v2[id] == vi[id] by {
        let i = row_with(s2, id);
        assert(0 <= i < s2.len() && s2[i].identity == id);
        lemma_view_at(s2, i);
        if i < s.len() {
            assert(s2[i] == s[i]);
            lemma_view_at(s, i);
            if id == cam.identity {
                assert(has_row(s, cam.identity));
            }
        } else {
            assert(s2[i] == cam);
        }
    }
    assert forall|id: Identity| vi.contains_key(id) implies v2.contains_key(id) by {
        if id == cam.identity {
            assert(s2[s.len() as int].identity == id);
        } else {
            let i = row_with(s, id);
            assert(0 <= i < s.len() && s[i].identity == id);
            assert(s2[i].identity == id);
        }
    }
    assert(v2 =~= vi);
}

/// Replacing the row at index `i` by a record with the same identity
/// keeps the rows well formed and updates exactly that key of the map
/// view.
proof fn lemma_update(s: Seq<CreativeCamera>, i: int, cam: CreativeCamera)
    requires
        seq_wf(s),
        0 <= i < s.len(),
        cam.identity == s[i].identity,
    ensures
        seq_wf(s.update(i, cam)),
        seq_view(s.update(i, cam)) == seq_view(s).insert(cam.identity, cam),
{
    let s2 = s.update(i, cam);
    assert forall|p: int, q: int| 0 <= p < q < s2.len() implies s2[p].identity != s2[q].identity by {
        assert(s2[p].identity == s[p].identity);
        assert(s2[q].identity == s[q].identity);
        assert(s[p].identity != s[q].identity);
    }
    let v2 = seq_view(s2);
    let vi = seq_view(s).insert(cam.identity, cam);
    assert forall|id: Identity| v2.contains_key(id) implies vi.contains_key(id) && v2[id] == vi[id] by {
        let k = row_with(s2, id);
        assert(0 <= k < s2.len() && s2[k].identity == id);
        lemma_view_at(s2, k);
        if k == i {
            assert(s2[k] == cam);
        } else {
            assert(s2[k] == s[k]);
            lemma_view_at(s, k);
            assert(s[k].identity != s[i].identity);
        }
    }
    assert forall|id: Identity| vi.contains_key(id) implies v2.contains_key(id) by {
        if id == cam.identity {
            assert(s2[i].identity == id);
        } else {
            let k = row_with(s, id);
            assert(0 <= k < s.len() && s[k].identity == id);
            if k == i {
                assert(s[k].identity == cam.identity);
            }
            assert(s2[k].identity == id);
        }
    }
    assert(v2 =~= vi);
}

impl CameraTable {
    /// No two rows share an identity; every operation of this module
    /// takes tables with this property and returns such tables.
    pub closed spec fn wf(&self) -> bool {
        seq_wf(self.rows@)
    }

    /// Builds an empty table.
    pub fn new() -> (t: CameraTable)
        ensures
            t.wf(),
            t@ == Map::<Identity, CreativeCamera>::empty(),
    {
        let t = CameraTable { rows: Vec::new() };
        proof {
            assert(t@ =~= Map::<Identity, CreativeCamera>::empty());
        }
        t
    }

    /// The index of the row keyed by `id`, when one exists.
    fn find_index(&self, id: Identity) -> (r: Option<usize>)
        ensures
            match r {
                Some(i) => i < self.rows@.len() && self.rows@[i as int].identity == id,
                None => !has_row(self.rows@, id),
            },
    {
        let n = self.rows.len();
        let mut i: usize = 0;
        while i < n
            invariant
                i <= n,
                n == self.rows@.len(),
                forall|k: int| 0 <= k < i ==> self.rows@[k].identity != id,
            decreases n - i,
        {
            if self.rows[i].identity == id {
                return Some(i);
            }
            i += 1;
        }
        None
    }

    /// Looks up the record keyed by `id`.
    pub fn get(&self, id: Identity) -> (r: Option<CreativeCamera>)
        requires
            self.wf(),
        ensures
            self@.contains_key(id) ==> r == Some(self@[id]) && self@[id].identity == id,
            !self@.contains_key(id) ==> r is None,
    {
        match self.find_index(id) {
            Some(i) => {
                proof {
                    lemma_view_at(self.rows@, i as int);
                }
                Some(self.rows[i])
            },
            None => None,
        }
    }

    /// Inserts the record keyed by `cam.identity`, replacing any record
    /// that key already had.
    pub fn upsert(&mut self, cam: CreativeCamera)
        requires
            old(self).wf(),
        ensures
            final(self).wf(),
            final(self)@ == old(self)@.insert(cam.identity, cam),
    {
        match self.find_index(cam.identity) {
            Some(i) => {
                proof {
                    lemma_update(self.rows@, i as int, cam);
                }
                self.rows[i] = cam;
            },
            None => {
                proof {
                    lemma_push(self.rows@, cam);
                }
                self.rows.push(cam);
            },
        }
    }
}

} // verus!
