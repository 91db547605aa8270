//! A location directory held in memory, for tests and local runs.

use vstd::prelude::*;

use crate::directory::{
    deleted, present, record_of, saved, LocationStorageService, RecordView, Records,
};
use crate::error::MapBotError;
use crate::location::Location;

verus! {

/// One stored record.
#[derive(Debug)]
pub struct Row {
    pub user_id: String,
    pub location: Location,
    pub user_name: String,
}

impl Row {
    pub open spec fn record(&self) -> RecordView {
        record_of(&self.location, &self.user_name)
    }
}

/// Records in a vector, at most one per user.
pub struct MemoryDirectory {
    rows: Vec<Row>,
    model: Ghost<Records>,
}

impl View for MemoryDirectory {
    type V = Records;

    closed spec fn view(&self) -> Records {
        self.model@
    }
}

impl MemoryDirectory {
    /// The rows match the records one for one.
    pub closed spec fn wf(&self) -> bool {
        &&& self.model@.dom().finite()
        &&& self.model@.dom().len() == self.rows@.len()
        &&& forall|i: int|
            0 <= i < self.rows@.len() ==> #[trigger] self.model@.contains_key(
                self.rows@[i].user_id@,
            ) && self.model@[self.rows@[i].user_id@] == self.rows@[i].record()
        &&& forall|i: int, j: int|
            0 <= i < self.rows@.len() && 0 <= j < self.rows@.len() && i != j
                ==> self.rows@[i].user_id@ != self.rows@[j].user_id@
        &&& forall|k: Seq<char>|
            #[trigger] self.model@.contains_key(k) ==> exists|i: int|
                0 <= i < self.rows@.len() && self.rows@[i].user_id@ == k
    }

    /// An empty directory.
    pub fn new() -> (r: MemoryDirectory)
        ensures
            r.wf(),
            r@ == Records::empty(),
    {
        MemoryDirectory { rows: Vec::new(), model: Ghost(Records::empty()) }
    }

    /// The number of records.
    pub fn len(&self) -> (r: usize)
        requires
            self.wf(),
        ensures
            r == self@.dom().len(),
    {
        self.rows.len()
    }

    /// The index of the user's row, if there is one.
    fn find(&self, user_id: &String) -> (r: Option<usize>)
        requires
            self.wf(),
        ensures
            r matches Some(i) ==> i < self.rows@.len() && self.rows@[i as int].user_id@ == user_id@,
            r is None ==> !self@.contains_key(user_id@),
    {
        let mut i: usize = 0;
        while i < self.rows.len()
            invariant
                i <= self.rows@.len(),
                forall|j: int| 0 <= j < i ==> self.rows@[j].user_id@ != user_id@,
            decreases self.rows@.len() - i,
        {
            if self.rows[i].user_id == *user_id {
                return Some(i);
            }
            i = i + 1;
        }
        None
    }

    /// The user's location, if a record is present.
    pub fn location_of(&self, user_id: &String) -> (r: Option<&Location>)
        requires
            self.wf(),
        ensures
            r is Some <==> self@.contains_key(user_id@),
            r matches Some(l) ==> l@ == self@[user_id@].location,
    {
        match self.find(user_id) {
            Some(i) => {
                assert(self@.contains_key(self.rows@[i as int].user_id@));
                Some(&self.rows[i].location)
            },
            None => None,
        }
    }

    /// The user's display name, if a record is present.
    pub fn user_name_of(&self, user_id: &String) -> (r: Option<&String>)
        requires
            self.wf(),
        ensures
            r is Some <==> self@.contains_key(user_id@),
            r matches Some(n) ==> n@ == self@[user_id@].user_name,
    {
        match self.find(user_id) {
            Some(i) => {
                assert(self@.contains_key(self.rows@[i as int].user_id@));
                Some(&self.rows[i].user_name)
            },
            None => None,
        }
    }

    /// Whether a record for `user_id` is present.
    pub fn contains(&self, user_id: &String) -> (r: bool)
        requires
            self.wf(),
        ensures
            r == present(self@, user_id@),
    {
        match self.find(user_id) {
            Some(i) => {
                assert(self@.contains_key(self.rows@[i as int].user_id@));
                true
            },
            None => false,
        }
    }

    /// Creates the user's record, or replaces it whole.
    pub fn upsert(&mut self, user_id: &String, location: Location, user_name: &String)
        requires
            old(self).wf(),
        ensures
            final(self).wf(),
            final(self)@ == saved(old(self)@, user_id@, record_of(&location, user_name)),
    {
        let ghost rec = record_of(&location, user_name);
        let ghost new_model = saved(self@, user_id@, rec);
        let ghost old_rows = self.rows@;
        let row = Row { user_id: user_id.clone(), location, user_name: user_name.clone() };
        match self.find(user_id) {
            Some(i) => {
                assert(self.model@.contains_key(self.rows@[i as int].user_id@));
                assert(new_model.dom() =~= self.model@.dom());
                self.rows.set(i, row);
                self.model = Ghost(new_model);
                assert forall|k: Seq<char>| #[trigger] self.model@.contains_key(k) implies exists|
                    j: int,
                | 0 <= j < self.rows@.len() && self.rows@[j].user_id@ == k by {
                    if k == user_id@ {
                        assert(self.rows@[i as int].user_id@ == k);
                    } else {
                        assert(old(self).model@.contains_key(k));
                        let b = choose|b: int| 0 <= b < old_rows.len() && old_rows[b].user_id@ == k;
                        assert(self.rows@[b].user_id@ == k);
                    }
                }
            },
            None => {
                let ghost n = self.rows@.len();
                self.rows.push(row);
                self.model = Ghost(new_model);
                assert forall|k: Seq<char>| #[trigger] self.model@.contains_key(k) implies exists|
                    j: int,
                | 0 <= j < self.rows@.len() && self.rows@[j].user_id@ == k by {
                    if k == user_id@ {
                        assert(self.rows@[n as int].user_id@ == k);
                    } else {
                        assert(old(self).model@.contains_key(k));
                        let b = choose|b: int| 0 <= b < old_rows.len() && old_rows[b].user_id@ == k;
                        assert(self.rows@[b] == old_rows[b]);
                    }
                }
            },
        }
    }

    /// Removes the user's record, if there is one.
    pub fn remove(&mut self, user_id: &String)
        requires
            old(self).wf(),
        ensures
            final(self).wf(),
            final(self)@ == deleted(old(self)@, user_id@),
    {
        let ghost new_model = deleted(self@, user_id@);
        match self.find(user_id) {
            Some(i) => {
                let ghost old_rows = self.rows@;
                assert(self.model@.contains_key(self.rows@[i as int].user_id@));
                self.rows.remove(i);
                self.model = Ghost(new_model);
                assert forall|a: int|
                    0 <= a < self.rows@.len() implies #[trigger] self.model@.contains_key(
                    self.rows@[a].user_id@,
                ) && self.model@[self.rows@[a].user_id@] == self.rows@[a].record() by {
                    let b = if a < i { a } else { a + 1 };
                    assert(self.rows@[a] == old_rows[b]);
                    assert(old_rows[b].user_id@ != user_id@);
                    assert(old(self).model@.contains_key(old_rows[b].user_id@));
                }
                assert forall|k: Seq<char>| #[trigger] self.model@.contains_key(k) implies exists|
                    j: int,
                | 0 <= j < self.rows@.len() && self.rows@[j].user_id@ == k by {
                    assert(old(self).model@.contains_key(k));
                    let b = choose|b: int| 0 <= b < old_rows.len() && old_rows[b].user_id@ == k;
                    assert(b != i);
                    let a = if b < i { b } else { b - 1 };
                    assert(self.rows@[a] == old_rows[b]);
                }
            },
            None => {
                assert(new_model =~= self.model@);
            },
        }
    }
}

impl LocationStorageService for MemoryDirectory {
    open spec fn records(&self) -> Records {
        self@
    }

    open spec fn wf(&self) -> bool {
        self.wf()
    }

    open spec fn infallible(&self) -> bool {
        true
    }

    fn has_location(&self, user_id: &String) -> (r: Result<bool, MapBotError>) {
        Ok(self.contains(user_id))
    }

    fn save_location(&mut self, user_id: &String, location: Location, user_name: &String) -> (r:
        Result<(), MapBotError>) {
        self.upsert(user_id, location, user_name);
        Ok(())
    }

    fn delete_location(&mut self, user_id: &String) -> (r: Result<(), MapBotError>) {
        self.remove(user_id);
        Ok(())
    }
}

} // verus!
