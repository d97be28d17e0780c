use vstd::prelude::*;
use crate::model::{CreateVerificationRequest, PhoneVerification, Timestamp};
use crate::service::{plan_upsert, UpsertPlan};

verus! {

/// A failure of the record store.
#[derive(Debug)]
pub enum StorageError {
    /// A row with the new record's identifier is already stored.
    DuplicateId,
    /// The storage backend failed; its own description of the failure.
    Backend(String),
}

impl StorageError {
    /// The text of the failure.
    pub open spec fn text(&self) -> Seq<char> {
        match self {
            StorageError::DuplicateId => "duplicate record id"@,
            StorageError::Backend(m) => m@,
        }
    }

    /// The text of the failure.
    pub fn description(&self) -> (r: String)
        ensures
            r@ == self.text(),
    {
        match self {
            StorageError::DuplicateId => String::from_str("duplicate record id"),
            StorageError::Backend(m) => m.clone(),
        }
    }
}

/// Rows ordered by creation time, newest first.
pub open spec fn newest_first(rows: Seq<PhoneVerification>) -> bool {
    forall|i: int, j: int|
        0 <= i < j < rows.len() ==> #[trigger] rows[i].created_at >= #[trigger] rows[j].created_at
}

/// No two rows share an identifier.
pub open spec fn ids_unique(rows: Seq<PhoneVerification>) -> bool {
    forall|i: int, j: int|
        0 <= i < rows.len() && 0 <= j < rows.len() && i != j ==> #[trigger] rows[i].id@
            != #[trigger] rows[j].id@
}

/// Some row has identifier `id`.
pub open spec fn has_id(rows: Seq<PhoneVerification>, id: Seq<char>) -> bool {
    exists|i: int| 0 <= i < rows.len() && #[trigger] rows[i].id@ == id
}

/// Some row belongs to `username`.
pub open spec fn has_username(rows: Seq<PhoneVerification>, username: Seq<char>) -> bool {
    exists|i: int| 0 <= i < rows.len() && #[trigger] rows[i].username@ == username
}

/// Row `i` is the first row of `username`; in newest-first order this is the
/// latest record of that user.
pub open spec fn is_latest_index(rows: Seq<PhoneVerification>, username: Seq<char>, i: int) -> bool {
    &&& 0 <= i < rows.len()
    &&& rows[i].username@ == username
    &&& forall|j: int| 0 <= j < i ==> #[trigger] rows[j].username@ != username
}

/// The index of the latest record of `username` (meaningful where
/// `has_username` holds).
pub open spec fn latest_index(rows: Seq<PhoneVerification>, username: Seq<char>) -> int {
    choose|i: int| is_latest_index(rows, username, i)
}

/// The latest record of `username`, if there is one.
pub open spec fn latest_record(rows: Seq<PhoneVerification>, username: Seq<char>) -> Option<
    PhoneVerification,
> {
    if has_username(rows, username) {
        Some(rows[latest_index(rows, username)])
    } else {
        None
    }
}

/// Position `k` is where a row created at `t` goes: after every row created
/// later, before the others.
pub open spec fn is_insert_pos(rows: Seq<PhoneVerification>, t: Timestamp, k: int) -> bool {
    &&& 0 <= k <= rows.len()
    &&& forall|j: int| 0 <= j < k ==> #[trigger] rows[j].created_at > t
    &&& k < rows.len() ==> rows[k].created_at <= t
}

/// Where a row created at `t` goes.
pub open spec fn insert_pos(rows: Seq<PhoneVerification>, t: Timestamp) -> int {
    choose|k: int| is_insert_pos(rows, t, k)
}

/// The rows with `record` stored at its place.
pub open spec fn with_inserted(rows: Seq<PhoneVerification>, record: PhoneVerification) -> Seq<
    PhoneVerification,
> {
    rows.insert(insert_pos(rows, record.created_at), record)
}

/// Whether a row belongs to `username`.
pub open spec fn belongs_to(username: Seq<char>) -> spec_fn(PhoneVerification) -> bool {
    |r: PhoneVerification| r.username@ == username
}

/// The rows of `username`, in table order.
pub open spec fn rows_of(rows: Seq<PhoneVerification>, username: Seq<char>) -> Seq<PhoneVerification> {
    rows.filter(belongs_to(username))
}

/// What an upsert-by-username does: the rows afterwards and the record it
/// returns, or the failure.
pub open spec fn upsert_outcome(
    rows: Seq<PhoneVerification>,
    request: CreateVerificationRequest,
    new_id: String,
    now: Timestamp,
) -> Result<(Seq<PhoneVerification>, PhoneVerification), ()> {
    match latest_record(rows, request.username@) {
        Some(old) => {
            let rec = old.updated_with(request, now);
            Ok((rows.update(latest_index(rows, request.username@), rec), rec))
        },
        None => {
            if has_id(rows, new_id@) {
                Err(())
            } else {
                let rec = PhoneVerification::created(
                    new_id,
                    request.phone,
                    request.username,
                    request.verification_code,
                    now,
                );
                Ok((with_inserted(rows, rec), rec))
            }
        },
    }
}

/// Any row set has a latest record for each user it holds.
pub proof fn lemma_latest_exists(rows: Seq<PhoneVerification>, username: Seq<char>, k: int)
    requires
        0 <= k <= rows.len(),
        has_username(rows, username),
        forall|j: int| 0 <= j < k ==> #[trigger] rows[j].username@ != username,
    ensures
        is_latest_index(rows, username, latest_index(rows, username)),
    decreases rows.len() - k,
{
    if rows[k].username@ == username {
        assert(is_latest_index(rows, username, k));
    } else {
        lemma_latest_exists(rows, username, k + 1);
    }
}

/// Any newest-first row set has a place for a row created at any time.
pub proof fn lemma_insert_pos_exists(rows: Seq<PhoneVerification>, t: Timestamp, k: int)
    requires
        0 <= k <= rows.len(),
        forall|j: int| 0 <= j < k ==> #[trigger] rows[j].created_at > t,
    ensures
        is_insert_pos(rows, t, insert_pos(rows, t)),
    decreases rows.len() - k,
{
    if k == rows.len() || rows[k].created_at <= t {
        assert(is_insert_pos(rows, t, k));
    } else {
        lemma_insert_pos_exists(rows, t, k + 1);
    }
}

/// The place of a new row is unique.
pub proof fn lemma_insert_pos_unique(rows: Seq<PhoneVerification>, t: Timestamp, k: int)
    requires
        is_insert_pos(rows, t, k),
    ensures
        insert_pos(rows, t) == k,
{
    let p = insert_pos(rows, t);
    assert(is_insert_pos(rows, t, p));
    if p < k {
        assert(rows[p].created_at > t);
    } else if k < p {
        assert(rows[k].created_at > t);
    }
}

/// The latest record of a user is unique.
pub proof fn lemma_latest_unique(rows: Seq<PhoneVerification>, username: Seq<char>, i: int)
    requires
        is_latest_index(rows, username, i),
    ensures
        latest_index(rows, username) == i,
        latest_record(rows, username) == Some(rows[i]),
{
    let p = latest_index(rows, username);
    assert(is_latest_index(rows, username, p));
    if p < i {
        assert(rows[p].username@ != username);
    } else if i < p {
        assert(rows[i].username@ != username);
    }
}

/// Storing a record at its place keeps the newest-first order.
pub proof fn lemma_insert_keeps_order(rows: Seq<PhoneVerification>, record: PhoneVerification)
    requires
        newest_first(rows),
        is_insert_pos(rows, record.created_at, insert_pos(rows, record.created_at)),
    ensures
        newest_first(with_inserted(rows, record)),
{
    let k = insert_pos(rows, record.created_at);
    let out = with_inserted(rows, record);
    assert forall|i: int, j: int| 0 <= i < j < out.len() implies #[trigger] out[i].created_at
        >= #[trigger] out[j].created_at by {
        if i < k && j == k {
        } else if i == k && j > k {
            assert(rows[k].created_at >= rows[j - 1].created_at);
        } else if i < k && j > k {
            assert(rows[i].created_at >= rows[j - 1].created_at);
        } else if i > k {
            assert(rows[i - 1].created_at >= rows[j - 1].created_at);
        }
    }
}

/// A table of verification records: the state the store holds. Rows are kept
/// newest first, and identifiers are unique.
pub struct RecordTable {
    rows: Vec<PhoneVerification>,
}

impl View for RecordTable {
    type V = Seq<PhoneVerification>;

    closed spec fn view(&self) -> Seq<PhoneVerification> {
        self.rows@
    }
}

impl RecordTable {
    /// Well-formedness: newest first, identifiers unique.
    pub open spec fn wf(&self) -> bool {
        newest_first(self@) && ids_unique(self@)
    }

    /// An empty table.
    pub fn new() -> (r: Self)
        ensures
            r.wf(),
            r@ == Seq::<PhoneVerification>::empty(),
    {
        RecordTable { rows: Vec::new() }
    }

    /// Number of rows.
    pub fn len(&self) -> (r: usize)
        ensures
            r == self@.len(),
    {
        self.rows.len()
    }

    /// Index of the latest record of `username`.
    fn latest_position(&self, username: &str) -> (r: Option<usize>)
        ensures
            match r {
                Some(i) => is_latest_index(self@, username@, i as int),
                None => !has_username(self@, username@),
            },
    {
        let key = String::from_str(username);
        let mut i: usize = 0;
        while i < self.rows.len()
            invariant
                i <= self@.len(),
                key@ == username@,
                forall|j: int| 0 <= j < i ==> #[trigger] self@[j].username@ != username@,
            decreases self@.len() - i,
        {
            if self.rows[i].username == key {
                return Some(i);
            }
            i = i + 1;
        }
        None
    }

    /// The latest record of `username`, or none when the user has no record.
    pub fn find_latest_by_username(&self, username: &str) -> (r: Option<PhoneVerification>)
        ensures
            r == latest_record(self@, username@),
    {
        match self.latest_position(username) {
            Some(i) => {
                proof {
                    lemma_latest_unique(self@, username@, i as int);
                }
                Some(self.rows[i].duplicate())
            },
            None => None,
        }
    }

    /// The phone of the latest record of `username`, or none.
    pub fn find_phone_by_username(&self, username: &str) -> (r: Option<String>)
        ensures
            match latest_record(self@, username@) {
                Some(rec) => r == Some(rec.phone),
                None => r is None,
            },
    {
        match self.latest_position(username) {
            Some(i) => {
                proof {
                    lemma_latest_unique(self@, username@, i as int);
                }
                Some(self.rows[i].phone.clone())
            },
            None => None,
        }
    }

    /// Whether a row has identifier `id`.
    fn contains_id(&self, id: &String) -> (r: bool)
        ensures
            r == has_id(self@, id@),
    {
        let mut i: usize = 0;
        while i < self.rows.len()
            invariant
                i <= self@.len(),
                forall|j: int| 0 <= j < i ==> #[trigger] self@[j].id@ != id@,
            decreases self@.len() - i,
        {
            if self.rows[i].id == *id {
                return true;
            }
            i = i + 1;
        }
        false
    }

    /// Stores a new row at its place in the newest-first order; fails, and
    /// changes nothing, when its identifier is taken.
    pub fn insert(&mut self, record: PhoneVerification) -> (r: Result<(), StorageError>)
        requires
            old(self).wf(),
        ensures
            final(self).wf(),
            is_insert_pos(old(self)@, record.created_at, insert_pos(old(self)@, record.created_at)),
            has_id(old(self)@, record.id@) ==> r == Err::<(), StorageError>(StorageError::DuplicateId)
                && final(self)@ == old(self)@,
            !has_id(old(self)@, record.id@) ==> r is Ok && final(self)@ == with_inserted(
                old(self)@,
                record,
            ),
    {
        proof {
            lemma_insert_pos_exists(self@, record.created_at, 0);
        }
        if self.contains_id(&record.id) {
            return Err(StorageError::DuplicateId);
        }
        let ghost t = record.created_at;
        let mut k: usize = 0;
        while k < self.rows.len() && self.rows[k].created_at > record.created_at
            invariant
                k <= self@.len(),
                forall|j: int| 0 <= j < k ==> #[trigger] self@[j].created_at > t,
                t == record.created_at,
            decreases self@.len() - k,
        {
            k = k + 1;
        }
        proof {
            assert(is_insert_pos(self@, t, k as int));
            lemma_insert_pos_unique(self@, t, k as int);
            lemma_insert_keeps_order(self@, record);
        }
        let ghost before = self@;
        self.rows.insert(k, record);
        proof {
            let out = self@;
            assert forall|i: int, j: int|
                0 <= i < out.len() && 0 <= j < out.len() && i != j implies #[trigger] out[i].id@
                != #[trigger] out[j].id@ by {
                if i == k as int {
                    assert(out[j].id@ == before[if j < k { j } else { j - 1 }].id@);
                } else if j == k as int {
                    assert(out[i].id@ == before[if i < k { i } else { i - 1 }].id@);
                } else {
                    assert(out[i].id@ == before[if i < k { i } else { i - 1 }].id@);
                    assert(out[j].id@ == before[if j < k { j } else { j - 1 }].id@);
                }
            }
        }
        Ok(())
    }

    /// Index of the row with identifier `id`.
    fn id_position(&self, id: &str) -> (r: Option<usize>)
        ensures
            match r {
                Some(i) => i < self@.len() && self@[i as int].id@ == id@,
                None => !has_id(self@, id@),
            },
    {
        let key = String::from_str(id);
        let mut i: usize = 0;
        while i < self.rows.len()
            invariant
                i <= self@.len(),
                key@ == id@,
                forall|j: int| 0 <= j < i ==> #[trigger] self@[j].id@ != id@,
            decreases self@.len() - i,
        {
            if self.rows[i].id == key {
                return Some(i);
            }
            i = i + 1;
        }
        None
    }

    /// Sets phone, code and update time of the row with identifier `id`;
    /// returns whether there is such a row. Nothing else changes.
    pub fn update_by_id(
        &mut self,
        id: &str,
        phone: String,
        verification_code: String,
        updated_at: Timestamp,
    ) -> (r: bool)
        requires
            old(self).wf(),
        ensures
            final(self).wf(),
            r == has_id(old(self)@, id@),
            !r ==> final(self)@ == old(self)@,
            r ==> exists|i: int|
                0 <= i < old(self)@.len() && #[trigger] old(self)@[i].id@ == id@ && final(self)@
                    == old(self)@.update(
                    i,
                    PhoneVerification { phone, verification_code, updated_at, ..old(self)@[i] },
                ),
    {
        match self.id_position(id) {
            Some(i) => {
                let ghost before = self@;
                let mut rec = self.rows[i].duplicate();
                rec.phone = phone;
                rec.verification_code = verification_code;
                rec.updated_at = updated_at;
                self.rows.set(i, rec);
                proof {
                    let rows = self@;
                    assert forall|a: int, b: int| 0 <= a < b < rows.len() implies #[trigger] rows[a].created_at
                        >= #[trigger] rows[b].created_at by {
                        assert(before[a].created_at >= before[b].created_at);
                    }
                    assert forall|a: int, b: int|
                        0 <= a < rows.len() && 0 <= b < rows.len() && a != b implies #[trigger] rows[a].id@
                        != #[trigger] rows[b].id@ by {
                        assert(before[a].id@ != before[b].id@);
                    }
                    assert(before[i as int].id@ == id@);
                }
                true
            },
            None => false,
        }
    }

    /// Upsert by username: the latest record of the request's user gets the
    /// new phone and code and update time `now`; a user without a record gets
    /// a new one with identifier `new_id`, created at `now`.
    pub fn upsert_by_username(
        &mut self,
        request: CreateVerificationRequest,
        new_id: String,
        now: Timestamp,
    ) -> (r: Result<PhoneVerification, StorageError>)
        requires
            old(self).wf(),
        ensures
            final(self).wf(),
            is_insert_pos(old(self)@, now, insert_pos(old(self)@, now)),
            match upsert_outcome(old(self)@, request, new_id, now) {
                Ok((rows, rec)) => r == Ok::<PhoneVerification, StorageError>(rec) && final(self)@
                    == rows,
                Err(()) => r == Err::<PhoneVerification, StorageError>(StorageError::DuplicateId)
                    && final(self)@ == old(self)@,
            },
    {
        proof {
            lemma_insert_pos_exists(self@, now, 0);
        }
        let pos = self.latest_position(request.username.as_str());
        match pos {
            Some(i) => {
                proof {
                    lemma_latest_unique(self@, request.username@, i as int);
                }
                let existing = self.rows[i].duplicate();
                let rec = plan_upsert(Some(existing), request, new_id, now).into_record();
                let out = rec.duplicate();
                let ghost before = self@;
                self.rows.set(i, rec);
                proof {
                    let rows = self@;
                    assert forall|a: int, b: int| 0 <= a < b < rows.len() implies #[trigger] rows[a].created_at
                        >= #[trigger] rows[b].created_at by {
                        assert(before[a].created_at >= before[b].created_at);
                    }
                    assert forall|a: int, b: int|
                        0 <= a < rows.len() && 0 <= b < rows.len() && a != b implies #[trigger] rows[a].id@
                        != #[trigger] rows[b].id@ by {
                        assert(before[a].id@ != before[b].id@);
                    }
                }
                Ok(out)
            },
            None => {
                let rec = plan_upsert(None, request, new_id, now).into_record();
                let out = rec.duplicate();
                match self.insert(rec) {
                    Ok(()) => Ok(out),
                    Err(e) => Err(e),
                }
            },
        }
    }

    /// Every row, newest first.
    pub fn list_all(&self) -> (r: Vec<PhoneVerification>)
        requires
            self.wf(),
        ensures
            r@ == self@,
            newest_first(r@),
    {
        let mut out: Vec<PhoneVerification> = Vec::new();
        let mut i: usize = 0;
        while i < self.rows.len()
            invariant
                i <= self@.len(),
                out@ == self@.subrange(0, i as int),
            decreases self@.len() - i,
        {
            out.push(self.rows[i].duplicate());
            i = i + 1;
        }
        assert(out@ =~= self@);
        out
    }

    /// The rows of `username`, newest first.
    pub fn list_by_username(&self, username: &str) -> (r: Vec<PhoneVerification>)
        requires
            self.wf(),
        ensures
            r@ == rows_of(self@, username@),
            newest_first(r@),
    {
        let key = String::from_str(username);
        let ghost pred = belongs_to(username@);
        let mut out: Vec<PhoneVerification> = Vec::new();
        let mut i: usize = 0;
        while i < self.rows.len()
            invariant
                i <= self@.len(),
                key@ == username@,
                self.wf(),
                pred == belongs_to(username@),
                out@ == self@.subrange(0, i as int).filter(pred),
                newest_first(out@),
                forall|m: int, j: int|
                    0 <= m < out@.len() && i <= j < self@.len() ==> #[trigger] out@[m].created_at
                        >= #[trigger] self@[j].created_at,
            decreases self@.len() - i,
        {
            let ghost prefix = self@.subrange(0, i as int + 1);
            proof {
                reveal(Seq::filter);
                assert(prefix.drop_last() =~= self@.subrange(0, i as int));
                assert(prefix.last() == self@[i as int]);
            }
            if self.rows[i].username == key {
                out.push(self.rows[i].duplicate());
            }
            proof {
                assert(forall|j: int| i < j < self@.len() ==> self@[i as int].created_at >= #[trigger] self@[j].created_at);
            }
            i = i + 1;
        }
        assert(self@.subrange(0, self@.len() as int) =~= self@);
        out
    }
}

} // verus!
