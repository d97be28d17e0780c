use vstd::prelude::*;
use crate::model::{CreateVerificationRequest, PhoneVerification, Timestamp};
use crate::store::{
    belongs_to, has_id, has_username, ids_unique, insert_pos, is_insert_pos, is_latest_index,
    latest_index, latest_record, lemma_insert_pos_exists, lemma_latest_exists,
    lemma_latest_unique, newest_first, rows_of, upsert_outcome, with_inserted,
};

verus! {

/// Only row `i` belongs to `username`.
pub open spec fn only_row(rows: Seq<PhoneVerification>, username: Seq<char>, i: int) -> bool {
    &&& 0 <= i < rows.len()
    &&& rows[i].username@ == username
    &&& forall|j: int| 0 <= j < rows.len() && j != i ==> #[trigger] rows[j].username@ != username
}

/// At most one row belongs to `username`.
pub open spec fn at_most_one_row(rows: Seq<PhoneVerification>, username: Seq<char>) -> bool {
    forall|i: int, j: int|
        0 <= i < rows.len() && 0 <= j < rows.len() && #[trigger] rows[i].username@ == username
            && #[trigger] rows[j].username@ == username ==> i == j
}

proof fn lemma_rows_of_none(rows: Seq<PhoneVerification>, username: Seq<char>)
    requires
        !has_username(rows, username),
    ensures
        rows_of(rows, username) == Seq::<PhoneVerification>::empty(),
    decreases rows.len(),
{
    reveal(Seq::filter);
    if rows.len() > 0 {
        let init = rows.drop_last();
        assert forall|j: int| 0 <= j < init.len() implies #[trigger] init[j].username@ != username by {
            assert(rows[j].username@ != username);
        }
        lemma_rows_of_none(init, username);
        assert(rows[rows.len() - 1].username@ != username);
    }
}

proof fn lemma_rows_of_single(rows: Seq<PhoneVerification>, username: Seq<char>, i: int)
    requires
        only_row(rows, username, i),
    ensures
        rows_of(rows, username) == seq![rows[i]],
{
    let pred = belongs_to(username);
    let a = rows.subrange(0, i);
    let b = rows.subrange(i + 1, rows.len() as int);
    let one = seq![rows[i]];
    assert(rows =~= a + one + b);
    assert forall|j: int| 0 <= j < a.len() implies #[trigger] a[j].username@ != username by {
        assert(rows[j].username@ != username);
    }
    assert forall|j: int| 0 <= j < b.len() implies #[trigger] b[j].username@ != username by {
        assert(rows[i + 1 + j].username@ != username);
    }
    lemma_rows_of_none(a, username);
    lemma_rows_of_none(b, username);
    reveal(Seq::filter);
    assert(one.drop_last() =~= Seq::<PhoneVerification>::empty());
    assert(one.filter(pred) =~= one);
    Seq::filter_distributes_over_add(a, one, pred);
    Seq::filter_distributes_over_add(a + one, b, pred);
    assert(rows_of(rows, username) =~= a.filter(pred) + one.filter(pred) + b.filter(pred));
}

proof fn lemma_inserted_only_row(
    rows: Seq<PhoneVerification>,
    rec: PhoneVerification,
    username: Seq<char>,
)
    requires
        !has_username(rows, username),
        rec.username@ == username,
    ensures
        is_insert_pos(rows, rec.created_at, insert_pos(rows, rec.created_at)),
        only_row(with_inserted(rows, rec), username, insert_pos(rows, rec.created_at)),
{
    lemma_insert_pos_exists(rows, rec.created_at, 0);
    let k = insert_pos(rows, rec.created_at);
    let after = with_inserted(rows, rec);
    assert forall|j: int| 0 <= j < after.len() && j != k implies #[trigger] after[j].username@
        != username by {
        if j < k {
            assert(rows[j].username@ != username);
        } else {
            assert(rows[j - 1].username@ != username);
        }
    }
}

/// The latest record of a user is the newest of that user's rows: no row of
/// the user was created later.
pub proof fn lemma_latest_is_newest(rows: Seq<PhoneVerification>, username: Seq<char>)
    requires
        newest_first(rows),
        has_username(rows, username),
    ensures
        latest_record(rows, username) is Some,
        forall|j: int|
            0 <= j < rows.len() && #[trigger] rows[j].username@ == username ==> rows[j].created_at
                <= latest_record(rows, username).unwrap().created_at,
{
    lemma_latest_exists(rows, username, 0);
    let i = latest_index(rows, username);
    assert forall|j: int|
        0 <= j < rows.len() && #[trigger] rows[j].username@ == username implies rows[j].created_at
        <= rows[i].created_at by {
        if j < i {
            assert(rows[j].username@ != username);
        } else if i < j {
            assert(rows[i].created_at >= rows[j].created_at);
        }
    }
}

/// Upserting for a user who has no record, with an unused identifier,
/// stores exactly one new row, the user's only row, created and updated at
/// the same moment.
pub proof fn lemma_upsert_new_user(
    rows: Seq<PhoneVerification>,
    request: CreateVerificationRequest,
    new_id: String,
    now: Timestamp,
)
    requires
        newest_first(rows),
        ids_unique(rows),
        !has_username(rows, request.username@),
        !has_id(rows, new_id@),
    ensures
        upsert_outcome(rows, request, new_id, now) is Ok,
        ({
            let (after, rec) = upsert_outcome(rows, request, new_id, now).unwrap();
            &&& after.len() == rows.len() + 1
            &&& rows_of(after, request.username@) == seq![rec]
            &&& rec.id == new_id
            &&& rec.created_at == rec.updated_at
        }),
{
    let u = request.username@;
    let rec = PhoneVerification::created(
        new_id,
        request.phone,
        request.username,
        request.verification_code,
        now,
    );
    lemma_inserted_only_row(rows, rec, u);
    lemma_rows_of_single(with_inserted(rows, rec), u, insert_pos(rows, now));
}

/// Upserting for a user who has a record changes that user's latest row in
/// place: same identifier and creation time, the request's phone and code,
/// update time `now`; no other row changes and no row is added. Where the
/// clock has moved on since the last update, the update time grows.
pub proof fn lemma_upsert_existing_user(
    rows: Seq<PhoneVerification>,
    request: CreateVerificationRequest,
    new_id: String,
    now: Timestamp,
)
    requires
        has_username(rows, request.username@),
    ensures
        upsert_outcome(rows, request, new_id, now) is Ok,
        ({
            let (after, rec) = upsert_outcome(rows, request, new_id, now).unwrap();
            let i = latest_index(rows, request.username@);
            let before = rows[i];
            &&& after.len() == rows.len()
            &&& after[i] == rec
            &&& forall|j: int| 0 <= j < rows.len() && j != i ==> #[trigger] after[j] == rows[j]
            &&& rec.id == before.id
            &&& rec.username == before.username
            &&& rec.created_at == before.created_at
            &&& rec.phone == request.phone
            &&& rec.verification_code == request.verification_code
            &&& rec.updated_at == now
            &&& now > before.updated_at ==> rec.updated_at > before.updated_at
        }),
{
    lemma_latest_exists(rows, request.username@, 0);
}

/// Two successive upserts for one user, who had at most one row, leave that
/// user exactly one row, which holds the second request's phone and code.
pub proof fn lemma_two_upserts_one_row(
    rows: Seq<PhoneVerification>,
    first: CreateVerificationRequest,
    first_id: String,
    first_now: Timestamp,
    second: CreateVerificationRequest,
    second_id: String,
    second_now: Timestamp,
)
    requires
        first.username@ == second.username@,
        at_most_one_row(rows, first.username@),
        upsert_outcome(rows, first, first_id, first_now) is Ok,
    ensures
        ({
            let (mid, _) = upsert_outcome(rows, first, first_id, first_now).unwrap();
            &&& upsert_outcome(mid, second, second_id, second_now) is Ok
            &&& {
                let (after, rec) = upsert_outcome(mid, second, second_id, second_now).unwrap();
                &&& rows_of(after, second.username@) == seq![rec]
                &&& rec.phone == second.phone
                &&& rec.verification_code == second.verification_code
            }
        }),
{
    let u = first.username@;
    let (mid, _) = upsert_outcome(rows, first, first_id, first_now).unwrap();
    let m: int = if has_username(rows, u) {
        lemma_latest_exists(rows, u, 0);
        let i = latest_index(rows, u);
        assert forall|j: int| 0 <= j < mid.len() && j != i implies #[trigger] mid[j].username@
            != u by {
            if rows[j].username@ == u {
                assert(rows[i].username@ == u);
            }
        }
        i
    } else {
        let rec = PhoneVerification::created(
            first_id,
            first.phone,
            first.username,
            first.verification_code,
            first_now,
        );
        lemma_inserted_only_row(rows, rec, u);
        insert_pos(rows, first_now)
    };
    assert(only_row(mid, u, m));
    assert(is_latest_index(mid, u, m));
    lemma_latest_unique(mid, u, m);
    let (after, rec2) = upsert_outcome(mid, second, second_id, second_now).unwrap();
    assert(after == mid.update(m, rec2));
    assert(rec2.username == mid[m].username);
    assert forall|j: int| 0 <= j < after.len() && j != m implies #[trigger] after[j].username@
        != u by {
        assert(after[j] == mid[j]);
    }
    assert(only_row(after, u, m));
    lemma_rows_of_single(after, u, m);
}

} // verus!
