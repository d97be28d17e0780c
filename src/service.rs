use vstd::prelude::*;
use crate::model::{CreateVerificationRequest, PhoneVerification, Timestamp};

verus! {

/// What an upsert-by-username does to the store, and the record it returns.
#[derive(Debug)]
pub enum UpsertPlan {
    /// Write the new phone, code and update time to the row with this
    /// record's identifier.
    Update(PhoneVerification),
    /// Store this record as a new row.
    Insert(PhoneVerification),
}

impl UpsertPlan {
    /// The record the upsert returns.
    pub open spec fn record(self) -> PhoneVerification {
        match self {
            UpsertPlan::Update(r) => r,
            UpsertPlan::Insert(r) => r,
        }
    }

    /// The record the upsert returns.
    pub fn into_record(self) -> (r: PhoneVerification)
        ensures
            r == self.record(),
    {
        match self {
            UpsertPlan::Update(r) => r,
            UpsertPlan::Insert(r) => r,
        }
    }
}

/// The upsert decision. `existing` is the latest record for the request's
/// username, if any: it is updated in place; otherwise a record with
/// identifier `new_id` is created. Both happen at time `now`.
pub fn plan_upsert(
    existing: Option<PhoneVerification>,
    request: CreateVerificationRequest,
    new_id: String,
    now: Timestamp,
) -> (r: UpsertPlan)
    ensures
        match existing {
            Some(rec) => r == UpsertPlan::Update(rec.updated_with(request, now)),
            None => r == UpsertPlan::Insert(
                PhoneVerification::created(
                    new_id,
                    request.phone,
                    request.username,
                    request.verification_code,
                    now,
                ),
            ),
        },
{
    match existing {
        Some(mut record) => {
            record.verification_code = request.verification_code;
            record.phone = request.phone;
            record.updated_at = now;
            UpsertPlan::Update(record)
        },
        None => UpsertPlan::Insert(
            PhoneVerification::new_at(
                new_id,
                request.phone,
                request.username,
                request.verification_code,
                now,
            ),
        ),
    }
}

} // verus!
