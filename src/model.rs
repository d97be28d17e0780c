use vstd::prelude::*;

verus! {

/// Microseconds since the Unix epoch, UTC.
pub type Timestamp = i64;

/// One stored verification record.
#[derive(Clone, Debug)]
pub struct PhoneVerification {
    pub id: String,
    pub phone: String,
    pub username: String,
    pub verification_code: String,
    pub created_at: Timestamp,
    pub updated_at: Timestamp,
}

/// Body of an upsert request.
#[derive(Clone, Debug)]
pub struct CreateVerificationRequest {
    pub phone: String,
    pub username: String,
    pub verification_code: String,
}

/// Body of a phone lookup request.
#[derive(Clone, Debug)]
pub struct GetPhoneRequest {
    pub username: String,
}

/// The answer to a phone lookup.
#[derive(Clone, Debug)]
pub struct PhoneResponse {
    pub phone: String,
    pub username: String,
}

/// Relies on `uuid::Uuid::new_v4` and its `Display`: a random identifier in
/// the hyphenated form, which is always 36 characters long.
#[verifier::external_body]
fn fresh_id() -> (r: String)
    ensures
        r@.len() == 36,
{
    uuid::Uuid::new_v4().to_string()
}

/// Relies on `chrono::Utc::now` and `DateTime::timestamp_micros`: the current
/// wall-clock time. Nothing is known of the value.
#[verifier::external_body]
fn now_micros() -> (r: Timestamp) {
    chrono::Utc::now().timestamp_micros()
}

impl PhoneVerification {
    /// The record that a creation at `now` yields.
    pub open spec fn created(
        id: String,
        phone: String,
        username: String,
        verification_code: String,
        now: Timestamp,
    ) -> PhoneVerification {
        PhoneVerification {
            id,
            phone,
            username,
            verification_code,
            created_at: now,
            updated_at: now,
        }
    }

    /// This record after an update of its phone and code at `now`: identifier,
    /// username and creation time stay.
    pub open spec fn updated_with(self, request: CreateVerificationRequest, now: Timestamp) -> PhoneVerification {
        PhoneVerification {
            phone: request.phone,
            verification_code: request.verification_code,
            updated_at: now,
            ..self
        }
    }

    /// A new record with a random identifier, stamped with the current time.
    pub fn new(phone: String, username: String, verification_code: String) -> (r: Self)
        ensures
            r.id@.len() == 36,
            r.phone@ == phone@,
            r.username@ == username@,
            r.verification_code@ == verification_code@,
            r.created_at == r.updated_at,
    {
        let id = fresh_id();
        let now = now_micros();
        Self::new_at(id, phone, username, verification_code, now)
    }

    /// A new record with the given identifier, created and updated at `now`.
    pub fn new_at(
        id: String,
        phone: String,
        username: String,
        verification_code: String,
        now: Timestamp,
    ) -> (r: Self)
        ensures
            r == Self::created(id, phone, username, verification_code, now),
    {
        PhoneVerification {
            id,
            phone,
            username,
            verification_code,
            created_at: now,
            updated_at: now,
        }
    }

    /// A field-by-field copy.
    pub fn duplicate(&self) -> (r: Self)
        ensures
            r == *self,
    {
        PhoneVerification {
            id: self.id.clone(),
            phone: self.phone.clone(),
            username: self.username.clone(),
            verification_code: self.verification_code.clone(),
            created_at: self.created_at,
            updated_at: self.updated_at,
        }
    }

    /// Whether the record has been changed since it was created: the signal
    /// that tells an update apart from a creation.
    pub fn is_update(&self) -> (r: bool)
        ensures
            r == (self.created_at != self.updated_at),
    {
        self.created_at != self.updated_at
    }
}

} // verus!
