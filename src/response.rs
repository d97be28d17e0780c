use vstd::prelude::*;
use crate::model::{PhoneResponse, PhoneVerification};
use crate::store::StorageError;
use crate::validation::{joined_messages, message_of, validation_message, FieldError};

verus! {

/// The envelope of every response.
#[derive(Debug)]
pub struct ApiResponse<T> {
    pub success: bool,
    pub message: String,
    pub data: Option<T>,
}

/// A response: HTTP status and envelope.
#[derive(Debug)]
pub struct HttpReply<T> {
    pub status: u16,
    pub body: ApiResponse<T>,
}

/// The payload of a liveness answer.
#[derive(Clone, Debug)]
pub struct HealthStatus {
    pub status: String,
}

pub const STATUS_OK: u16 = 200;
pub const STATUS_CREATED: u16 = 201;
pub const STATUS_BAD_REQUEST: u16 = 400;
pub const STATUS_NOT_FOUND: u16 = 404;
pub const STATUS_INTERNAL_SERVER_ERROR: u16 = 500;

impl<T> ApiResponse<T> {
    /// A success carrying `data`.
    pub fn success(data: T) -> (r: Self)
        ensures
            r.success,
            r.message@ == "操作成功"@,
            r.data == Some(data),
    {
        ApiResponse { success: true, message: String::from_str("操作成功"), data: Some(data) }
    }

    /// A failure with `message` and no data.
    pub fn error(message: &str) -> (r: Self)
        ensures
            !r.success,
            r.message@ == message@,
            r.data is None,
    {
        ApiResponse { success: false, message: String::from_str(message), data: None }
    }
}

impl ApiResponse<()> {
    /// A success without data.
    pub fn success_empty() -> (r: Self)
        ensures
            r.success,
            r.message@ == "操作成功"@,
            r.data is None,
    {
        ApiResponse { success: true, message: String::from_str("操作成功"), data: None }
    }

    /// A failure with `message`.
    pub fn error_empty(message: &str) -> (r: Self)
        ensures
            !r.success,
            r.message@ == message@,
            r.data is None,
    {
        ApiResponse { success: false, message: String::from_str(message), data: None }
    }
}

/// The text of a storage failure as the caller sees it.
pub open spec fn storage_message(e: StorageError) -> Seq<char> {
    "数据库错误: "@ + e.text()
}

/// A failure reply: `status` and `message`, no data.
pub open spec fn is_failure<T>(r: HttpReply<T>, status: u16, message: Seq<char>) -> bool {
    &&& r.status == status
    &&& !r.body.success
    &&& r.body.message@ == message
    &&& r.body.data is None
}

/// A success reply: status 200 and `data`.
pub open spec fn is_success<T>(r: HttpReply<T>, message: Seq<char>, data: T) -> bool {
    &&& r.status == STATUS_OK
    &&& r.body.success
    &&& r.body.message@ == message
    &&& r.body.data == Some(data)
}

fn failure<T>(status: u16, message: String) -> (r: HttpReply<T>)
    ensures
        is_failure(r, status, message@),
{
    HttpReply { status, body: ApiResponse { success: false, message, data: None } }
}

fn storage_failure<T>(e: &StorageError) -> (r: HttpReply<T>)
    ensures
        is_failure(r, STATUS_INTERNAL_SERVER_ERROR, storage_message(*e)),
{
    let mut m = String::from_str("数据库错误: ");
    let d = e.description();
    m.append(d.as_str());
    failure(STATUS_INTERNAL_SERVER_ERROR, m)
}

/// The reply to a request whose fields failed validation: 400 with the
/// failures' texts joined by ", ".
pub fn validation_reply<T>(errors: &Vec<FieldError>) -> (r: HttpReply<T>)
    ensures
        is_failure(r, STATUS_BAD_REQUEST, joined_messages(errors@)),
{
    failure(STATUS_BAD_REQUEST, validation_message(errors))
}

/// The reply to a path username of the wrong length: 400.
pub fn username_reply<T>() -> (r: HttpReply<T>)
    ensures
        is_failure(r, STATUS_BAD_REQUEST, message_of(FieldError::Username)),
{
    failure(STATUS_BAD_REQUEST, FieldError::Username.message())
}

/// The reply to an upsert: the record, with a message that says whether it
/// was created or updated; or 500 on a storage failure.
pub fn upsert_reply(result: Result<PhoneVerification, StorageError>) -> (r: HttpReply<
    PhoneVerification,
>)
    ensures
        match result {
            Ok(rec) => is_success(
                r,
                if rec.created_at != rec.updated_at {
                    "验证码更新成功"@
                } else {
                    "验证码创建成功"@
                },
                rec,
            ),
            Err(e) => is_failure(r, STATUS_INTERNAL_SERVER_ERROR, storage_message(e)),
        },
{
    match result {
        Ok(rec) => {
            let message = if rec.is_update() {
                String::from_str("验证码更新成功")
            } else {
                String::from_str("验证码创建成功")
            };
            HttpReply {
                status: STATUS_OK,
                body: ApiResponse { success: true, message, data: Some(rec) },
            }
        },
        Err(e) => storage_failure(&e),
    }
}

/// The reply to a plain creation: 201 with the record, or 500.
pub fn create_reply(result: Result<PhoneVerification, StorageError>) -> (r: HttpReply<
    PhoneVerification,
>)
    ensures
        match result {
            Ok(rec) => r.status == STATUS_CREATED && r.body.success && r.body.message@ == "操作成功"@
                && r.body.data == Some(rec),
            Err(e) => is_failure(r, STATUS_INTERNAL_SERVER_ERROR, storage_message(e)),
        },
{
    match result {
        Ok(rec) => HttpReply { status: STATUS_CREATED, body: ApiResponse::success(rec) },
        Err(e) => storage_failure(&e),
    }
}

/// The reply to a listing of every record: 200 with the list, or 500.
pub fn list_reply(result: Result<Vec<PhoneVerification>, StorageError>) -> (r: HttpReply<
    Vec<PhoneVerification>,
>)
    ensures
        match result {
            Ok(rows) => is_success(r, "操作成功"@, rows),
            Err(e) => is_failure(r, STATUS_INTERNAL_SERVER_ERROR, storage_message(e)),
        },
{
    match result {
        Ok(rows) => HttpReply { status: STATUS_OK, body: ApiResponse::success(rows) },
        Err(e) => storage_failure(&e),
    }
}

/// The reply to a listing of one user's records: 200 with the list, 404 when
/// it is empty, or 500.
pub fn user_records_reply(result: Result<Vec<PhoneVerification>, StorageError>) -> (r: HttpReply<
    Vec<PhoneVerification>,
>)
    ensures
        match result {
            Ok(rows) => if rows@.len() == 0 {
                is_failure(r, STATUS_NOT_FOUND, "未找到该用户的任何记录"@)
            } else {
                is_success(r, "操作成功"@, rows)
            },
            Err(e) => is_failure(r, STATUS_INTERNAL_SERVER_ERROR, storage_message(e)),
        },
{
    match result {
        Ok(rows) => {
            if rows.len() == 0 {
                failure(STATUS_NOT_FOUND, String::from_str("未找到该用户的任何记录"))
            } else {
                HttpReply { status: STATUS_OK, body: ApiResponse::success(rows) }
            }
        },
        Err(e) => storage_failure(&e),
    }
}

/// The reply to a phone lookup for `username`: 200 with phone and username,
/// 404 when the user has no record, or 500.
pub fn phone_reply(username: String, result: Result<Option<String>, StorageError>) -> (r: HttpReply<
    PhoneResponse,
>)
    ensures
        match result {
            Ok(Some(phone)) => is_success(
                r,
                "操作成功"@,
                PhoneResponse { phone, username },
            ),
            Ok(None) => is_failure(r, STATUS_NOT_FOUND, "未找到该用户的手机号码"@),
            Err(e) => is_failure(r, STATUS_INTERNAL_SERVER_ERROR, storage_message(e)),
        },
{
    match result {
        Ok(Some(phone)) => HttpReply {
            status: STATUS_OK,
            body: ApiResponse::success(PhoneResponse { phone, username }),
        },
        Ok(None) => failure(STATUS_NOT_FOUND, String::from_str("未找到该用户的手机号码")),
        Err(e) => storage_failure(&e),
    }
}

/// The liveness reply: 200 with status "healthy".
pub fn health_reply() -> (r: HttpReply<HealthStatus>)
    ensures
        r.status == STATUS_OK,
        r.body.success,
        r.body.data matches Some(h) && h.status@ == "healthy"@,
{
    HttpReply {
        status: STATUS_OK,
        body: ApiResponse::success(HealthStatus { status: String::from_str("healthy") }),
    }
}

} // verus!
