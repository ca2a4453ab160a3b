use vstd::prelude::*;

verus! {

/// The uniform response envelope every endpoint returns: a numeric
/// status mirror, a human-readable message, and an optional payload.
#[derive(Debug)]
pub struct ApiResponse<T> {
    pub code: u16,
    pub message: String,
    pub data: Option<T>,
}

impl<T> ApiResponse<T> {
    /// A success envelope carrying a payload.
    pub fn success_with_data(data: T) -> (r: ApiResponse<T>)
        ensures
            r.code == 200,
            r.message@ == "Success"@,
            r.data == Some(data),
    {
        ApiResponse { code: 200, message: "Success".to_owned(), data: Some(data) }
    }

    /// A success envelope carrying only a message.
    pub fn success_with_message(message: String) -> (r: ApiResponse<()>)
        ensures
            r.code == 200,
            r.message == message,
            r.data is None,
    {
        ApiResponse { code: 200, message, data: None }
    }

    /// An internal-error envelope carrying only a message.
    pub fn error_with_message(message: String) -> (r: ApiResponse<T>)
        ensures
            r.code == 500,
            r.message == message,
            r.data is None,
    {
        ApiResponse { code: 500, message, data: None }
    }
}

/// The uniform page wrapper: one page of rows plus the total page count.
#[derive(Debug)]
pub struct PageRes<T> {
    pub data: T,
    pub total: u64,
}

} // verus!
