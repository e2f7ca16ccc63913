//! The envelope in which the HTTP API answers: a success flag, the data on
//! success, and an error message on failure.

use vstd::prelude::*;

verus! {

/// An answer of the HTTP API.
pub struct ApiResponse<T> {
    pub success: bool,
    pub data: Option<T>,
    pub message: Option<String>,
}

impl<T> ApiResponse<T> {
    /// A successful answer carrying `data`.
    pub fn ok(data: T) -> (res: Self)
        ensures
            res.success,
            res.data == Some(data),
            res.message == None::<String>,
    {
        ApiResponse { success: true, data: Some(data), message: None }
    }

    /// The answer to a query: its data where it succeeded, its error
    /// message where it failed.
    pub fn from_result(result: Result<T, String>) -> (res: Self)
        ensures
            res.success <==> result is Ok,
            res.success <==> res.data is Some,
            result matches Ok(d) ==> res.data == Some(d) && res.message == None::<String>,
            result matches Err(e) ==> res.data == None::<T> && res.message == Some(e),
    {
        match result {
            Ok(d) => ApiResponse::ok(d),
            Err(e) => ApiResponse { success: false, data: None, message: Some(e) },
        }
    }
}

} // verus!
