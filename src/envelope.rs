use vstd::prelude::*;
use vstd::string::*;

verus! {

/// The `code` of a successful envelope.
pub const CODE_OK: i32 = 0;

/// The `code` of every failure envelope this service produces.
pub const CODE_FAILED: i32 = -1;

/// The text that accompanies every successful envelope.
pub open spec fn successful_text() -> Seq<char> {
    "successful"@
}

/// The uniform body of every HTTP response: `code == 0` means success.
pub struct ApiResponse<T> {
    pub code: i32,
    pub message: String,
    pub data: Option<T>,
}

impl<T> ApiResponse<T> {
    /// A success envelope: code 0, the fixed success text, and a payload.
    pub open spec fn is_success_with(&self, payload: T) -> bool {
        &&& self.code == CODE_OK
        &&& self.message@ == successful_text()
        &&& self.data == Some(payload)
    }

    /// A failure envelope with the given code and text, and no payload.
    pub open spec fn is_failure_with(&self, code: i32, text: Seq<char>) -> bool {
        &&& self.code == code
        &&& self.message@ == text
        &&& self.data.is_none()
    }

    pub fn new(code: i32, message: String, data: Option<T>) -> (r: Self)
        ensures
            r.code == code,
            r.message == message,
            r.data == data,
    {
        ApiResponse { code, message, data }
    }

    pub fn ok(data: T) -> (r: Self)
        ensures
            r.is_success_with(data),
    {
        proof {
            reveal_strlit("successful");
        }
        Self::new(CODE_OK, String::from_str("successful"), Some(data))
    }

    pub fn err(code: i32, message: String) -> (r: Self)
        ensures
            r.is_failure_with(code, message@),
            r.message == message,
    {
        Self::new(code, message, None)
    }
}

} // verus!
