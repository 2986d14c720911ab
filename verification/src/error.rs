use vstd::prelude::*;
use vstd::string::*;

use crate::text::Text;

verus! {

/// The one kind of failure that a call can end in: request construction,
/// transport and decoding failures alike. It carries a message and nothing
/// else; callers tell failures apart by the message only.
#[derive(Clone, Debug)]
pub struct ApiError(String);

/// What a call returns.
pub type ApiResult<T> = Result<T, ApiError>;

impl View for ApiError {
    type V = Text;

    /// The message.
    closed spec fn view(&self) -> Text {
        self.0@
    }
}

impl ApiError {
    /// The text that `to_string` puts in front of the message.
    pub open spec fn label() -> Text {
        "ApiError:"@
    }

    pub fn new(msg: &str) -> (error: Self)
        ensures
            error@ == msg@,
    {
        ApiError(msg.to_string())
    }

    /// The message that the error carries.
    pub fn message(&self) -> (msg: &str)
        ensures
            msg@ == self@,
    {
        self.0.as_str()
    }

    /// The error as it is shown: the label, then the message.
    pub fn to_string(&self) -> (shown: String)
        ensures
            shown@ == Self::label() + self@,
    {
        let mut shown = "ApiError:".to_string();
        shown.append(self.0.as_str());
        shown
    }
}

} // verus!
