//! Replies made of an HTTP status code and a short text.
use vstd::prelude::*;

verus! {

/// A status code and the text that goes with it.
#[derive(Debug)]
pub struct StatusReply {
    pub status: u16,
    pub body: String,
}

impl View for StatusReply {
    type V = (u16, Seq<char>);

    open spec fn view(&self) -> (u16, Seq<char>) {
        (self.status, self.body@)
    }
}

/// 200, `Ok`.
pub fn reply_ok() -> (r: StatusReply)
    ensures
        r@ == (200u16, "Ok"@),
{
    StatusReply { status: 200, body: "Ok".to_owned() }
}

/// 500, `Something went wrong`.
pub fn reply_something_went_wrong() -> (r: StatusReply)
    ensures
        r@ == (500u16, "Something went wrong"@),
{
    StatusReply { status: 500, body: "Something went wrong".to_owned() }
}

} // verus!
