use vstd::prelude::*;
use vstd::string::StringExecFns;
use crate::event::{Request, RequestView};

verus! {

/// The request to show `message` to the user.
pub fn alert(message: &str) -> (r: Request)
    ensures
        r@ == RequestView::Advise(message@),
{
    Request::Advise(String::from_str(message))
}

} // verus!
