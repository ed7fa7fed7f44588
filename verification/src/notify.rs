//! Text of the diagnostic notification.
//!
//! The provider can surface short diagnostic notices through a blocking
//! message box shown by the unverified shell.  The shell displays exactly the
//! text built here: the message framed by a `::` marker on both sides.

use vstd::prelude::*;

verus! {

/// The framed text of a diagnostic notice: `::` + message + `::`.
pub open spec fn framed_message(msg: Seq<char>) -> Seq<char> {
    "::"@ + msg + "::"@
}

/// Builds the text that the shell's notification box displays for `msg`.
pub fn notify_message(msg: &str) -> (r: String)
    ensures
        r@ == framed_message(msg@),
{
    let mut s = String::from_str("::");
    s.append(msg);
    s.append("::");
    s
}

} // verus!
