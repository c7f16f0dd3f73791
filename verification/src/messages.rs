use vstd::prelude::*;

verus! {

/// Builds the error text the facade reports: a fixed descriptive prefix
/// followed by the operating system's own message.
pub(crate) fn prefixed_message(prefix: &str, detail: &str) -> (m: String)
    ensures
        m@ == prefix@ + detail@,
{
    String::from_str(prefix).concat(detail)
}

} // verus!
