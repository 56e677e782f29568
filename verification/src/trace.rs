//! Trace ids: the id a request carries through the agent's logs.
use vstd::prelude::*;

verus! {

/// Makes and passes on trace ids.
pub struct TraceContext;

/// The shape of a UUID in its hyphenated text form: 36 characters, with
/// hyphens at positions 8, 13, 18 and 23.
pub open spec fn uuid_shaped(s: Seq<char>) -> bool {
    s.len() == 36 && s[8] == '-' && s[13] == '-' && s[18] == '-' && s[23] == '-'
}

/// A random version-4 UUID in hyphenated text form.
///
/// Trusted: `uuid::Uuid::new_v4` and its `Display`, documented to give the
/// hyphenated form (`67e55044-10b1-426f-9247-bb680e5fe0c8`). The value is
/// random, so only its shape is stated.
#[verifier::external_body]
fn random_uuid() -> (r: String)
    ensures
        uuid_shaped(r@),
{
    uuid::Uuid::new_v4().to_string()
}

impl TraceContext {
    /// A new trace id: a random UUID.
    pub fn new_trace_id() -> (r: String)
        ensures
            uuid_shaped(r@),
    {
        random_uuid()
    }

    /// The trace id of a request: its `x-trace-id` header when present and
    /// readable, else a new one.
    pub fn extract_or_generate(header: Option<&str>) -> (r: String)
        ensures
            match header {
                Some(h) => r@ == h@,
                None => uuid_shaped(r@),
            },
    {
        match header {
            Some(h) => h.to_owned(),
            None => Self::new_trace_id(),
        }
    }
}

} // verus!
