use vstd::prelude::*;

pub mod request;
pub mod response;

verus! {

/// Outcome classification for a catalog fetch.
pub enum FetchError {
    /// Network-level failure: connection, status, or unreadable body.
    Transport(String),
    /// The body was read but did not match the expected document shape;
    /// the raw body text is preserved for diagnostics.
    Schema(String),
}

/// All-or-nothing resolution of a fetched body: a body that deserialized
/// into the document shape is handed back whole, and one that did not
/// becomes a `Schema` failure carrying the raw text for diagnostics. No
/// partial document is ever returned.
pub fn resolve_response(parsed: Option<response::SkjalftalisaResponse>, raw_body: String) -> (r:
    Result<response::SkjalftalisaResponse, FetchError>)
    ensures
        parsed matches Some(resp) ==> (r matches Ok(out) && out == resp),
        parsed is None ==> (r matches Err(FetchError::Schema(b)) && b@ == raw_body@),
{
    match parsed {
        Some(resp) => Ok(resp),
        None => Err(FetchError::Schema(raw_body)),
    }
}

} // verus!
