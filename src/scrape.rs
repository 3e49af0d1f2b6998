use vstd::prelude::*;
use crate::store::{error_text, MetricsError};

verus! {

/// What the scrape endpoint answers: a status code, the `Content-Length`
/// header's value, and the body.
pub struct ScrapeResponse {
    pub status: u16,
    pub content_length: u64,
    pub body: Vec<u8>,
}

/// The response to any request, given the outcome of rendering the store: 200
/// with the rendered text, or 500 with the error's description. The
/// `Content-Length` is the body's length either way.
pub fn respond(encoded: Result<Vec<u8>, MetricsError>) -> (r: ScrapeResponse)
    requires
        encoded is Ok ==> encoded->Ok_0@.len() <= u64::MAX,
    ensures
        r.content_length == r.body@.len(),
        encoded is Ok ==> r.status == 200 && r.body@ == encoded->Ok_0@,
        encoded is Err ==> r.status == 500 && r.body@ == vstd::utf8::encode_utf8(error_text(encoded->Err_0)),
{
    match encoded {
        Ok(body) => ScrapeResponse { status: 200, content_length: body.len() as u64, body },
        Err(e) => {
            let text = e.describe();
            let body = text.as_str().as_bytes_vec();
            ScrapeResponse { status: 500, content_length: body.len() as u64, body }
        },
    }
}

} // verus!
