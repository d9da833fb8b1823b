use vstd::prelude::*;
use vstd::string::StringSliceAdditionalSpecFns;

verus! {

/// The path that serves the metrics.
pub const METRICS_PATH: &'static str = "/metrics";

/// The one method that the metrics path answers.
pub const METRICS_METHOD: &'static str = "GET";

/// The body of every other request: the conventional metrics ports of the
/// sibling services.
pub const NOT_FOUND_BODY: &'static str = "default:\n/60000/metrics for network\n/60001/metrics for consensus\n/60002/metrics for executor\n/60003/metrics for storage\n/60004/metrics for controller\n/60005/metrics for crypto\n";

/// Status of a served scrape.
pub const STATUS_OK: u16 = 200;

/// Status of a request for anything but the metrics.
pub const STATUS_NOT_FOUND: u16 = 404;

/// Status of a scrape whose rendering failed.
pub const STATUS_SERVER_ERROR: u16 = 500;

/// Where an exporter request goes.
pub enum Route {
    /// `GET /metrics`: render the registry.
    Metrics,
    /// Anything else.
    NotFound,
}

/// The status and body of an exporter response.
pub struct Reply {
    pub status: u16,
    pub body: Vec<u8>,
}

/// Whether two texts are equal, compared byte by byte.
fn same_text(a: &str, b: &str) -> (r: bool)
    ensures
        r == (a@ == b@),
{
    let x = a.as_bytes();
    let y = b.as_bytes();
    proof {
        vstd::utf8::encode_utf8_decode_utf8(a@);
        vstd::utf8::encode_utf8_decode_utf8(b@);
    }
    if x.len() != y.len() {
        return false;
    }
    let mut i: usize = 0;
    while i < x.len()
        invariant
            x.len() == y.len(),
            x@ == a.spec_bytes(),
            y@ == b.spec_bytes(),
            i <= x.len(),
            forall|j: int| 0 <= j < i ==> x@[j] == y@[j],
        decreases x.len() - i,
    {
        if x[i] != y[i] {
            return false;
        }
        i = i + 1;
    }
    assert(x@ =~= y@);
    true
}

/// Routes an exporter request by its method and path.
pub fn route(method: &str, path: &str) -> (r: Route)
    ensures
        r is Metrics <==> method@ == METRICS_METHOD@ && path@ == METRICS_PATH@,
{
    if same_text(method, METRICS_METHOD) && same_text(path, METRICS_PATH) {
        Route::Metrics
    } else {
        Route::NotFound
    }
}

/// The response to a scrape: the rendered text with status 200, or status
/// 500 with an empty body when rendering failed. Only this scrape fails.
pub fn metrics_reply<E>(rendered: Result<Vec<u8>, E>) -> (r: Reply)
    ensures
        match rendered {
            Ok(text) => r.status == STATUS_OK && r.body@ == text@,
            Err(_) => r.status == STATUS_SERVER_ERROR && r.body@.len() == 0,
        },
{
    match rendered {
        Ok(text) => Reply { status: STATUS_OK, body: text },
        Err(_) => Reply { status: STATUS_SERVER_ERROR, body: Vec::new() },
    }
}

/// The response to any request but a scrape: status 404 and the listing of
/// the sibling services' metrics ports.
pub fn not_found_reply() -> (r: Reply)
    ensures
        r.status == STATUS_NOT_FOUND,
        r.body@ == NOT_FOUND_BODY.spec_bytes(),
{
    Reply { status: STATUS_NOT_FOUND, body: vstd::slice::slice_to_vec(NOT_FOUND_BODY.as_bytes()) }
}

} // verus!
