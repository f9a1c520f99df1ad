//! The HTTP executor. The request itself goes over the network; this module
//! holds the executor's settings and turns a response into a result.
use crate::executor::base::BaseExecutor;
use crate::executor::{Context, ExecutionResult};
use crate::strmap::StrMap;
use vstd::prelude::*;
use vstd::string::*;

verus! {

/// The request sent for a context: a `GET` of the target, with the
/// context's headers and its payload as the body.
pub struct HttpRequestPlan {
    pub method: String,
    pub url: String,
    pub headers: Vec<(String, String)>,
    pub body: Option<String>,
}

/// Copies a list of header pairs.
pub fn copy_headers(headers: &Vec<(String, String)>) -> (r: Vec<(String, String)>)
    ensures
        r@ == headers@,
{
    let mut r: Vec<(String, String)> = Vec::new();
    for i in 0..headers.len()
        invariant
            r@.len() == i,
            forall|j: int| 0 <= j < i ==> #[trigger] r@[j] == headers@[j],
    {
        r.push((headers[i].0.clone(), headers[i].1.clone()));
    }
    assert(r@ =~= headers@);
    r
}

/// Runs requests over HTTP.
pub struct HttpExecutor {
    base: BaseExecutor,
    request_timeout_secs: u64,
}

/// An HTTP status that reports success: 200 to 299.
pub open spec fn is_success_status(code: u16) -> bool {
    200 <= code <= 299
}

impl HttpExecutor {
    /// The middleware chain run around each request.
    pub closed spec fn base(&self) -> BaseExecutor {
        self.base
    }

    /// How long a request may take, in seconds.
    pub closed spec fn request_timeout_secs(&self) -> u64 {
        self.request_timeout_secs
    }

    /// An executor with the given chain and a 30 second request timeout.
    pub fn new(base: BaseExecutor) -> (e: Self)
        ensures
            e.base()@ == base@,
            e.request_timeout_secs() == 30,
    {
        HttpExecutor { base, request_timeout_secs: 30 }
    }

    /// The middleware chain run around each request.
    pub fn chain(&self) -> (r: &BaseExecutor)
        ensures
            r@ == self.base()@,
    {
        &self.base
    }

    /// How long a request may take, in seconds.
    pub fn timeout_secs(&self) -> (r: u64)
        ensures
            r == self.request_timeout_secs(),
    {
        self.request_timeout_secs
    }

    /// The executor's name.
    pub fn name(&self) -> (r: &'static str)
        ensures
            r@ == "http_executor"@,
    {
        "http_executor"
    }

    /// The request to send for `context`.
    pub fn request_for(context: &Context) -> (r: HttpRequestPlan)
        ensures
            r.method@ == "GET"@,
            r.url@ == context.target@,
            r.headers@ == context.headers@,
            r.body.deep_view() == context.payload.deep_view(),
    {
        let body = match &context.payload {
            Some(p) => Some(p.clone()),
            None => None,
        };
        HttpRequestPlan {
            method: String::from_str("GET"),
            url: context.target.clone(),
            headers: copy_headers(&context.headers),
            body,
        }
    }

    /// The result of a response: successful for a 2xx status, with the
    /// status text, the body, the time taken and the response headers.
    pub fn result_from_response(
        status_code: u16,
        status_text: String,
        headers: StrMap<String>,
        data: Vec<u8>,
        duration: u128,
    ) -> (r: ExecutionResult)
        ensures
            r.success == is_success_status(status_code),
            r.status@ == status_text@,
            r.data@ == data@,
            r.duration == duration,
            r.metadata@ == headers@,
    {
        ExecutionResult {
            success: 200 <= status_code && status_code <= 299,
            status: status_text,
            data,
            duration,
            metadata: headers,
        }
    }
}

} // verus!
