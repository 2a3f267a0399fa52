use vstd::prelude::*;

verus! {

/// The tag that every reply carries: whether the request was carried out,
/// was turned down for a reason the caller can correct, or broke on the
/// platform's side.
#[derive(Clone, Copy, Debug, PartialEq, Eq, Structural)]
pub enum Status {
    Success,
    Failure,
    Error,
}

/// What the transport hands over of a request's headers: the tenant selector,
/// the bearer token and the shared security key, each absent when the request
/// did not carry it in a usable form.
pub struct RequestHeaders {
    pub store_name: Option<String>,
    pub bearer_token: Option<String>,
    pub security_key: Option<String>,
}

/// What the contracts see of the headers of a request.
pub struct RequestHeadersView {
    pub store_name: Option<Seq<char>>,
    pub bearer_token: Option<Seq<char>>,
    pub security_key: Option<Seq<char>>,
}

impl View for RequestHeaders {
    type V = RequestHeadersView;

    open spec fn view(&self) -> RequestHeadersView {
        RequestHeadersView {
            store_name: self.store_name.deep_view(),
            bearer_token: self.bearer_token.deep_view(),
            security_key: self.security_key.deep_view(),
        }
    }
}

} // verus!
