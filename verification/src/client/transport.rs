//! The head of a request, as the client hands it to whoever sends it.

use vstd::prelude::*;
use crate::client::model::{HeaderView, HttpRequestView};

verus! {

/// A header of a request. The value is held as bytes: it may be one that
/// the server sent, which need not be text.
#[derive(Clone, Debug, PartialEq, Eq)]
pub struct Header {
    pub name: String,
    pub value: Vec<u8>,
}

impl View for Header {
    type V = HeaderView;

    open spec fn view(&self) -> HeaderView {
        (self.name@, self.value@)
    }
}

/// The head of a POST request: the full address and the headers to attach,
/// in order.
#[derive(Clone, Debug, PartialEq, Eq)]
pub struct HttpRequest {
    pub url: String,
    pub headers: Vec<Header>,
}

impl View for HttpRequest {
    type V = HttpRequestView;

    open spec fn view(&self) -> HttpRequestView {
        HttpRequestView { url: self.url@, headers: self.headers@.map_values(|h: Header| h@) }
    }
}

} // verus!
