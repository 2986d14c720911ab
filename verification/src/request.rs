//! Calls as plain values: what is to be asked of the server, before anything
//! is sent.

use std::collections::HashMap;
use vstd::prelude::*;

use crate::client::Cloudflare;
use crate::text::Text;

verus! {

/// The method of an HTTP request.
#[derive(Clone, Copy, Debug, PartialEq, Eq, Structural)]
pub enum Method {
    Get,
    Head,
    Post,
    Put,
    Delete,
    Connect,
    Options,
    Trace,
    Patch,
}

/// A request that is ready to be sent: its method, the address it goes to,
/// its headers in order, and the bytes of its body.
#[derive(Clone, Debug)]
pub struct Request {
    pub method: Method,
    pub uri: String,
    pub headers: Vec<(String, String)>,
    pub body: Vec<u8>,
}

/// The value of a `Request`.
pub ghost struct RequestView {
    pub method: Method,
    pub uri: Text,
    pub headers: Seq<(Text, Text)>,
    pub body: Seq<u8>,
}

impl View for Request {
    type V = RequestView;

    open spec fn view(&self) -> RequestView {
        RequestView {
            method: self.method,
            uri: self.uri@,
            headers: self.headers.deep_view(),
            body: self.body@,
        }
    }
}

/// What a call is made with: the path of the resource, query parameters, and
/// a body where the call has one.
#[derive(Clone, Debug)]
pub struct PerformOptions<T> {
    pub path: String,
    pub params: Option<HashMap<String, String>>,
    pub body: Option<T>,
}

/// A call that has been decided on and not yet made: the configuration it
/// is made with, its method, and its options. The body is still a value; it
/// becomes text when the call is made.
#[derive(Clone, Debug)]
pub struct Call<B> {
    pub client: Cloudflare,
    pub method: Method,
    pub options: PerformOptions<B>,
}

} // verus!
