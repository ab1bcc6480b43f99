//! Requests and responses as the host holds them.
use bytes::Bytes;
use vstd::prelude::*;

verus! {

/// A byte buffer whose clones share one allocation.
#[verifier::external_type_specification]
#[verifier::external_body]
pub struct ExBytes(bytes::Bytes);

/// The bytes that a `Bytes` holds.
pub uninterp spec fn bytes_held(b: Bytes) -> Seq<u8>;

/// `Bytes::from` of a vector: the buffer holds the bytes of the vector.
pub assume_specification[ <Bytes as From<Vec<u8>>>::from ](vec: Vec<u8>) -> (b: Bytes)
    ensures
        bytes_held(b) == vec@,
;

/// `Bytes::from_static`: the buffer holds the bytes of the slice.
pub assume_specification[ Bytes::from_static ](bytes: &'static [u8]) -> (b: Bytes)
    ensures
        bytes_held(b) == bytes@,
;

/// `Bytes::clone`: the clone holds the same bytes.
pub assume_specification[ <Bytes as Clone>::clone ](b: &Bytes) -> (r: Bytes)
    ensures
        bytes_held(r) == bytes_held(*b),
;

/// `<Bytes as Deref>::deref`: the slice is the bytes that the buffer holds.
#[verifier::external_body]
pub(crate) fn bytes_slice(b: &Bytes) -> (s: &[u8])
    ensures
        s@ == bytes_held(*b),
{
    std::ops::Deref::deref(b)
}

/// `String::from` of a string slice, which `into` goes through: the same characters.
pub assume_specification<'a>[ <String as From<&'a str>>::from ](s: &str) -> (r: String)
    ensures
        r@ == s@,
;

/// `From` of a type for itself, which `into` goes through: the value that was passed in.
pub assume_specification<T>[ <T as From<T>>::from ](t: T) -> (r: T)
    ensures
        r == t,
;

/// A header as plain text.
pub struct HeaderView {
    pub name: Seq<char>,
    pub value: Seq<char>,
}

/// A request as plain text and bytes. Both the host's requests and those that cross the
/// component boundary are seen as one of these.
pub struct RequestView {
    pub method: Seq<char>,
    pub uri: Seq<char>,
    pub headers: Seq<HeaderView>,
    pub body: Seq<u8>,
}

/// A response as plain text and bytes. Both the host's responses and those that cross the
/// component boundary are seen as one of these.
pub struct ResponseView {
    pub status: u16,
    pub headers: Seq<HeaderView>,
    pub body: Seq<u8>,
}

/// A header of the host's requests and responses.
#[derive(Debug)]
pub struct Header {
    pub name: String,
    pub value: String,
}

impl View for Header {
    type V = HeaderView;

    open spec fn view(&self) -> HeaderView {
        HeaderView { name: self.name@, value: self.value@ }
    }
}

impl Clone for Header {
    fn clone(&self) -> (r: Self)
        ensures
            r@ == self@,
            r.name@ == self.name@,
            r.value@ == self.value@,
    {
        Header { name: self.name.clone(), value: self.value.clone() }
    }
}

/// A list of headers as plain text, in order.
pub open spec fn header_views(headers: Seq<Header>) -> Seq<HeaderView> {
    Seq::new(headers.len(), |i: int| headers[i]@)
}

/// A copy of a list of headers.
fn clone_headers(headers: &Vec<Header>) -> (r: Vec<Header>)
    ensures
        header_views(r@) == header_views(headers@),
        r@.len() == headers@.len(),
        forall|i: int|
            0 <= i < r@.len() ==> (#[trigger] r@[i]).name@ == headers@[i].name@ && r@[i].value@
                == headers@[i].value@,
{
    let mut copy: Vec<Header> = Vec::new();
    for i in 0..headers.len()
        invariant
            copy@.len() == i,
            forall|j: int|
                0 <= j < i ==> (#[trigger] copy@[j]).name@ == headers@[j].name@ && copy@[j].value@
                    == headers@[j].value@,
    {
        copy.push(headers[i].clone());
    }
    assert(header_views(copy@) =~= header_views(headers@));
    copy
}

/// A request that the host hands to a plugin.
#[derive(Debug)]
pub struct HttpRequest {
    pub method: String,
    pub uri: String,
    pub headers: Vec<Header>,
    pub body: Bytes,
}

impl View for HttpRequest {
    type V = RequestView;

    open spec fn view(&self) -> RequestView {
        RequestView {
            method: self.method@,
            uri: self.uri@,
            headers: header_views(self.headers@),
            body: bytes_held(self.body),
        }
    }
}

impl Clone for HttpRequest {
    fn clone(&self) -> (r: Self)
        ensures
            r@ == self@,
            r.method@ == self.method@,
            r.uri@ == self.uri@,
            r.headers@.len() == self.headers@.len(),
            forall|i: int|
                0 <= i < r.headers@.len() ==> (#[trigger] r.headers@[i]).name@
                    == self.headers@[i].name@ && r.headers@[i].value@ == self.headers@[i].value@,
            bytes_held(r.body) == bytes_held(self.body),
    {
        HttpRequest {
            method: self.method.clone(),
            uri: self.uri.clone(),
            headers: clone_headers(&self.headers),
            body: self.body.clone(),
        }
    }
}

impl HttpRequest {
    /// A request made of whatever the method, the URI and the body convert into.
    pub fn new(
        method: impl Into<String>,
        uri: impl Into<String>,
        headers: Vec<Header>,
        body: impl Into<Bytes>,
    ) -> (r: Self)
        ensures
            call_ensures(Into::into, (method,), r.method),
            call_ensures(Into::into, (uri,), r.uri),
            r.headers == headers,
            call_ensures(Into::into, (body,), r.body),
    {
        HttpRequest { method: method.into(), uri: uri.into(), headers, body: body.into() }
    }
}

/// A response that a plugin gave back to the host.
#[derive(Debug)]
pub struct HttpResponse {
    pub status: u16,
    pub headers: Vec<Header>,
    pub body: Bytes,
}

impl View for HttpResponse {
    type V = ResponseView;

    open spec fn view(&self) -> ResponseView {
        ResponseView {
            status: self.status,
            headers: header_views(self.headers@),
            body: bytes_held(self.body),
        }
    }
}

impl Clone for HttpResponse {
    fn clone(&self) -> (r: Self)
        ensures
            r@ == self@,
            r.status == self.status,
            r.headers@.len() == self.headers@.len(),
            forall|i: int|
                0 <= i < r.headers@.len() ==> (#[trigger] r.headers@[i]).name@
                    == self.headers@[i].name@ && r.headers@[i].value@ == self.headers@[i].value@,
            bytes_held(r.body) == bytes_held(self.body),
    {
        HttpResponse {
            status: self.status,
            headers: clone_headers(&self.headers),
            body: self.body.clone(),
        }
    }
}

/// A request is seen with its method, its URI, the bytes of its body, and all its headers, in order
/// and with their names and values.
pub proof fn law_request_is_seen_whole(request: HttpRequest, i: int)
    ensures
        request@.method == request.method@,
        request@.uri == request.uri@,
        request@.body == bytes_held(request.body),
        request@.headers.len() == request.headers@.len(),
        0 <= i < request.headers@.len() ==> {
            &&& request@.headers[i].name == request.headers@[i].name@
            &&& request@.headers[i].value == request.headers@[i].value@
        },
{
}

/// A response is seen with its status, the bytes of its body, and all its headers, in order and
/// with their names and values.
pub proof fn law_response_is_seen_whole(response: HttpResponse, i: int)
    ensures
        response@.status == response.status,
        response@.body == bytes_held(response.body),
        response@.headers.len() == response.headers@.len(),
        0 <= i < response.headers@.len() ==> {
            &&& response@.headers[i].name == response.headers@[i].name@
            &&& response@.headers[i].value == response.headers@[i].value@
        },
{
}

} // verus!
