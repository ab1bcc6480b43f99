//! Requests and responses as they cross the component boundary.
//!
//! These are the records of the plugin contract: the host lowers its requests into them, and
//! lifts its responses out of them.
use crate::model;
use crate::model::{bytes_slice, Header, HeaderView, RequestView, ResponseView};
use bytes::Bytes;
use vstd::prelude::*;
use vstd::slice::slice_to_vec;

verus! {

/// A header on the component boundary.
#[derive(Debug)]
pub struct HttpHeader {
    pub name: String,
    pub value: String,
}

impl View for HttpHeader {
    type V = HeaderView;

    open spec fn view(&self) -> HeaderView {
        HeaderView { name: self.name@, value: self.value@ }
    }
}

/// A list of headers as plain text, in order.
pub open spec fn http_header_views(headers: Seq<HttpHeader>) -> Seq<HeaderView> {
    Seq::new(headers.len(), |i: int| headers[i]@)
}

/// A request on the component boundary.
#[derive(Debug)]
pub struct HttpRequest {
    pub method: String,
    pub uri: String,
    pub headers: Vec<HttpHeader>,
    pub body: Vec<u8>,
}

impl View for HttpRequest {
    type V = RequestView;

    open spec fn view(&self) -> RequestView {
        RequestView {
            method: self.method@,
            uri: self.uri@,
            headers: http_header_views(self.headers@),
            body: self.body@,
        }
    }
}

/// A response on the component boundary.
#[derive(Debug)]
pub struct HttpResponse {
    pub status: u16,
    pub headers: Vec<HttpHeader>,
    pub body: Vec<u8>,
}

impl View for HttpResponse {
    type V = ResponseView;

    open spec fn view(&self) -> ResponseView {
        ResponseView {
            status: self.status,
            headers: http_header_views(self.headers@),
            body: self.body@,
        }
    }
}

impl From<Header> for HttpHeader {
    fn from(value: Header) -> (r: Self) {
        HttpHeader { name: value.name, value: value.value }
    }
}

impl vstd::std_specs::convert::FromSpecImpl<Header> for HttpHeader {
    open spec fn obeys_from_spec() -> bool {
        true
    }

    open spec fn from_spec(value: Header) -> Self {
        HttpHeader { name: value.name, value: value.value }
    }
}

impl From<HttpHeader> for Header {
    fn from(value: HttpHeader) -> (r: Self) {
        Header { name: value.name, value: value.value }
    }
}

impl vstd::std_specs::convert::FromSpecImpl<HttpHeader> for Header {
    open spec fn obeys_from_spec() -> bool {
        true
    }

    open spec fn from_spec(value: HttpHeader) -> Self {
        Header { name: value.name, value: value.value }
    }
}

/// Lowering a request keeps its method, its URI, its headers in order, and its body.
impl From<model::HttpRequest> for HttpRequest {
    fn from(value: model::HttpRequest) -> (r: Self)
        ensures
            r@ == value@,
            r.method@ == value.method@,
            r.uri@ == value.uri@,
            r.headers@.len() == value.headers@.len(),
            forall|i: int|
                0 <= i < r.headers@.len() ==> (#[trigger] r.headers@[i]).name@
                    == value.headers@[i].name@ && r.headers@[i].value@ == value.headers@[i].value@,
            r.body@ == model::bytes_held(value.body),
    {
        let mut headers: Vec<HttpHeader> = Vec::new();
        for header in it: value.headers
            invariant
                headers@.len() == it.index(),
                it.seq() == value.headers@,
                forall|j: int|
                    0 <= j < it.index() ==> (#[trigger] headers@[j]).name@
                        == value.headers@[j].name@ && headers@[j].value@
                        == value.headers@[j].value@,
        {
            headers.push(HttpHeader::from(header));
        }
        assert(http_header_views(headers@) =~= model::header_views(value.headers@));
        HttpRequest {
            method: value.method,
            uri: value.uri,
            headers,
            body: slice_to_vec(bytes_slice(&value.body)),
        }
    }
}

impl vstd::std_specs::convert::FromSpecImpl<model::HttpRequest> for HttpRequest {
    open spec fn obeys_from_spec() -> bool {
        false
    }

    open spec fn from_spec(value: model::HttpRequest) -> Self {
        arbitrary()
    }
}

/// Lifting a response keeps its status, its headers in order, and its body.
impl From<HttpResponse> for model::HttpResponse {
    fn from(value: HttpResponse) -> (r: Self)
        ensures
            r@ == value@,
            r.status == value.status,
            r.headers@.len() == value.headers@.len(),
            forall|i: int|
                0 <= i < r.headers@.len() ==> (#[trigger] r.headers@[i]).name@
                    == value.headers@[i].name@ && r.headers@[i].value@ == value.headers@[i].value@,
            model::bytes_held(r.body) == value.body@,
    {
        let mut headers: Vec<Header> = Vec::new();
        for header in it: value.headers
            invariant
                headers@.len() == it.index(),
                it.seq() == value.headers@,
                forall|j: int|
                    0 <= j < it.index() ==> (#[trigger] headers@[j]).name@
                        == value.headers@[j].name@ && headers@[j].value@
                        == value.headers@[j].value@,
        {
            headers.push(Header::from(header));
        }
        assert(model::header_views(headers@) =~= http_header_views(value.headers@));
        model::HttpResponse {
            status: value.status,
            headers,
            body: Bytes::from(value.body),
        }
    }
}

impl vstd::std_specs::convert::FromSpecImpl<HttpResponse> for model::HttpResponse {
    open spec fn obeys_from_spec() -> bool {
        false
    }

    open spec fn from_spec(value: HttpResponse) -> Self {
        arbitrary()
    }
}

/// A header that crosses the boundary and comes back is the header that left.
pub proof fn law_header_round_trip(header: Header, http_header: HttpHeader)
    ensures
        <Header as vstd::std_specs::convert::FromSpec<HttpHeader>>::from_spec(
            <HttpHeader as vstd::std_specs::convert::FromSpec<Header>>::from_spec(header),
        ) == header,
        <HttpHeader as vstd::std_specs::convert::FromSpec<Header>>::from_spec(
            <Header as vstd::std_specs::convert::FromSpec<HttpHeader>>::from_spec(http_header),
        ) == http_header,
{
}

/// A header that crosses the boundary keeps its name as its name, and its value as its value.
pub proof fn law_header_keeps_its_parts(header: Header, http_header: HttpHeader)
    ensures
        <HttpHeader as vstd::std_specs::convert::FromSpec<Header>>::from_spec(header).name
            == header.name,
        <HttpHeader as vstd::std_specs::convert::FromSpec<Header>>::from_spec(header).value
            == header.value,
        <Header as vstd::std_specs::convert::FromSpec<HttpHeader>>::from_spec(http_header).name
            == http_header.name,
        <Header as vstd::std_specs::convert::FromSpec<HttpHeader>>::from_spec(http_header).value
            == http_header.value,
{
}

/// A request on the boundary is seen with its method, its URI, its body, and all its headers, in
/// order and with their names and values.
pub proof fn law_http_request_is_seen_whole(request: HttpRequest, i: int)
    ensures
        request@.method == request.method@,
        request@.uri == request.uri@,
        request@.body == request.body@,
        request@.headers.len() == request.headers@.len(),
        0 <= i < request.headers@.len() ==> {
            &&& request@.headers[i].name == request.headers@[i].name@
            &&& request@.headers[i].value == request.headers@[i].value@
        },
{
}

/// A response on the boundary is seen with its status, its body, and all its headers, in order and
/// with their names and values.
pub proof fn law_http_response_is_seen_whole(response: HttpResponse, i: int)
    ensures
        response@.status == response.status,
        response@.body == response.body@,
        response@.headers.len() == response.headers@.len(),
        0 <= i < response.headers@.len() ==> {
            &&& response@.headers[i].name == response.headers@[i].name@
            &&& response@.headers[i].value == response.headers@[i].value@
        },
{
}

} // verus!
