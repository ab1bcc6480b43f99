//! A plugin that answers with what it saw of the request, as JSON.
use crate::host_log;
use crate::host_log::{LogLevel, LogRecordView, LogSink};
use crate::http_types::{HttpHeader, HttpRequest, HttpResponse};
use crate::json;
use crate::model::{HeaderView, RequestView, ResponseView};
use crate::text;
use vstd::prelude::*;
use vstd::string::*;
use vstd::utf8::*;

verus! {

/// The body of the response to a request: a JSON object with the method and the URI as strings,
/// and with two counts as numbers.
pub open spec fn echo_text(request: RequestView) -> Seq<char> {
    "{\"method\":\""@ + json::json_escaped(request.method) + "\",\"uri\":\""@ + json::json_escaped(
        request.uri,
    ) + "\",\"body_len\":"@ + text::decimal(request.body.len()) + ",\"header_count\":"@
        + text::decimal(request.headers.len()) + "}"@
}

/// The headers that the plugin puts before those of the request.
pub open spec fn echo_own_headers() -> Seq<HeaderView> {
    seq![
        HeaderView { name: "content-type"@, value: "application/json"@ },
        HeaderView { name: "x-runtime"@, value: "nexus-runtime"@ },
    ]
}

/// The response to a request.
pub open spec fn echo(request: RequestView) -> ResponseView {
    ResponseView {
        status: 200,
        headers: echo_own_headers() + request.headers,
        body: encode_utf8(echo_text(request)),
    }
}

/// The log lines for a request.
pub open spec fn echo_log(request: RequestView) -> Seq<LogRecordView> {
    seq![
        LogRecordView {
            level: LogLevel::Info,
            message: request.method + " "@ + request.uri,
        },
    ]
}

/// The echo plugin.
pub struct HttpEcho;

impl HttpEcho {
    /// Answers with the method, the URI and two counts as JSON, and with the headers of the
    /// request after the plugin's own.
    pub fn handle_request<Log: LogSink>(request: HttpRequest, log: Log) -> (r: (HttpResponse, Log))
        ensures
            r.0@ == echo(request@),
            host_log::written(log, echo_log(request@), r.1),
    {
        let mut line = request.method.clone();
        line.append(" ");
        line.append(request.uri.as_str());
        let line = line.as_str();
        let after = log.write(LogLevel::Info, line);
        proof {
            host_log::lemma_one_line_is_written(log, LogLevel::Info, line, after);
        }

        let mut body = "{\"method\":\"".to_owned();
        json::append_json_escaped(&mut body, request.method.as_str());
        body.append("\",\"uri\":\"");
        json::append_json_escaped(&mut body, request.uri.as_str());
        body.append("\",\"body_len\":");
        text::append_decimal(&mut body, request.body.len() as u64);
        body.append(",\"header_count\":");
        text::append_decimal(&mut body, request.headers.len() as u64);
        body.append("}");

        let mut headers = vec![
            HttpHeader { name: "content-type".to_owned(), value: "application/json".to_owned() },
            HttpHeader { name: "x-runtime".to_owned(), value: "nexus-runtime".to_owned() },
        ];
        let ghost own = headers@;
        let mut rest = request.headers;
        headers.append(&mut rest);
        proof {
            assert(crate::http_types::http_header_views(own) =~= echo_own_headers());
            assert(crate::http_types::http_header_views(headers@) =~= echo(request@).headers);
        }
        (HttpResponse { status: 200, headers, body: body.as_str().as_bytes_vec() }, after)
    }
}

/// The headers of a request all come back, in order, after the plugin's own two.
pub proof fn law_echo_returns_headers(request: RequestView, i: int)
    requires
        0 <= i < request.headers.len(),
    ensures
        echo(request).headers.len() == request.headers.len() + 2,
        echo(request).headers[i + 2] == request.headers[i],
{
}

/// No byte of the body of a request shows in the response: only how many there were.
pub proof fn law_echo_hides_body(a: RequestView, b: RequestView)
    requires
        a.method == b.method,
        a.uri == b.uri,
        a.headers == b.headers,
        a.body.len() == b.body.len(),
    ensures
        echo(a) == echo(b),
{
}

/// The body of the response is a JSON object of four members. The first two are string literals
/// that denote the method and the URI of the request, whatever characters stand in them.
pub proof fn law_echo_is_json(request: RequestView)
    ensures
        exists|method: Seq<char>, uri: Seq<char>|
            {
                &&& #[trigger] json::json_denoted(method) == Some(request.method)
                &&& #[trigger] json::json_denoted(uri) == Some(request.uri)
                &&& echo_text(request) == "{\"method\":\""@ + method + "\",\"uri\":\""@ + uri
                    + "\",\"body_len\":"@ + text::decimal(request.body.len())
                    + ",\"header_count\":"@ + text::decimal(request.headers.len()) + "}"@
            },
{
    json::law_escaped_text_denotes_itself(request.method);
    json::law_escaped_text_denotes_itself(request.uri);
}

/// The texts that are set into the body of the response.
pub open spec fn echo_fields(request: RequestView) -> (
    Seq<char>,
    Seq<char>,
    Seq<char>,
    Seq<char>,
) {
    (
        json::json_escaped(request.method),
        json::json_escaped(request.uri),
        text::decimal(request.body.len()),
        text::decimal(request.headers.len()),
    )
}

/// Two escaped texts and two numerals set into a template can be told from the whole.
proof fn lemma_fields_of_echo(
    s0: Seq<char>,
    s1: Seq<char>,
    s2: Seq<char>,
    s3: Seq<char>,
    s4: Seq<char>,
    a: RequestView,
    b: RequestView,
)
    requires
        s1.len() > 0 && s1[0] == '"',
        s2.len() > 0 && s2[0] == '"',
        s3.len() > 0 && s3[0] == ',',
        s4.len() > 0 && s4[0] == '}',
        text::template(s0, s1, s2, s3, s4, echo_fields(a)) == text::template(
            s0,
            s1,
            s2,
            s3,
            s4,
            echo_fields(b),
        ),
    ensures
        a.method == b.method,
        a.uri == b.uri,
        a.body.len() == b.body.len(),
        a.headers.len() == b.headers.len(),
{
    let (fa, fb) = (echo_fields(a), echo_fields(b));
    let none = Seq::<char>::empty();
    let (a3, b3) = (fa.3 + (s4 + none), fb.3 + (s4 + none));
    let (a2, b2) = (fa.2 + (s3 + a3), fb.2 + (s3 + b3));
    let (a1, b1) = (fa.1 + (s2 + a2), fb.1 + (s2 + b2));
    let (a0, b0) = (fa.0 + (s1 + a1), fb.0 + (s1 + b1));
    text::lemma_drop_beginning(s0, a0, b0);
    json::lemma_escaped_text_ends(a.method, b.method, s1 + a1, s1 + b1);
    text::lemma_drop_beginning(s1, a1, b1);
    json::lemma_escaped_text_ends(a.uri, b.uri, s2 + a2, s2 + b2);
    text::lemma_drop_beginning(s2, a2, b2);
    text::lemma_decimal_free_of(a.body.len(), ',');
    text::lemma_decimal_free_of(b.body.len(), ',');
    text::lemma_cut_at_separator(fa.2, fb.2, s3, a3, b3);
    text::lemma_decimal_free_of(a.headers.len(), '}');
    text::lemma_decimal_free_of(b.headers.len(), '}');
    text::lemma_cut_at_separator(fa.3, fb.3, s4, none, none);
    text::law_decimal_injective(a.body.len(), b.body.len());
    text::law_decimal_injective(a.headers.len(), b.headers.len());
}

/// The body of the response tells the method, the URI and the two counts apart from any others.
pub proof fn law_echo_tells_metadata(a: RequestView, b: RequestView)
    requires
        echo(a).body == echo(b).body,
    ensures
        a.method == b.method,
        a.uri == b.uri,
        a.body.len() == b.body.len(),
        a.headers.len() == b.headers.len(),
{
    text::lemma_encoding_injective(echo_text(a), echo_text(b));
    reveal_strlit("\",\"uri\":\"");
    reveal_strlit("\",\"body_len\":");
    reveal_strlit(",\"header_count\":");
    reveal_strlit("}");
    let (s0, s1, s2, s3, s4) = (
        "{\"method\":\""@,
        "\",\"uri\":\""@,
        "\",\"body_len\":"@,
        ",\"header_count\":"@,
        "}"@,
    );
    text::lemma_template_grouping(s0, s1, s2, s3, s4, echo_fields(a));
    text::lemma_template_grouping(s0, s1, s2, s3, s4, echo_fields(b));
    lemma_fields_of_echo(s0, s1, s2, s3, s4, a, b);
}

/// The body of the response, shown as text, is the JSON text.
pub proof fn law_echo_is_readable(request: RequestView)
    ensures
        text::lossy_text(echo(request).body) == echo_text(request),
{
    text::law_text_survives_encoding(echo_text(request));
}

/// Every request is answered with status 200, whatever it holds, and the plugin's own two headers
/// come first.
pub proof fn law_echo_always_succeeds(request: RequestView)
    ensures
        echo(request).status == 200,
        echo(request).headers.len() == request.headers.len() + 2,
        echo(request).headers[0].name == "content-type"@,
        echo(request).headers[0].value == "application/json"@,
        echo(request).headers[1].name == "x-runtime"@,
        echo(request).headers[1].value == "nexus-runtime"@,
{
}

/// The body of the response, shown as text, is a JSON object with the method, the URI, the number of
/// body bytes and the number of headers, in this order.
pub proof fn law_echo_body_has_four_members(request: RequestView)
    ensures
        text::lossy_text(echo(request).body) == "{\"method\":\""@ + json::json_escaped(
            request.method,
        ) + "\",\"uri\":\""@ + json::json_escaped(request.uri) + "\",\"body_len\":"@
            + text::decimal(request.body.len()) + ",\"header_count\":"@ + text::decimal(
            request.headers.len(),
        ) + "}"@,
{
    law_echo_is_readable(request);
}

/// Every request is logged in one line, at the information level, with its method and its URI as
/// they came.
pub proof fn law_echo_is_logged(request: RequestView)
    ensures
        echo_log(request).len() == 1,
        echo_log(request)[0].level is Info,
        echo_log(request)[0].message == request.method + " "@ + request.uri,
{
}

} // verus!
