//! A plugin that greets, and says what it saw of the request.
use crate::host_log;
use crate::host_log::{LogLevel, LogRecordView, LogSink};
use crate::http_types::{HttpHeader, HttpRequest, HttpResponse};
use crate::model::{HeaderView, RequestView, ResponseView};
use crate::text;
use vstd::prelude::*;
use vstd::string::*;
use vstd::utf8::*;

verus! {

/// The greeting for a request.
pub open spec fn greeting_text(request: RequestView) -> Seq<char> {
    "Hello from Nexus Runtime!\nmethod="@ + request.method + "\nuri="@ + request.uri
        + "\nheaders="@ + text::decimal(request.headers.len()) + "\nbody_len="@
        + text::decimal(request.body.len()) + "\n"@
}

/// The response to a request.
pub open spec fn greeting(request: RequestView) -> ResponseView {
    ResponseView {
        status: 200,
        headers: seq![
            HeaderView { name: "content-type"@, value: "text/plain; charset=utf-8"@ },
            HeaderView { name: "x-plugin"@, value: "hello-world"@ },
        ],
        body: encode_utf8(greeting_text(request)),
    }
}

/// The log lines for a request.
pub open spec fn greeting_log() -> Seq<LogRecordView> {
    seq![
        LogRecordView {
            level: LogLevel::Info,
            message: "hello-world plugin received a request"@,
        },
    ]
}

/// The greeting plugin.
pub struct HelloWorld;

impl HelloWorld {
    /// Greets, with the method, the URI, and how many headers and body bytes came.
    pub fn handle_request<Log: LogSink>(request: HttpRequest, log: Log) -> (r: (HttpResponse, Log))
        ensures
            r.0@ == greeting(request@),
            host_log::written(log, greeting_log(), r.1),
    {
        let line = "hello-world plugin received a request";
        let after = log.write(LogLevel::Info, line);
        proof {
            host_log::lemma_one_line_is_written(log, LogLevel::Info, line, after);
        }

        let mut body = "Hello from Nexus Runtime!\nmethod=".to_owned();
        body.append(request.method.as_str());
        body.append("\nuri=");
        body.append(request.uri.as_str());
        body.append("\nheaders=");
        text::append_decimal(&mut body, request.headers.len() as u64);
        body.append("\nbody_len=");
        text::append_decimal(&mut body, request.body.len() as u64);
        body.append("\n");

        let headers = vec![
            HttpHeader {
                name: "content-type".to_owned(),
                value: "text/plain; charset=utf-8".to_owned(),
            },
            HttpHeader { name: "x-plugin".to_owned(), value: "hello-world".to_owned() },
        ];
        assert(crate::http_types::http_header_views(headers@) =~= greeting(request@).headers);
        (HttpResponse { status: 200, headers, body: body.as_str().as_bytes_vec() }, after)
    }
}

/// The greeting tells only the method, the URI and two counts of a request: no header and no
/// byte of the body shows in it.
pub proof fn law_greeting_tells_counts_only(a: RequestView, b: RequestView)
    requires
        a.method == b.method,
        a.uri == b.uri,
        a.headers.len() == b.headers.len(),
        a.body.len() == b.body.len(),
    ensures
        greeting(a) == greeting(b),
{
}

/// The greeting tells the method, the URI and the two counts apart from any others, as long as
/// no line break stands in a method or a URI.
pub proof fn law_greeting_tells_metadata(a: RequestView, b: RequestView)
    requires
        text::free_of(a.method, '\n'),
        text::free_of(b.method, '\n'),
        text::free_of(a.uri, '\n'),
        text::free_of(b.uri, '\n'),
        greeting(a).body == greeting(b).body,
    ensures
        a.method == b.method,
        a.uri == b.uri,
        a.headers.len() == b.headers.len(),
        a.body.len() == b.body.len(),
{
    text::lemma_encoding_injective(greeting_text(a), greeting_text(b));
    reveal_strlit("\nuri=");
    reveal_strlit("\nheaders=");
    reveal_strlit("\nbody_len=");
    reveal_strlit("\n");
    text::lemma_decimal_free_of(a.headers.len(), '\n');
    text::lemma_decimal_free_of(b.headers.len(), '\n');
    text::lemma_decimal_free_of(a.body.len(), '\n');
    text::lemma_decimal_free_of(b.body.len(), '\n');
    let (s0, s1, s2, s3, s4) = (
        "Hello from Nexus Runtime!\nmethod="@,
        "\nuri="@,
        "\nheaders="@,
        "\nbody_len="@,
        "\n"@,
    );
    let (fa, fb) = (
        (a.method, a.uri, text::decimal(a.headers.len()), text::decimal(a.body.len())),
        (b.method, b.uri, text::decimal(b.headers.len()), text::decimal(b.body.len())),
    );
    text::lemma_template_grouping(s0, s1, s2, s3, s4, fa);
    text::lemma_template_grouping(s0, s1, s2, s3, s4, fb);
    text::lemma_fields_of_template(s0, s1, s2, s3, s4, fa, fb);
    text::law_decimal_injective(a.headers.len(), b.headers.len());
    text::law_decimal_injective(a.body.len(), b.body.len());
}

/// The body of the greeting, shown as text, is the greeting.
pub proof fn law_greeting_is_readable(request: RequestView)
    ensures
        text::lossy_text(greeting(request).body) == greeting_text(request),
{
    text::law_text_survives_encoding(greeting_text(request));
}

/// Every request is greeted with status 200 and the plugin's own two headers, whatever it holds.
pub proof fn law_greeting_always_succeeds(request: RequestView)
    ensures
        greeting(request).status == 200,
        greeting(request).headers.len() == 2,
        greeting(request).headers[0].name == "content-type"@,
        greeting(request).headers[0].value == "text/plain; charset=utf-8"@,
        greeting(request).headers[1].name == "x-plugin"@,
        greeting(request).headers[1].value == "hello-world"@,
{
}

/// The body of the greeting, shown as text, has one line each for the greeting itself, the method,
/// the URI, the number of headers and the number of body bytes, in this order.
pub proof fn law_greeting_has_five_lines(request: RequestView)
    ensures
        text::lossy_text(greeting(request).body) == "Hello from Nexus Runtime!\nmethod="@
            + request.method + "\nuri="@ + request.uri + "\nheaders="@ + text::decimal(
            request.headers.len(),
        ) + "\nbody_len="@ + text::decimal(request.body.len()) + "\n"@,
{
    law_greeting_is_readable(request);
}

/// Every request is logged in one line, at the information level, and nothing of it is told there.
pub proof fn law_greeting_is_logged()
    ensures
        greeting_log().len() == 1,
        greeting_log()[0].level is Info,
        greeting_log()[0].message == "hello-world plugin received a request"@,
{
}

} // verus!
