//! The demonstration command line: which plugin it runs, what it sends, and what it prints.
use crate::model;
use crate::model::{bytes_slice, Header, HeaderView, HttpRequest, HttpResponse};
use crate::model::{RequestView, ResponseView};
use crate::text;
use bytes::Bytes;
use vstd::prelude::*;
use vstd::string::*;
use vstd::utf8::*;

verus! {

/// What is said when no plugin was named.
pub open spec fn usage_text() -> Seq<char> {
    "usage: cargo run -- <path-to-plugin.wasm>"@
}

/// The plugin that the command line names: its second word, the first being the program. If there
/// is none, what to say about it.
pub fn plugin_path<Word>(args: Vec<Word>) -> (r: Result<Word, String>)
    ensures
        match r {
            Ok(path) => args@.len() >= 2 && path == args@[1],
            Err(message) => args@.len() < 2 && message@ == usage_text(),
        },
        r is Err ==> r->Err_0@ == "usage: cargo run -- <path-to-plugin.wasm>"@,
{
    if args.len() >= 2 {
        let mut args = args;
        Ok(args.swap_remove(1))
    } else {
        Err("usage: cargo run -- <path-to-plugin.wasm>".to_owned())
    }
}

/// What is said when the plugin at `path` cannot be read.
pub fn read_failure(path: &str) -> (s: String)
    ensures
        s@ == "failed to read component "@ + path@,
{
    let mut s = "failed to read component ".to_owned();
    s.append(path);
    s
}

/// The request that the demonstration sends.
pub open spec fn sample_request_view() -> RequestView {
    RequestView {
        method: "GET"@,
        uri: "/edge/health"@,
        headers: seq![
            HeaderView { name: "host"@, value: "example.internal"@ },
            HeaderView { name: "x-request-id"@, value: "req-0001"@ },
        ],
        body: encode_utf8("{\"ping\":\"pong\"}"@),
    }
}

/// The request that the demonstration sends.
pub fn sample_request() -> (r: HttpRequest)
    ensures
        r@ == sample_request_view(),
{
    let headers = vec![
        Header { name: "host".to_owned(), value: "example.internal".to_owned() },
        Header { name: "x-request-id".to_owned(), value: "req-0001".to_owned() },
    ];
    assert(model::header_views(headers@) =~= sample_request_view().headers);
    HttpRequest::new(
        "GET",
        "/edge/health",
        headers,
        Bytes::from_static("{\"ping\":\"pong\"}".as_bytes()),
    )
}

/// The lines for a list of headers, one for each.
pub open spec fn header_lines(headers: Seq<HeaderView>) -> Seq<char>
    decreases headers.len(),
{
    if headers.len() == 0 {
        Seq::empty()
    } else {
        header_lines(headers.drop_last()) + "  "@ + headers.last().name + ": "@
            + headers.last().value + "\n"@
    }
}

/// What is printed of a response.
pub open spec fn response_text_spec(response: ResponseView) -> Seq<char> {
    "status: "@ + text::decimal(response.status as nat) + "\nheaders:\n"@ + header_lines(
        response.headers,
    ) + "body:\n"@ + text::lossy_text(response.body) + "\n"@
}

/// What is printed of a response: its status, its headers, and its body as text.
pub fn response_text(response: &HttpResponse) -> (s: String)
    ensures
        s@ == response_text_spec(response@),
{
    let mut s = "status: ".to_owned();
    text::append_decimal(&mut s, response.status as u64);
    s.append("\nheaders:\n");
    let ghost start = s@;
    let ghost views = response@.headers;
    for i in 0..response.headers.len()
        invariant
            views == model::header_views(response.headers@),
            s@ == start + header_lines(views.take(i as int)),
    {
        let ghost before = s@;
        s.append("  ");
        s.append(response.headers[i].name.as_str());
        s.append(": ");
        s.append(response.headers[i].value.as_str());
        s.append("\n");
        proof {
            assert(views.take(i + 1).drop_last() =~= views.take(i as int));
            assert(views.take(i + 1).last() == views[i as int]);
            assert(s@ =~= start + header_lines(views.take(i + 1)));
        }
    }
    assert(views.take(views.len() as int) =~= views);
    s.append("body:\n");
    s.append(text::bytes_to_text(bytes_slice(&response.body)).as_str());
    s.append("\n");
    s
}

/// What is printed of the body, whatever the status and the headers are: the text that its bytes are
/// shown as, after a line that says `body:`.
spec fn printed_body(body: Seq<u8>) -> Seq<char> {
    "body:\n"@ + text::lossy_text(body) + "\n"@
}

/// What is printed of a header: a line with its name and its value.
spec fn printed_header(header: HeaderView) -> Seq<char> {
    "  "@ + header.name + ": "@ + header.value + "\n"@
}

/// Every response is printed with its body last and whole, whatever its status is: the text ends
/// with `body:`, the text that the body is shown as, and a line break.
pub proof fn law_print_ends_with_the_body(response: ResponseView)
    ensures
        exists|start: Seq<char>|
            response_text_spec(response) == #[trigger] (start + ("body:\n"@ + text::lossy_text(
                response.body,
            ) + "\n"@)),
{
    let start = "status: "@ + text::decimal(response.status as nat) + "\nheaders:\n"@
        + header_lines(response.headers);
    assert(response_text_spec(response) =~= start + ("body:\n"@ + text::lossy_text(response.body)
        + "\n"@));
}

/// Every response is printed with its status first, whatever else it holds: the text begins with
/// `status: `, the numeral of the status, and a line that says `headers:`.
pub proof fn law_print_begins_with_the_status(response: ResponseView)
    ensures
        ("status: "@ + text::decimal(response.status as nat) + "\nheaders:\n"@).is_prefix_of(
            response_text_spec(response),
        ),
{
    let start = "status: "@ + text::decimal(response.status as nat) + "\nheaders:\n"@;
    let rest = header_lines(response.headers) + "body:\n"@ + text::lossy_text(response.body)
        + "\n"@;
    assert(response_text_spec(response) =~= start + rest);
    assert(start =~= (start + rest).subrange(0, start.len() as int));
}

/// Between the status and the body, each header adds one line with its name and its value, after
/// those of the headers before it, and nothing else stands there.
pub proof fn law_print_shows_each_header(response: ResponseView, header: HeaderView)
    ensures
        response.headers.len() == 0 ==> response_text_spec(response) == "status: "@ + text::decimal(
            response.status as nat,
        ) + "\nheaders:\n"@ + ("body:\n"@ + text::lossy_text(response.body) + "\n"@),
        ({
            let end = "body:\n"@ + text::lossy_text(response.body) + "\n"@;
            let line = "  "@ + header.name + ": "@ + header.value + "\n"@;
            let longer = ResponseView { headers: response.headers.push(header), ..response };
            exists|start: Seq<char>|
                response_text_spec(response) == #[trigger] (start + end) && response_text_spec(
                    longer,
                ) == start + line + end
        }),
{
    let end = "body:\n"@ + text::lossy_text(response.body) + "\n"@;
    let line = "  "@ + header.name + ": "@ + header.value + "\n"@;
    let longer = ResponseView { headers: response.headers.push(header), ..response };
    let first = "status: "@ + text::decimal(response.status as nat) + "\nheaders:\n"@;
    let start = first + header_lines(response.headers);
    assert(longer.headers.drop_last() =~= response.headers);
    assert(header_lines(longer.headers) =~= header_lines(response.headers) + line);
    assert(response_text_spec(response) =~= start + end);
    assert(response_text_spec(longer) =~= start + line + end);
    if response.headers.len() == 0 {
        assert(start =~= first);
    }
}

/// Responses that are printed alike have the same status.
pub proof fn law_print_tells_the_status(a: ResponseView, b: ResponseView)
    requires
        response_text_spec(a) == response_text_spec(b),
    ensures
        a.status == b.status,
{
    let (first, second) = ("status: "@, "\nheaders:\n"@);
    reveal_strlit("\nheaders:\n");
    let rest_a = header_lines(a.headers) + printed_body(a.body);
    let rest_b = header_lines(b.headers) + printed_body(b.body);
    let (n_a, n_b) = (text::decimal(a.status as nat), text::decimal(b.status as nat));
    assert(response_text_spec(a) =~= first + (n_a + (second + rest_a)));
    assert(response_text_spec(b) =~= first + (n_b + (second + rest_b)));
    text::lemma_drop_beginning(first, n_a + (second + rest_a), n_b + (second + rest_b));
    text::lemma_decimal_free_of(a.status as nat, '\n');
    text::lemma_decimal_free_of(b.status as nat, '\n');
    text::lemma_cut_at_separator(n_a, n_b, second, rest_a, rest_b);
    text::law_decimal_injective(a.status as nat, b.status as nat);
}

/// Whether no header holds a line break.
spec fn headers_in_one_line(headers: Seq<HeaderView>) -> bool {
    forall|i: int|
        0 <= i < headers.len() ==> text::free_of(#[trigger] headers[i].name, '\n') && text::free_of(
            headers[i].value,
            '\n',
        )
}

/// The line of the first header comes first.
proof fn lemma_first_header_line(headers: Seq<HeaderView>)
    requires
        headers.len() > 0,
    ensures
        header_lines(headers) == printed_header(headers[0]) + header_lines(headers.skip(1)),
    decreases headers.len(),
{
    let rest = headers.skip(1);
    if headers.len() == 1 {
        assert(headers.drop_last() =~= Seq::<HeaderView>::empty());
        assert(rest =~= Seq::<HeaderView>::empty());
        assert(header_lines(headers) =~= printed_header(headers[0]) + header_lines(rest));
    } else {
        lemma_first_header_line(headers.drop_last());
        assert(headers.drop_last().skip(1) =~= rest.drop_last());
        assert(rest.last() == headers.last());
        assert(header_lines(headers) =~= printed_header(headers[0]) + header_lines(rest));
    }
}

/// A header line is told from what follows it, where no header holds a line break.
proof fn lemma_header_line_ends(
    a: HeaderView,
    b: HeaderView,
    after_a: Seq<char>,
    after_b: Seq<char>,
)
    requires
        text::free_of(a.name, '\n') && text::free_of(a.value, '\n'),
        text::free_of(b.name, '\n') && text::free_of(b.value, '\n'),
        printed_header(a) + after_a == printed_header(b) + after_b,
    ensures
        printed_header(a) == printed_header(b),
        after_a == after_b,
{
    reveal_strlit("  ");
    reveal_strlit(": ");
    reveal_strlit("\n");
    let line_a = "  "@ + a.name + ": "@ + a.value;
    let line_b = "  "@ + b.name + ": "@ + b.value;
    assert(printed_header(a) + after_a =~= line_a + ("\n"@ + after_a));
    assert(printed_header(b) + after_b =~= line_b + ("\n"@ + after_b));
    lemma_line_is_one(a);
    lemma_line_is_one(b);
    text::lemma_cut_at_separator(line_a, line_b, "\n"@, after_a, after_b);
}

/// The line of a header without line breaks has none before its end.
proof fn lemma_line_is_one(header: HeaderView)
    requires
        text::free_of(header.name, '\n') && text::free_of(header.value, '\n'),
    ensures
        text::free_of("  "@ + header.name + ": "@ + header.value, '\n'),
{
    reveal_strlit("  ");
    reveal_strlit(": ");
    let line = "  "@ + header.name + ": "@ + header.value;
    let n = header.name.len();
    assert forall|i: int| 0 <= i < line.len() implies #[trigger] line[i] != '\n' by {
        if i < 2 {
            assert(line[i] == "  "@[i]);
        } else if i < 2 + n {
            assert(line[i] == header.name[i - 2]);
        } else if i < 4 + n {
            assert(line[i] == ": "@[i - 2 - n]);
        } else {
            assert(line[i] == header.value[i - 4 - n]);
        }
    }
}

/// Header lines are told from the body that follows them, where no header holds a line break.
proof fn lemma_header_lines_end(
    a: Seq<HeaderView>,
    b: Seq<HeaderView>,
    a_body: Seq<u8>,
    b_body: Seq<u8>,
)
    requires
        headers_in_one_line(a),
        headers_in_one_line(b),
        header_lines(a) + printed_body(a_body) == header_lines(b) + printed_body(b_body),
    ensures
        a.len() == b.len(),
        forall|i: int|
            0 <= i < a.len() ==> printed_header(#[trigger] a[i]) == printed_header(b[i]),
        printed_body(a_body) == printed_body(b_body),
    decreases a.len(),
{
    reveal_strlit("  ");
    reveal_strlit("body:\n");
    let whole_a = header_lines(a) + printed_body(a_body);
    let whole_b = header_lines(b) + printed_body(b_body);
    assert(printed_body(a_body)[0] == 'b');
    assert(printed_body(b_body)[0] == 'b');
    if a.len() == 0 {
        assert(whole_a =~= printed_body(a_body));
    } else {
        lemma_first_header_line(a);
        assert(printed_header(a[0])[0] == ' ');
        assert(whole_a[0] == ' ');
    }
    if b.len() == 0 {
        assert(whole_b =~= printed_body(b_body));
    } else {
        lemma_first_header_line(b);
        assert(printed_header(b[0])[0] == ' ');
        assert(whole_b[0] == ' ');
    }
    if a.len() > 0 && b.len() > 0 {
        let rest_a = header_lines(a.skip(1)) + printed_body(a_body);
        let rest_b = header_lines(b.skip(1)) + printed_body(b_body);
        assert(whole_a =~= printed_header(a[0]) + rest_a);
        assert(whole_b =~= printed_header(b[0]) + rest_b);
        assert(text::free_of(a[0].name, '\n') && text::free_of(b[0].name, '\n'));
        lemma_header_line_ends(a[0], b[0], rest_a, rest_b);
        assert(headers_in_one_line(a.skip(1))) by {
            assert forall|i: int| 0 <= i < a.skip(1).len() implies text::free_of(
                #[trigger] a.skip(1)[i].name,
                '\n',
            ) && text::free_of(a.skip(1)[i].value, '\n') by {
                assert(text::free_of(a[i + 1].name, '\n'));
            }
        }
        assert(headers_in_one_line(b.skip(1))) by {
            assert forall|i: int| 0 <= i < b.skip(1).len() implies text::free_of(
                #[trigger] b.skip(1)[i].name,
                '\n',
            ) && text::free_of(b.skip(1)[i].value, '\n') by {
                assert(text::free_of(b[i + 1].name, '\n'));
            }
        }
        lemma_header_lines_end(a.skip(1), b.skip(1), a_body, b_body);
        assert forall|i: int| 0 <= i < a.len() implies printed_header(#[trigger] a[i])
            == printed_header(b[i]) by {
            if i > 0 {
                assert(a.skip(1)[i - 1] == a[i]);
                assert(b.skip(1)[i - 1] == b[i]);
            }
        }
    }
}

/// Responses that are printed alike have bodies that are shown as the same text, and as many
/// headers, each with the same line, as long as no line break stands in a header.
pub proof fn law_print_tells_headers_and_body(a: ResponseView, b: ResponseView)
    requires
        forall|i: int|
            0 <= i < a.headers.len() ==> text::free_of(#[trigger] a.headers[i].name, '\n')
                && text::free_of(a.headers[i].value, '\n'),
        forall|i: int|
            0 <= i < b.headers.len() ==> text::free_of(#[trigger] b.headers[i].name, '\n')
                && text::free_of(b.headers[i].value, '\n'),
        response_text_spec(a) == response_text_spec(b),
    ensures
        text::lossy_text(a.body) == text::lossy_text(b.body),
        a.headers.len() == b.headers.len(),
        forall|i: int|
            0 <= i < a.headers.len() ==> "  "@ + (#[trigger] a.headers[i]).name + ": "@
                + a.headers[i].value == "  "@ + b.headers[i].name + ": "@ + b.headers[i].value,
{
    law_print_tells_the_status(a, b);
    let first = "status: "@ + text::decimal(a.status as nat) + "\nheaders:\n"@;
    let rest_a = header_lines(a.headers) + printed_body(a.body);
    let rest_b = header_lines(b.headers) + printed_body(b.body);
    assert(response_text_spec(a) =~= first + rest_a);
    assert(response_text_spec(b) =~= first + rest_b);
    text::lemma_drop_beginning(first, rest_a, rest_b);
    lemma_header_lines_end(a.headers, b.headers, a.body, b.body);
    lemma_shown_body(a.body, b.body);
    assert forall|i: int| 0 <= i < a.headers.len() implies "  "@ + (#[trigger] a.headers[i]).name
        + ": "@ + a.headers[i].value == "  "@ + b.headers[i].name + ": "@ + b.headers[i].value by {
        let (h, k) = (a.headers[i], b.headers[i]);
        assert(printed_header(h) == printed_header(k));
        reveal_strlit("\n");
        assert(printed_header(h).drop_last() =~= "  "@ + h.name + ": "@ + h.value);
        assert(printed_header(k).drop_last() =~= "  "@ + k.name + ": "@ + k.value);
    }
}

/// Bodies that are printed alike are shown as the same text.
proof fn lemma_shown_body(a: Seq<u8>, b: Seq<u8>)
    requires
        printed_body(a) == printed_body(b),
    ensures
        text::lossy_text(a) == text::lossy_text(b),
{
    reveal_strlit("body:\n");
    reveal_strlit("\n");
    let (x, y) = (text::lossy_text(a), text::lossy_text(b));
    assert(x =~= printed_body(a).subrange(6, printed_body(a).len() - 1));
    assert(y =~= printed_body(b).subrange(6, printed_body(b).len() - 1));
}

} // verus!
