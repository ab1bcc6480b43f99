use nexus_runtime::cli::{plugin_path, read_failure, response_text, sample_request};
use nexus_runtime::host_log::{HostLog, LogLevel, LogSink};
use nexus_runtime::http_types::{HttpHeader, HttpRequest, HttpResponse};
use nexus_runtime::model;
use nexus_runtime::plugins::hello_world::HelloWorld;
use nexus_runtime::plugins::http_echo::HttpEcho;
use nexus_runtime::plugins::telegram_bot::{
    reply_for_update, BotReply, Command, TelegramBot, TelegramChat, TelegramMessage,
    TelegramUpdate, TelegramUser,
};

const NOTE: &str = "This plugin is a webhook processor. It does not call Telegram API directly.";

fn request(method: &str, uri: &str, headers: Vec<(&str, &str)>, body: &[u8]) -> HttpRequest {
    HttpRequest {
        method: method.to_string(),
        uri: uri.to_string(),
        headers: headers
            .into_iter()
            .map(|(n, v)| HttpHeader { name: n.to_string(), value: v.to_string() })
            .collect(),
        body: body.to_vec(),
    }
}

fn pairs(response: &HttpResponse) -> Vec<(String, String)> {
    response.headers.iter().map(|h| (h.name.clone(), h.value.clone())).collect()
}

fn pair(name: &str, value: &str) -> (String, String) {
    (name.to_string(), value.to_string())
}

fn lines(log: HostLog) -> Vec<(LogLevel, String)> {
    log.into_records().into_iter().map(|r| (r.level, r.message)).collect()
}

fn message(text: Option<&str>, first: Option<&str>, user: Option<&str>) -> TelegramUpdate {
    TelegramUpdate {
        update_id: 900,
        message: Some(TelegramMessage {
            message_id: 31,
            text: text.map(|t| t.to_string()),
            chat: TelegramChat { id: -77, chat_type: Some("private".to_string()) },
            from: Some(TelegramUser {
                first_name: first.map(|t| t.to_string()),
                username: user.map(|t| t.to_string()),
            }),
        }),
    }
}

fn reply(update: TelegramUpdate) -> (BotReply, Vec<(LogLevel, String)>) {
    let (reply, log) = reply_for_update(update, HostLog::new());
    (reply, lines(log))
}

#[test]
fn echo_answers_the_sample_request_as_documented() {
    let (response, log) = HttpEcho::handle_request(HttpRequest::from(sample_request()), HostLog::new());
    let printed = response_text(&model::HttpResponse::from(response));
    assert_eq!(
        printed,
        "status: 200\nheaders:\n  content-type: application/json\n  x-runtime: nexus-runtime\n  \
         host: example.internal\n  x-request-id: req-0001\nbody:\n{\"method\":\"GET\",\"uri\":\
         \"/edge/health\",\"body_len\":15,\"header_count\":2}\n"
    );
    assert_eq!(lines(log), vec![(LogLevel::Info, "GET /edge/health".to_string())]);
}

#[test]
fn echo_hides_the_body_and_escapes_text() {
    let (a, _) = HttpEcho::handle_request(request("A\"B", "/", vec![], b"secret"), HostLog::new());
    let (b, _) = HttpEcho::handle_request(request("A\"B", "/", vec![], b"public"), HostLog::new());
    assert_eq!(a.body, b.body);
    assert_eq!(
        String::from_utf8(a.body).unwrap(),
        "{\"method\":\"A\\\"B\",\"uri\":\"/\",\"body_len\":6,\"header_count\":0}"
    );
    assert_eq!(b.headers.len(), 2);
}

#[test]
fn echo_is_json_whatever_the_request_says() {
    let controls: String = (0u8..0x20).map(char::from).collect();
    for (method, uri) in [
        ("GET", "/a\"b"),
        ("\\", "\\\""),
        ("G\nT", "/\r\t\u{8}\u{c}"),
        (controls.as_str(), "жук \u{7f}"),
        ("", ""),
    ] {
        let (response, log) =
            HttpEcho::handle_request(request(method, uri, vec![("a", "1")], b"xy"), HostLog::new());
        let value: serde_json::Value = serde_json::from_slice(&response.body).unwrap();
        assert_eq!(value["method"], method);
        assert_eq!(value["uri"], uri);
        assert_eq!(value["body_len"], 2);
        assert_eq!(value["header_count"], 1);
        assert_eq!(lines(log), vec![(LogLevel::Info, format!("{} {}", method, uri))]);
    }
    let (response, _) = HttpEcho::handle_request(request("GET", "/a\"b", vec![], b""), HostLog::new());
    assert_eq!(
        String::from_utf8(response.body).unwrap(),
        "{\"method\":\"GET\",\"uri\":\"/a\\\"b\",\"body_len\":0,\"header_count\":0}"
    );
}

/// A sink that hands a line on as it is written.
struct Wire<'a>(&'a std::cell::RefCell<Vec<String>>);

impl LogSink for Wire<'_> {
    fn write(self, _level: LogLevel, message: &str) -> Self {
        self.0.borrow_mut().push(message.to_string());
        self
    }
}

#[test]
fn lines_go_out_as_they_are_written() {
    let sent = std::cell::RefCell::new(Vec::new());
    let (response, _) = TelegramBot::handle_request(
        request("POST", "/hook", vec![], b"{}"),
        |text| {
            assert_eq!(*sent.borrow(), vec!["telegram-bot plugin received webhook request"]);
            read_update(text)
        },
        |_| {
            assert_eq!(sent.borrow().len(), 2);
            None
        },
        Wire(&sent),
    );
    assert_eq!(response.status, 400);
    assert_eq!(
        *sent.borrow(),
        vec![
            "telegram-bot plugin received webhook request",
            "telegram-bot failed to parse incoming JSON body"
        ]
    );
}

#[test]
fn only_the_body_decides_on_the_reply() {
    let answer = |method: &str, uri: &str, headers: Vec<(&str, &str)>, body: &[u8]| {
        let (response, log) = TelegramBot::handle_request(
            request(method, uri, headers, body),
            read_update,
            |reply| Some(format!("{:?}", reply).into_bytes()),
            HostLog::new(),
        );
        (response.status, pairs(&response), response.body, lines(log))
    };
    let body = b"{\"update_id\":12}";
    let first = answer("POST", "/hook", vec![], body);
    assert_eq!(first, answer("GET", "/", vec![("a", "b")], body));
    assert_ne!(first, answer("POST", "/hook", vec![], b"{\"update_id\":13}"));
}

#[test]
fn echo_tells_metadata() {
    let (a, _) = HttpEcho::handle_request(request("GET", "/1", vec![], b""), HostLog::new());
    let (b, _) = HttpEcho::handle_request(request("GET", "/", vec![("1", "")], b""), HostLog::new());
    assert_ne!(a.body, b.body);
}

#[test]
fn hello_world_greets() {
    let (response, log) = HelloWorld::handle_request(
        request("POST", "/hi", vec![("a", "1"), ("b", "2"), ("c", "3")], b"0123456789"),
        HostLog::new(),
    );
    assert_eq!(response.status, 200);
    assert_eq!(
        pairs(&response),
        vec![pair("content-type", "text/plain; charset=utf-8"), pair("x-plugin", "hello-world")]
    );
    assert_eq!(
        String::from_utf8(response.body).unwrap(),
        "Hello from Nexus Runtime!\nmethod=POST\nuri=/hi\nheaders=3\nbody_len=10\n"
    );
    assert_eq!(
        lines(log),
        vec![(LogLevel::Info, "hello-world plugin received a request".to_string())]
    );
}

#[test]
fn greeting_tells_counts_only() {
    let (a, _) = HelloWorld::handle_request(request("GET", "/", vec![("a", "1")], b"xx"), HostLog::new());
    let (b, _) = HelloWorld::handle_request(request("GET", "/", vec![("z", "9")], b"yy"), HostLog::new());
    let (c, _) = HelloWorld::handle_request(request("GET", "/", vec![("z", "9")], b"y"), HostLog::new());
    assert_eq!(a.body, b.body);
    assert_ne!(a.body, c.body);
}

#[test]
fn start_greets_by_first_name() {
    let (r, log) = reply(message(Some("/start"), Some("Ada"), Some("ada_l")));
    assert!(r.ok);
    assert_eq!(r.update_id, Some(900));
    assert_eq!(r.chat_id, Some(-77));
    assert_eq!(r.command, "start");
    assert_eq!(
        r.reply_text,
        "Hi, Ada. I am a Telegram webhook plugin running inside Nexus Runtime."
    );
    assert_eq!(r.note, NOTE);
    assert_eq!(
        log,
        vec![(
            LogLevel::Info,
            "telegram-bot command=start chat_id=-77 message_id=31 chat_type=private".to_string()
        )]
    );
}

#[test]
fn start_falls_back_to_username_then_there() {
    let (by_user, _) = reply(message(Some("/startled"), None, Some("ada_l")));
    assert_eq!(
        by_user.reply_text,
        "Hi, ada_l. I am a Telegram webhook plugin running inside Nexus Runtime."
    );
    let (nobody, _) = reply(message(Some("/start"), None, None));
    assert_eq!(
        nobody.reply_text,
        "Hi, there. I am a Telegram webhook plugin running inside Nexus Runtime."
    );
    let mut update = message(Some("/start"), None, None);
    if let Some(m) = update.message.as_mut() {
        m.from = None;
        m.chat.chat_type = None;
    }
    let (unsigned, log) = reply(update);
    assert_eq!(unsigned.reply_text, nobody.reply_text);
    assert_eq!(
        log[0].1,
        "telegram-bot command=start chat_id=-77 message_id=31 chat_type=unknown"
    );
}

#[test]
fn help_lists_commands() {
    let (r, _) = reply(message(Some("/help me"), None, None));
    assert_eq!(r.command, "help");
    assert_eq!(r.reply_text, "Supported commands: /start, /help, /echo <text>");
}

#[test]
fn echo_command_gives_text_back() {
    for rest in ["hello", "", " two  spaces ", "/start", "жук"] {
        let text = format!("/echo {}", rest);
        let (r, _) = reply(message(Some(&text), None, None));
        assert_eq!(r.command, "echo");
        assert_eq!(r.reply_text, rest);
    }
}

#[test]
fn echo_command_needs_a_space() {
    let (r, _) = reply(message(Some("/echo"), None, None));
    assert_eq!(r.command, "fallback");
    assert_eq!(r.reply_text, "You said: /echo");
}

#[test]
fn missing_and_empty_text_are_the_same() {
    for text in [None, Some("")] {
        let (r, _) = reply(message(text, None, None));
        assert_eq!(r.command, "empty-text");
        assert_eq!(r.reply_text, "Message received, but text is empty.");
    }
}

#[test]
fn other_text_is_quoted() {
    let (r, _) = reply(message(Some("good morning"), None, None));
    assert_eq!(r.command, "fallback");
    assert_eq!(r.reply_text, "You said: good morning");
    assert_eq!(Command::of("good morning"), Command::Fallback);
    assert_eq!(Command::Fallback.label(), "fallback");
}

#[test]
fn update_without_message() {
    let (r, log) = reply(TelegramUpdate { update_id: 5, message: None });
    assert!(r.ok);
    assert_eq!(r.update_id, Some(5));
    assert_eq!(r.chat_id, None);
    assert_eq!(r.command, "empty");
    assert_eq!(r.reply_text, "update received, but there is no message payload");
    assert_eq!(r.note, NOTE);
    assert!(log.is_empty());
}

fn read_update(text: &str) -> Result<TelegramUpdate, String> {
    let value: serde_json::Value = serde_json::from_str(text).map_err(|e| e.to_string())?;
    match value.get("update_id").and_then(|id| id.as_i64()) {
        Some(update_id) => Ok(TelegramUpdate { update_id, message: None }),
        None => Err("missing field `update_id`".to_string()),
    }
}

#[test]
fn webhook_refuses_the_sample_body() {
    let (response, log) = TelegramBot::handle_request(
        HttpRequest::from(sample_request()),
        read_update,
        |reply| Some(reply.reply_text.clone().into_bytes()),
        HostLog::new(),
    );
    assert_eq!(response.status, 400);
    assert_eq!(
        pairs(&response),
        vec![
            pair("content-type", "application/json; charset=utf-8"),
            pair("x-plugin", "telegram-bot")
        ]
    );
    assert_eq!(
        String::from_utf8(response.body).unwrap(),
        "invalid telegram update payload: missing field `update_id`"
    );
    assert_eq!(
        lines(log),
        vec![
            (LogLevel::Info, "telegram-bot plugin received webhook request".to_string()),
            (LogLevel::Warn, "telegram-bot failed to parse incoming JSON body".to_string()),
        ]
    );
}

#[test]
fn webhook_answers_an_update() {
    let (response, log) = TelegramBot::handle_request(
        request("POST", "/hook", vec![], b"{\"update_id\":12}"),
        read_update,
        |reply| Some(format!("{} {:?}", reply.command, reply.update_id).into_bytes()),
        HostLog::new(),
    );
    assert_eq!(response.status, 200);
    assert_eq!(String::from_utf8(response.body).unwrap(), "empty Some(12)");
    assert_eq!(lines(log).len(), 1);
}

#[test]
fn webhook_replaces_malformed_utf8_before_reading() {
    let malformed = request("POST", "/hook", vec![], &[b'{', 0xc3, b'}']);
    let (text, log) = TelegramBot::receive(malformed, HostLog::new());
    assert_eq!(lines(log).len(), 1);
    assert_eq!(text, "{\u{fffd}}");
}

#[test]
fn webhook_answers_even_if_encoding_fails() {
    let (response, _) = TelegramBot::handle_request(
        request("POST", "/hook", vec![], b"{\"update_id\":12}"),
        read_update,
        |_| None,
        HostLog::new(),
    );
    assert_eq!(response.status, 200);
    assert_eq!(response.body, b"{\"ok\":false}".to_vec());
}

#[test]
fn refusal_says_not_ok() {
    let (answer, _) = TelegramBot::answer(Err("why".to_string()), HostLog::new());
    assert_eq!(answer.status, 400);
    assert!(!answer.payload.ok);
    assert_eq!(answer.payload.update_id, None);
    assert_eq!(answer.payload.chat_id, None);
    assert_eq!(answer.payload.command, "invalid");
    assert_eq!(answer.payload.reply_text, "invalid telegram update payload: why");
    assert_eq!(answer.payload.note, NOTE);
}

#[test]
fn command_line_names_a_plugin() {
    assert_eq!(plugin_path(vec!["prog", "a.wasm", "b"]), Ok("a.wasm"));
    let usage = Err("usage: cargo run -- <path-to-plugin.wasm>".to_string());
    assert_eq!(plugin_path(vec!["prog"]), usage);
    assert_eq!(plugin_path(Vec::<&str>::new()), usage);
    assert_eq!(read_failure("x/y.wasm"), "failed to read component x/y.wasm");
}

#[test]
fn sample_request_is_as_documented() {
    let request = sample_request();
    assert_eq!(request.method, "GET");
    assert_eq!(request.uri, "/edge/health");
    assert_eq!(request.headers.len(), 2);
    assert_eq!(request.headers[0].name, "host");
    assert_eq!(request.headers[0].value, "example.internal");
    assert_eq!(request.headers[1].name, "x-request-id");
    assert_eq!(request.headers[1].value, "req-0001");
    assert_eq!(&request.body[..], br#"{"ping":"pong"}"#);
}

#[test]
fn printing_replaces_malformed_bytes() {
    let response = model::HttpResponse {
        status: 7,
        headers: Vec::new(),
        body: bytes::Bytes::from(vec![b'x', 0x80]),
    };
    assert_eq!(response_text(&response), "status: 7\nheaders:\nbody:\nx\u{fffd}\n");
}
