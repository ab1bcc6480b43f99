//! A webhook processor: it reads a Telegram update and answers with a plan for a reply.
//!
//! The JSON of the update and of the reply is read and written by the caller; everything that is
//! decided from it is decided here.
use crate::host_log;
use crate::host_log::{LogLevel, LogRecordView, LogSink};
use crate::http_types::{HttpHeader, HttpRequest, HttpResponse};
use crate::model::{HeaderView, RequestView, ResponseView};
use crate::text;
use vstd::prelude::*;
use vstd::string::*;
use vstd::utf8::*;

verus! {

/// An update that Telegram delivered.
#[derive(Debug)]
pub struct TelegramUpdate {
    pub update_id: i64,
    pub message: Option<TelegramMessage>,
}

/// The message of an update.
#[derive(Debug)]
pub struct TelegramMessage {
    pub message_id: i64,
    pub text: Option<String>,
    pub chat: TelegramChat,
    pub from: Option<TelegramUser>,
}

/// The chat that a message belongs to.
#[derive(Debug)]
pub struct TelegramChat {
    pub id: i64,
    pub chat_type: Option<String>,
}

/// The sender of a message.
#[derive(Debug)]
pub struct TelegramUser {
    pub first_name: Option<String>,
    pub username: Option<String>,
}

/// A plan for a reply, as plain text.
pub struct BotReplyView {
    pub ok: bool,
    pub update_id: Option<i64>,
    pub chat_id: Option<i64>,
    pub reply_text: Seq<char>,
    pub command: Seq<char>,
    pub note: Seq<char>,
}

/// A plan for a reply.
#[derive(Debug)]
pub struct BotReply {
    pub ok: bool,
    pub update_id: Option<i64>,
    pub chat_id: Option<i64>,
    pub reply_text: String,
    pub command: String,
    pub note: &'static str,
}

impl View for BotReply {
    type V = BotReplyView;

    open spec fn view(&self) -> BotReplyView {
        BotReplyView {
            ok: self.ok,
            update_id: self.update_id,
            chat_id: self.chat_id,
            reply_text: self.reply_text@,
            command: self.command@,
            note: self.note@,
        }
    }
}

/// What a text message asks the bot for.
#[derive(Clone, Copy, Debug, PartialEq, Eq, Structural)]
pub enum Command {
    Start,
    Help,
    Echo,
    EmptyText,
    Fallback,
}

impl Command {
    /// The command of a text. `/start` and `/help` need only begin the text; `/echo` must be
    /// followed by a space.
    pub open spec fn of_spec(text: Seq<char>) -> Command {
        if "/start"@.is_prefix_of(text) {
            Command::Start
        } else if "/help"@.is_prefix_of(text) {
            Command::Help
        } else if "/echo "@.is_prefix_of(text) {
            Command::Echo
        } else if text.len() == 0 {
            Command::EmptyText
        } else {
            Command::Fallback
        }
    }

    /// The name that a reply gives to the command.
    pub open spec fn label_spec(self) -> Seq<char> {
        match self {
            Command::Start => "start"@,
            Command::Help => "help"@,
            Command::Echo => "echo"@,
            Command::EmptyText => "empty-text"@,
            Command::Fallback => "fallback"@,
        }
    }

    /// What is said to `name`, who sent `text` with this command.
    pub open spec fn reply_spec(self, text: Seq<char>, name: Seq<char>) -> Seq<char> {
        match self {
            Command::Start => "Hi, "@ + name
                + ". I am a Telegram webhook plugin running inside Nexus Runtime."@,
            Command::Help => "Supported commands: /start, /help, /echo <text>"@,
            Command::Echo => text.skip("/echo "@.len() as int),
            Command::EmptyText => "Message received, but text is empty."@,
            Command::Fallback => "You said: "@ + text,
        }
    }

    /// The command of a text.
    pub fn of(text: &str) -> (c: Command)
        ensures
            c == Command::of_spec(text@),
    {
        if text::starts_with(text, "/start") {
            Command::Start
        } else if text::starts_with(text, "/help") {
            Command::Help
        } else if text::starts_with(text, "/echo ") {
            Command::Echo
        } else if text.is_empty() {
            Command::EmptyText
        } else {
            Command::Fallback
        }
    }

    /// The name that a reply gives to the command.
    pub fn label(self) -> (s: &'static str)
        ensures
            s@ == self.label_spec(),
    {
        match self {
            Command::Start => "start",
            Command::Help => "help",
            Command::Echo => "echo",
            Command::EmptyText => "empty-text",
            Command::Fallback => "fallback",
        }
    }

    /// What is said to `name`, who sent `text` with this command.
    fn reply(self, text: &str, name: &str) -> (s: String)
        requires
            self == Command::of_spec(text@),
        ensures
            s@ == self.reply_spec(text@, name@),
    {
        match self {
            Command::Start => {
                let mut s = "Hi, ".to_owned();
                s.append(name);
                s.append(". I am a Telegram webhook plugin running inside Nexus Runtime.");
                s
            },
            Command::Help => "Supported commands: /start, /help, /echo <text>".to_owned(),
            Command::Echo => {
                let prefix = "/echo ";
                text.substring_char(prefix.unicode_len(), text.unicode_len()).to_owned()
            },
            Command::EmptyText => "Message received, but text is empty.".to_owned(),
            Command::Fallback => {
                let mut s = "You said: ".to_owned();
                s.append(text);
                s
            },
        }
    }
}

/// The text of a message; a message without text counts as one with an empty text.
pub open spec fn text_of(message: TelegramMessage) -> Seq<char> {
    match message.text {
        Some(text) => text@,
        None => Seq::empty(),
    }
}

/// How the sender of a message is addressed: by first name, else by username, else as `there`.
pub open spec fn name_of(message: TelegramMessage) -> Seq<char> {
    match message.from {
        Some(user) => match user.first_name {
            Some(name) => name@,
            None => match user.username {
                Some(name) => name@,
                None => "there"@,
            },
        },
        None => "there"@,
    }
}

/// The kind of chat that a log line names.
pub open spec fn chat_type_of(chat: TelegramChat) -> Seq<char> {
    match chat.chat_type {
        Some(kind) => kind@,
        None => "unknown"@,
    }
}

/// What every reply says about the plugin itself.
pub open spec fn plugin_note() -> Seq<char> {
    "This plugin is a webhook processor. It does not call Telegram API directly."@
}

/// The reply to an update.
pub open spec fn update_reply(update: TelegramUpdate) -> BotReplyView {
    match update.message {
        None => BotReplyView {
            ok: true,
            update_id: Some(update.update_id),
            chat_id: None,
            reply_text: "update received, but there is no message payload"@,
            command: "empty"@,
            note: plugin_note(),
        },
        Some(message) => {
            let command = Command::of_spec(text_of(message));
            BotReplyView {
                ok: true,
                update_id: Some(update.update_id),
                chat_id: Some(message.chat.id),
                reply_text: command.reply_spec(text_of(message), name_of(message)),
                command: command.label_spec(),
                note: plugin_note(),
            }
        },
    }
}

/// The log line for a message that was answered.
pub open spec fn message_line(message: TelegramMessage) -> Seq<char> {
    "telegram-bot command="@ + Command::of_spec(text_of(message)).label_spec() + " chat_id="@
        + text::signed_decimal(message.chat.id as int) + " message_id="@
        + text::signed_decimal(message.message_id as int) + " chat_type="@
        + chat_type_of(message.chat)
}

/// The log lines for an update: one if it has a message, else none.
pub open spec fn update_log(update: TelegramUpdate) -> Seq<LogRecordView> {
    match update.message {
        None => Seq::empty(),
        Some(message) => seq![
            LogRecordView { level: LogLevel::Info, message: message_line(message) },
        ],
    }
}

/// Answers an update, and logs what it was taken for.
pub fn reply_for_update<Log: LogSink>(update: TelegramUpdate, log: Log) -> (r: (BotReply, Log))
    ensures
        r.0@ == update_reply(update),
        host_log::written(log, update_log(update), r.1),
{
    let note = "This plugin is a webhook processor. It does not call Telegram API directly.";
    match update.message {
        None => {
            let reply = BotReply {
                ok: true,
                update_id: Some(update.update_id),
                chat_id: None,
                reply_text: "update received, but there is no message payload".to_owned(),
                command: "empty".to_owned(),
                note,
            };
            (reply, log)
        },
        Some(message) => {
            let text = match message.text {
                Some(text) => text,
                None => String::new(),
            };
            let name = match message.from {
                Some(user) => match user.first_name {
                    Some(name) => name,
                    None => match user.username {
                        Some(name) => name,
                        None => "there".to_owned(),
                    },
                },
                None => "there".to_owned(),
            };
            let command = Command::of(text.as_str());
            let reply_text = command.reply(text.as_str(), name.as_str());

            let mut line = "telegram-bot command=".to_owned();
            line.append(command.label());
            line.append(" chat_id=");
            text::append_signed_decimal(&mut line, message.chat.id);
            line.append(" message_id=");
            text::append_signed_decimal(&mut line, message.message_id);
            line.append(" chat_type=");
            match message.chat.chat_type {
                Some(kind) => line.append(kind.as_str()),
                None => line.append("unknown"),
            }
            let line = line.as_str();
            let after = log.write(LogLevel::Info, line);
            proof {
                host_log::lemma_one_line_is_written(log, LogLevel::Info, line, after);
                assert(seq![LogRecordView { level: LogLevel::Info, message: line@ }] =~= update_log(
                    update,
                ));
            }

            let reply = BotReply {
                ok: true,
                update_id: Some(update.update_id),
                chat_id: Some(message.chat.id),
                reply_text,
                command: command.label().to_owned(),
                note,
            };
            (reply, after)
        },
    }
}

/// What a reading of the request body came to: an update, or why it is not one.
pub type Parsed = Result<TelegramUpdate, String>;

/// The status of the response: 200 for an update, 400 for anything else.
pub open spec fn status_of(parsed: Parsed) -> u16 {
    match parsed {
        Ok(_) => 200,
        Err(_) => 400,
    }
}

/// The reply to whatever the request body was read as.
pub open spec fn payload_of(parsed: Parsed) -> BotReplyView {
    match parsed {
        Ok(update) => update_reply(update),
        Err(error) => BotReplyView {
            ok: false,
            update_id: None,
            chat_id: None,
            reply_text: "invalid telegram update payload: "@ + error@,
            command: "invalid"@,
            note: plugin_note(),
        },
    }
}

/// The log lines for whatever the request body was read as.
pub open spec fn payload_log(parsed: Parsed) -> Seq<LogRecordView> {
    match parsed {
        Ok(update) => update_log(update),
        Err(_) => seq![
            LogRecordView {
                level: LogLevel::Warn,
                message: "telegram-bot failed to parse incoming JSON body"@,
            },
        ],
    }
}

/// The log line for a request that came in.
pub open spec fn arrival_log() -> Seq<LogRecordView> {
    seq![
        LogRecordView {
            level: LogLevel::Info,
            message: "telegram-bot plugin received webhook request"@,
        },
    ]
}

/// The headers of every response of the bot.
pub open spec fn bot_headers() -> Seq<HeaderView> {
    seq![
        HeaderView { name: "content-type"@, value: "application/json; charset=utf-8"@ },
        HeaderView { name: "x-plugin"@, value: "telegram-bot"@ },
    ]
}

/// The body of a response: the encoded reply, or a bare refusal if it could not be encoded.
pub open spec fn body_of(encoded: Option<Vec<u8>>) -> Seq<u8> {
    match encoded {
        Some(bytes) => bytes@,
        None => encode_utf8("{\"ok\":false}"@),
    }
}

/// The status of a response, and the reply that it carries.
#[derive(Debug)]
pub struct Answer {
    pub status: u16,
    pub payload: BotReply,
}

/// The Telegram webhook processor.
pub struct TelegramBot;

impl TelegramBot {
    /// Takes a request in: logs that it came, and gives the text of its body, which is to be read
    /// as an update.
    pub fn receive<Log: LogSink>(request: HttpRequest, log: Log) -> (r: (String, Log))
        ensures
            r.0@ == text::lossy_text(request@.body),
            host_log::written(log, arrival_log(), r.1),
    {
        let line = "telegram-bot plugin received webhook request";
        let after = log.write(LogLevel::Info, line);
        proof {
            host_log::lemma_one_line_is_written(log, LogLevel::Info, line, after);
        }
        (text::bytes_to_text(request.body.as_slice()), after)
    }

    /// Decides on the answer to what the body was read as.
    pub fn answer<Log: LogSink>(parsed: Parsed, log: Log) -> (r: (Answer, Log))
        ensures
            r.0.status == status_of(parsed),
            r.0.payload@ == payload_of(parsed),
            host_log::written(log, payload_log(parsed), r.1),
    {
        match parsed {
            Ok(update) => {
                let (payload, after) = reply_for_update(update, log);
                (Answer { status: 200, payload }, after)
            },
            Err(error) => {
                let line = "telegram-bot failed to parse incoming JSON body";
                let after = log.write(LogLevel::Warn, line);
                proof {
                    host_log::lemma_one_line_is_written(log, LogLevel::Warn, line, after);
                }
                let mut reply_text = "invalid telegram update payload: ".to_owned();
                reply_text.append(error.as_str());
                let payload = BotReply {
                    ok: false,
                    update_id: None,
                    chat_id: None,
                    reply_text,
                    command: "invalid".to_owned(),
                    note:
                        "This plugin is a webhook processor. It does not call Telegram API directly.",
                };
                (Answer { status: 400, payload }, after)
            },
        }
    }

    /// The response that carries the encoded reply.
    pub fn respond(status: u16, encoded: Option<Vec<u8>>) -> (response: HttpResponse)
        ensures
            response@ == (ResponseView { status, headers: bot_headers(), body: body_of(encoded) }),
            response.status == status,
            encoded matches Some(bytes) ==> response.body@ == bytes@,
            encoded is None ==> response.body@ == encode_utf8("{\"ok\":false}"@),
    {
        let body = match encoded {
            Some(bytes) => bytes,
            None => "{\"ok\":false}".as_bytes_vec(),
        };
        let headers = vec![
            HttpHeader {
                name: "content-type".to_owned(),
                value: "application/json; charset=utf-8".to_owned(),
            },
            HttpHeader { name: "x-plugin".to_owned(), value: "telegram-bot".to_owned() },
        ];
        assert(crate::http_types::http_header_views(headers@) =~= bot_headers());
        HttpResponse { status, headers, body }
    }

    /// Handles a request: `parse` reads an update from the text of the body, and `encode` writes
    /// the reply as bytes, if it can.
    pub fn handle_request<P, E, Log>(request: HttpRequest, parse: P, encode: E, log: Log) -> (r: (
        HttpResponse,
        Log,
    )) where
        P: Fn(&str) -> Parsed,
        E: Fn(&BotReply) -> Option<Vec<u8>>,
        Log: LogSink,

        requires
            forall|text: &str| call_requires(parse, (text,)),
            forall|reply: &BotReply| call_requires(encode, (reply,)),
        ensures
            exists|logged: Seq<LogRecordView>|
                {
                    &&& #[trigger] may_answer(request@.body, parse, encode, r.0@, logged)
                    &&& host_log::written(log, logged, r.1)
                },
    {
        let (body_text, arrived) = TelegramBot::receive(request, log);
        let parsed = parse(body_text.as_str());
        let (answer, after) = TelegramBot::answer(parsed, arrived);
        let encoded = encode(&answer.payload);
        let response = TelegramBot::respond(answer.status, encoded);
        let r = (response, after);
        proof {
            let logged = arrival_log() + payload_log(parsed);
            assert(may_answer(request@.body, parse, encode, r.0@, logged));
            host_log::law_lines_are_written_in_order(
                log,
                arrival_log(),
                arrived,
                payload_log(parsed),
                after,
            );
            assert(exists|logged: Seq<LogRecordView>|
                {
                    &&& #[trigger] may_answer(request@.body, parse, encode, r.0@, logged)
                    &&& host_log::written(log, logged, r.1)
                });
        }
        r
    }
}

/// Whether a request with this body may be answered with this response and these log lines, with
/// `parse` to read the text of the body and `encode` to write the reply.
pub open spec fn may_answer<P, E>(
    body: Seq<u8>,
    parse: P,
    encode: E,
    response: ResponseView,
    logged: Seq<LogRecordView>,
) -> bool where P: Fn(&str) -> Parsed, E: Fn(&BotReply) -> Option<Vec<u8>> {
    exists|text: &str, parsed: Parsed, reply: BotReply, encoded: Option<Vec<u8>>|
        {
            &&& text@ == text::lossy_text(body)
            &&& #[trigger] call_ensures(parse, (text,), parsed)
            &&& reply@ == payload_of(parsed)
            &&& #[trigger] call_ensures(encode, (&reply,), encoded)
            &&& response == (ResponseView {
                status: status_of(parsed),
                headers: bot_headers(),
                body: body_of(encoded),
            })
            &&& logged == arrival_log() + payload_log(parsed)
        }
}

/// Whether `parse` reads the same text alike whenever it reads it.
pub open spec fn reads_alike<P>(parse: P) -> bool where P: Fn(&str) -> Parsed {
    forall|a: &str, b: &str, x: Parsed, y: Parsed|
        a@ == b@ && #[trigger] call_ensures(parse, (a,), x) && #[trigger] call_ensures(
            parse,
            (b,),
            y,
        ) ==> status_of(x) == status_of(y) && payload_of(x) == payload_of(y) && payload_log(x)
            == payload_log(y)
}

/// Whether `encode` writes the same reply alike whenever it writes it.
pub open spec fn writes_alike<E>(encode: E) -> bool where E: Fn(&BotReply) -> Option<Vec<u8>> {
    forall|a: BotReply, b: BotReply, x: Option<Vec<u8>>, y: Option<Vec<u8>>|
        a@ == b@ && #[trigger] call_ensures(encode, (&a,), x) && #[trigger] call_ensures(
            encode,
            (&b,),
            y,
        ) ==> body_of(x) == body_of(y)
}

/// Only the body of a request decides on the answer: whatever one request may be answered, another
/// with the same body may be answered, whatever their methods, URIs and headers are, and whatever
/// was answered in between. With a reader and a writer that do the same whenever they are given the
/// same, that is one response and one series of log lines.
pub proof fn law_only_the_body_decides<P, E>(
    a: RequestView,
    b: RequestView,
    parse: P,
    encode: E,
    a_response: ResponseView,
    b_response: ResponseView,
    a_logged: Seq<LogRecordView>,
    b_logged: Seq<LogRecordView>,
) where P: Fn(&str) -> Parsed, E: Fn(&BotReply) -> Option<Vec<u8>>
    requires
        a.body == b.body,
        may_answer(a.body, parse, encode, a_response, a_logged),
        may_answer(b.body, parse, encode, b_response, b_logged),
    ensures
        may_answer(b.body, parse, encode, a_response, a_logged),
        may_answer(a.body, parse, encode, b_response, b_logged),
        reads_alike(parse) && writes_alike(encode) ==> a_response == b_response && a_logged
            == b_logged,
        a_response.headers == b_response.headers,
{
}

/// `/echo` gives back exactly what follows it, whatever that is.
pub proof fn law_echo_gives_text_back(rest: Seq<char>, name: Seq<char>)
    ensures
        Command::of_spec("/echo "@ + rest) == Command::Echo,
        Command::of_spec("/echo "@ + rest).label_spec() == "echo"@,
        Command::of_spec("/echo "@ + rest).reply_spec("/echo "@ + rest, name) == rest,
{
    reveal_strlit("/start");
    reveal_strlit("/help");
    reveal_strlit("/echo ");
    let text = "/echo "@ + rest;
    assert(text.subrange(0, 6) =~= "/echo "@);
    assert(text[1] == 'e');
    assert("/start"@[1] == 's');
    assert("/help"@[1] == 'h');
    assert(!"/start"@.is_prefix_of(text)) by {
        if "/start"@.is_prefix_of(text) {
            assert(text.subrange(0, 6)[1] == 's');
        }
    }
    assert(!"/help"@.is_prefix_of(text)) by {
        if "/help"@.is_prefix_of(text) {
            assert(text.subrange(0, 5)[1] == 'h');
        }
    }
    assert(text.skip(6) =~= rest);
}

/// Any text that begins with `/start` is a greeting asked for, and is answered with one to the
/// sender by name, whatever follows.
pub proof fn law_start_greets_the_sender(rest: Seq<char>, name: Seq<char>)
    ensures
        Command::of_spec("/start"@ + rest) == Command::Start,
        Command::of_spec("/start"@ + rest).label_spec() == "start"@,
        Command::of_spec("/start"@ + rest).reply_spec("/start"@ + rest, name) == "Hi, "@ + name
            + ". I am a Telegram webhook plugin running inside Nexus Runtime."@,
{
    let text = "/start"@ + rest;
    assert(text.subrange(0, "/start"@.len() as int) =~= "/start"@);
}

/// Any text that begins with `/help` asks for the commands, and is answered with the list of them,
/// whatever follows and whoever sent it.
pub proof fn law_help_lists_the_commands(rest: Seq<char>, name: Seq<char>)
    ensures
        Command::of_spec("/help"@ + rest) == Command::Help,
        Command::of_spec("/help"@ + rest).label_spec() == "help"@,
        Command::of_spec("/help"@ + rest).reply_spec("/help"@ + rest, name)
            == "Supported commands: /start, /help, /echo <text>"@,
{
    reveal_strlit("/start");
    reveal_strlit("/help");
    let text = "/help"@ + rest;
    assert(text.subrange(0, 5) =~= "/help"@);
    assert(text[1] == 'h');
    if "/start"@.is_prefix_of(text) {
        assert(text.subrange(0, 6)[1] == 's');
    }
}

/// A text without characters is answered with a note that it is empty.
pub proof fn law_empty_text_is_noted(name: Seq<char>)
    ensures
        Command::of_spec(Seq::empty()) == Command::EmptyText,
        Command::of_spec(Seq::empty()).label_spec() == "empty-text"@,
        Command::of_spec(Seq::empty()).reply_spec(Seq::empty(), name)
            == "Message received, but text is empty."@,
{
    reveal_strlit("/start");
    reveal_strlit("/help");
    reveal_strlit("/echo ");
}

/// Any text that is no command and not empty is quoted back whole.
pub proof fn law_other_text_is_quoted(text: Seq<char>, name: Seq<char>)
    requires
        !"/start"@.is_prefix_of(text),
        !"/help"@.is_prefix_of(text),
        !"/echo "@.is_prefix_of(text),
        text.len() > 0,
    ensures
        Command::of_spec(text) == Command::Fallback,
        Command::of_spec(text).label_spec() == "fallback"@,
        Command::of_spec(text).reply_spec(text, name) == "You said: "@ + text,
{
}

/// The reply says `ok` exactly when the status is 200, and the status is 400 otherwise; only an
/// update has its id repeated; and every reply says what the plugin is.
pub proof fn law_status_agrees_with_reply(parsed: Parsed)
    ensures
        payload_of(parsed).ok <==> status_of(parsed) == 200,
        !payload_of(parsed).ok <==> status_of(parsed) == 400,
        payload_of(parsed).ok <==> parsed is Ok,
        parsed is Ok ==> payload_of(parsed).update_id == Some(parsed->Ok_0.update_id),
        parsed is Err ==> payload_of(parsed).update_id is None,
        payload_of(parsed).note == plugin_note(),
{
}

/// A reply names a chat exactly when the update had a message, and then it is the chat of that
/// message.
pub proof fn law_reply_goes_to_the_chat(update: TelegramUpdate)
    ensures
        update_reply(update).chat_id == match update.message {
            Some(message) => Some(message.chat.id),
            None => None::<i64>,
        },
        update_log(update).len() == if update.message is Some {
            1nat
        } else {
            0nat
        },
{
}

/// A message is answered by what its text is, with nothing of another message in the reply. A missing
/// text counts as an empty one.
pub proof fn law_message_is_answered_by_its_text(
    update: TelegramUpdate,
    message: TelegramMessage,
    text: Seq<char>,
)
    requires
        update.message == Some(message),
        match message.text {
            Some(given) => given@ == text,
            None => text.len() == 0,
        },
    ensures
        update_reply(update).ok,
        update_reply(update).update_id == Some(update.update_id),
        update_reply(update).chat_id == Some(message.chat.id),
        update_reply(update).note
            == "This plugin is a webhook processor. It does not call Telegram API directly."@,
        "/start"@.is_prefix_of(text) ==> update_reply(update).command == "start"@,
        "/help"@.is_prefix_of(text) ==> {
            &&& update_reply(update).command == "help"@
            &&& update_reply(update).reply_text == "Supported commands: /start, /help, /echo <text>"@
        },
        "/echo "@.is_prefix_of(text) ==> {
            &&& update_reply(update).command == "echo"@
            &&& text == "/echo "@ + update_reply(update).reply_text
        },
        text.len() == 0 ==> {
            &&& update_reply(update).command == "empty-text"@
            &&& update_reply(update).reply_text == "Message received, but text is empty."@
        },
        ({
            &&& !"/start"@.is_prefix_of(text)
            &&& !"/help"@.is_prefix_of(text)
            &&& !"/echo "@.is_prefix_of(text)
            &&& text.len() > 0
        }) ==> {
            &&& update_reply(update).command == "fallback"@
            &&& update_reply(update).reply_text == "You said: "@ + text
        },
{
    reveal_strlit("/start");
    reveal_strlit("/help");
    reveal_strlit("/echo ");
    assert(text_of(message) =~= text);
    if "/help"@.is_prefix_of(text) {
        let rest = text.skip(5);
        assert(text =~= "/help"@ + rest);
        law_help_lists_the_commands(rest, name_of(message));
    }
    if "/echo "@.is_prefix_of(text) {
        let rest = text.skip(6);
        assert(text =~= "/echo "@ + rest);
        law_echo_gives_text_back(rest, name_of(message));
    }
}

/// `/start` greets the sender by first name, or else by username, or else as `there`; a sender who is
/// not given counts as one without names.
pub proof fn law_sender_is_greeted_by_name(
    update: TelegramUpdate,
    message: TelegramMessage,
    text: String,
)
    requires
        update.message == Some(message),
        message.text == Some(text),
        "/start"@.is_prefix_of(text@),
    ensures
        ({
            let greets = |name: Seq<char>|
                update_reply(update).reply_text == "Hi, "@ + name
                    + ". I am a Telegram webhook plugin running inside Nexus Runtime."@;
            match message.from {
                None => greets("there"@),
                Some(TelegramUser { first_name: Some(name), .. }) => greets(name@),
                Some(TelegramUser { first_name: None, username: Some(name) }) => greets(name@),
                Some(TelegramUser { first_name: None, username: None }) => greets("there"@),
            }
        }),
{
}

/// A message that is answered is logged in one line, at the information level, with the command that
/// it was taken for, its chat, its number, and the kind of its chat, which is `unknown` if it is not
/// given.
pub proof fn law_message_is_logged(update: TelegramUpdate, message: TelegramMessage)
    requires
        update.message == Some(message),
    ensures
        update_log(update).len() == 1,
        update_log(update)[0].level is Info,
        update_log(update)[0].message == "telegram-bot command="@ + update_reply(update).command
            + " chat_id="@ + text::signed_decimal(message.chat.id as int) + " message_id="@
            + text::signed_decimal(message.message_id as int) + " chat_type="@
            + match message.chat.chat_type {
            Some(kind) => kind@,
            None => "unknown"@,
        },
{
}

/// An update without a message is taken note of: the reply names no chat, and nothing is logged.
pub proof fn law_update_without_message_is_noted(update: TelegramUpdate)
    requires
        update.message is None,
    ensures
        update_reply(update).ok,
        update_reply(update).update_id == Some(update.update_id),
        update_reply(update).chat_id is None,
        update_reply(update).command == "empty"@,
        update_reply(update).reply_text == "update received, but there is no message payload"@,
        update_reply(update).note
            == "This plugin is a webhook processor. It does not call Telegram API directly."@,
        update_log(update).len() == 0,
{
}

/// A body that is no update is refused with status 400 and the reason, and with a warning in the log;
/// an update is answered with status 200, the reply to it, and the log lines for it.
pub proof fn law_body_decides_between_answer_and_refusal(parsed: Parsed)
    ensures
        match parsed {
            Ok(update) => {
                &&& status_of(parsed) == 200
                &&& payload_of(parsed) == update_reply(update)
                &&& payload_log(parsed) == update_log(update)
            },
            Err(reason) => {
                &&& status_of(parsed) == 400
                &&& !payload_of(parsed).ok
                &&& payload_of(parsed).update_id is None
                &&& payload_of(parsed).chat_id is None
                &&& payload_of(parsed).command == "invalid"@
                &&& payload_of(parsed).reply_text == "invalid telegram update payload: "@ + reason@
                &&& payload_of(parsed).note
                    == "This plugin is a webhook processor. It does not call Telegram API directly."@
                &&& payload_log(parsed).len() == 1
                &&& payload_log(parsed)[0].level is Warn
                &&& payload_log(parsed)[0].message
                    == "telegram-bot failed to parse incoming JSON body"@
            },
        },
{
}

/// Whatever a request is answered, its body was shown as text and read, and the response follows from
/// what it was read as: 200 for an update and 400 for anything else, the plugin's own two headers,
/// and the bytes of the reply as they were written, or a bare refusal if it could not be written. The
/// log begins with a line on the arrival of the request.
pub proof fn law_answer_follows_from_the_body<P, E>(
    body: Seq<u8>,
    parse: P,
    encode: E,
    response: ResponseView,
    logged: Seq<LogRecordView>,
) where P: Fn(&str) -> Parsed, E: Fn(&BotReply) -> Option<Vec<u8>>
    requires
        may_answer(body, parse, encode, response, logged),
    ensures
        response.headers.len() == 2,
        response.headers[0].name == "content-type"@,
        response.headers[0].value == "application/json; charset=utf-8"@,
        response.headers[1].name == "x-plugin"@,
        response.headers[1].value == "telegram-bot"@,
        logged.len() >= 1,
        logged[0].level is Info,
        logged[0].message == "telegram-bot plugin received webhook request"@,
        exists|text: &str, parsed: Parsed, reply: BotReply, encoded: Option<Vec<u8>>|
            {
                &&& text@ == text::lossy_text(body)
                &&& #[trigger] call_ensures(parse, (text,), parsed)
                &&& #[trigger] call_ensures(encode, (&reply,), encoded)
                &&& reply@ == payload_of(parsed)
                &&& response.status == if parsed is Ok {
                    200u16
                } else {
                    400u16
                }
                &&& encoded matches Some(bytes) ==> response.body == bytes@
                &&& encoded is None ==> text::lossy_text(response.body) == "{\"ok\":false}"@
                &&& logged.skip(1) == payload_log(parsed)
            },
{
    let (text, parsed, reply, encoded) = choose|
        text: &str,
        parsed: Parsed,
        reply: BotReply,
        encoded: Option<Vec<u8>>,
    |
        {
            &&& text@ == text::lossy_text(body)
            &&& #[trigger] call_ensures(parse, (text,), parsed)
            &&& reply@ == payload_of(parsed)
            &&& #[trigger] call_ensures(encode, (&reply,), encoded)
            &&& response == (ResponseView {
                status: status_of(parsed),
                headers: bot_headers(),
                body: body_of(encoded),
            })
            &&& logged == arrival_log() + payload_log(parsed)
        };
    text::law_text_survives_encoding("{\"ok\":false}"@);
    assert(logged.skip(1) =~= payload_log(parsed));
    assert(call_ensures(parse, (text,), parsed));
    assert(call_ensures(encode, (&reply,), encoded));
}

/// A reply is seen with all its parts.
pub proof fn law_reply_is_seen_whole(reply: BotReply)
    ensures
        reply@.ok == reply.ok,
        reply@.update_id == reply.update_id,
        reply@.chat_id == reply.chat_id,
        reply@.reply_text == reply.reply_text@,
        reply@.command == reply.command@,
        reply@.note == reply.note@,
{
}

} // verus!
