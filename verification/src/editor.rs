//! Editing a transcript: the request to the DeepSeek service and its reply.

use vstd::prelude::*;
use vstd::utf8::*;

use crate::text::{
    backslashes, chars_of, decode_lossy, find, find_from, holds, law_absent_pattern,
    law_find_first, law_nothing_to_replace, law_pattern_stands, law_replacing_goes_on,
    lemma_find_is, lemma_front_stays, lemma_occurs_char, lemma_pair_absent, lemma_parts_without,
    lemma_replace_behind_run, lemma_replace_char_in_parts, lemma_replace_pair_hit,
    lemma_replace_pair_miss, lemma_run_at_the_end, lemma_same_inside, occurs_at, one, replace,
    replaced, result_text, string_of, two, utf8_lossy,
};
use crate::tools::{join2, join3, CommandLine, CommandLineView, ToolRun};

verus! {

/// Shown when the editing starts.
pub open spec fn editing_note() -> Seq<char> {
    "🧠 Редактируем и расставляем знаки препинания через DeepSeek API...\n"@
}

/// The note shown when the editing starts.
pub fn editing_note_text() -> (r: String)
    ensures
        r@ == editing_note(),
{
    "🧠 Редактируем и расставляем знаки препинания через DeepSeek API...\n".to_owned()
}

/// A text with its quotation marks, then its line breaks escaped.
pub open spec fn escaped(t: Seq<char>) -> Seq<char> {
    replaced(replaced(t, seq!['"'], seq!['\\', '"']), seq!['\n'], seq!['\\', 'n'])
}

/// The part of the request before the text.
pub open spec fn request_head() -> Seq<char> {
    r#"{
  "model": "deepseek-chat",
  "messages": [
    {"role": "system", "content": "Ты - профессиональный редактор. Твоя задача: взять расшифрованный текст речи, исправить грамматические ошибки, расставить пунктуацию и грамотно разбить текст на смысловые абзацы. Не меняй смысл и слова спикера."},
    {"role": "user", "content": ""#@
}

/// The part of the request behind the text.
pub open spec fn request_tail() -> Seq<char> {
    r#""}
  ]
}"#@
}

/// The request that asks for a text to be edited.
pub open spec fn request(t: Seq<char>) -> Seq<char> {
    request_head() + escaped(t) + request_tail()
}

/// The call that sends a request from a file.
pub open spec fn deepseek_call(request_path: Seq<char>, api_key: Seq<char>) -> CommandLineView {
    CommandLineView {
        program: "curl"@,
        args: seq![
            "-s"@,
            "-X"@,
            "POST"@,
            "-H"@,
            "Content-Type: application/json"@,
            "-H"@,
            "Authorization: Bearer "@ + api_key,
            "-d"@,
            "@"@ + request_path,
            "https://api.deepseek.com/v1/chat/completions"@,
        ],
    }
}

/// The text between the first `"content":"` of a reply and the next quotation
/// mark.
pub open spec fn content_field(reply: Seq<char>) -> Option<Seq<char>> {
    match find_from(reply, "\"content\":\""@, 0) {
        Some(key) => match find_from(reply, seq!['"'], key + "\"content\":\""@.len()) {
            Some(close) => Some(reply.subrange(key + "\"content\":\""@.len(), close)),
            None => None,
        },
        None => None,
    }
}

/// A text with the escapes of the reply undone: line breaks, then quotation
/// marks.
pub open spec fn unescaped(raw: Seq<char>) -> Seq<char> {
    replaced(replaced(raw, seq!['\\', 'n'], seq!['\n']), seq!['\\', '"'], seq!['"'])
}

/// The edited text that a reply carries, or the message that it carries none.
pub open spec fn edited(reply: Seq<char>) -> Result<Seq<char>, Seq<char>> {
    match content_field(reply) {
        Some(raw) => Ok(unescaped(raw)),
        None => Err("Ошибка ответа DeepSeek API:\n"@ + reply),
    }
}

/// Builds the request that asks for a text to be edited.
pub fn deepseek_request(raw_text: &str) -> (r: String)
    ensures
        r@ == request(raw_text@),
{
    let t = chars_of(raw_text);
    let quotes = replace(&t, &one('"'), &two('\\', '"'));
    let safe = replace(&quotes, &one('\n'), &two('\\', 'n'));
    let safe_text = string_of(&safe, 0, safe.len());
    assert(safe_text@ =~= safe@);
    join3(
        r#"{
  "model": "deepseek-chat",
  "messages": [
    {"role": "system", "content": "Ты - профессиональный редактор. Твоя задача: взять расшифрованный текст речи, исправить грамматические ошибки, расставить пунктуацию и грамотно разбить текст на смысловые абзацы. Не меняй смысл и слова спикера."},
    {"role": "user", "content": ""#,
        safe_text.as_str(),
        r#""}
  ]
}"#,
    )
}

/// Builds the call that sends a request from a file.
pub fn deepseek_command(request_path: &str, api_key: &str) -> (r: CommandLine)
    ensures
        r@ == deepseek_call(request_path@, api_key@),
{
    let mut args: Vec<String> = Vec::new();
    args.push("-s".to_owned());
    args.push("-X".to_owned());
    args.push("POST".to_owned());
    args.push("-H".to_owned());
    args.push("Content-Type: application/json".to_owned());
    args.push("-H".to_owned());
    args.push(join2("Authorization: Bearer ", api_key));
    args.push("-d".to_owned());
    args.push(join2("@", request_path));
    args.push("https://api.deepseek.com/v1/chat/completions".to_owned());
    let r = CommandLine { program: "curl".to_owned(), args };
    assert(r@.args =~= deepseek_call(request_path@, api_key@).args);
    r
}

/// Reads the edited text out of a reply.
pub fn read_edited(reply: &str) -> (r: Result<String, String>)
    ensures
        result_text(r) == edited(reply@),
{
    let t = chars_of(reply);
    let key = chars_of("\"content\":\"");
    if let Some(at) = find(&t, &key, 0) {
        let start: usize = at + key.len();
        if let Some(close) = find(&t, &one('"'), start) {
            let raw = chars_of(string_of(&t, start, close).as_str());
            let lines = replace(&raw, &two('\\', 'n'), &one('\n'));
            let clean = replace(&lines, &two('\\', '"'), &one('"'));
            let out = string_of(&clean, 0, clean.len());
            assert(out@ =~= clean@);
            return Ok(out);
        }
    }
    Err(join2("Ошибка ответа DeepSeek API:\n", reply))
}

// ---------------------------------------------------------------------------
// The exchange with the service
// ---------------------------------------------------------------------------

/// The name of the file that holds the request; it lies among the temporary
/// files.
pub const REQUEST_FILE: &'static str = "deepseek_req.json";

/// How far the exchange has come.
#[derive(Debug)]
pub enum EditState {
    Writing,
    Sending,
    Removing { reply: Vec<u8> },
    Ended,
}

/// What `EditState` holds.
pub enum EditStateView {
    Writing,
    Sending,
    Removing { reply: Seq<u8> },
    Ended,
}

impl View for EditState {
    type V = EditStateView;

    open spec fn view(&self) -> EditStateView {
        match self {
            EditState::Writing => EditStateView::Writing,
            EditState::Sending => EditStateView::Sending,
            EditState::Removing { reply } => EditStateView::Removing { reply: reply@ },
            EditState::Ended => EditStateView::Ended,
        }
    }
}

/// What came of the last action.
#[derive(Debug)]
pub enum EditEvent {
    /// The request was written, or why not.
    Written(Result<(), String>),
    /// The request was sent.
    Sent(ToolRun),
    /// The file was removed, or could not be, which makes no difference.
    Removed,
}

/// What is to be done next.
#[derive(Debug)]
pub enum EditAction {
    /// Write the request to a file.
    Write { path: String, text: String },
    /// Send it with a program.
    Send(CommandLine),
    /// Remove the file.
    Remove(String),
    /// The exchange ended with an edited text, or with an error.
    Finish(Result<String, String>),
}

/// What `EditAction` holds.
pub enum EditActionView {
    Write { path: Seq<char>, text: Seq<char> },
    Send(CommandLineView),
    Remove(Seq<char>),
    Finish(Result<Seq<char>, Seq<char>>),
}

impl View for EditAction {
    type V = EditActionView;

    open spec fn view(&self) -> EditActionView {
        match self {
            EditAction::Write { path, text } => EditActionView::Write {
                path: path@,
                text: text@,
            },
            EditAction::Send(call) => EditActionView::Send(call@),
            EditAction::Remove(path) => EditActionView::Remove(path@),
            EditAction::Finish(result) => EditActionView::Finish(result_text(*result)),
        }
    }
}

/// An exchange with the service.
#[derive(Debug)]
pub struct Edit {
    pub request_path: String,
    pub api_key: String,
    pub state: EditState,
}

/// The event answers the action that the state waits for.
pub open spec fn edit_expects(state: EditStateView, event: EditEvent) -> bool {
    match state {
        EditStateView::Writing => event is Written,
        EditStateView::Sending => event is Sent,
        EditStateView::Removing { .. } => event is Removed,
        EditStateView::Ended => false,
    }
}

/// What follows an event. The file is removed once the program that sends it has
/// ended, however that went; where it was never started the file stays.
pub open spec fn edit_next(
    request_path: Seq<char>,
    api_key: Seq<char>,
    state: EditStateView,
    event: EditEvent,
) -> (EditStateView, EditActionView) {
    match (state, event) {
        (EditStateView::Writing, EditEvent::Written(Ok(_))) => (
            EditStateView::Sending,
            EditActionView::Send(deepseek_call(request_path, api_key)),
        ),
        (EditStateView::Writing, EditEvent::Written(Err(e))) => (
            EditStateView::Ended,
            EditActionView::Finish(Err("Ошибка записи запроса: "@ + e@)),
        ),
        (EditStateView::Sending, EditEvent::Sent(ToolRun::NotStarted(e))) => (
            EditStateView::Ended,
            EditActionView::Finish(Err("Ошибка вызова curl для DeepSeek: "@ + e@)),
        ),
        (EditStateView::Sending, EditEvent::Sent(ToolRun::Exited { stdout, .. })) => (
            EditStateView::Removing { reply: stdout@ },
            EditActionView::Remove(request_path),
        ),
        (EditStateView::Removing { reply }, EditEvent::Removed) => (
            EditStateView::Ended,
            EditActionView::Finish(edited(utf8_lossy(reply))),
        ),
        _ => arbitrary(),
    }
}

/// Starts the exchange that has a text edited.
pub fn polish_text_with_deepseek(raw_text: &str, request_path: String, api_key: String) -> (r: (
    Edit,
    EditAction,
))
    ensures
        r.0.request_path == request_path,
        r.0.api_key == api_key,
        r.0.state@ == EditStateView::Writing,
        r.1@ == (EditActionView::Write { path: request_path@, text: request(raw_text@) }),
{
    let first = EditAction::Write {
        path: request_path.clone(),
        text: deepseek_request(raw_text),
    };
    (Edit { request_path, api_key, state: EditState::Writing }, first)
}

impl Edit {
    /// Tells whether an event answers the action that the exchange waits for.
    pub fn accepts(&self, event: &EditEvent) -> (r: bool)
        ensures
            r == edit_expects(self.state@, *event),
    {
        match (&self.state, event) {
            (EditState::Writing, EditEvent::Written(_)) => true,
            (EditState::Sending, EditEvent::Sent(_)) => true,
            (EditState::Removing { .. }, EditEvent::Removed) => true,
            _ => false,
        }
    }

    /// Goes on with the exchange.
    pub fn step(&mut self, event: EditEvent) -> (r: EditAction)
        requires
            edit_expects(old(self).state@, event),
        ensures
            final(self).request_path == old(self).request_path,
            final(self).api_key == old(self).api_key,
            (final(self).state@, r@) == edit_next(
                old(self).request_path@,
                old(self).api_key@,
                old(self).state@,
                event,
            ),
            old(self).state@ matches EditStateView::Removing { reply } ==> valid_utf8(reply) ==> r@
                == EditActionView::Finish(edited(decode_utf8(reply))),
    {
        match event {
            EditEvent::Written(Ok(_)) => {
                self.state = EditState::Sending;
                EditAction::Send(
                    deepseek_command(self.request_path.as_str(), self.api_key.as_str()),
                )
            },
            EditEvent::Written(Err(e)) => {
                self.state = EditState::Ended;
                EditAction::Finish(Err(join2("Ошибка записи запроса: ", e.as_str())))
            },
            EditEvent::Sent(ToolRun::NotStarted(e)) => {
                self.state = EditState::Ended;
                EditAction::Finish(Err(join2("Ошибка вызова curl для DeepSeek: ", e.as_str())))
            },
            EditEvent::Sent(ToolRun::Exited { stdout, .. }) => {
                self.state = EditState::Removing { reply: stdout };
                EditAction::Remove(self.request_path.clone())
            },
            EditEvent::Removed => {
                let reply = match &self.state {
                    EditState::Removing { reply } => decode_lossy(reply),
                    _ => String::new(),
                };
                self.state = EditState::Ended;
                EditAction::Finish(read_edited(reply.as_str()))
            },
        }
    }
}

// ---------------------------------------------------------------------------
// Laws
// ---------------------------------------------------------------------------

/// The escape of one character.
pub open spec fn escaped_char(c: char) -> Seq<char> {
    if c == '"' {
        seq!['\\', '"']
    } else if c == '\n' {
        seq!['\\', 'n']
    } else {
        seq![c]
    }
}

/// A text is escaped character by character.
pub proof fn law_escape_by_character(t: Seq<char>)
    requires
        t.len() > 0,
    ensures
        escaped(t) == escaped_char(t[0]) + escaped(t.skip(1)),
{
    let c = t[0];
    let rest = t.skip(1);
    let quote_as = seq!['\\', '"'];
    let break_as = seq!['\\', 'n'];
    assert(t =~= seq![c] + rest);
    lemma_replace_char_in_parts(seq![c], rest, '"', quote_as);
    let head = replaced(seq![c], seq!['"'], quote_as);
    let tail = replaced(rest, seq!['"'], quote_as);
    lemma_replace_char_in_parts(head, tail, '\n', break_as);
    lemma_replace_one(c, '"', quote_as);
    if c == '"' {
        assert(!quote_as.contains('\n')) by {
            assert(quote_as[0] == '\\' && quote_as[1] == '"');
        }
        law_nothing_to_replace(quote_as, seq!['\n'], break_as);
    } else {
        lemma_replace_one(c, '\n', break_as);
    }
}

proof fn lemma_replace_one(c: char, pat: char, with: Seq<char>)
    ensures
        replaced(seq![c], seq![pat], with) == if c == pat {
            with
        } else {
            seq![c]
        },
{
    lemma_occurs_char(seq![c], pat, 0);
    assert(seq![c].skip(1) =~= Seq::<char>::empty());
    reveal_with_fuel(replaced, 2);
    assert(with + Seq::<char>::empty() =~= with);
    assert(seq![c] + Seq::<char>::empty() =~= seq![c]);
}

/// Escaping loses nothing: undoing it gives back any text without backslashes.
pub proof fn law_escape_is_undone(t: Seq<char>)
    requires
        !t.contains('\\'),
    ensures
        unescaped(escaped(t)) == t,
    decreases t.len(),
{
    let line = seq!['\n'];
    let quote = seq!['"'];
    if t.len() == 0 {
        reveal_with_fuel(replaced, 1);
        assert(escaped(t) =~= t);
        assert(unescaped(t) =~= t);
    } else {
        let c = t[0];
        let rest = t.skip(1);
        assert(t.contains(c));
        assert(!rest.contains('\\')) by {
            if rest.contains('\\') {
                let i = choose|i: int| 0 <= i < rest.len() && rest[i] == '\\';
                assert(t[i + 1] == '\\');
            }
        }
        law_escape_by_character(t);
        law_escape_is_undone(rest);
        let e = escaped(rest);
        let lines = replaced(e, seq!['\\', 'n'], line);
        if c == '"' {
            let tail = seq!['"'] + e;
            assert(escaped(t) =~= seq!['\\'] + tail);
            lemma_replace_pair_miss('\\', '\\', 'n', tail, line);
            lemma_replace_pair_miss('"', '\\', 'n', e, line);
            assert(seq!['\\'] + (seq!['"'] + lines) =~= seq!['\\', '"'] + lines);
            lemma_replace_pair_hit('\\', '"', lines, quote);
        } else if c == '\n' {
            lemma_replace_pair_hit('\\', 'n', e, line);
            lemma_replace_pair_miss('\n', '\\', '"', lines, quote);
        } else {
            lemma_replace_pair_miss(c, '\\', 'n', e, line);
            lemma_replace_pair_miss(c, '\\', '"', lines, quote);
        }
        assert(seq![c] + rest =~= t);
    }
}

/// The escaped text holds no line break.
pub proof fn law_escaped_has_no_line_break(t: Seq<char>)
    ensures
        !escaped(t).contains('\n'),
    decreases t.len(),
{
    if t.len() == 0 {
        assert(escaped(t) =~= t);
    } else {
        law_escape_by_character(t);
        law_escaped_has_no_line_break(t.skip(1));
        let head = escaped_char(t[0]);
        let tail = escaped(t.skip(1));
        if escaped(t).contains('\n') {
            let i = choose|i: int| 0 <= i < escaped(t).len() && escaped(t)[i] == '\n';
            if i < head.len() {
                assert(head[i] == '\n');
            } else {
                assert(tail[i - head.len()] == '\n');
            }
        }
    }
}

/// Every quotation mark of the escaped text follows a backslash.
pub proof fn law_escaped_quotes_follow_backslash(t: Seq<char>, i: int)
    requires
        0 <= i < escaped(t).len(),
        escaped(t)[i] == '"',
    ensures
        i > 0 && escaped(t)[i - 1] == '\\',
    decreases t.len(),
{
    if t.len() == 0 {
        assert(escaped(t) =~= t);
    } else {
        law_escape_by_character(t);
        let head = escaped_char(t[0]);
        let tail = escaped(t.skip(1));
        if i < head.len() {
            assert(head[i] == '"');
            assert(i == 1);
        } else {
            assert(tail[i - head.len()] == '"');
            law_escaped_quotes_follow_backslash(t.skip(1), i - head.len());
        }
    }
}

/// A reply with a field `"content"`: anything before it, its value, and anything
/// after it.
pub open spec fn reply_with_content(
    before: Seq<char>,
    value: Seq<char>,
    after: Seq<char>,
) -> Seq<char> {
    before + "\"content\":\""@ + value + seq!['"'] + after
}

/// The value of the first field `"content"` is the edited text, with its escapes
/// undone. The value holds no quotation mark.
pub proof fn law_reply_carries_text(before: Seq<char>, value: Seq<char>, after: Seq<char>)
    requires
        forall|j: int|
            0 <= j < before.len() ==> !occurs_at(
                reply_with_content(before, value, after),
                "\"content\":\""@,
                j,
            ),
        !value.contains('"'),
    ensures
        edited(reply_with_content(before, value, after)) == Ok::<_, Seq<char>>(unescaped(value)),
{
    let reply = reply_with_content(before, value, after);
    let key = "\"content\":\""@;
    let at = before.len() as int;
    assert(reply.subrange(at, at + key.len()) =~= key);
    lemma_find_is(reply, key, 0, at);
    let start = at + key.len();
    let close = start + value.len();
    assert(reply[close] == '"');
    assert forall|j: int| start <= j < close implies !occurs_at(reply, seq!['"'], j) by {
        lemma_occurs_char(reply, '"', j);
        assert(reply[j] == value[j - start]);
    }
    lemma_occurs_char(reply, '"', close);
    lemma_find_is(reply, seq!['"'], start, close);
    assert(reply.subrange(start, close) =~= value);
}

/// A service that answers with the text it was sent, escaped as it was sent,
/// changes nothing. The text holds no backslash and no quotation mark.
pub proof fn law_echoed_text_comes_back(before: Seq<char>, t: Seq<char>, after: Seq<char>)
    requires
        forall|j: int|
            0 <= j < before.len() ==> !occurs_at(
                reply_with_content(before, escaped(t), after),
                "\"content\":\""@,
                j,
            ),
        !t.contains('\\'),
        !t.contains('"'),
    ensures
        edited(reply_with_content(before, escaped(t), after)) == Ok::<_, Seq<char>>(t),
{
    lemma_escaped_without_quotes(t);
    law_reply_carries_text(before, escaped(t), after);
    law_escape_is_undone(t);
}

proof fn lemma_escaped_without_quotes(t: Seq<char>)
    requires
        !t.contains('"'),
    ensures
        !escaped(t).contains('"'),
    decreases t.len(),
{
    if t.len() == 0 {
        assert(escaped(t) =~= t);
    } else {
        let rest = t.skip(1);
        assert(t.contains(t[0]));
        assert(!rest.contains('"')) by {
            if rest.contains('"') {
                let i = choose|i: int| 0 <= i < rest.len() && rest[i] == '"';
                assert(t[i + 1] == '"');
            }
        }
        law_escape_by_character(t);
        lemma_escaped_without_quotes(rest);
        let head = escaped_char(t[0]);
        let tail = escaped(rest);
        if escaped(t).contains('"') {
            let i = choose|i: int| 0 <= i < escaped(t).len() && escaped(t)[i] == '"';
            if i < head.len() {
                assert(head[i] == '"');
            } else {
                assert(tail[i - head.len()] == '"');
            }
        }
    }
}

/// A reply without a field `"content"` is refused, and the message shows it.
pub proof fn law_reply_without_content_is_refused(reply: Seq<char>)
    requires
        forall|j: int| !occurs_at(reply, "\"content\":\""@, j),
    ensures
        edited(reply) == Err::<Seq<char>, _>("Ошибка ответа DeepSeek API:\n"@ + reply),
{
    law_find_first(reply, "\"content\":\""@, 0);
}

/// How many steps the exchange can still take at most.
pub open spec fn edit_steps_left(state: EditStateView) -> nat {
    match state {
        EditStateView::Writing => 3,
        EditStateView::Sending => 2,
        EditStateView::Removing { .. } => 1,
        EditStateView::Ended => 0,
    }
}

/// Every step brings the exchange closer to its end, which is reached exactly
/// with its result.
pub proof fn law_exchange_ends(
    request_path: Seq<char>,
    api_key: Seq<char>,
    state: EditStateView,
    event: EditEvent,
)
    requires
        edit_expects(state, event),
    ensures
        ({
            let (next, action) = edit_next(request_path, api_key, state, event);
            &&& edit_steps_left(next) < edit_steps_left(state)
            &&& next == EditStateView::Ended <==> action is Finish
        }),
{
}

/// The files that an exchange removes and its result, when it goes on from a
/// state, for what writing and sending come to.
pub open spec fn exchange_from(
    request_path: Seq<char>,
    api_key: Seq<char>,
    state: EditStateView,
    written: Result<(), String>,
    sent: ToolRun,
) -> (Seq<Seq<char>>, Result<Seq<char>, Seq<char>>)
    decreases edit_steps_left(state),
{
    let event = match state {
        EditStateView::Writing => EditEvent::Written(written),
        EditStateView::Sending => EditEvent::Sent(sent),
        _ => EditEvent::Removed,
    };
    let (next, action) = edit_next(request_path, api_key, state, event);
    match action {
        EditActionView::Finish(result) => (Seq::empty(), result),
        _ => if edit_steps_left(next) < edit_steps_left(state) {
            let (removed, result) = exchange_from(request_path, api_key, next, written, sent);
            match action {
                EditActionView::Remove(path) => (seq![path] + removed, result),
                _ => (removed, result),
            }
        } else {
            (Seq::empty(), Err(Seq::empty()))
        },
    }
}

/// The exchange as a whole: what it leads to, and that the request file is
/// removed exactly when it was written and the program that sends it ran.
pub proof fn law_exchange_result(
    request_path: Seq<char>,
    api_key: Seq<char>,
    written: Result<(), String>,
    sent: ToolRun,
)
    ensures
        exchange_from(request_path, api_key, EditStateView::Writing, written, sent) == (
        match written {
            Err(e) => (
                Seq::<Seq<char>>::empty(),
                Err::<Seq<char>, Seq<char>>("Ошибка записи запроса: "@ + e@),
            ),
            Ok(_) => match sent {
                ToolRun::NotStarted(e) => (
                    Seq::empty(),
                    Err("Ошибка вызова curl для DeepSeek: "@ + e@),
                ),
                ToolRun::Exited { stdout, .. } => (
                    seq![request_path],
                    edited(utf8_lossy(stdout@)),
                ),
            },
        }),
{
    reveal_with_fuel(exchange_from, 3);
    assert(seq![request_path] + Seq::<Seq<char>>::empty() =~= seq![request_path]);
}

/// An empty text stays empty, and a text without quotation marks and line breaks
/// is sent as it stands.
pub proof fn law_plain_text_is_sent_as_it_stands(t: Seq<char>)
    requires
        !t.contains('"'),
        !t.contains('\n'),
    ensures
        escaped(t) == t,
{
    law_nothing_to_replace(t, seq!['"'], seq!['\\', '"']);
    law_nothing_to_replace(t, seq!['\n'], seq!['\\', 'n']);
}

/// A backslash of the reply that starts neither of the two escapes stays, with
/// what follows it; a doubled backslash stays doubled.
pub proof fn law_other_escapes_stay(raw: Seq<char>)
    requires
        forall|i: int|
            0 <= i < raw.len() - 1 && #[trigger] raw[i] == '\\' ==> raw[i + 1] != 'n' && raw[i + 1]
                != '"',
    ensures
        unescaped(raw) == raw,
{
    lemma_pair_absent(raw, 'n');
    lemma_pair_absent(raw, '"');
    law_absent_pattern(raw, seq!['\\', 'n'], seq!['\n']);
    law_absent_pattern(raw, seq!['\\', '"'], seq!['"']);
}

/// Undoing the escapes works line by line: a line without backslashes stays, the
/// escape behind it becomes a line break, and so on to the end.
pub proof fn law_every_line_is_read(line: Seq<char>, rest: Seq<char>)
    requires
        !line.contains('\\'),
    ensures
        unescaped(line + seq!['\\', 'n'] + rest) == line + seq!['\n'] + unescaped(rest),
{
    let pat = seq!['\\', 'n'];
    let raw = line + pat + rest;
    assert forall|i: int| 0 <= i < line.len() implies !occurs_at(raw, pat, i) by {
        if occurs_at(raw, pat, i) {
            assert(raw.subrange(i, i + 2)[0] == pat[0]);
            assert(line.contains(line[i]));
        }
    }
    law_replacing_goes_on(line, pat, rest, seq!['\n']);
    let done = line + seq!['\n'];
    lemma_parts_without(line, seq!['\n'], '\\');
    lemma_front_stays(done, replaced(rest, pat, seq!['\n']), seq!['\\', '"'], seq!['"']);
}

/// An edited text is only read out of a reply that carries one: a field
/// `"content"`, written without a space, and a value up to the next quotation
/// mark. Any other reply is refused, and the message shows it.
pub proof fn law_edited_text_was_in_the_reply(reply: Seq<char>)
    ensures
        match edited(reply) {
            Ok(text) => exists|before: Seq<char>, value: Seq<char>, after: Seq<char>|
                {
                    &&& reply == #[trigger] reply_with_content(before, value, after)
                    &&& text == unescaped(value)
                    &&& !value.contains('"')
                },
            Err(message) => message == "Ошибка ответа DeepSeek API:\n"@ + reply,
        },
{
    let key = "\"content\":\""@;
    law_find_first(reply, key, 0);
    match edited(reply) {
        Err(_) => {},
        Ok(text) => {
            let at = find_from(reply, key, 0).unwrap();
            let start = at + key.len();
            law_find_first(reply, seq!['"'], start);
            let close = find_from(reply, seq!['"'], start).unwrap();
            lemma_occurs_char(reply, '"', close);
            let before = reply.take(at);
            let value = reply.subrange(start, close);
            let after = reply.skip(close + 1);
            assert(!value.contains('"')) by {
                if value.contains('"') {
                    let j = choose|j: int| 0 <= j < value.len() && value[j] == '"';
                    lemma_occurs_char(reply, '"', start + j);
                }
            }
            assert(reply =~= before + reply.subrange(at, start) + value + seq!['"'] + after);
            assert(reply == reply_with_content(before, value, after));
        },
    }
}

/// The request names the model and ends with the text as the content of the
/// user; requests for texts without backslashes differ exactly when the texts do.
pub proof fn law_request_carries_the_text(t: Seq<char>, other: Seq<char>)
    ensures
        holds(request(t), "\"model\": \"deepseek-chat\""@),
        holds(request(t), "{\"role\": \"user\", \"content\": \""@ + escaped(t) + "\"}"@),
        !t.contains('\\') && !other.contains('\\') ==> (request(t) == request(other) <==> t
            == other),
{
    let head = request_head();
    let tail = request_tail();
    reveal_strlit(
        r#"{
  "model": "deepseek-chat",
  "messages": [
    {"role": "system", "content": "Ты - профессиональный редактор. Твоя задача: взять расшифрованный текст речи, исправить грамматические ошибки, расставить пунктуацию и грамотно разбить текст на смысловые абзацы. Не меняй смысл и слова спикера."},
    {"role": "user", "content": ""#,
    );
    reveal_strlit(
        r#""}
  ]
}"#,
    );
    reveal_strlit("\"model\": \"deepseek-chat\"");
    reveal_strlit("{\"role\": \"user\", \"content\": \"");
    reveal_strlit("\"}");
    let model = "\"model\": \"deepseek-chat\""@;
    let user = "{\"role\": \"user\", \"content\": \""@;
    let end = "\"}"@;
    let r = request(t);
    assert(head.subrange(4, 4 + model.len() as int) =~= model);
    assert(r.subrange(4, 4 + model.len() as int) =~= model);
    assert(occurs_at(r, model, 4));
    let cut = head.len() - user.len();
    assert(head.skip(cut) =~= user);
    assert(tail.take(2) =~= end);
    let part = user + escaped(t) + end;
    law_pattern_stands(head.take(cut), part, tail.skip(2));
    assert(head =~= head.take(cut) + user);
    assert(tail =~= end + tail.skip(2));
    assert(r =~= head.take(cut) + part + tail.skip(2));
    lemma_same_inside(head, escaped(t), escaped(other), tail);
    if !t.contains('\\') && !other.contains('\\') {
        law_escape_is_undone(t);
        law_escape_is_undone(other);
    }
}

/// The request is sent from the file, to the text service, with the key in its
/// header; nothing else of the call depends on either.
pub proof fn law_editing_call(request_path: Seq<char>, api_key: Seq<char>)
    ensures
        ({
            let call = deepseek_call(request_path, api_key);
            &&& call.program == "curl"@
            &&& call.args.len() == 10
            &&& call.args[0] == "-s"@ && call.args[1] == "-X"@ && call.args[2] == "POST"@
            &&& call.args[3] == "-H"@ && call.args[4] == "Content-Type: application/json"@
            &&& call.args[5] == "-H"@ && call.args[6] == "Authorization: Bearer "@ + api_key
            &&& call.args[7] == "-d"@ && call.args[8] == "@"@ + request_path
            &&& call.args[9] == "https://api.deepseek.com/v1/chat/completions"@
            &&& forall|path: Seq<char>, key: Seq<char>, i: int|
                0 <= i < 10 && i != 6 && i != 8 ==> #[trigger] deepseek_call(path, key).args[i]
                    == call.args[i]
        }),
{
}

/// What each step of the exchange does: what was written is sent from where it
/// was written, with the key of the exchange; once it was sent that very file is
/// removed; and the result is read from what the program printed, whether it
/// reported success or not.
pub proof fn law_exchange_steps(
    request_path: Seq<char>,
    api_key: Seq<char>,
    state: EditStateView,
    event: EditEvent,
)
    requires
        edit_expects(state, event),
    ensures
        ({
            let (next, action) = edit_next(request_path, api_key, state, event);
            match event {
                EditEvent::Written(Ok(_)) => action matches EditActionView::Send(call) && {
                    &&& call.args[6] == "Authorization: Bearer "@ + api_key
                    &&& call.args[8] == "@"@ + request_path
                },
                EditEvent::Written(Err(e)) => action == EditActionView::Finish(
                    Err("Ошибка записи запроса: "@ + e@),
                ),
                EditEvent::Sent(ToolRun::NotStarted(e)) => action == EditActionView::Finish(
                    Err("Ошибка вызова curl для DeepSeek: "@ + e@),
                ),
                EditEvent::Sent(ToolRun::Exited { stdout, .. }) => action
                    == EditActionView::Remove(request_path) && next == (EditStateView::Removing {
                    reply: stdout@,
                }),
                EditEvent::Removed => state matches EditStateView::Removing { reply } && action
                    == EditActionView::Finish(edited(utf8_lossy(reply))),
            }
        }),
{
    law_editing_call(request_path, api_key);
}

/// The next state waits for what comes of the action.
pub proof fn law_every_exchange_action_is_answered(
    request_path: Seq<char>,
    api_key: Seq<char>,
    state: EditStateView,
    event: EditEvent,
    reply: EditEvent,
)
    requires
        edit_expects(state, event),
    ensures
        ({
            let (next, action) = edit_next(request_path, api_key, state, event);
            edit_expects(next, reply) <==> match action {
                EditActionView::Write { .. } => reply is Written,
                EditActionView::Send(_) => reply is Sent,
                EditActionView::Remove(_) => reply is Removed,
                EditActionView::Finish(_) => false,
            }
        }),
        edit_expects(EditStateView::Writing, reply) <==> reply is Written,
{
}

/// How any text of the service is read: what holds no backslash stays; of a run
/// of backslashes the last one makes, with an n or a quotation mark behind the
/// run, a line break or the quotation mark, and the backslashes that are left
/// stay; then the reading goes on.
pub proof fn law_reading_goes_on(front: Seq<char>, k: nat, c: char, rest: Seq<char>)
    requires
        !front.contains('\\'),
        c != '\\',
    ensures
        ({
            let escape = k > 0 && (c == 'n' || c == '"');
            let left = if escape {
                (k - 1) as nat
            } else {
                k
            };
            let shown = if escape && c == 'n' {
                '\n'
            } else {
                c
            };
            unescaped(front + (backslashes(k) + seq![c] + rest)) == front + (backslashes(left)
                + seq![shown] + unescaped(rest))
        }),
        unescaped(front + backslashes(k)) == front + backslashes(k),
{
    let n = seq!['\\', 'n'];
    let q = seq!['\\', '"'];
    let run = backslashes(k) + seq![c] + rest;
    let lines = replaced(rest, n, seq!['\n']);
    lemma_front_stays(front, run, n, seq!['\n']);
    lemma_replace_behind_run(k, c, rest, 'n', seq!['\n']);
    if k > 0 && c == 'n' {
        let left = (k - 1) as nat;
        let one = backslashes(left) + seq!['\n'] + lines;
        lemma_front_stays(front, one, q, seq!['"']);
        lemma_replace_behind_run(left, '\n', lines, '"', seq!['"']);
    } else {
        let one = backslashes(k) + seq![c] + lines;
        lemma_front_stays(front, one, q, seq!['"']);
        lemma_replace_behind_run(k, c, lines, '"', seq!['"']);
    }
    let all = backslashes(k);
    lemma_front_stays(front, all, n, seq!['\n']);
    lemma_run_at_the_end(k, 'n', seq!['\n']);
    lemma_front_stays(front, all, q, seq!['"']);
    lemma_run_at_the_end(k, '"', seq!['"']);
}

} // verus!
