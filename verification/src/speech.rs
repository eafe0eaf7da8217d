//! Speech to text: the request to the Groq Whisper service and its reply.

use vstd::prelude::*;
use vstd::utf8::*;

use crate::text::{
    backslashes, chars_of, decode_lossy, find, find_from, holds, law_absent_pattern, law_find_first,
    law_nothing_to_replace, lemma_find_is, lemma_front_stays, lemma_halve_run,
    lemma_occurs_char, lemma_pair_absent, lemma_parts_without, lemma_replace_behind_run,
    lemma_replace_pair_hit, lemma_replace_pair_miss, lemma_run_at_the_end, lemma_same_inside,
    occurs_at, one, replace, replaced, result_text, string_of, two, utf8_lossy,
};
use crate::tools::{join2, join3, stdout_of, CommandLine, CommandLineView, ToolRun};

verus! {

/// Shown when the transcription starts.
pub open spec fn transcribing_note() -> Seq<char> {
    "⚡ Выполняем сверхбыстрое распознавание речи через Groq Whisper API...\n"@
}

/// The call that sends a recording to the service.
pub open spec fn groq_call(audio_path: Seq<char>, api_key: Seq<char>) -> CommandLineView {
    CommandLineView {
        program: "curl"@,
        args: seq![
            "-s"@,
            "-X"@,
            "POST"@,
            "https://api.groq.com/openai/v1/audio/transcriptions"@,
            "-H"@,
            "Authorization: Bearer "@ + api_key,
            "-F"@,
            "file=@"@ + audio_path,
            "-F"@,
            "model=whisper-large-v3"@,
            "-F"@,
            "response_format=json"@,
        ],
    }
}

/// The text between the quotation marks that follow the first colon behind the
/// first `"text"` of a reply.
pub open spec fn text_field(reply: Seq<char>) -> Option<Seq<char>> {
    match find_from(reply, "\"text\""@, 0) {
        Some(key) => match find_from(reply, seq![':'], key) {
            Some(colon) => match find_from(reply, seq!['"'], colon + 1) {
                Some(open) => match find_from(reply, seq!['"'], open + 1) {
                    Some(close) => Some(reply.subrange(open + 1, close)),
                    None => None,
                },
                None => None,
            },
            None => None,
        },
        None => None,
    }
}

/// A text with the escapes of the service undone: line breaks, then quotation
/// marks, then backslashes.
pub open spec fn unescaped(raw: Seq<char>) -> Seq<char> {
    replaced(
        replaced(replaced(raw, seq!['\\', 'n'], seq!['\n']), seq!['\\', '"'], seq!['"']),
        seq!['\\', '\\'],
        seq!['\\'],
    )
}

/// The transcript that a reply carries, or the message that it carries none.
pub open spec fn transcript(reply: Seq<char>) -> Result<Seq<char>, Seq<char>> {
    match text_field(reply) {
        Some(raw) => Ok(unescaped(raw)),
        None => Err("Не удалось распарсить ответ от Groq API:\n"@ + reply),
    }
}

/// The outcome of a call whose standard output, as text, is `reply`.
pub open spec fn transcription(run: ToolRun, reply: Seq<char>) -> Result<Seq<char>, Seq<char>> {
    match run {
        ToolRun::NotStarted(e) => Err(
            "Ошибка вызова curl: "@ + e@ + ". Убедитесь, что curl установлен."@,
        ),
        ToolRun::Exited { success, .. } => if success {
            transcript(reply)
        } else {
            Err("Ошибка при отправке HTTP-запроса в Groq API через curl."@)
        },
    }
}

/// The note shown when the transcription starts.
pub fn transcribing_note_text() -> (r: String)
    ensures
        r@ == transcribing_note(),
{
    "⚡ Выполняем сверхбыстрое распознавание речи через Groq Whisper API...\n".to_owned()
}

/// Builds the call that sends a recording to the service.
pub fn groq_command(audio_path: &str, api_key: &str) -> (r: CommandLine)
    ensures
        r@ == groq_call(audio_path@, api_key@),
{
    let mut args: Vec<String> = Vec::new();
    args.push("-s".to_owned());
    args.push("-X".to_owned());
    args.push("POST".to_owned());
    args.push("https://api.groq.com/openai/v1/audio/transcriptions".to_owned());
    args.push("-H".to_owned());
    args.push(join2("Authorization: Bearer ", api_key));
    args.push("-F".to_owned());
    args.push(join2("file=@", audio_path));
    args.push("-F".to_owned());
    args.push("model=whisper-large-v3".to_owned());
    args.push("-F".to_owned());
    args.push("response_format=json".to_owned());
    let r = CommandLine { program: "curl".to_owned(), args };
    assert(r@.args =~= groq_call(audio_path@, api_key@).args);
    r
}

/// Undoes the escapes of the service.
fn unescape(raw: &Vec<char>) -> (r: Vec<char>)
    ensures
        r@ == unescaped(raw@),
{
    let lines = replace(raw, &two('\\', 'n'), &one('\n'));
    let quotes = replace(&lines, &two('\\', '"'), &one('"'));
    replace(&quotes, &two('\\', '\\'), &one('\\'))
}

/// Reads the transcript out of a reply.
pub fn read_transcript(reply: &str) -> (r: Result<String, String>)
    ensures
        result_text(r) == transcript(reply@),
{
    let t = chars_of(reply);
    let key = chars_of("\"text\"");
    let colon_mark: Vec<char> = one(':');
    let quote: Vec<char> = one('"');
    if let Some(at) = find(&t, &key, 0) {
        if let Some(colon) = find(&t, &colon_mark, at) {
            if let Some(open) = find(&t, &quote, colon + 1) {
                if let Some(close) = find(&t, &quote, open + 1) {
                    let raw = chars_of(string_of(&t, open + 1, close).as_str());
                    let clean = unescape(&raw);
                    let out = string_of(&clean, 0, clean.len());
                    assert(out@ =~= clean@);
                    return Ok(out);
                }
            }
        }
    }
    Err(join2("Не удалось распарсить ответ от Groq API:\n", reply))
}

/// Reads the outcome of the call to the service.
pub fn transcribe_with_groq(run: &ToolRun) -> (r: Result<String, String>)
    ensures
        result_text(r) == transcription(*run, utf8_lossy(stdout_of(*run))),
        valid_utf8(stdout_of(*run)) ==> result_text(r) == transcription(
            *run,
            decode_utf8(stdout_of(*run)),
        ),
{
    match run {
        ToolRun::NotStarted(e) => Err(
            join3("Ошибка вызова curl: ", e.as_str(), ". Убедитесь, что curl установлен."),
        ),
        ToolRun::Exited { success, stdout, .. } => {
            if *success {
                let reply = decode_lossy(stdout);
                read_transcript(reply.as_str())
            } else {
                Err("Ошибка при отправке HTTP-запроса в Groq API через curl.".to_owned())
            }
        },
    }
}

// ---------------------------------------------------------------------------
// Laws
// ---------------------------------------------------------------------------

/// A reply with a field `"text"`: anything before it, space around its colon,
/// its value, and anything after it.
pub open spec fn reply_with_text(
    before: Seq<char>,
    gap: Seq<char>,
    space: Seq<char>,
    value: Seq<char>,
    after: Seq<char>,
) -> Seq<char> {
    before + "\"text\""@ + gap + seq![':'] + space + seq!['"'] + value + seq!['"'] + after
}

/// The value of the first field `"text"` is the transcript, with its escapes
/// undone; a value without a backslash is the transcript as it stands. The
/// value holds no quotation mark.
pub proof fn law_reply_carries_transcript(
    before: Seq<char>,
    gap: Seq<char>,
    space: Seq<char>,
    value: Seq<char>,
    after: Seq<char>,
)
    requires
        forall|j: int|
            0 <= j < before.len() ==> !occurs_at(
                reply_with_text(before, gap, space, value, after),
                "\"text\""@,
                j,
            ),
        !gap.contains(':'),
        !space.contains('"'),
        !value.contains('"'),
    ensures
        transcript(reply_with_text(before, gap, space, value, after)) == Ok::<_, Seq<char>>(
            unescaped(value),
        ),
        !value.contains('\\') ==> unescaped(value) == value,
{
    let reply = reply_with_text(before, gap, space, value, after);
    let key = "\"text\""@;
    reveal_strlit("\"text\"");
    let at = before.len() as int;
    assert(reply.subrange(at, at + key.len()) =~= key);
    lemma_find_is(reply, key, 0, at);

    let colon = at + key.len() + gap.len();
    assert(reply[colon] == ':');
    assert forall|j: int| at <= j < colon implies !occurs_at(reply, seq![':'], j) by {
        lemma_occurs_char(reply, ':', j);
        if j < at + key.len() {
            assert(reply[j] == key[j - at]);
        } else {
            assert(reply[j] == gap[j - at - key.len()]);
        }
    }
    lemma_occurs_char(reply, ':', colon);
    lemma_find_is(reply, seq![':'], at, colon);

    let open = colon + 1 + space.len();
    assert(reply[open] == '"');
    assert forall|j: int| colon + 1 <= j < open implies !occurs_at(reply, seq!['"'], j) by {
        lemma_occurs_char(reply, '"', j);
        assert(reply[j] == space[j - colon - 1]);
    }
    lemma_occurs_char(reply, '"', open);
    lemma_find_is(reply, seq!['"'], colon + 1, open);

    let close = open + 1 + value.len();
    assert(reply[close] == '"');
    assert forall|j: int| open + 1 <= j < close implies !occurs_at(reply, seq!['"'], j) by {
        lemma_occurs_char(reply, '"', j);
        assert(reply[j] == value[j - open - 1]);
    }
    lemma_occurs_char(reply, '"', close);
    lemma_find_is(reply, seq!['"'], open + 1, close);

    assert(reply.subrange(open + 1, close) =~= value);
    if !value.contains('\\') {
        law_nothing_to_replace(value, seq!['\\', 'n'], seq!['\n']);
        law_nothing_to_replace(value, seq!['\\', '"'], seq!['"']);
        law_nothing_to_replace(value, seq!['\\', '\\'], seq!['\\']);
    }
}

/// How the service writes a character of a text.
pub open spec fn written_char(c: char) -> Seq<char> {
    if c == '\\' {
        seq!['\\', '\\']
    } else if c == '"' {
        seq!['\\', '"']
    } else if c == '\n' {
        seq!['\\', 'n']
    } else {
        seq![c]
    }
}

/// How the service writes a text.
pub open spec fn written(t: Seq<char>) -> Seq<char>
    decreases t.len(),
{
    if t.len() == 0 {
        t
    } else {
        written_char(t[0]) + written(t.skip(1))
    }
}

/// Somewhere in the text a backslash stands before the letter n.
pub open spec fn misleading(t: Seq<char>) -> bool {
    exists|i: int| 0 <= i < t.len() - 1 && #[trigger] t[i] == '\\' && t[i + 1] == 'n'
}

/// The text with its backslashes, and where `quotes` is set its quotation marks
/// too, written as the service does.
spec fn half_written(t: Seq<char>, quotes: bool) -> Seq<char>
    decreases t.len(),
{
    if t.len() == 0 {
        t
    } else {
        let c = t[0];
        (if c == '\\' || (c == '"' && quotes) {
            written_char(c)
        } else {
            seq![c]
        }) + half_written(t.skip(1), quotes)
    }
}

proof fn lemma_lines_undone(t: Seq<char>)
    requires
        !misleading(t),
    ensures
        replaced(written(t), seq!['\\', 'n'], seq!['\n']) == half_written(t, true),
    decreases t.len(),
{
    let line = seq!['\n'];
    if t.len() > 0 {
        let c = t[0];
        let rest = t.skip(1);
        if misleading(rest) {
            let i = choose|i: int|
                0 <= i < rest.len() - 1 && #[trigger] rest[i] == '\\' && rest[i + 1] == 'n';
            assert(t[i + 1] == '\\' && t[i + 2] == 'n');
        }
        lemma_lines_undone(rest);
        let w = written(rest);
        let done = half_written(rest, true);
        if c == '\n' {
            lemma_replace_pair_hit('\\', 'n', w, line);
        } else if c == '\\' {
            if rest.len() > 0 {
                assert(t[0] == '\\' && t[1] == rest[0]);
                assert(w[0] == written_char(rest[0])[0]);
                assert(w[0] != 'n');
            }
            lemma_replace_pair_miss('\\', '\\', 'n', w, line);
            lemma_replace_pair_miss('\\', '\\', 'n', seq!['\\'] + w, line);
            assert(seq!['\\'] + (seq!['\\'] + w) =~= written(t));
            assert(seq!['\\'] + (seq!['\\'] + done) =~= half_written(t, true));
        } else if c == '"' {
            lemma_replace_pair_miss('"', '\\', 'n', w, line);
            lemma_replace_pair_miss('\\', '\\', 'n', seq!['"'] + w, line);
            assert(seq!['\\'] + (seq!['"'] + w) =~= written(t));
            assert(seq!['\\'] + (seq!['"'] + done) =~= half_written(t, true));
        } else {
            lemma_replace_pair_miss(c, '\\', 'n', w, line);
        }
    }
}

proof fn lemma_quotes_undone(t: Seq<char>)
    ensures
        replaced(half_written(t, true), seq!['\\', '"'], seq!['"']) == half_written(t, false),
    decreases t.len(),
{
    let quote = seq!['"'];
    if t.len() > 0 {
        let c = t[0];
        let rest = t.skip(1);
        lemma_quotes_undone(rest);
        let w = half_written(rest, true);
        let done = half_written(rest, false);
        if c == '"' {
            lemma_replace_pair_hit('\\', '"', w, quote);
        } else if c == '\\' {
            if rest.len() > 0 {
                assert(w[0] != '"');
            }
            lemma_replace_pair_miss('\\', '\\', '"', w, quote);
            lemma_replace_pair_miss('\\', '\\', '"', seq!['\\'] + w, quote);
            assert(seq!['\\'] + (seq!['\\'] + w) =~= half_written(t, true));
            assert(seq!['\\'] + (seq!['\\'] + done) =~= half_written(t, false));
        } else {
            lemma_replace_pair_miss(c, '\\', '"', w, quote);
        }
    }
}

proof fn lemma_backslashes_undone(t: Seq<char>)
    ensures
        replaced(half_written(t, false), seq!['\\', '\\'], seq!['\\']) == t,
    decreases t.len(),
{
    if t.len() > 0 {
        let c = t[0];
        let rest = t.skip(1);
        lemma_backslashes_undone(rest);
        let w = half_written(rest, false);
        if c == '\\' {
            lemma_replace_pair_hit('\\', '\\', w, seq!['\\']);
        } else {
            lemma_replace_pair_miss(c, '\\', '\\', w, seq!['\\']);
        }
        assert(seq![c] + rest =~= t);
    }
}

/// Undoing the escapes gives back the text that the service wrote: every line
/// break, every quotation mark and every backslash of it. Only a backslash
/// before the letter n is taken for a line break.
pub proof fn law_written_text_is_read(t: Seq<char>)
    requires
        !misleading(t),
    ensures
        unescaped(written(t)) == t,
{
    lemma_lines_undone(t);
    lemma_quotes_undone(t);
    lemma_backslashes_undone(t);
}

/// A backslash that starts none of the three escapes stays, with what follows it.
pub proof fn law_other_escapes_stay(raw: Seq<char>)
    requires
        forall|i: int|
            0 <= i < raw.len() - 1 && #[trigger] raw[i] == '\\' ==> raw[i + 1] != 'n' && raw[i + 1]
                != '"' && raw[i + 1] != '\\',
    ensures
        unescaped(raw) == raw,
{
    lemma_pair_absent(raw, 'n');
    lemma_pair_absent(raw, '"');
    lemma_pair_absent(raw, '\\');
    law_absent_pattern(raw, seq!['\\', 'n'], seq!['\n']);
    law_absent_pattern(raw, seq!['\\', '"'], seq!['"']);
    law_absent_pattern(raw, seq!['\\', '\\'], seq!['\\']);
}

proof fn lemma_written_without_quotes(t: Seq<char>)
    requires
        !t.contains('"'),
    ensures
        !written(t).contains('"'),
    decreases t.len(),
{
    if t.len() > 0 {
        let rest = t.skip(1);
        assert(t.contains(t[0]));
        if rest.contains('"') {
            let i = choose|i: int| 0 <= i < rest.len() && rest[i] == '"';
            assert(t[i + 1] == '"');
        }
        lemma_written_without_quotes(rest);
        let head = written_char(t[0]);
        assert(!head.contains('"')) by {
            if head.contains('"') {
                let i = choose|i: int| 0 <= i < head.len() && head[i] == '"';
                assert(i == 0 || i == 1);
            }
        }
        lemma_parts_without(head, written(rest), '"');
    }
}

/// What was said is what is read: a service that heard a text, and puts it into
/// the field `"text"` of its reply, gives that very text as the transcript, with
/// all its lines. The text holds no quotation mark and no backslash before the
/// letter n.
pub proof fn law_spoken_text_comes_back(
    before: Seq<char>,
    gap: Seq<char>,
    space: Seq<char>,
    t: Seq<char>,
    after: Seq<char>,
    run: ToolRun,
)
    requires
        forall|j: int|
            0 <= j < before.len() ==> !occurs_at(
                reply_with_text(before, gap, space, written(t), after),
                "\"text\""@,
                j,
            ),
        !gap.contains(':'),
        !space.contains('"'),
        !t.contains('"'),
        !misleading(t),
        run matches ToolRun::Exited { success, .. } && success,
    ensures
        transcript(reply_with_text(before, gap, space, written(t), after)) == Ok::<_, Seq<char>>(
            t,
        ),
        transcription(run, reply_with_text(before, gap, space, written(t), after)) == Ok::<
            _,
            Seq<char>,
        >(t),
{
    lemma_written_without_quotes(t);
    law_reply_carries_transcript(before, gap, space, written(t), after);
    law_written_text_is_read(t);
}

/// A transcript is only read out of a reply that carries one: a first field
/// `"text"`, a colon behind it, and a value between quotation marks behind that.
/// Any other reply is refused, and the message shows it.
pub proof fn law_transcript_was_in_the_reply(reply: Seq<char>)
    ensures
        match transcript(reply) {
            Ok(text) => exists|
                before: Seq<char>,
                gap: Seq<char>,
                space: Seq<char>,
                value: Seq<char>,
                after: Seq<char>,
            |
                {
                    &&& reply == #[trigger] reply_with_text(before, gap, space, value, after)
                    &&& text == unescaped(value)
                    &&& !gap.contains(':')
                    &&& !space.contains('"')
                    &&& !value.contains('"')
                },
            Err(message) => message == "Не удалось распарсить ответ от Groq API:\n"@ + reply,
        },
{
    let key = "\"text\""@;
    reveal_strlit("\"text\"");
    law_find_first(reply, key, 0);
    match transcript(reply) {
        Err(_) => {},
        Ok(text) => {
            let at = find_from(reply, key, 0).unwrap();
            law_find_first(reply, seq![':'], at);
            let colon = find_from(reply, seq![':'], at).unwrap();
            lemma_occurs_char(reply, ':', colon);
            law_find_first(reply, seq!['"'], colon + 1);
            let open = find_from(reply, seq!['"'], colon + 1).unwrap();
            lemma_occurs_char(reply, '"', open);
            law_find_first(reply, seq!['"'], open + 1);
            let close = find_from(reply, seq!['"'], open + 1).unwrap();
            lemma_occurs_char(reply, '"', close);
            assert(reply.subrange(at, at + 6) == key);
            assert forall|j: int| at <= j < at + 6 implies reply[j] != ':' by {
                assert(reply[j] == reply.subrange(at, at + 6)[j - at]);
            }
            assert(at + 6 <= colon);
            let before = reply.take(at);
            let gap = reply.subrange(at + 6, colon);
            let space = reply.subrange(colon + 1, open);
            let value = reply.subrange(open + 1, close);
            let after = reply.skip(close + 1);
            assert(!gap.contains(':')) by {
                if gap.contains(':') {
                    let j = choose|j: int| 0 <= j < gap.len() && gap[j] == ':';
                    lemma_occurs_char(reply, ':', at + 6 + j);
                }
            }
            assert(!space.contains('"')) by {
                if space.contains('"') {
                    let j = choose|j: int| 0 <= j < space.len() && space[j] == '"';
                    lemma_occurs_char(reply, '"', colon + 1 + j);
                }
            }
            assert(!value.contains('"')) by {
                if value.contains('"') {
                    let j = choose|j: int| 0 <= j < value.len() && value[j] == '"';
                    lemma_occurs_char(reply, '"', open + 1 + j);
                }
            }
            assert(reply =~= before + reply.subrange(at, at + 6) + gap + seq![':'] + space
                + seq!['"'] + value + seq!['"'] + after);
            assert(reply == reply_with_text(before, gap, space, value, after));
        },
    }
}

/// A call that failed gives no transcript, whatever it printed, and where it was
/// never made the message tells why.
pub proof fn law_failed_call_gives_no_transcript(run: ToolRun, reply: Seq<char>)
    requires
        !(run matches ToolRun::Exited { success, .. } && success),
    ensures
        transcription(run, reply) == Err::<Seq<char>, _>(
            match run {
                ToolRun::NotStarted(e) => "Ошибка вызова curl: "@ + e@
                    + ". Убедитесь, что curl установлен."@,
                _ => "Ошибка при отправке HTTP-запроса в Groq API через curl."@,
            },
        ),
{
}

/// The recording goes to the speech service as the file of a form, with the key
/// in its header and the answer asked for as JSON; nothing else of the request
/// depends on either.
pub proof fn law_speech_call(audio_path: Seq<char>, api_key: Seq<char>)
    ensures
        ({
            let call = groq_call(audio_path, api_key);
            &&& call.program == "curl"@
            &&& call.args.len() == 12
            &&& call.args.contains("https://api.groq.com/openai/v1/audio/transcriptions"@)
            &&& call.args[4] == "-H"@
            &&& call.args[5] == "Authorization: Bearer "@ + api_key
            &&& call.args[6] == "-F"@
            &&& call.args[7] == "file=@"@ + audio_path
            &&& call.args[8] == "-F"@
            &&& call.args[9] == "model=whisper-large-v3"@
            &&& call.args[10] == "-F"@
            &&& call.args[11] == "response_format=json"@
            &&& forall|path: Seq<char>, key: Seq<char>, i: int|
                0 <= i < 12 && i != 5 && i != 7 ==> #[trigger] groq_call(path, key).args[i]
                    == call.args[i]
        }),
{
    let args = groq_call(audio_path, api_key).args;
    assert(args[3] == "https://api.groq.com/openai/v1/audio/transcriptions"@);
}

/// Another recording or another key makes another call.
pub proof fn law_speech_calls_differ(
    path: Seq<char>,
    key: Seq<char>,
    path2: Seq<char>,
    key2: Seq<char>,
)
    ensures
        groq_call(path, key) == groq_call(path2, key2) <==> path == path2 && key == key2,
{
    let a = groq_call(path, key).args;
    let b = groq_call(path2, key2).args;
    lemma_same_inside("Authorization: Bearer "@, key, key2, Seq::empty());
    lemma_same_inside("file=@"@, path, path2, Seq::empty());
    assert(a[5] + Seq::<char>::empty() =~= a[5]);
    assert(b[5] + Seq::<char>::empty() =~= b[5]);
    assert(a[7] + Seq::<char>::empty() =~= a[7]);
    assert(b[7] + Seq::<char>::empty() =~= b[7]);
}

/// A reply without a field `"text"` is refused, and the message shows it.
pub proof fn law_reply_without_text_is_refused(reply: Seq<char>)
    requires
        forall|j: int| !occurs_at(reply, "\"text\""@, j),
    ensures
        transcript(reply) == Err::<Seq<char>, _>(
            "Не удалось распарсить ответ от Groq API:\n"@ + reply,
        ),
{
    law_find_first(reply, "\"text\""@, 0);
}

/// A call that succeeded is read by its reply alone.
pub proof fn law_successful_call_is_read(run: ToolRun, reply: Seq<char>)
    requires
        run matches ToolRun::Exited { success, .. } && success,
    ensures
        transcription(run, reply) == transcript(reply),
{
}

/// How any text of the service is read: what holds no backslash stays; of a run
/// of backslashes the last one makes, with an n or a quotation mark behind the
/// run, a line break or the quotation mark, and the backslashes that are left are
/// halved, rounded up; then the reading goes on.
pub proof fn law_reading_goes_on(front: Seq<char>, k: nat, c: char, rest: Seq<char>)
    requires
        !front.contains('\\'),
        c != '\\',
    ensures
        ({
            let escape = k > 0 && (c == 'n' || c == '"');
            let left = if escape {
                (k - 1) as nat
            } else {
                k
            };
            let shown = if escape && c == 'n' {
                '\n'
            } else {
                c
            };
            unescaped(front + (backslashes(k) + seq![c] + rest)) == front + (backslashes(
                (left + 1) / 2,
            ) + seq![shown] + unescaped(rest))
        }),
        unescaped(front + backslashes(k)) == front + backslashes((k + 1) / 2),
{
    let n = seq!['\\', 'n'];
    let q = seq!['\\', '"'];
    let b = seq!['\\', '\\'];
    let run = backslashes(k) + seq![c] + rest;
    let lines = replaced(rest, n, seq!['\n']);
    let quotes = replaced(lines, q, seq!['"']);
    lemma_front_stays(front, run, n, seq!['\n']);
    lemma_replace_behind_run(k, c, rest, 'n', seq!['\n']);
    let escape = k > 0 && (c == 'n' || c == '"');
    let left = if escape {
        (k - 1) as nat
    } else {
        k
    };
    let shown = if escape && c == 'n' {
        '\n'
    } else {
        c
    };
    if k > 0 && c == 'n' {
        let one = backslashes(left) + seq!['\n'] + lines;
        lemma_front_stays(front, one, q, seq!['"']);
        lemma_replace_behind_run(left, '\n', lines, '"', seq!['"']);
    } else {
        let one = backslashes(k) + seq![c] + lines;
        lemma_front_stays(front, one, q, seq!['"']);
        lemma_replace_behind_run(k, c, lines, '"', seq!['"']);
    }
    let two = backslashes(left) + seq![shown] + quotes;
    lemma_front_stays(front, two, b, seq!['\\']);
    lemma_halve_run(left, shown, quotes);
    let all = backslashes(k);
    lemma_front_stays(front, all, n, seq!['\n']);
    lemma_run_at_the_end(k, 'n', seq!['\n']);
    lemma_front_stays(front, all, q, seq!['"']);
    lemma_run_at_the_end(k, '"', seq!['"']);
    lemma_front_stays(front, all, b, seq!['\\']);
}

} // verus!
