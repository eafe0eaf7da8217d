//! The dialogue with a user who started the tool without arguments.

use vstd::prelude::*;
use vstd::utf8::*;

use crate::config::{
    law_preset_names, law_preset_thresholds, preset_picked, ApiKeys, ApiKeysView, AppConfig,
    AppConfigView, Preset, Single, MIN_SILENCE_BITS,
};
use crate::format::AudioFormat;
use crate::output::{clean_path, named_after_source, place_clean_file};
use crate::paths::{sanitize_path, sanitized};
use crate::text::{
    ascii_lower, copy_opt, law_end, law_trim_around, law_what_is_cut, opt_text,
    same_text, starts_with, to_lower, trim, trimmed, unicode_lower, white_space_codes, Edge,
};
use crate::tools::{join2, join3};
use crate::usage::{usage, usage_text};

verus! {

// ---------------------------------------------------------------------------
// Answers
// ---------------------------------------------------------------------------

/// A line without the white space around it.
pub open spec fn bare(line: Seq<char>) -> Seq<char> {
    trimmed(line, Edge::Whitespace)
}

/// The answer, in lower case, means yes.
pub open spec fn means_yes(lowered: Seq<char>) -> bool {
    ||| lowered == "y"@
    ||| lowered == "yes"@
    ||| lowered == "д"@
    ||| lowered == "да"@
    ||| lowered == "1"@
    ||| lowered == "у"@
}

/// Tells whether an answer in lower case means yes.
pub fn is_affirmative(lowered: &str) -> (r: bool)
    ensures
        r == means_yes(lowered@),
{
    same_text(lowered, "y") || same_text(lowered, "yes") || same_text(lowered, "д") || same_text(
        lowered,
        "да",
    ) || same_text(lowered, "1") || same_text(lowered, "у")
}

/// Tells whether the answer on a line means yes.
pub fn says_yes(line: &str) -> (r: bool)
    ensures
        r == means_yes(unicode_lower(bare(line@))),
        is_ascii_chars(bare(line@)) ==> r == means_yes(ascii_lower(bare(line@))),
{
    let answer = trim(line, Edge::Whitespace);
    is_affirmative(to_lower(answer.as_str()).as_str())
}

/// The key on a line, if there is one.
pub open spec fn key_typed(line: Seq<char>) -> Option<Seq<char>> {
    if bare(line).len() == 0 {
        None
    } else {
        Some(bare(line))
    }
}

/// Reads a key from a line.
pub fn read_key(line: &str) -> (r: Option<String>)
    ensures
        opt_text(r) == key_typed(line@),
{
    let key = trim(line, Edge::Whitespace);
    if key.as_str().is_empty() {
        None
    } else {
        Some(key)
    }
}

/// How many bytes of a key are shown.
pub open spec fn preview_len(key: Seq<char>) -> int {
    if encode_utf8(key).len() < 8 {
        encode_utf8(key).len() as int
    } else {
        8
    }
}

/// The bytes of the key that are shown are whole characters.
pub open spec fn previewable(key: Seq<char>) -> bool {
    is_char_boundary(encode_utf8(key), preview_len(key))
}

/// The start of a key that is shown.
pub open spec fn preview(key: Seq<char>) -> Seq<char> {
    decode_utf8(encode_utf8(key).subrange(0, preview_len(key)))
}

/// The notice that a key was found.
pub fn key_notice(key: &str) -> (r: String)
    requires
        previewable(key@),
    ensures
        r@ == "✅ Найден Groq API Key в системе: "@ + preview(key@) + "...\n"@,
{
    let all = key.as_bytes().len();
    let shown: usize = if all < 8 {
        all
    } else {
        8
    };
    let (start, _) = key.split_at(shown);
    proof {
        encode_utf8_decode_utf8(start@);
    }
    join3("✅ Найден Groq API Key в системе: ", start, "...\n")
}

/// Of a key of ASCII characters the first eight are shown, or all where there
/// are fewer.
pub proof fn law_preview_of_ascii_key(key: Seq<char>)
    requires
        is_ascii_chars(key),
    ensures
        previewable(key),
        preview(key) == key.take(if key.len() < 8 {
            key.len() as int
        } else {
            8
        }),
{
    let n = if key.len() < 8 {
        key.len() as int
    } else {
        8
    };
    is_ascii_chars_encode_utf8(key);
    is_ascii_chars_encode_utf8(key.take(n));
    let bytes = encode_utf8(key);
    assert(bytes.subrange(0, n) =~= encode_utf8(key.take(n)));
    encode_utf8_decode_utf8(key.take(n));
    encode_utf8_valid_utf8(key);
    is_char_boundary_start_end_of_seq(bytes);
    if n < bytes.len() {
        is_char_boundary_iff_not_is_continuation_byte(bytes, n);
    }
}

// ---------------------------------------------------------------------------
// The dialogue
// ---------------------------------------------------------------------------

pub const WELCOME: &'static str = "==================================================\n💡 ИНТЕРАКТИВНЫЙ РЕЖИМ (Прямой запуск)\n==================================================\n";

pub const ASK_FILE: &'static str = "👉 Перетащите файл в это окно и нажмите Enter:\n> ";

pub const NO_FILE: &'static str = "Файл не передан. Завершение работы.\n";

pub const PRESET_MENU: &'static str = "\nВыберите пресет чувствительности:\n  [1] normal (-35 dB) - Стандарт для речи (по умолчанию)\n  [2] pure   (-50 dB) - Только абсолютная тишина\n  [3] noisy  (-25 dB) - Агрессивная обрезка (для шума)\n";

pub const ASK_PRESET: &'static str = "Ваш выбор [1-3]: ";

pub const ASK_TRANSCRIPT: &'static str = "\n📝 Выполнить ИИ-расшифровку речи в .txt файл? (y/n / д/н): ";

pub const KEYS_TITLE: &'static str = "\n--------------------------------------------------\n🔑 НАСТРОЙКА ИИ-КЛЮЧЕЙ\n--------------------------------------------------\n";

pub const ASK_GROQ_KEY: &'static str = "👉 Вставьте ваш Groq API Key (gsk_...) и нажмите Enter:\n> ";

pub const ASK_DEEPSEEK_KEY: &'static str = "\n🧠 (Опционально) Введите DeepSeek API Key для пунктуации [Enter - пропустить]:\n> ";

/// What the dialogue waits for, with what is known already.
#[derive(Debug)]
pub enum DialogState {
    File,
    FileCheck { path: String },
    Preset { path: String },
    Transcript { path: String, db: Single },
    GroqKey { path: String, db: Single },
    DeepseekKey { path: String, db: Single, groq: Option<String> },
    Ended,
}

/// What `DialogState` holds.
pub enum DialogStateView {
    File,
    FileCheck { path: Seq<char> },
    Preset { path: Seq<char> },
    Transcript { path: Seq<char>, db: Single },
    GroqKey { path: Seq<char>, db: Single },
    DeepseekKey { path: Seq<char>, db: Single, groq: Option<Seq<char>> },
    Ended,
}

impl View for DialogState {
    type V = DialogStateView;

    open spec fn view(&self) -> DialogStateView {
        match self {
            DialogState::File => DialogStateView::File,
            DialogState::FileCheck { path } => DialogStateView::FileCheck { path: path@ },
            DialogState::Preset { path } => DialogStateView::Preset { path: path@ },
            DialogState::Transcript { path, db } => DialogStateView::Transcript {
                path: path@,
                db: *db,
            },
            DialogState::GroqKey { path, db } => DialogStateView::GroqKey { path: path@, db: *db },
            DialogState::DeepseekKey { path, db, groq } => DialogStateView::DeepseekKey {
                path: path@,
                db: *db,
                groq: opt_text(*groq),
            },
            DialogState::Ended => DialogStateView::Ended,
        }
    }
}

/// What came of asking the user for a line.
#[derive(Debug)]
pub enum Input {
    /// The user entered a line.
    Line(String),
    /// Reading failed for the reason given, after `read`, which is empty as a
    /// rule.
    Failed { reason: String, read: String },
}

impl Input {
    /// What was read.
    pub open spec fn text(self) -> Seq<char> {
        match self {
            Input::Line(line) => line@,
            Input::Failed { read, .. } => read@,
        }
    }
}

/// What came of the last action.
#[derive(Debug)]
pub enum DialogEvent {
    Input(Input),
    /// Whether the file exists.
    FileExists(bool),
}

/// What is to be done next.
#[derive(Debug)]
pub enum DialogAction {
    ReadLine,
    CheckFile(String),
    /// The dialogue ended: there is nothing to do.
    Quit,
    /// The dialogue ended with an error.
    Fail(String),
    /// The dialogue ended: process a recording.
    Run(AppConfig),
}

/// What `DialogAction` holds.
pub enum DialogActionView {
    ReadLine,
    CheckFile(Seq<char>),
    Quit,
    Fail(Seq<char>),
    Run(AppConfigView),
}

impl View for DialogAction {
    type V = DialogActionView;

    open spec fn view(&self) -> DialogActionView {
        match self {
            DialogAction::ReadLine => DialogActionView::ReadLine,
            DialogAction::CheckFile(path) => DialogActionView::CheckFile(path@),
            DialogAction::Quit => DialogActionView::Quit,
            DialogAction::Fail(e) => DialogActionView::Fail(e@),
            DialogAction::Run(config) => DialogActionView::Run(config@),
        }
    }
}

/// What is shown, in this order: a notice, the start of a key that was found,
/// a prompt; and what is to be done then.
#[derive(Debug)]
pub struct DialogReply {
    pub notice: String,
    pub found_key: Option<String>,
    pub prompt: String,
    pub action: DialogAction,
}

/// What `DialogReply` holds.
pub struct DialogReplyView {
    pub notice: Seq<char>,
    pub found_key: Option<Seq<char>>,
    pub prompt: Seq<char>,
    pub action: DialogActionView,
}

impl View for DialogReply {
    type V = DialogReplyView;

    open spec fn view(&self) -> DialogReplyView {
        DialogReplyView {
            notice: self.notice@,
            found_key: opt_text(self.found_key),
            prompt: self.prompt@,
            action: self.action@,
        }
    }
}

/// A dialogue; the keys come from the environment.
#[derive(Debug)]
pub struct Dialog {
    pub env: ApiKeys,
    pub state: DialogState,
}

/// A reply that asks for a line.
pub open spec fn ask(notice: Seq<char>, found_key: Option<Seq<char>>, prompt: Seq<char>) -> DialogReplyView {
    DialogReplyView { notice, found_key, prompt, action: DialogActionView::ReadLine }
}

/// A reply that asks for nothing.
pub open spec fn act(notice: Seq<char>, action: DialogActionView) -> DialogReplyView {
    DialogReplyView { notice, found_key: None, prompt: ""@, action }
}

/// The settings that the dialogue leads to.
pub open spec fn dialog_config(
    path: Seq<char>,
    db: Single,
    ai_transcribe: bool,
    keys: ApiKeysView,
) -> AppConfigView {
    AppConfigView {
        input_path: path,
        output_path: clean_path(path, AudioFormat::Mp3),
        noise_threshold_db: db,
        min_silence_sec: Single { bits: MIN_SILENCE_BITS },
        output_format: AudioFormat::Mp3,
        ai_transcribe,
        keys,
    }
}

/// The start of the dialogue.
pub open spec fn dialog_first(exe_name: Seq<char>) -> DialogReplyView {
    ask(usage(exe_name) + WELCOME@, None, ASK_FILE@)
}

/// The event answers what the state waits for.
pub open spec fn dialog_expects(state: DialogStateView, event: DialogEvent) -> bool {
    match state {
        DialogStateView::FileCheck { .. } => event is FileExists,
        DialogStateView::Ended => false,
        _ => event is Input,
    }
}

/// What follows the answer whether a transcript is wanted.
pub open spec fn dialog_answered(
    env: ApiKeysView,
    path: Seq<char>,
    db: Single,
    yes: bool,
) -> (DialogStateView, DialogReplyView) {
    if !yes {
        (
            DialogStateView::Ended,
            act(""@, DialogActionView::Run(dialog_config(path, db, false, env))),
        )
    } else if env.groq is None {
        (DialogStateView::GroqKey { path, db }, ask(KEYS_TITLE@, None, ASK_GROQ_KEY@))
    } else if env.deepseek is None {
        (
            DialogStateView::DeepseekKey { path, db, groq: env.groq },
            ask(KEYS_TITLE@, env.groq, ASK_DEEPSEEK_KEY@),
        )
    } else {
        (
            DialogStateView::Ended,
            DialogReplyView {
                notice: KEYS_TITLE@,
                found_key: env.groq,
                prompt: ""@,
                action: DialogActionView::Run(dialog_config(path, db, true, env)),
            },
        )
    }
}

/// What follows an event. Only the first question cannot do without a line; at
/// the later ones a failed reading counts as the answer that was read.
pub open spec fn dialog_next(env: ApiKeysView, state: DialogStateView, event: DialogEvent) -> (
    DialogStateView,
    DialogReplyView,
) {
    match (state, event) {
        (DialogStateView::File, DialogEvent::Input(Input::Failed { reason, .. })) => (
            DialogStateView::Ended,
            act(""@, DialogActionView::Fail(reason@)),
        ),
        (DialogStateView::File, DialogEvent::Input(Input::Line(line))) => if bare(line@).len() == 0 {
            (DialogStateView::Ended, act(NO_FILE@, DialogActionView::Quit))
        } else {
            let path = sanitized(line@);
            (
                DialogStateView::FileCheck { path },
                act(""@, DialogActionView::CheckFile(path)),
            )
        },
        (DialogStateView::FileCheck { path }, DialogEvent::FileExists(there)) => if there {
            (DialogStateView::Preset { path }, ask(PRESET_MENU@, None, ASK_PRESET@))
        } else {
            (
                DialogStateView::Ended,
                act(""@, DialogActionView::Fail("Файл не найден: "@ + path)),
            )
        },
        (DialogStateView::Preset { path }, DialogEvent::Input(input)) => (
            DialogStateView::Transcript { path, db: preset_picked(bare(input.text())).db() },
            ask(""@, None, ASK_TRANSCRIPT@),
        ),
        (DialogStateView::Transcript { path, db }, DialogEvent::Input(input)) => dialog_answered(
            env,
            path,
            db,
            means_yes(unicode_lower(bare(input.text()))),
        ),
        (DialogStateView::GroqKey { path, db }, DialogEvent::Input(input)) => {
            let groq = key_typed(input.text());
            if env.deepseek is None {
                (
                    DialogStateView::DeepseekKey { path, db, groq },
                    ask(""@, None, ASK_DEEPSEEK_KEY@),
                )
            } else {
                (
                    DialogStateView::Ended,
                    act(
                        ""@,
                        DialogActionView::Run(
                            dialog_config(path, db, true, ApiKeysView { groq, ..env }),
                        ),
                    ),
                )
            }
        },
        (DialogStateView::DeepseekKey { path, db, groq }, DialogEvent::Input(input)) => (
            DialogStateView::Ended,
            act(
                ""@,
                DialogActionView::Run(
                    dialog_config(
                        path,
                        db,
                        true,
                        ApiKeysView { groq, gemini: env.gemini, deepseek: key_typed(input.text()) },
                    ),
                ),
            ),
        ),
        _ => arbitrary(),
    }
}

fn asking(notice: &str, found_key: Option<String>, prompt: &str) -> (r: DialogReply)
    ensures
        r@ == ask(notice@, opt_text(found_key), prompt@),
{
    DialogReply {
        notice: notice.to_owned(),
        found_key,
        prompt: prompt.to_owned(),
        action: DialogAction::ReadLine,
    }
}

fn acting(notice: &str, action: DialogAction) -> (r: DialogReply)
    ensures
        r@ == act(notice@, action@),
{
    DialogReply { notice: notice.to_owned(), found_key: None, prompt: "".to_owned(), action }
}

fn build_config(path: &String, db: Single, ai_transcribe: bool, keys: ApiKeys) -> (r: AppConfig)
    ensures
        r@ == dialog_config(path@, db, ai_transcribe, keys@),
        named_after_source(r@),
{
    AppConfig {
        input_path: path.clone(),
        output_path: place_clean_file(path.as_str(), AudioFormat::Mp3),
        noise_threshold_db: db,
        min_silence_sec: Single { bits: MIN_SILENCE_BITS },
        output_format: AudioFormat::Mp3,
        ai_transcribe,
        keys,
    }
}

impl Dialog {
    /// Starts a dialogue and says what to show first.
    pub fn start(env: ApiKeys, exe_name: &str) -> (r: (Dialog, DialogReply))
        ensures
            r.0.env == env,
            r.0.state@ == DialogStateView::File,
            r.1@ == dialog_first(exe_name@),
    {
        let mut notice = usage_text(exe_name);
        notice.append(WELCOME);
        let reply = asking(notice.as_str(), None, ASK_FILE);
        (Dialog { env, state: DialogState::File }, reply)
    }

    /// Tells whether an event answers what the dialogue waits for.
    pub fn accepts(&self, event: &DialogEvent) -> (r: bool)
        ensures
            r == dialog_expects(self.state@, *event),
    {
        match (&self.state, event) {
            (DialogState::Ended, _) => false,
            (DialogState::FileCheck { .. }, DialogEvent::FileExists(_)) => true,
            (DialogState::FileCheck { .. }, _) => false,
            (_, DialogEvent::Input(_)) => true,
            _ => false,
        }
    }

    /// Goes on once it is known whether a transcript is wanted.
    pub fn answer_transcript(&mut self, yes: bool) -> (r: DialogReply)
        requires
            old(self).state is Transcript,
        ensures
            final(self).env == old(self).env,
            old(self).state@ matches DialogStateView::Transcript { path, db } ==> (
                final(self).state@,
                r@,
            ) == dialog_answered(old(self).env@, path, db, yes),
            r@.action matches DialogActionView::Run(config) ==> named_after_source(config),
    {
        let (path, db) = match &self.state {
            DialogState::Transcript { path, db } => (path.clone(), *db),
            _ => (String::new(), Single { bits: 0 }),
        };
        let groq = copy_opt(&self.env.groq);
        let gemini = copy_opt(&self.env.gemini);
        let deepseek = copy_opt(&self.env.deepseek);
        if !yes {
            self.state = DialogState::Ended;
            let keys = ApiKeys { groq, gemini, deepseek };
            return acting("", DialogAction::Run(build_config(&path, db, false, keys)));
        }
        if groq.is_none() {
            self.state = DialogState::GroqKey { path, db };
            return asking(KEYS_TITLE, None, ASK_GROQ_KEY);
        }
        let found_key = copy_opt(&groq);
        if deepseek.is_none() {
            self.state = DialogState::DeepseekKey { path, db, groq };
            return asking(KEYS_TITLE, found_key, ASK_DEEPSEEK_KEY);
        }
        self.state = DialogState::Ended;
        let keys = ApiKeys { groq, gemini, deepseek };
        DialogReply {
            notice: KEYS_TITLE.to_owned(),
            found_key,
            prompt: "".to_owned(),
            action: DialogAction::Run(build_config(&path, db, true, keys)),
        }
    }

    /// Goes on with the dialogue.
    pub fn step(&mut self, event: DialogEvent) -> (r: DialogReply)
        requires
            dialog_expects(old(self).state@, event),
        ensures
            final(self).env == old(self).env,
            (final(self).state@, r@) == dialog_next(old(self).env@, old(self).state@, event),
            r@.action matches DialogActionView::Run(config) ==> named_after_source(config),
    {
        match event {
            DialogEvent::FileExists(there) => {
                let path = match &self.state {
                    DialogState::FileCheck { path } => path.clone(),
                    _ => String::new(),
                };
                if there {
                    self.state = DialogState::Preset { path };
                    asking(PRESET_MENU, None, ASK_PRESET)
                } else {
                    self.state = DialogState::Ended;
                    acting("", DialogAction::Fail(join2("Файл не найден: ", path.as_str())))
                }
            },
            DialogEvent::Input(input) => {
                let (line, failure) = match input {
                    Input::Line(line) => (line, None),
                    Input::Failed { reason, read } => (read, Some(reason)),
                };
                match &self.state {
                    DialogState::File => {
                        if let Some(reason) = failure {
                            self.state = DialogState::Ended;
                            return acting("", DialogAction::Fail(reason));
                        }
                        let typed = trim(line.as_str(), Edge::Whitespace);
                        if typed.as_str().is_empty() {
                            self.state = DialogState::Ended;
                            acting(NO_FILE, DialogAction::Quit)
                        } else {
                            let path = sanitize_path(line.as_str());
                            self.state = DialogState::FileCheck { path: path.clone() };
                            acting("", DialogAction::CheckFile(path))
                        }
                    },
                    DialogState::Preset { path } => {
                        let answer = trim(line.as_str(), Edge::Whitespace);
                        let db = Preset::from_answer(answer.as_str()).threshold();
                        self.state = DialogState::Transcript { path: path.clone(), db };
                        asking("", None, ASK_TRANSCRIPT)
                    },
                    DialogState::Transcript { .. } => {
                        let yes = says_yes(line.as_str());
                        self.answer_transcript(yes)
                    },
                    DialogState::GroqKey { path, db } => {
                        let path = path.clone();
                        let db = *db;
                        let groq = read_key(line.as_str());
                        let gemini = copy_opt(&self.env.gemini);
                        let deepseek = copy_opt(&self.env.deepseek);
                        if deepseek.is_none() {
                            self.state = DialogState::DeepseekKey { path, db, groq };
                            asking("", None, ASK_DEEPSEEK_KEY)
                        } else {
                            self.state = DialogState::Ended;
                            let keys = ApiKeys { groq, gemini, deepseek };
                            acting("", DialogAction::Run(build_config(&path, db, true, keys)))
                        }
                    },
                    DialogState::DeepseekKey { path, db, groq } => {
                        let path = path.clone();
                        let db = *db;
                        let keys = ApiKeys {
                            groq: copy_opt(groq),
                            gemini: copy_opt(&self.env.gemini),
                            deepseek: read_key(line.as_str()),
                        };
                        self.state = DialogState::Ended;
                        acting("", DialogAction::Run(build_config(&path, db, true, keys)))
                    },
                    _ => acting("", DialogAction::Quit),
                }
            },
        }
    }
}

// ---------------------------------------------------------------------------
// Laws
// ---------------------------------------------------------------------------

/// How many steps the dialogue can still take at most.
pub open spec fn questions_left(state: DialogStateView) -> nat {
    match state {
        DialogStateView::File => 6,
        DialogStateView::FileCheck { .. } => 5,
        DialogStateView::Preset { .. } => 4,
        DialogStateView::Transcript { .. } => 3,
        DialogStateView::GroqKey { .. } => 2,
        DialogStateView::DeepseekKey { .. } => 1,
        DialogStateView::Ended => 0,
    }
}

/// The action ends the dialogue.
pub open spec fn is_final(action: DialogActionView) -> bool {
    action is Quit || action is Fail || action is Run
}

/// Every step brings the dialogue closer to its end, and it ends exactly when
/// there is nothing to do, an error, or a recording to process.
pub proof fn law_dialogue_ends(env: ApiKeysView, state: DialogStateView, event: DialogEvent)
    requires
        dialog_expects(state, event),
    ensures
        questions_left(dialog_next(env, state, event).0) < questions_left(state),
        dialog_next(env, state, event).0 == DialogStateView::Ended <==> is_final(
            dialog_next(env, state, event).1.action,
        ),
{
}

/// Keys are asked for only when a transcript is wanted, and only those that the
/// environment does not provide.
pub proof fn law_only_missing_keys_are_asked_for(
    env: ApiKeysView,
    path: Seq<char>,
    db: Single,
    yes: bool,
)
    ensures
        dialog_answered(env, path, db, yes).0 is GroqKey ==> yes && env.groq is None,
        dialog_answered(env, path, db, yes).0 is DeepseekKey ==> yes && env.groq is Some
            && env.deepseek is None,
        dialog_answered(env, path, db, yes).0 is Ended <==> !yes || (env.groq is Some
            && env.deepseek is Some),
{
}

/// What would come of every question, and whether the file exists.
pub struct Answers {
    pub file: Input,
    pub exists: bool,
    pub preset: Input,
    pub transcript: Input,
    pub groq: Input,
    pub deepseek: Input,
}

/// What the user answers in a state.
pub open spec fn answer(state: DialogStateView, a: Answers) -> DialogEvent {
    match state {
        DialogStateView::File => DialogEvent::Input(a.file),
        DialogStateView::FileCheck { .. } => DialogEvent::FileExists(a.exists),
        DialogStateView::Preset { .. } => DialogEvent::Input(a.preset),
        DialogStateView::Transcript { .. } => DialogEvent::Input(a.transcript),
        DialogStateView::GroqKey { .. } => DialogEvent::Input(a.groq),
        _ => DialogEvent::Input(a.deepseek),
    }
}

/// The action that ends a dialogue that goes on from a state.
pub open spec fn talk_from(env: ApiKeysView, state: DialogStateView, a: Answers) -> DialogActionView
    decreases questions_left(state),
{
    let (next, reply) = dialog_next(env, state, answer(state, a));
    if is_final(reply.action) || questions_left(next) >= questions_left(state) {
        reply.action
    } else {
        talk_from(env, next, a)
    }
}

/// The key of the environment, or else the one that the user enters.
pub open spec fn key_or_typed(known: Option<Seq<char>>, line: Seq<char>) -> Option<Seq<char>> {
    match known {
        Some(key) => Some(key),
        None => key_typed(line),
    }
}

/// Behind the first question a failed reading means the same as a line with what
/// was read.
pub proof fn law_later_failures_are_answers(
    env: ApiKeysView,
    state: DialogStateView,
    reason: String,
    read: String,
)
    requires
        state !is File,
        dialog_expects(state, DialogEvent::Input(Input::Line(read))),
    ensures
        dialog_next(env, state, DialogEvent::Input(Input::Failed { reason, read }))
            == dialog_next(env, state, DialogEvent::Input(Input::Line(read))),
{
}

/// The dialogue as a whole: what it leads to, in terms of all the answers.
pub proof fn law_dialogue_result(env: ApiKeysView, a: Answers)
    ensures
        talk_from(env, DialogStateView::File, a) == match a.file {
            Input::Failed { reason, .. } => DialogActionView::Fail(reason@),
            Input::Line(line) => if bare(line@).len() == 0 {
                DialogActionView::Quit
            } else if !a.exists {
                DialogActionView::Fail("Файл не найден: "@ + sanitized(line@))
            } else {
                let yes = means_yes(unicode_lower(bare(a.transcript.text())));
                DialogActionView::Run(
                    dialog_config(
                        sanitized(line@),
                        preset_picked(bare(a.preset.text())).db(),
                        yes,
                        if yes {
                            ApiKeysView {
                                groq: key_or_typed(env.groq, a.groq.text()),
                                gemini: env.gemini,
                                deepseek: key_or_typed(env.deepseek, a.deepseek.text()),
                            }
                        } else {
                            env
                        },
                    ),
                )
            },
        },
{
    reveal_with_fuel(talk_from, 6);
}

/// Six words mean yes, in either language, and nothing else does.
pub proof fn law_words_for_yes(lowered: Seq<char>)
    ensures
        means_yes(lowered) <==> seq!["y"@, "yes"@, "д"@, "да"@, "1"@, "у"@].contains(lowered),
{
    let words = seq!["y"@, "yes"@, "д"@, "да"@, "1"@, "у"@];
    assert(words[0] == "y"@ && words[1] == "yes"@ && words[2] == "д"@ && words[3] == "да"@
        && words[4] == "1"@ && words[5] == "у"@);
}

/// A line holds its key without the white space around it, and a blank line holds
/// none.
pub proof fn law_key_on_a_line(before: Seq<char>, key: Seq<char>, after: Seq<char>)
    requires
        forall|i: int|
            0 <= i < before.len() ==> white_space_codes().contains(#[trigger] before[i] as u32),
        forall|i: int|
            0 <= i < after.len() ==> white_space_codes().contains(#[trigger] after[i] as u32),
        key.len() > 0 ==> !white_space_codes().contains(key[0] as u32)
            && !white_space_codes().contains(key.last() as u32),
    ensures
        key_typed(before + key + after) == if key.len() > 0 {
            Some(key)
        } else {
            None
        },
{
    lemma_bare(before, key, after);
}

proof fn lemma_bare(before: Seq<char>, text: Seq<char>, after: Seq<char>)
    requires
        forall|i: int|
            0 <= i < before.len() ==> white_space_codes().contains(#[trigger] before[i] as u32),
        forall|i: int|
            0 <= i < after.len() ==> white_space_codes().contains(#[trigger] after[i] as u32),
        text.len() > 0 ==> !white_space_codes().contains(text[0] as u32)
            && !white_space_codes().contains(text.last() as u32),
    ensures
        bare(before + text + after) == text,
{
    assert forall|i: int| 0 <= i < before.len() implies Edge::Whitespace.covers(
        #[trigger] before[i],
    ) by {
        law_what_is_cut(before[i]);
    }
    assert forall|i: int| 0 <= i < after.len() implies Edge::Whitespace.covers(
        #[trigger] after[i],
    ) by {
        law_what_is_cut(after[i]);
    }
    if text.len() > 0 {
        law_what_is_cut(text[0]);
        law_what_is_cut(text.last());
    }
    law_trim_around(before, text, after, Edge::Whitespace);
}

/// What is asked and shown. Every question of the dialogue has its own words;
/// the menu comes with the question for the preset, the title with the first
/// words about keys, and a key is shown only when it is the one that the
/// environment holds, for a transcript that is wanted.
pub proof fn law_questions(env: ApiKeysView, state: DialogStateView, event: DialogEvent)
    requires
        dialog_expects(state, event),
    ensures
        ({
            let (next, reply) = dialog_next(env, state, event);
            let nothing = Seq::<char>::empty();
            let wanted = state is Transcript && (event matches DialogEvent::Input(input)
                && means_yes(unicode_lower(bare(input.text()))));
            &&& match next {
                DialogStateView::File => false,
                DialogStateView::FileCheck { path } => reply.action == DialogActionView::CheckFile(
                    path,
                ) && reply.prompt == nothing,
                DialogStateView::Preset { .. } => reply.action is ReadLine && reply.notice
                    == PRESET_MENU@ && reply.prompt == "Ваш выбор [1-3]: "@,
                DialogStateView::Transcript { .. } => reply.action is ReadLine && reply.prompt
                    == "\n📝 Выполнить ИИ-расшифровку речи в .txt файл? (y/n / д/н): "@,
                DialogStateView::GroqKey { .. } => reply.action is ReadLine && reply.prompt
                    == "👉 Вставьте ваш Groq API Key (gsk_...) и нажмите Enter:\n> "@,
                DialogStateView::DeepseekKey { .. } => reply.action is ReadLine && reply.prompt
                    == "\n🧠 (Опционально) Введите DeepSeek API Key для пунктуации [Enter - пропустить]:\n> "@,
                DialogStateView::Ended => is_final(reply.action) && reply.prompt == nothing,
            }
            &&& reply.found_key == if wanted {
                env.groq
            } else {
                None
            }
            &&& reply.notice == if next is Preset {
                PRESET_MENU@
            } else if wanted {
                KEYS_TITLE@
            } else if reply.action is Quit {
                NO_FILE@
            } else {
                nothing
            }
        }),
{
    reveal_strlit("");
}

/// Nothing is asked twice and nothing is lost: what is known already is carried
/// along. A file that does not exist is named, and the answer to the menu is
/// the threshold of the preset, in decibels.
pub proof fn law_answers_are_carried_along(
    env: ApiKeysView,
    state: DialogStateView,
    event: DialogEvent,
)
    requires
        dialog_expects(state, event),
    ensures
        ({
            let (next, reply) = dialog_next(env, state, event);
            match state {
                DialogStateView::File => match event {
                    DialogEvent::Input(Input::Line(line)) => if bare(line@).len() == 0 {
                        reply.action is Quit
                    } else {
                        next == (DialogStateView::FileCheck { path: sanitized(line@) })
                    },
                    DialogEvent::Input(Input::Failed { reason, .. }) => reply.action
                        == DialogActionView::Fail(reason@),
                    _ => false,
                },
                DialogStateView::FileCheck { path } => if event == DialogEvent::FileExists(true) {
                    next == (DialogStateView::Preset { path })
                } else {
                    reply.action == DialogActionView::Fail("Файл не найден: "@ + path)
                },
                DialogStateView::Preset { path } => event matches DialogEvent::Input(input) && (next
                    matches DialogStateView::Transcript { path: same, db } && {
                    let answer = bare(input.text());
                    &&& same == path
                    &&& seq!["2"@, "pure"@].contains(answer) ==> db.is_whole(-50)
                    &&& seq!["3"@, "noisy"@].contains(answer) ==> db.is_whole(-25)
                    &&& !seq!["2"@, "pure"@, "3"@, "noisy"@].contains(answer) ==> db.is_whole(-35)
                }),
                DialogStateView::Transcript { path, db } => match next {
                    DialogStateView::GroqKey { path: p, db: d } => p == path && d == db
                        && env.groq is None,
                    DialogStateView::DeepseekKey { path: p, db: d, groq } => p == path && d == db
                        && groq == env.groq && groq is Some,
                    _ => reply.action matches DialogActionView::Run(config) && config.input_path
                        == path && config.noise_threshold_db == db && config.keys == env,
                },
                DialogStateView::GroqKey { path, db } => event matches DialogEvent::Input(input)
                    && match next {
                    DialogStateView::DeepseekKey { path: p, db: d, groq } => p == path && d == db
                        && groq == key_typed(input.text()) && env.deepseek is None,
                    _ => reply.action matches DialogActionView::Run(config) && config.input_path
                        == path && config.noise_threshold_db == db && config.keys.groq == key_typed(
                        input.text(),
                    ) && config.keys.deepseek == env.deepseek && env.deepseek is Some,
                },
                DialogStateView::DeepseekKey { path, db, groq } => event matches DialogEvent::Input(
                    input,
                ) && (reply.action matches DialogActionView::Run(config) && config.input_path
                    == path && config.noise_threshold_db == db && config.keys.groq == groq
                    && config.keys.deepseek == key_typed(input.text())),
                DialogStateView::Ended => false,
            }
        }),
{
    match (state, event) {
        (DialogStateView::Preset { path }, DialogEvent::Input(input)) => {
            let answer = bare(input.text());
            law_preset_names(answer);
            law_preset_thresholds(Preset::Pure);
            law_preset_thresholds(Preset::Normal);
            law_preset_thresholds(Preset::Noisy);
            let second = seq!["2"@, "pure"@];
            let third = seq!["3"@, "noisy"@];
            let all = seq!["2"@, "pure"@, "3"@, "noisy"@];
            assert(second[0] == all[0] && second[1] == all[1]);
            assert(third[0] == all[2] && third[1] == all[3]);
        },
        _ => {},
    }
}

/// The next state waits for an answer to what was asked.
pub proof fn law_every_question_is_answered(
    env: ApiKeysView,
    state: DialogStateView,
    event: DialogEvent,
    reply: DialogEvent,
)
    requires
        dialog_expects(state, event),
    ensures
        ({
            let (next, shown) = dialog_next(env, state, event);
            dialog_expects(next, reply) <==> match shown.action {
                DialogActionView::ReadLine => reply is Input,
                DialogActionView::CheckFile(_) => reply is FileExists,
                _ => false,
            }
        }),
{
}

/// The settings that the answers lead to, one by one: the recording is the path
/// as it was meant, which was looked for and exists; the threshold is that of the
/// menu; the shortest pause is the default one; an MP3 file is written beside the
/// recording; a transcript is made exactly where the answer was yes; and a key is
/// the one of the environment, or else, for a transcript, the one that was typed.
pub proof fn law_answers_become_settings(env: ApiKeysView, a: Answers)
    ensures
        talk_from(env, DialogStateView::File, a) matches DialogActionView::Run(config) ==> {
            let answer = bare(a.preset.text());
            let yes = seq!["y"@, "yes"@, "д"@, "да"@, "1"@, "у"@].contains(
                unicode_lower(bare(a.transcript.text())),
            );
            &&& a.file matches Input::Line(line) && config.input_path == sanitized(line@)
            &&& a.exists
            &&& seq!["2"@, "pure"@].contains(answer) ==> config.noise_threshold_db.is_whole(-50)
            &&& seq!["3"@, "noisy"@].contains(answer) ==> config.noise_threshold_db.is_whole(-25)
            &&& !seq!["2"@, "pure"@, "3"@, "noisy"@].contains(answer)
                ==> config.noise_threshold_db.is_whole(-35)
            &&& config.min_silence_sec == (Single { bits: MIN_SILENCE_BITS })
            &&& config.output_format == AudioFormat::Mp3
            &&& config.output_path == clean_path(config.input_path, AudioFormat::Mp3)
            &&& config.ai_transcribe == yes
            &&& config.keys.gemini == env.gemini
            &&& env.groq is Some || !yes ==> config.keys.groq == env.groq
            &&& env.groq is None && yes ==> config.keys.groq == key_typed(a.groq.text())
            &&& env.deepseek is Some || !yes ==> config.keys.deepseek == env.deepseek
            &&& env.deepseek is None && yes ==> config.keys.deepseek == key_typed(
                a.deepseek.text(),
            )
        },
{
    law_dialogue_result(env, a);
    law_words_for_yes(unicode_lower(bare(a.transcript.text())));
    let answer = bare(a.preset.text());
    law_preset_names(answer);
    law_preset_thresholds(Preset::Pure);
    law_preset_thresholds(Preset::Normal);
    law_preset_thresholds(Preset::Noisy);
    let second = seq!["2"@, "pure"@];
    let third = seq!["3"@, "noisy"@];
    let all = seq!["2"@, "pure"@, "3"@, "noisy"@];
    assert(second[0] == all[0] && second[1] == all[1]);
    assert(third[0] == all[2] && third[1] == all[3]);
}

/// The dialogue starts with the manual and asks for the recording.
pub proof fn law_dialogue_starts(exe_name: Seq<char>, event: DialogEvent)
    ensures
        ({
            let first = dialog_first(exe_name);
            &&& starts_with(first.notice, usage(exe_name))
            &&& first.prompt == "👉 Перетащите файл в это окно и нажмите Enter:\n> "@
            &&& first.found_key is None
            &&& first.action is ReadLine
        }),
        dialog_expects(DialogStateView::File, event) <==> event is Input,
{
    law_end(usage(exe_name), WELCOME@);
}

/// What was read is the line, or what was read before the reading failed.
pub proof fn law_what_was_read(input: Input)
    ensures
        match input {
            Input::Line(line) => input.text() == line@,
            Input::Failed { read, .. } => input.text() == read@,
        },
{
}

/// What is shown of a key are its first eight bytes, or all of them where there
/// are fewer, wherever those are whole characters; less is never shown.
pub proof fn law_preview_is_the_start(key: Seq<char>)
    ensures
        previewable(key) <==> is_char_boundary(
            encode_utf8(key),
            if encode_utf8(key).len() < 8 {
                encode_utf8(key).len() as int
            } else {
                8
            },
        ),
        previewable(key) ==> starts_with(key, preview(key)),
        previewable(key) ==> encode_utf8(preview(key)) == encode_utf8(key).take(
            if encode_utf8(key).len() < 8 {
                encode_utf8(key).len() as int
            } else {
                8
            },
        ),
{
    let bytes = encode_utf8(key);
    let n = preview_len(key);
    encode_utf8_valid_utf8(key);
    if previewable(key) {
        valid_utf8_split(bytes, n);
        decode_utf8_encode_utf8(bytes.subrange(0, n));
        decode_utf8_split(bytes, n);
        encode_utf8_decode_utf8(key);
        law_end(preview(key), decode_utf8(bytes.subrange(n, bytes.len() as int)));
        assert(bytes.subrange(0, n) =~= bytes.take(n));
    }
}

} // verus!
