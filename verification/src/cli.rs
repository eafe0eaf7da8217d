//! The command line: which words it knows, what they set, and what a run needs.

use vstd::prelude::*;
use vstd::utf8::*;

use crate::config::{
    law_preset_names, law_preset_thresholds, preset_named, ApiKeys, ApiKeysView, AppConfig,
    AppConfigView, Preset, Single, MIN_SILENCE_BITS, NORMAL_DB_BITS,
};
use crate::format::{format_named, AudioFormat};
use crate::output::{
    clean_path, format_of_path, format_picked, named_after_source, pick_format, place_clean_file,
    read_format,
};
use crate::text::{
    ascii_lower, ends_with, same_text, texts, to_lower, unicode_lower,
};

verus! {

// ---------------------------------------------------------------------------
// Arguments
// ---------------------------------------------------------------------------

/// One argument as it was typed, with the number that it stands for, if any.
#[derive(Debug)]
pub struct Arg {
    pub text: String,
    pub number: Option<Single>,
}

/// What `Arg` holds.
pub struct ArgView {
    pub text: Seq<char>,
    pub number: Option<Single>,
}

impl View for Arg {
    type V = ArgView;

    open spec fn view(&self) -> ArgView {
        ArgView { text: self.text@, number: self.number }
    }
}

/// The views of a list of arguments.
pub open spec fn arg_views(args: Seq<Arg>) -> Seq<ArgView> {
    args.map_values(|a: Arg| a@)
}

/// How letters are put in lower case: as Unicode has it, or ASCII letters alone.
/// On arguments of ASCII characters both come to the same.
pub enum Casing {
    Unicode,
    Ascii,
}

impl Casing {
    /// A text in lower case.
    pub open spec fn lower(self, s: Seq<char>) -> Seq<char> {
        match self {
            Casing::Unicode => unicode_lower(s),
            Casing::Ascii => ascii_lower(s),
        }
    }
}

/// All arguments are made of ASCII characters.
pub open spec fn all_ascii(args: Seq<ArgView>) -> bool {
    forall|i: int| 0 <= i < args.len() ==> is_ascii_chars(#[trigger] args[i].text)
}

// ---------------------------------------------------------------------------
// Words
// ---------------------------------------------------------------------------

/// What an argument is where an option or a path is expected.
#[derive(Debug, Clone, Copy, PartialEq, Eq, Structural)]
pub enum Word {
    Db,
    Preset,
    MinSec,
    Format,
    Transcribe,
    GroqKey,
    GeminiKey,
    DeepseekKey,
    /// Starts like an option and is none.
    Unknown,
    Path,
}

/// The meaning of an argument where an option or a path is expected.
pub open spec fn word(text: Seq<char>) -> Word {
    if text == "--db"@ || text == "-d"@ {
        Word::Db
    } else if text == "--preset"@ || text == "-p"@ {
        Word::Preset
    } else if text == "--min-sec"@ || text == "-m"@ {
        Word::MinSec
    } else if text == "--format"@ || text == "-f"@ {
        Word::Format
    } else if text == "--transcribe"@ || text == "-t"@ {
        Word::Transcribe
    } else if text == "--groq-key"@ {
        Word::GroqKey
    } else if text == "--gemini-key"@ {
        Word::GeminiKey
    } else if text == "--deepseek-key"@ {
        Word::DeepseekKey
    } else if text.len() > 0 && text[0] == '-' {
        Word::Unknown
    } else {
        Word::Path
    }
}

impl Word {
    /// The word is an option that is followed by its value.
    pub open spec fn takes_value(self) -> bool {
        match self {
            Word::Transcribe | Word::Unknown | Word::Path => false,
            _ => true,
        }
    }

    /// Reads an argument where an option or a path is expected.
    pub fn read(text: &str) -> (r: Word)
        ensures
            r == word(text@),
    {
        if same_text(text, "--db") || same_text(text, "-d") {
            Word::Db
        } else if same_text(text, "--preset") || same_text(text, "-p") {
            Word::Preset
        } else if same_text(text, "--min-sec") || same_text(text, "-m") {
            Word::MinSec
        } else if same_text(text, "--format") || same_text(text, "-f") {
            Word::Format
        } else if same_text(text, "--transcribe") || same_text(text, "-t") {
            Word::Transcribe
        } else if same_text(text, "--groq-key") {
            Word::GroqKey
        } else if same_text(text, "--gemini-key") {
            Word::GeminiKey
        } else if same_text(text, "--deepseek-key") {
            Word::DeepseekKey
        } else if text.unicode_len() > 0 && text.get_char(0) == '-' {
            Word::Unknown
        } else {
            Word::Path
        }
    }
}

// ---------------------------------------------------------------------------
// Errors
// ---------------------------------------------------------------------------

/// Why a command line is refused.
#[derive(Debug)]
pub enum ArgError {
    BadDb,
    BadMinSec,
    UnknownPreset,
    UnknownOption(String),
    NoInput,
    InputNotFound(String),
}

/// What `ArgError` holds.
pub enum ArgErrorView {
    BadDb,
    BadMinSec,
    UnknownPreset,
    UnknownOption(Seq<char>),
    NoInput,
    InputNotFound(Seq<char>),
}

impl View for ArgError {
    type V = ArgErrorView;

    open spec fn view(&self) -> ArgErrorView {
        match self {
            ArgError::BadDb => ArgErrorView::BadDb,
            ArgError::BadMinSec => ArgErrorView::BadMinSec,
            ArgError::UnknownPreset => ArgErrorView::UnknownPreset,
            ArgError::UnknownOption(s) => ArgErrorView::UnknownOption(s@),
            ArgError::NoInput => ArgErrorView::NoInput,
            ArgError::InputNotFound(s) => ArgErrorView::InputNotFound(s@),
        }
    }
}

impl ArgErrorView {
    /// The message shown to the user.
    pub open spec fn text(self) -> Seq<char> {
        match self {
            ArgErrorView::BadDb => "Некорректное значение дБ для --db"@,
            ArgErrorView::BadMinSec => "Некорректное значение секунд для --min-sec"@,
            ArgErrorView::UnknownPreset =>
                "Неизвестный пресет. Используйте: pure, normal или noisy"@,
            ArgErrorView::UnknownOption(s) => "Неизвестная опция: "@ + s,
            ArgErrorView::NoInput => "Не указан входной файл!"@,
            ArgErrorView::InputNotFound(s) => "Входной файл не найден: "@ + s,
        }
    }
}

impl ArgError {
    /// The message shown to the user.
    pub fn message(&self) -> (r: String)
        ensures
            r@ == self@.text(),
    {
        match self {
            ArgError::BadDb => "Некорректное значение дБ для --db".to_owned(),
            ArgError::BadMinSec => "Некорректное значение секунд для --min-sec".to_owned(),
            ArgError::UnknownPreset =>
                "Неизвестный пресет. Используйте: pure, normal или noisy".to_owned(),
            ArgError::UnknownOption(s) => {
                let mut out = "Неизвестная опция: ".to_owned();
                out.append(s.as_str());
                out
            },
            ArgError::NoInput => "Не указан входной файл!".to_owned(),
            ArgError::InputNotFound(s) => {
                let mut out = "Входной файл не найден: ".to_owned();
                out.append(s.as_str());
                out
            },
        }
    }
}

// ---------------------------------------------------------------------------
// Options
// ---------------------------------------------------------------------------

/// What the arguments have set so far.
#[derive(Debug)]
pub struct Options {
    /// The arguments that are neither options nor values, in order.
    pub positional: Vec<String>,
    pub noise_threshold_db: Single,
    pub min_silence_sec: Single,
    pub custom_format: Option<AudioFormat>,
    pub ai_transcribe: bool,
    pub keys: ApiKeys,
}

/// What `Options` holds.
pub struct OptionsView {
    pub positional: Seq<Seq<char>>,
    pub noise_threshold_db: Single,
    pub min_silence_sec: Single,
    pub custom_format: Option<AudioFormat>,
    pub ai_transcribe: bool,
    pub keys: ApiKeysView,
}

impl View for Options {
    type V = OptionsView;

    open spec fn view(&self) -> OptionsView {
        OptionsView {
            positional: texts(self.positional@),
            noise_threshold_db: self.noise_threshold_db,
            min_silence_sec: self.min_silence_sec,
            custom_format: self.custom_format,
            ai_transcribe: self.ai_transcribe,
            keys: self.keys@,
        }
    }
}

/// The options before any argument is read; the keys come from the environment.
pub open spec fn default_options(env: ApiKeysView) -> OptionsView {
    OptionsView {
        positional: Seq::empty(),
        noise_threshold_db: Single { bits: NORMAL_DB_BITS },
        min_silence_sec: Single { bits: MIN_SILENCE_BITS },
        custom_format: None,
        ai_transcribe: false,
        keys: env,
    }
}

/// The options after an option with its value, which in lower case is `lowered`.
pub open spec fn with_value(
    options: OptionsView,
    option: Word,
    value: ArgView,
    lowered: Seq<char>,
) -> Result<OptionsView, ArgErrorView> {
    match option {
        Word::Db => match value.number {
            Some(n) => Ok(OptionsView { noise_threshold_db: n, ..options }),
            None => Err(ArgErrorView::BadDb),
        },
        Word::Preset => match preset_named(lowered) {
            Some(p) => Ok(OptionsView { noise_threshold_db: p.db(), ..options }),
            None => Err(ArgErrorView::UnknownPreset),
        },
        Word::MinSec => match value.number {
            Some(n) => Ok(OptionsView { min_silence_sec: n, ..options }),
            None => Err(ArgErrorView::BadMinSec),
        },
        Word::Format => Ok(
            OptionsView { custom_format: format_named(lowered), ..options },
        ),
        Word::GroqKey => Ok(
            OptionsView {
                keys: ApiKeysView { groq: Some(value.text), ..options.keys },
                ..options
            },
        ),
        Word::GeminiKey => Ok(
            OptionsView {
                keys: ApiKeysView { gemini: Some(value.text), ..options.keys },
                ..options
            },
        ),
        Word::DeepseekKey => Ok(
            OptionsView {
                keys: ApiKeysView { deepseek: Some(value.text), ..options.keys },
                ..options
            },
        ),
        _ => Ok(options),
    }
}

/// The options after a list of arguments. An option whose value is missing at
/// the end of the list changes nothing.
pub open spec fn parsed(casing: Casing, args: Seq<ArgView>, options: OptionsView) -> Result<
    OptionsView,
    ArgErrorView,
>
    decreases args.len(),
{
    if args.len() == 0 {
        Ok(options)
    } else {
        let w = word(args[0].text);
        if w.takes_value() {
            if args.len() == 1 {
                Ok(options)
            } else {
                match with_value(options, w, args[1], casing.lower(args[1].text)) {
                    Ok(next) => parsed(casing, args.skip(2), next),
                    Err(e) => Err(e),
                }
            }
        } else if w == Word::Transcribe {
            parsed(casing, args.skip(1), OptionsView { ai_transcribe: true, ..options })
        } else if w == Word::Path {
            parsed(
                casing,
                args.skip(1),
                OptionsView { positional: options.positional.push(args[0].text), ..options },
            )
        } else {
            Err(ArgErrorView::UnknownOption(args[0].text))
        }
    }
}

/// The view of options or of an error.
pub open spec fn options_view(r: Result<Options, ArgError>) -> Result<OptionsView, ArgErrorView> {
    match r {
        Ok(options) => Ok(options@),
        Err(e) => Err(e@),
    }
}

/// Applies an option with its value, which in lower case is `lowered`.
pub fn apply_value(options: &mut Options, option: Word, value: &Arg, lowered: &str) -> (r: Result<
    (),
    ArgError,
>)
    ensures
        with_value(old(options)@, option, value@, lowered@) == match r {
            Ok(_) => Ok::<_, ArgErrorView>(final(options)@),
            Err(e) => Err(e@),
        },
{
    match option {
        Word::Db => match value.number {
            Some(n) => {
                options.noise_threshold_db = n;
            },
            None => {
                return Err(ArgError::BadDb);
            },
        },
        Word::Preset => match Preset::from_name(lowered) {
            Some(p) => {
                options.noise_threshold_db = p.threshold();
            },
            None => {
                return Err(ArgError::UnknownPreset);
            },
        },
        Word::MinSec => match value.number {
            Some(n) => {
                options.min_silence_sec = n;
            },
            None => {
                return Err(ArgError::BadMinSec);
            },
        },
        Word::Format => {
            options.custom_format = AudioFormat::from_lowered(lowered);
        },
        Word::GroqKey => {
            options.keys.groq = Some(value.text.clone());
        },
        Word::GeminiKey => {
            options.keys.gemini = Some(value.text.clone());
        },
        Word::DeepseekKey => {
            options.keys.deepseek = Some(value.text.clone());
        },
        _ => {},
    }
    Ok(())
}

/// Reads the arguments from position `from` on; `env` holds the keys that the
/// environment provides.
pub fn parse_options(args: &Vec<Arg>, from: usize, env: ApiKeys) -> (r: Result<Options, ArgError>)
    requires
        from <= args.len(),
    ensures
        options_view(r) == parsed(
            Casing::Unicode,
            arg_views(args@).skip(from as int),
            default_options(env@),
        ),
        all_ascii(arg_views(args@)) ==> options_view(r) == parsed(
            Casing::Ascii,
            arg_views(args@).skip(from as int),
            default_options(env@),
        ),
{
    let ghost views = arg_views(args@);
    let mut options = Options {
        positional: Vec::new(),
        noise_threshold_db: Single { bits: NORMAL_DB_BITS },
        min_silence_sec: Single { bits: MIN_SILENCE_BITS },
        custom_format: None,
        ai_transcribe: false,
        keys: env,
    };
    assert(options@.positional =~= Seq::<Seq<char>>::empty());
    let ghost start = options@;
    let mut idx: usize = from;
    while idx < args.len()
        invariant
            from <= idx <= args.len(),
            views == arg_views(args@),
            start == default_options(env@),
            parsed(Casing::Unicode, views.skip(from as int), start) == parsed(
                Casing::Unicode,
                views.skip(idx as int),
                options@,
            ),
            all_ascii(views) ==> parsed(Casing::Ascii, views.skip(from as int), start) == parsed(
                Casing::Ascii,
                views.skip(idx as int),
                options@,
            ),
        decreases args.len() - idx,
    {
        let ghost rest = views.skip(idx as int);
        let ghost before = options@;
        assert(rest[0] == args[idx as int]@);
        let w = Word::read(args[idx].text.as_str());
        match w {
            Word::Unknown => {
                return Err(ArgError::UnknownOption(args[idx].text.clone()));
            },
            Word::Transcribe => {
                options.ai_transcribe = true;
                assert(rest.skip(1) =~= views.skip(idx + 1));
            },
            Word::Path => {
                options.positional.push(args[idx].text.clone());
                assert(options@.positional =~= before.positional.push(rest[0].text));
                assert(rest.skip(1) =~= views.skip(idx + 1));
            },
            _ => {
                idx += 1;
                if idx < args.len() {
                    assert(rest[1] == args[idx as int]@);
                    assert(rest[1] == views[idx as int]);
                    let lowered = to_lower(args[idx].text.as_str());
                    if let Err(e) = apply_value(&mut options, w, &args[idx], lowered.as_str()) {
                        return Err(e);
                    }
                    assert(rest.skip(2) =~= views.skip(idx + 1));
                } else {
                    return Ok(options);
                }
            },
        }
        idx += 1;
    }
    assert(views.skip(idx as int) =~= Seq::<ArgView>::empty());
    Ok(options)
}

// ---------------------------------------------------------------------------
// The whole command line
// ---------------------------------------------------------------------------

/// What the tool was started for.
#[derive(Debug)]
pub enum Invocation {
    /// Show the manual and stop.
    Help,
    /// Ask for everything; the keys come from the environment.
    Interactive(ApiKeys),
    /// Process what the options say, once it is known whether the file `input`
    /// exists.
    Run { input: String, options: Options },
    /// Stop with an error.
    Refused(ArgError),
}

/// What `Invocation` holds.
pub enum InvocationView {
    Help,
    Interactive(ApiKeysView),
    Run { input: Seq<char>, options: OptionsView },
    Refused(ArgErrorView),
}

impl View for Invocation {
    type V = InvocationView;

    open spec fn view(&self) -> InvocationView {
        match self {
            Invocation::Help => InvocationView::Help,
            Invocation::Interactive(keys) => InvocationView::Interactive(keys@),
            Invocation::Run { input, options } => InvocationView::Run {
                input: input@,
                options: options@,
            },
            Invocation::Refused(e) => InvocationView::Refused(e@),
        }
    }
}

/// The argument asks for the manual.
pub open spec fn is_help(text: Seq<char>) -> bool {
    text == "--help"@ || text == "-h"@
}

/// Some argument, wherever it stands, asks for the manual.
pub open spec fn asks_help(raw: Seq<ArgView>) -> bool {
    exists|i: int| 0 <= i < raw.len() && is_help(#[trigger] raw[i].text)
}

/// Where the arguments proper start: behind the name of the program and a
/// separator `--` that follows it directly.
pub open spec fn args_start(raw: Seq<ArgView>) -> int {
    if raw.len() == 0 {
        0
    } else if raw.len() > 1 && raw[1].text == "--"@ {
        2
    } else {
        1
    }
}

/// The name by which the program was called.
pub open spec fn program(raw: Seq<ArgView>) -> Seq<char> {
    if raw.len() == 0 {
        "silence_remover"@
    } else {
        raw[0].text
    }
}

/// What a full argument list, program name first, asks for.
pub open spec fn invocation(casing: Casing, raw: Seq<ArgView>, env: ApiKeysView) -> InvocationView {
    let args = raw.skip(args_start(raw));
    if asks_help(raw) {
        InvocationView::Help
    } else if args.len() == 0 {
        InvocationView::Interactive(env)
    } else {
        match parsed(casing, args, default_options(env)) {
            Ok(options) => if options.positional.len() == 0 {
                InvocationView::Refused(ArgErrorView::NoInput)
            } else {
                InvocationView::Run { input: options.positional[0], options }
            },
            Err(e) => InvocationView::Refused(e),
        }
    }
}

/// The name by which the program was called.
pub fn exe_name(raw: &Vec<Arg>) -> (r: String)
    ensures
        r@ == program(arg_views(raw@)),
{
    if raw.len() == 0 {
        "silence_remover".to_owned()
    } else {
        raw[0].text.clone()
    }
}

fn wants_help(raw: &Vec<Arg>) -> (r: bool)
    ensures
        r == asks_help(arg_views(raw@)),
{
    let ghost views = arg_views(raw@);
    let mut i: usize = 0;
    while i < raw.len()
        invariant
            i <= raw.len(),
            views == arg_views(raw@),
            forall|j: int| 0 <= j < i ==> !is_help(#[trigger] views[j].text),
        decreases raw.len() - i,
    {
        if same_text(raw[i].text.as_str(), "--help") || same_text(raw[i].text.as_str(), "-h") {
            assert(is_help(views[i as int].text));
            return true;
        }
        i += 1;
    }
    false
}

/// Reads a full argument list, program name first; `env` holds the keys that
/// the environment provides.
pub fn parse_args(raw: &Vec<Arg>, env: ApiKeys) -> (r: Invocation)
    ensures
        r@ == invocation(Casing::Unicode, arg_views(raw@), env@),
        all_ascii(arg_views(raw@)) ==> r@ == invocation(Casing::Ascii, arg_views(raw@), env@),
{
    if wants_help(raw) {
        return Invocation::Help;
    }
    let start: usize = if raw.len() == 0 {
        0
    } else if raw.len() > 1 && same_text(raw[1].text.as_str(), "--") {
        2
    } else {
        1
    };
    assert(start == args_start(arg_views(raw@)));
    if start == raw.len() {
        return Invocation::Interactive(env);
    }
    match parse_options(raw, start, env) {
        Ok(options) => {
            if options.positional.len() == 0 {
                Invocation::Refused(ArgError::NoInput)
            } else {
                assert(options@.positional[0] == options.positional[0]@);
                Invocation::Run { input: options.positional[0].clone(), options }
            }
        },
        Err(e) => Invocation::Refused(e),
    }
}

/// The settings of a run, given whether the input file exists.
pub open spec fn settled(options: OptionsView, input_exists: bool) -> Result<
    AppConfigView,
    ArgErrorView,
> {
    if options.positional.len() == 0 {
        Err(ArgErrorView::NoInput)
    } else if !input_exists {
        Err(ArgErrorView::InputNotFound(options.positional[0]))
    } else {
        let input = options.positional[0];
        let given = options.positional.len() > 1;
        let format = format_picked(
            options.custom_format,
            if given {
                format_of_path(options.positional[1])
            } else {
                None
            },
        );
        Ok(
            AppConfigView {
                input_path: input,
                output_path: if given {
                    options.positional[1]
                } else {
                    clean_path(input, format)
                },
                noise_threshold_db: options.noise_threshold_db,
                min_silence_sec: options.min_silence_sec,
                output_format: format,
                ai_transcribe: options.ai_transcribe,
                keys: options.keys,
            },
        )
    }
}

/// Turns the options into the settings of a run, once it is known whether the
/// input file exists.
pub fn settle(options: Options, input_exists: bool) -> (r: Result<AppConfig, ArgError>)
    ensures
        match r {
            Ok(config) => {
                &&& settled(options@, input_exists) == Ok::<_, ArgErrorView>(config@)
                &&& options.positional.len() == 1 ==> named_after_source(config@)
                &&& config.noise_threshold_db == options.noise_threshold_db
                &&& config.min_silence_sec == options.min_silence_sec
                &&& config.ai_transcribe == options.ai_transcribe
                &&& config.keys == options.keys
                &&& config.input_path@ == options.positional[0]@
            },
            Err(e) => settled(options@, input_exists) == Err::<AppConfigView, _>(e@),
        },
{
    if options.positional.len() == 0 {
        return Err(ArgError::NoInput);
    }
    assert(options@.positional[0] == options.positional[0]@);
    let input_path = options.positional[0].clone();
    if !input_exists {
        return Err(ArgError::InputNotFound(input_path));
    }
    let given = options.positional.len() > 1;
    let named = if given {
        assert(options@.positional[1] == options.positional[1]@);
        read_format(options.positional[1].as_str())
    } else {
        None
    };
    let output_format = pick_format(options.custom_format, named);
    let output_path = if given {
        options.positional[1].clone()
    } else {
        place_clean_file(input_path.as_str(), output_format)
    };
    Ok(
        AppConfig {
            input_path,
            output_path,
            noise_threshold_db: options.noise_threshold_db,
            min_silence_sec: options.min_silence_sec,
            output_format,
            ai_transcribe: options.ai_transcribe,
            keys: options.keys,
        },
    )
}

// ---------------------------------------------------------------------------
// Laws
// ---------------------------------------------------------------------------

/// No option at the end of the list lacks its value.
pub open spec fn complete(args: Seq<ArgView>) -> bool
    decreases args.len(),
{
    if args.len() == 0 {
        true
    } else if word(args[0].text).takes_value() {
        args.len() > 1 && complete(args.skip(2))
    } else {
        complete(args.skip(1))
    }
}

/// A complete list followed by more arguments means the same as the first list
/// followed by the second one.
pub proof fn law_reading_in_parts(
    casing: Casing,
    a: Seq<ArgView>,
    b: Seq<ArgView>,
    options: OptionsView,
)
    requires
        complete(a),
    ensures
        parsed(casing, a + b, options) == match parsed(casing, a, options) {
            Ok(next) => parsed(casing, b, next),
            Err(e) => Err(e),
        },
    decreases a.len(),
{
    if a.len() == 0 {
        assert(a + b =~= b);
    } else {
        let w = word(a[0].text);
        if w.takes_value() {
            assert((a + b).skip(2) =~= a.skip(2) + b);
            if let Ok(next) = with_value(options, w, a[1], casing.lower(a[1].text)) {
                law_reading_in_parts(casing, a.skip(2), b, next);
            }
        } else {
            assert((a + b).skip(1) =~= a.skip(1) + b);
            if w == Word::Transcribe {
                law_reading_in_parts(
                    casing,
                    a.skip(1),
                    b,
                    OptionsView { ai_transcribe: true, ..options },
                );
            } else if w == Word::Path {
                law_reading_in_parts(
                    casing,
                    a.skip(1),
                    b,
                    OptionsView { positional: options.positional.push(a[0].text), ..options },
                );
            }
        }
    }
}

/// An option at the end of a complete list decides over all that came before.
pub proof fn law_last_value_wins(
    casing: Casing,
    args: Seq<ArgView>,
    option: ArgView,
    value: ArgView,
    options: OptionsView,
)
    requires
        complete(args),
        word(option.text).takes_value(),
    ensures
        parsed(casing, args.push(option).push(value), options) == match parsed(
            casing,
            args,
            options,
        ) {
            Ok(next) => with_value(next, word(option.text), value, casing.lower(value.text)),
            Err(e) => Err(e),
        },
{
    let pair = seq![option, value];
    assert(args.push(option).push(value) =~= args + pair);
    law_reading_in_parts(casing, args, pair, options);
    assert(pair.skip(2) =~= Seq::<ArgView>::empty());
    reveal_with_fuel(parsed, 2);
}

/// An option whose value is missing at the end changes nothing.
pub proof fn law_missing_value_is_ignored(
    casing: Casing,
    args: Seq<ArgView>,
    option: ArgView,
    options: OptionsView,
)
    requires
        complete(args),
        word(option.text).takes_value(),
    ensures
        parsed(casing, args.push(option), options) == parsed(casing, args, options),
{
    let one = seq![option];
    assert(args.push(option) =~= args + one);
    law_reading_in_parts(casing, args, one, options);
    assert(word(one[0].text).takes_value());
}

/// The short names of the options mean the same as the long ones.
pub proof fn law_short_names()
    ensures
        word("-d"@) == Word::Db,
        word("--db"@) == Word::Db,
        word("-p"@) == Word::Preset,
        word("--preset"@) == Word::Preset,
        word("-m"@) == Word::MinSec,
        word("--min-sec"@) == Word::MinSec,
        word("-f"@) == Word::Format,
        word("--format"@) == Word::Format,
        word("-t"@) == Word::Transcribe,
        word("--transcribe"@) == Word::Transcribe,
{
    reveal_strlit("-d");
    reveal_strlit("--db");
    reveal_strlit("-p");
    reveal_strlit("--preset");
    reveal_strlit("-m");
    reveal_strlit("--min-sec");
    reveal_strlit("-f");
    reveal_strlit("--format");
    reveal_strlit("-t");
    reveal_strlit("--transcribe");
    assert("-p"@[1] == 'p' && "-d"@[1] == 'd' && "-m"@[1] == 'm' && "-f"@[1] == 'f' && "-t"@[1]
        == 't');
    assert("--preset"@[2] == 'p' && "--min-sec"@[2] == 'm' && "--format"@[2] == 'f'
        && "--transcribe"@[2] == 't' && "--db"@[2] == 'd');
}

/// Two names of the same option can stand for each other.
pub proof fn law_names_are_interchangeable(
    casing: Casing,
    x: ArgView,
    y: ArgView,
    rest: Seq<ArgView>,
    options: OptionsView,
)
    requires
        word(x.text) == word(y.text),
        word(x.text) != Word::Unknown,
        word(x.text) != Word::Path,
    ensures
        parsed(casing, seq![x] + rest, options) == parsed(casing, seq![y] + rest, options),
{
    assert((seq![x] + rest).skip(1) =~= (seq![y] + rest).skip(1));
    if rest.len() > 0 {
        assert((seq![x] + rest).skip(2) =~= (seq![y] + rest).skip(2));
        assert((seq![x] + rest)[1] == (seq![y] + rest)[1]);
    }
}

/// A preset means the same as its threshold given as a number.
pub proof fn law_preset_is_a_threshold(
    casing: Casing,
    preset: ArgView,
    name: ArgView,
    db: ArgView,
    number: ArgView,
    rest: Seq<ArgView>,
    options: OptionsView,
)
    requires
        word(preset.text) == Word::Preset,
        word(db.text) == Word::Db,
        preset_named(casing.lower(name.text)) is Some,
        number.number == Some(preset_named(casing.lower(name.text)).unwrap().db()),
    ensures
        parsed(casing, seq![preset, name] + rest, options) == parsed(
            casing,
            seq![db, number] + rest,
            options,
        ),
{
    let a = seq![preset, name] + rest;
    let b = seq![db, number] + rest;
    assert(a.skip(2) =~= b.skip(2));
    assert(a[0] == preset && a[1] == name && b[0] == db && b[1] == number);
}

/// The two values agree, or both are still what they were at the start.
pub open spec fn agree_or_kept(
    x: Option<Seq<char>>,
    y: Option<Seq<char>>,
    x0: Option<Seq<char>>,
    y0: Option<Seq<char>>,
) -> bool {
    x == y || (x == x0 && y == y0)
}

proof fn lemma_keys_matter_only_for_keys(
    casing: Casing,
    args: Seq<ArgView>,
    p: OptionsView,
    q: OptionsView,
    e: ApiKeysView,
    f: ApiKeysView,
)
    requires
        q == (OptionsView { keys: q.keys, ..p }),
        agree_or_kept(p.keys.groq, q.keys.groq, e.groq, f.groq),
        agree_or_kept(p.keys.gemini, q.keys.gemini, e.gemini, f.gemini),
        agree_or_kept(p.keys.deepseek, q.keys.deepseek, e.deepseek, f.deepseek),
    ensures
        match (parsed(casing, args, p), parsed(casing, args, q)) {
            (Ok(x), Ok(y)) => {
                &&& y == (OptionsView { keys: y.keys, ..x })
                &&& agree_or_kept(x.keys.groq, y.keys.groq, e.groq, f.groq)
                &&& agree_or_kept(x.keys.gemini, y.keys.gemini, e.gemini, f.gemini)
                &&& agree_or_kept(x.keys.deepseek, y.keys.deepseek, e.deepseek, f.deepseek)
            },
            (Err(x), Err(y)) => x == y,
            _ => false,
        },
    decreases args.len(),
{
    if args.len() > 0 {
        let w = word(args[0].text);
        if w.takes_value() {
            if args.len() > 1 {
                let lowered = casing.lower(args[1].text);
                match (with_value(p, w, args[1], lowered), with_value(q, w, args[1], lowered)) {
                    (Ok(x), Ok(y)) => {
                        lemma_keys_matter_only_for_keys(casing, args.skip(2), x, y, e, f);
                    },
                    _ => {},
                }
            }
        } else if w == Word::Transcribe {
            lemma_keys_matter_only_for_keys(
                casing,
                args.skip(1),
                OptionsView { ai_transcribe: true, ..p },
                OptionsView { ai_transcribe: true, ..q },
                e,
                f,
            );
        } else if w == Word::Path {
            lemma_keys_matter_only_for_keys(
                casing,
                args.skip(1),
                OptionsView { positional: p.positional.push(args[0].text), ..p },
                OptionsView { positional: q.positional.push(args[0].text), ..q },
                e,
                f,
            );
        }
    }
}

/// The environment only supplies keys that no option gives: with another
/// environment everything but the keys stays, and a key is either the same or
/// the one that each environment provides.
pub proof fn law_environment_is_a_fallback(
    casing: Casing,
    args: Seq<ArgView>,
    e: ApiKeysView,
    f: ApiKeysView,
)
    ensures
        match (parsed(casing, args, default_options(e)), parsed(casing, args, default_options(f))) {
            (Ok(x), Ok(y)) => {
                &&& y == (OptionsView { keys: y.keys, ..x })
                &&& agree_or_kept(x.keys.groq, y.keys.groq, e.groq, f.groq)
                &&& agree_or_kept(x.keys.gemini, y.keys.gemini, e.gemini, f.gemini)
                &&& agree_or_kept(x.keys.deepseek, y.keys.deepseek, e.deepseek, f.deepseek)
            },
            (Err(x), Err(y)) => x == y,
            _ => false,
        },
{
    lemma_keys_matter_only_for_keys(casing, args, default_options(e), default_options(f), e, f);
}

/// Arguments that are no options are kept in order and change nothing else.
pub proof fn law_paths_are_kept_in_order(casing: Casing, args: Seq<ArgView>, options: OptionsView)
    requires
        forall|i: int| 0 <= i < args.len() ==> word(#[trigger] args[i].text) == Word::Path,
    ensures
        parsed(casing, args, options) == Ok::<_, ArgErrorView>(
            OptionsView {
                positional: options.positional + args.map_values(|a: ArgView| a.text),
                ..options
            },
        ),
    decreases args.len(),
{
    let all = args.map_values(|a: ArgView| a.text);
    if args.len() == 0 {
        assert(options.positional + all =~= options.positional);
    } else {
        let next = OptionsView {
            positional: options.positional.push(args[0].text),
            ..options
        };
        assert forall|i: int| 0 <= i < args.skip(1).len() implies word(
            #[trigger] args.skip(1)[i].text,
        ) == Word::Path by {
            assert(args.skip(1)[i] == args[i + 1]);
            assert(word(args[i + 1].text) == Word::Path);
        }
        law_paths_are_kept_in_order(casing, args.skip(1), next);
        assert(word(args[0].text) == Word::Path);
        assert(next.positional + args.skip(1).map_values(|a: ArgView| a.text)
            =~= options.positional + all);
    }
}

/// Once asked for, the transcription stays on.
pub proof fn law_transcription_stays_on(casing: Casing, args: Seq<ArgView>, options: OptionsView)
    requires
        options.ai_transcribe,
    ensures
        parsed(casing, args, options) matches Ok(o) ==> o.ai_transcribe,
    decreases args.len(),
{
    if args.len() > 0 {
        let w = word(args[0].text);
        if w.takes_value() {
            if args.len() > 1 {
                if let Ok(next) = with_value(options, w, args[1], casing.lower(args[1].text)) {
                    law_transcription_stays_on(casing, args.skip(2), next);
                }
            }
        } else if w == Word::Transcribe {
            law_transcription_stays_on(
                casing,
                args.skip(1),
                OptionsView { ai_transcribe: true, ..options },
            );
        } else if w == Word::Path {
            law_transcription_stays_on(
                casing,
                args.skip(1),
                OptionsView { positional: options.positional.push(args[0].text), ..options },
            );
        }
    }
}

/// The first argument that looks like an option and is none is reported, once
/// the arguments before it are read.
pub proof fn law_unknown_option_is_refused(
    casing: Casing,
    args: Seq<ArgView>,
    unknown: ArgView,
    rest: Seq<ArgView>,
    options: OptionsView,
)
    requires
        complete(args),
        parsed(casing, args, options) is Ok,
        word(unknown.text) == Word::Unknown,
    ensures
        parsed(casing, args + seq![unknown] + rest, options) == Err::<OptionsView, _>(
            ArgErrorView::UnknownOption(unknown.text),
        ),
{
    let tail = seq![unknown] + rest;
    assert(args + seq![unknown] + rest =~= args + tail);
    law_reading_in_parts(casing, args, tail, options);
    assert(tail[0] == unknown);
}

/// Whoever asks for the manual gets it, whatever else is on the command line.
pub proof fn law_help_wins(casing: Casing, raw: Seq<ArgView>, i: int, env: ApiKeysView)
    requires
        0 <= i < raw.len(),
        is_help(raw[i].text),
    ensures
        invocation(casing, raw, env) == InvocationView::Help,
{
}

/// A separator directly behind the name of the program changes nothing.
pub proof fn law_separator_is_skipped(
    casing: Casing,
    program: ArgView,
    separator: ArgView,
    rest: Seq<ArgView>,
    env: ApiKeysView,
)
    requires
        separator.text == "--"@,
        rest.len() > 0 ==> rest[0].text != "--"@,
    ensures
        invocation(casing, seq![program, separator] + rest, env) == invocation(
            casing,
            seq![program] + rest,
            env,
        ),
{
    let long = seq![program, separator] + rest;
    let short = seq![program] + rest;
    reveal_strlit("--");
    reveal_strlit("-h");
    reveal_strlit("--help");
    assert("-h"@[1] != "--"@[1]);
    assert("--help"@.len() != "--"@.len());
    assert(!is_help("--"@));
    if asks_help(long) {
        let i = choose|i: int| 0 <= i < long.len() && is_help(#[trigger] long[i].text);
        if i == 0 {
            assert(is_help(short[0].text));
        } else {
            assert(is_help(short[i - 1].text));
        }
    }
    if asks_help(short) {
        let i = choose|i: int| 0 <= i < short.len() && is_help(#[trigger] short[i].text);
        if i == 0 {
            assert(is_help(long[0].text));
        } else {
            assert(is_help(long[i + 1].text));
        }
    }
    assert(long.skip(2) =~= rest);
    assert(short.skip(1) =~= rest);
}

/// What the user chose stands: a given output path is kept, a format that was
/// asked for is written, and without either the output is an MP3 file beside
/// the input.
pub proof fn law_choices_stand(options: OptionsView)
    requires
        options.positional.len() > 0,
    ensures
        settled(options, true) matches Ok(config) && {
            &&& config.input_path == options.positional[0]
            &&& options.positional.len() > 1 ==> config.output_path == options.positional[1]
            &&& options.custom_format matches Some(f) ==> config.output_format == f
            &&& options.positional.len() == 1 && options.custom_format is None ==> {
                &&& config.output_format == AudioFormat::Mp3
                &&& config.output_path == clean_path(options.positional[0], AudioFormat::Mp3)
            }
        },
{
}

/// The settings of a run carry what the options hold, unchanged: the threshold,
/// the shortest pause, whether a transcript is wanted, the keys, and the first
/// path as the recording to read.
pub proof fn law_settings_carry_the_options(options: OptionsView)
    requires
        options.positional.len() > 0,
    ensures
        settled(options, true) matches Ok(config) && {
            &&& config.noise_threshold_db == options.noise_threshold_db
            &&& config.min_silence_sec == options.min_silence_sec
            &&& config.ai_transcribe == options.ai_transcribe
            &&& config.keys.groq == options.keys.groq
            &&& config.keys.gemini == options.keys.gemini
            &&& config.keys.deepseek == options.keys.deepseek
            &&& config.input_path == options.positional[0]
        },
{
}

/// Options become settings exactly when they name a recording and it exists;
/// else the user is told which file is missing, or that none was named.
pub proof fn law_when_options_settle(options: OptionsView, input_exists: bool)
    ensures
        match settled(options, input_exists) {
            Ok(_) => options.positional.len() > 0 && input_exists,
            Err(ArgErrorView::NoInput) => options.positional.len() == 0,
            Err(ArgErrorView::InputNotFound(path)) => options.positional.len() > 0 && !input_exists
                && path == options.positional[0],
            Err(_) => false,
        },
{
}

/// The format that is written is the one that was asked for, else the one that
/// the output path names, else MP3; and the output file is the second path, or
/// lies beside the recording with the extension of that format.
pub proof fn law_output_of_a_run(options: OptionsView)
    requires
        options.positional.len() > 0,
    ensures
        settled(options, true) matches Ok(config) && {
            &&& options.custom_format matches Some(f) ==> config.output_format == f
            &&& options.custom_format is None && options.positional.len() > 1 ==> {
                &&& format_of_path(options.positional[1]) matches Some(f) ==> config.output_format
                    == f
                &&& format_of_path(options.positional[1]) is None ==> config.output_format
                    == AudioFormat::Mp3
            }
            &&& options.custom_format is None && options.positional.len() == 1
                ==> config.output_format == AudioFormat::Mp3
            &&& options.positional.len() > 1 ==> config.output_path == options.positional[1]
            &&& options.positional.len() == 1 ==> config.output_path == clean_path(
                config.input_path,
                config.output_format,
            )
        },
{
}

/// An option changes nothing but what it is for: options that differ only in the
/// threshold settle to settings that differ only in the threshold, and likewise
/// for the shortest pause, the transcript and the keys.
pub proof fn law_settings_follow_the_options(
    options: OptionsView,
    db: Single,
    pause: Single,
    transcribe: bool,
    keys: ApiKeysView,
    input_exists: bool,
)
    ensures
        settled(
            OptionsView {
                noise_threshold_db: db,
                min_silence_sec: pause,
                ai_transcribe: transcribe,
                keys,
                ..options
            },
            input_exists,
        ) == match settled(options, input_exists) {
            Ok(config) => Ok(
                AppConfigView {
                    noise_threshold_db: db,
                    min_silence_sec: pause,
                    ai_transcribe: transcribe,
                    keys,
                    ..config
                },
            ),
            Err(e) => Err(e),
        },
{
}

/// The words of the command line: an argument is a path unless it starts with a
/// hyphen; an argument that does is one of the options, or unknown.
pub proof fn law_words(text: Seq<char>)
    ensures
        word(text) == Word::Path <==> text.len() == 0 || text[0] != '-',
        word(text) == Word::Db <==> seq!["--db"@, "-d"@].contains(text),
        word(text) == Word::Preset <==> seq!["--preset"@, "-p"@].contains(text),
        word(text) == Word::MinSec <==> seq!["--min-sec"@, "-m"@].contains(text),
        word(text) == Word::Format <==> seq!["--format"@, "-f"@].contains(text),
        word(text) == Word::Transcribe <==> seq!["--transcribe"@, "-t"@].contains(text),
        word(text) == Word::GroqKey <==> text == "--groq-key"@,
        word(text) == Word::GeminiKey <==> text == "--gemini-key"@,
        word(text) == Word::DeepseekKey <==> text == "--deepseek-key"@,
{
    law_short_names();
    reveal_strlit("-d");
    reveal_strlit("--db");
    reveal_strlit("-p");
    reveal_strlit("--preset");
    reveal_strlit("-m");
    reveal_strlit("--min-sec");
    reveal_strlit("-f");
    reveal_strlit("--format");
    reveal_strlit("-t");
    reveal_strlit("--transcribe");
    reveal_strlit("--groq-key");
    reveal_strlit("--gemini-key");
    reveal_strlit("--deepseek-key");
    assert("--groq-key"@.len() == 10 && "--gemini-key"@.len() == 12 && "--deepseek-key"@.len()
        == 14);
    assert("--db"@.len() == 4 && "--preset"@.len() == 8 && "--min-sec"@.len() == 9
        && "--format"@.len() == 8 && "--transcribe"@.len() == 12);
    assert("--gemini-key"@[2] == 'g' && "--transcribe"@[2] == 't');
    let db = seq!["--db"@, "-d"@];
    let preset = seq!["--preset"@, "-p"@];
    let min_sec = seq!["--min-sec"@, "-m"@];
    let format = seq!["--format"@, "-f"@];
    let transcribe = seq!["--transcribe"@, "-t"@];
    assert(db[0] == "--db"@ && db[1] == "-d"@);
    assert(preset[0] == "--preset"@ && preset[1] == "-p"@);
    assert(min_sec[0] == "--min-sec"@ && min_sec[1] == "-m"@);
    assert(format[0] == "--format"@ && format[1] == "-f"@);
    assert(transcribe[0] == "--transcribe"@ && transcribe[1] == "-t"@);
}

/// What an option with its value does behind a complete list of arguments: it
/// sets one thing and keeps the rest. A number that is none and a preset that is
/// none are refused; a format that is none takes back one given before.
pub proof fn law_what_options_set(
    casing: Casing,
    args: Seq<ArgView>,
    option: ArgView,
    value: ArgView,
    start: OptionsView,
    before: OptionsView,
)
    requires
        complete(args),
        parsed(casing, args, start) == Ok::<_, ArgErrorView>(before),
    ensures
        ({
            let after = parsed(casing, args.push(option).push(value), start);
            let lowered = casing.lower(value.text);
            &&& seq!["--db"@, "-d"@].contains(option.text) ==> match value.number {
                Some(n) => after == Ok::<_, ArgErrorView>(
                    OptionsView { noise_threshold_db: n, ..before },
                ),
                None => after == Err::<OptionsView, _>(ArgErrorView::BadDb),
            }
            &&& seq!["--min-sec"@, "-m"@].contains(option.text) ==> match value.number {
                Some(n) => after == Ok::<_, ArgErrorView>(
                    OptionsView { min_silence_sec: n, ..before },
                ),
                None => after == Err::<OptionsView, _>(ArgErrorView::BadMinSec),
            }
            &&& seq!["--preset"@, "-p"@].contains(option.text) ==> match after {
                Ok(o) => {
                    let db = o.noise_threshold_db;
                    &&& o == (OptionsView { noise_threshold_db: db, ..before })
                    &&& seq!["pure"@, "clean"@].contains(lowered) && db.is_whole(-50)
                        || seq!["normal"@, "medium"@].contains(lowered) && db.is_whole(-35)
                        || seq!["noisy"@, "aggressive"@].contains(lowered) && db.is_whole(-25)
                },
                Err(e) => e == ArgErrorView::UnknownPreset && !seq![
                    "pure"@,
                    "clean"@,
                    "normal"@,
                    "medium"@,
                    "noisy"@,
                    "aggressive"@,
                ].contains(lowered),
            }
            &&& seq!["--format"@, "-f"@].contains(option.text) ==> after == Ok::<_, ArgErrorView>(
                OptionsView {
                    custom_format: if lowered == "mp3"@ {
                        Some(AudioFormat::Mp3)
                    } else if lowered == "wav"@ {
                        Some(AudioFormat::Wav)
                    } else {
                        None
                    },
                    ..before
                },
            )
            &&& option.text == "--groq-key"@ ==> after == Ok::<_, ArgErrorView>(
                OptionsView {
                    keys: ApiKeysView { groq: Some(value.text), ..before.keys },
                    ..before
                },
            )
            &&& option.text == "--gemini-key"@ ==> after == Ok::<_, ArgErrorView>(
                OptionsView {
                    keys: ApiKeysView { gemini: Some(value.text), ..before.keys },
                    ..before
                },
            )
            &&& option.text == "--deepseek-key"@ ==> after == Ok::<_, ArgErrorView>(
                OptionsView {
                    keys: ApiKeysView { deepseek: Some(value.text), ..before.keys },
                    ..before
                },
            )
        }),
{
    law_words(option.text);
    let w = word(option.text);
    if w.takes_value() {
        law_last_value_wins(casing, args, option, value, start);
        law_preset_names(casing.lower(value.text));
        law_preset_thresholds(Preset::Pure);
        law_preset_thresholds(Preset::Normal);
        law_preset_thresholds(Preset::Noisy);
        let lowered = casing.lower(value.text);
        let all = seq!["pure"@, "clean"@, "normal"@, "medium"@, "noisy"@, "aggressive"@];
        assert(all[0] == "pure"@ && all[1] == "clean"@ && all[2] == "normal"@ && all[3]
            == "medium"@ && all[4] == "noisy"@ && all[5] == "aggressive"@);
        let pure = seq!["pure"@, "clean"@];
        let normal = seq!["normal"@, "medium"@];
        let noisy = seq!["noisy"@, "aggressive"@];
        assert(pure[0] == all[0] && pure[1] == all[1]);
        assert(normal[0] == all[2] && normal[1] == all[3]);
        assert(noisy[0] == all[4] && noisy[1] == all[5]);
    }
}

/// A word without a value behind a complete list: the wish for a transcript, or
/// one more path.
pub proof fn law_what_words_set(
    casing: Casing,
    args: Seq<ArgView>,
    last: ArgView,
    start: OptionsView,
    before: OptionsView,
)
    requires
        complete(args),
        parsed(casing, args, start) == Ok::<_, ArgErrorView>(before),
    ensures
        ({
            let after = parsed(casing, args.push(last), start);
            &&& seq!["--transcribe"@, "-t"@].contains(last.text) ==> after == Ok::<
                _,
                ArgErrorView,
            >(OptionsView { ai_transcribe: true, ..before })
            &&& last.text.len() == 0 || last.text[0] != '-' ==> after == Ok::<_, ArgErrorView>(
                OptionsView { positional: before.positional.push(last.text), ..before },
            )
        }),
{
    law_words(last.text);
    let one = seq![last];
    assert(args.push(last) =~= args + one);
    law_reading_in_parts(casing, args, one, start);
    assert(one.skip(1) =~= Seq::<ArgView>::empty());
    reveal_with_fuel(parsed, 2);
}

/// Without arguments the threshold is -35 dB, the shortest pause is the default
/// one, the format is open, no transcript is wanted, and the keys are those of
/// the environment.
pub proof fn law_defaults(casing: Casing, env: ApiKeysView)
    ensures
        parsed(casing, Seq::empty(), default_options(env)) matches Ok(o) && {
            &&& o.positional.len() == 0
            &&& o.noise_threshold_db.is_whole(-35)
            &&& o.min_silence_sec == (Single { bits: MIN_SILENCE_BITS })
            &&& o.custom_format is None
            &&& !o.ai_transcribe
            &&& o.keys == env
        },
{
    law_preset_thresholds(Preset::Normal);
}

/// The manual is shown exactly when some argument is `--help` or `-h`.
pub proof fn law_who_asks_for_help(casing: Casing, raw: Seq<ArgView>, env: ApiKeysView)
    ensures
        invocation(casing, raw, env) == InvocationView::Help <==> exists|i: int|
            0 <= i < raw.len() && seq!["--help"@, "-h"@].contains(#[trigger] raw[i].text),
{
    let words = seq!["--help"@, "-h"@];
    assert(words[0] == "--help"@ && words[1] == "-h"@);
    if asks_help(raw) {
        let i = choose|i: int| 0 <= i < raw.len() && is_help(#[trigger] raw[i].text);
        assert(words.contains(raw[i].text));
    }
    if exists|i: int| 0 <= i < raw.len() && words.contains(#[trigger] raw[i].text) {
        let i = choose|i: int| 0 <= i < raw.len() && words.contains(#[trigger] raw[i].text);
        assert(is_help(raw[i].text));
    }
}

/// Without arguments the dialogue is started, with the keys of the environment.
pub proof fn law_no_arguments(casing: Casing, raw: Seq<ArgView>, env: ApiKeysView)
    requires
        raw.len() <= 1 || raw.len() == 2 && raw[1].text == "--"@,
        forall|i: int|
            0 <= i < raw.len() ==> !seq!["--help"@, "-h"@].contains(#[trigger] raw[i].text),
    ensures
        invocation(casing, raw, env) == InvocationView::Interactive(env),
{
    law_who_asks_for_help(casing, raw, env);
}

/// What stands behind the name of the program is read from the defaults on, and
/// that name is no argument. What cannot be read is refused, and so is a command
/// line that names no recording; else the first path is the recording to look
/// for.
pub proof fn law_arguments_are_read(
    casing: Casing,
    program: ArgView,
    args: Seq<ArgView>,
    env: ApiKeysView,
)
    requires
        args.len() > 0,
        args[0].text != "--"@,
        invocation(casing, seq![program] + args, env) != InvocationView::Help,
    ensures
        match invocation(casing, seq![program] + args, env) {
            InvocationView::Run { input, options } => {
                &&& parsed(casing, args, default_options(env)) == Ok::<_, ArgErrorView>(options)
                &&& options.positional.len() > 0
                &&& input == options.positional[0]
            },
            InvocationView::Refused(e) => match parsed(casing, args, default_options(env)) {
                Ok(options) => options.positional.len() == 0 && e == ArgErrorView::NoInput,
                Err(reason) => e == reason,
            },
            _ => false,
        },
{
    assert((seq![program] + args).skip(1) =~= args);
}

/// The settings that a command line leads to where the recording exists.
pub open spec fn settings_of(i: InvocationView) -> Option<AppConfigView> {
    match i {
        InvocationView::Run { options, .. } => match settled(options, true) {
            Ok(config) => Some(config),
            Err(_) => None,
        },
        _ => None,
    }
}

/// From the command line to the settings: the value of an option that stands
/// last decides what the run is done with.
pub proof fn law_command_line_decides(
    casing: Casing,
    program: ArgView,
    args: Seq<ArgView>,
    option: ArgView,
    value: ArgView,
    env: ApiKeysView,
    before: OptionsView,
)
    requires
        complete(args),
        args.len() > 0,
        args[0].text != "--"@,
        parsed(casing, args, default_options(env)) == Ok::<_, ArgErrorView>(before),
        before.positional.len() > 0,
        invocation(casing, seq![program] + args.push(option).push(value), env)
            != InvocationView::Help,
    ensures
        ({
            let run = invocation(casing, seq![program] + args.push(option).push(value), env);
            let lowered = casing.lower(value.text);
            &&& seq!["--db"@, "-d"@].contains(option.text) && value.number is Some ==> (settings_of(
                run,
            ) matches Some(config) && {
                &&& config.input_path == before.positional[0]
                &&& config.noise_threshold_db == value.number.unwrap()
                &&& config.min_silence_sec == before.min_silence_sec
                &&& config.ai_transcribe == before.ai_transcribe
                &&& config.keys == before.keys
            })
            &&& seq!["--preset"@, "-p"@].contains(option.text) && lowered == "noisy"@ ==> (
            settings_of(run) matches Some(config) && config.noise_threshold_db.is_whole(-25))
            &&& seq!["--preset"@, "-p"@].contains(option.text) && lowered == "normal"@ ==> (
            settings_of(run) matches Some(config) && config.noise_threshold_db.is_whole(-35))
            &&& seq!["--preset"@, "-p"@].contains(option.text) && lowered == "pure"@ ==> (
            settings_of(run) matches Some(config) && config.noise_threshold_db.is_whole(-50))
            &&& seq!["--min-sec"@, "-m"@].contains(option.text) && value.number is Some ==> (
            settings_of(run) matches Some(config) && {
                &&& config.min_silence_sec == value.number.unwrap()
                &&& config.noise_threshold_db == before.noise_threshold_db
            })
            &&& option.text == "--groq-key"@ ==> (settings_of(run) matches Some(config) && {
                &&& config.keys.groq == Some(value.text)
                &&& config.ai_transcribe == before.ai_transcribe
            })
            &&& option.text == "--deepseek-key"@ ==> (settings_of(run) matches Some(config)
                && config.keys.deepseek == Some(value.text))
        }),
{
    let all = args.push(option).push(value);
    assert(all[0] == args[0]);
    law_arguments_are_read(casing, program, all, env);
    law_what_options_set(casing, args, option, value, default_options(env), before);
    let lowered = casing.lower(value.text);
    let pure = seq!["pure"@, "clean"@];
    let noisy = seq!["noisy"@, "aggressive"@];
    let normal = seq!["normal"@, "medium"@];
    let known = seq!["pure"@, "clean"@, "normal"@, "medium"@, "noisy"@, "aggressive"@];
    assert(pure[0] == "pure"@ && noisy[0] == "noisy"@ && normal[0] == "normal"@);
    assert(known[0] == "pure"@ && known[2] == "normal"@ && known[4] == "noisy"@);
    law_preset_names(lowered);
}

/// The name of the program in the manual is the one it was called by.
pub proof fn law_program_name(raw: Seq<ArgView>)
    ensures
        raw.len() > 0 ==> program(raw) == raw[0].text,
        raw.len() == 0 ==> program(raw) == "silence_remover"@,
{
}

/// A message names what it is about: the option that is unknown, the file that is
/// missing, the option whose value is no number.
pub proof fn law_refusals_name_the_fault(s: Seq<char>)
    ensures
        ArgErrorView::UnknownOption(s).text() == "Неизвестная опция: "@ + s,
        ArgErrorView::InputNotFound(s).text() == "Входной файл не найден: "@ + s,
        ends_with(ArgErrorView::BadDb.text(), " --db"@),
        ends_with(ArgErrorView::BadMinSec.text(), " --min-sec"@),
        ends_with(ArgErrorView::UnknownPreset.text(), ": pure, normal или noisy"@),
        ArgErrorView::NoInput.text() == "Не указан входной файл!"@,
{
    reveal_strlit("Некорректное значение дБ для --db");
    reveal_strlit("Некорректное значение секунд для --min-sec");
    reveal_strlit("Неизвестный пресет. Используйте: pure, normal или noisy");
    reveal_strlit(" --db");
    reveal_strlit(" --min-sec");
    reveal_strlit(": pure, normal или noisy");
    let db = ArgErrorView::BadDb.text();
    let min_sec = ArgErrorView::BadMinSec.text();
    let preset = ArgErrorView::UnknownPreset.text();
    assert(db.skip(db.len() - " --db"@.len()) =~= " --db"@);
    assert(min_sec.skip(min_sec.len() - " --min-sec"@.len()) =~= " --min-sec"@);
    assert(preset.skip(preset.len() - ": pure, normal или noisy"@.len())
        =~= ": pure, normal или noisy"@);
}

/// What stands behind a separator is read as it would be without one, a second
/// separator included, which is then an option that nobody knows.
pub proof fn law_arguments_behind_a_separator_are_read(
    casing: Casing,
    program: ArgView,
    separator: ArgView,
    args: Seq<ArgView>,
    env: ApiKeysView,
)
    requires
        separator.text == "--"@,
        args.len() > 0,
        invocation(casing, seq![program, separator] + args, env) != InvocationView::Help,
    ensures
        match invocation(casing, seq![program, separator] + args, env) {
            InvocationView::Run { input, options } => {
                &&& parsed(casing, args, default_options(env)) == Ok::<_, ArgErrorView>(options)
                &&& options.positional.len() > 0
                &&& input == options.positional[0]
            },
            InvocationView::Refused(e) => match parsed(casing, args, default_options(env)) {
                Ok(options) => options.positional.len() == 0 && e == ArgErrorView::NoInput,
                Err(reason) => e == reason,
            },
            _ => false,
        },
{
    assert((seq![program, separator] + args).skip(2) =~= args);
}

/// Letter case makes no difference to the values of options: values that are the
/// same in lower case, and the same number, mean the same preset and the same
/// format.
pub proof fn law_letter_case_of_values(
    casing: Casing,
    option: ArgView,
    x: ArgView,
    y: ArgView,
    rest: Seq<ArgView>,
    options: OptionsView,
)
    requires
        seq!["--preset"@, "-p"@, "--format"@, "-f"@].contains(option.text),
        match casing {
            Casing::Unicode => unicode_lower(x.text) == unicode_lower(y.text),
            Casing::Ascii => ascii_lower(x.text) == ascii_lower(y.text),
        },
    ensures
        parsed(casing, seq![option, x] + rest, options) == parsed(
            casing,
            seq![option, y] + rest,
            options,
        ),
{
    law_words(option.text);
    let words = seq!["--preset"@, "-p"@, "--format"@, "-f"@];
    let preset = seq!["--preset"@, "-p"@];
    let format = seq!["--format"@, "-f"@];
    assert(preset[0] == words[0] && preset[1] == words[1] && format[0] == words[2] && format[1]
        == words[3]);
    let a = seq![option, x] + rest;
    let b = seq![option, y] + rest;
    assert(a[0] == option && b[0] == option && a[1] == x && b[1] == y);
    assert(a.skip(2) =~= b.skip(2));
}

/// The views of arguments and options have all that these have.
pub proof fn law_argument_views(args: Seq<Arg>, i: int, o: Options)
    ensures
        arg_views(args).len() == args.len(),
        0 <= i < args.len() ==> arg_views(args)[i].text == args[i].text@
            && arg_views(args)[i].number == args[i].number,
        o@.positional.len() == o.positional@.len(),
        0 <= i < o.positional@.len() ==> o@.positional[i] == o.positional@[i]@,
        o@.noise_threshold_db == o.noise_threshold_db,
        o@.min_silence_sec == o.min_silence_sec,
        o@.custom_format == o.custom_format,
        o@.ai_transcribe == o.ai_transcribe,
        o@.keys == o.keys@,
{
}

} // verus!
