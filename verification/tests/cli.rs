use silence_remover::cli::{
    apply_value, exe_name, parse_args, parse_options, settle, Arg, ArgError, Invocation, Options, Word,
};
use silence_remover::config::{
    ApiKeys, Preset, Single, MIN_SILENCE_BITS, NOISY_DB_BITS, NORMAL_DB_BITS, PURE_DB_BITS,
};
use silence_remover::format::AudioFormat;

fn number(value: f32) -> Single {
    Single { bits: value.to_bits() }
}

fn args(texts: &[&str]) -> Vec<Arg> {
    texts
        .iter()
        .map(|t| Arg { text: t.to_string(), number: t.parse::<f32>().ok().map(number) })
        .collect()
}

fn no_keys() -> ApiKeys {
    ApiKeys { groq: None, gemini: None, deepseek: None }
}

fn parse(texts: &[&str]) -> Result<Options, ArgError> {
    parse_options(&args(texts), 0, no_keys())
}

fn options(texts: &[&str]) -> Options {
    parse(texts).unwrap()
}

fn refusal(texts: &[&str]) -> String {
    parse(texts).unwrap_err().message()
}

#[test]
fn bit_patterns() {
    assert_eq!(f32::from_bits(PURE_DB_BITS), -50.0);
    assert_eq!(f32::from_bits(NORMAL_DB_BITS), -35.0);
    assert_eq!(f32::from_bits(NOISY_DB_BITS), -25.0);
    assert_eq!(f32::from_bits(MIN_SILENCE_BITS), 0.4);
    for v in [1.0f32, 0.0, -0.0, -1.0, f32::NAN, f32::INFINITY, f32::NEG_INFINITY, 1e-45] {
        assert_eq!(number(v).is_positive(), v > 0.0);
    }
    assert!(!number(-f32::NAN).is_positive());
}

#[test]
fn defaults() {
    let o = options(&["in.mp3"]);
    assert_eq!(o.positional, vec!["in.mp3".to_string()]);
    assert_eq!(o.noise_threshold_db, number(-35.0));
    assert_eq!(o.min_silence_sec, number(0.4));
    assert_eq!(o.custom_format, None);
    assert!(!o.ai_transcribe);
    assert!(o.keys.groq.is_none() && o.keys.gemini.is_none() && o.keys.deepseek.is_none());
}

#[test]
fn all_options() {
    let o = options(&[
        "in.mp3", "-d", "-42.5", "-m", "0.75", "--format", "WAV", "-t", "--groq-key", "gsk",
        "--gemini-key", "gem", "--deepseek-key", "ds", "out.wav",
    ]);
    assert_eq!(o.positional, vec!["in.mp3".to_string(), "out.wav".to_string()]);
    assert_eq!(o.noise_threshold_db, number(-42.5));
    assert_eq!(o.min_silence_sec, number(0.75));
    assert_eq!(o.custom_format, Some(AudioFormat::Wav));
    assert!(o.ai_transcribe);
    assert_eq!(o.keys.groq.as_deref(), Some("gsk"));
    assert_eq!(o.keys.gemini.as_deref(), Some("gem"));
    assert_eq!(o.keys.deepseek.as_deref(), Some("ds"));
}

#[test]
fn short_and_long_names() {
    for (short, long) in [("-d", "--db"), ("-p", "--preset"), ("-m", "--min-sec")] {
        assert_eq!(Word::read(short), Word::read(long));
        assert_ne!(Word::read(short), Word::Unknown);
    }
    assert_eq!(Word::read("-f"), Word::Format);
    assert_eq!(Word::read("-t"), Word::read("--transcribe"));
    assert_eq!(Word::read("--gro"), Word::Unknown);
    assert_eq!(Word::read("-"), Word::Unknown);
    assert_eq!(Word::read(""), Word::Path);
    assert_eq!(Word::read("a-b"), Word::Path);
}

#[test]
fn presets() {
    for (name, db) in [
        ("pure", -50.0), ("CLEAN", -50.0), ("normal", -35.0), ("Medium", -35.0), ("noisy", -25.0),
        ("aggressive", -25.0),
    ] {
        assert_eq!(options(&["-p", name]).noise_threshold_db, number(db));
    }
    assert_eq!(Preset::from_name("Pure"), None);
    assert_eq!(Preset::from_answer("2"), Preset::Pure);
    assert_eq!(Preset::from_answer("pure"), Preset::Pure);
    assert_eq!(Preset::from_answer("3"), Preset::Noisy);
    assert_eq!(Preset::from_answer("noisy"), Preset::Noisy);
    assert_eq!(Preset::from_answer("1"), Preset::Normal);
    assert_eq!(Preset::from_answer(""), Preset::Normal);
    assert_eq!(Preset::from_answer("PURE"), Preset::Normal);
}

#[test]
fn the_last_value_wins() {
    assert_eq!(options(&["-d", "-10", "-p", "pure"]).noise_threshold_db, number(-50.0));
    assert_eq!(options(&["-p", "pure", "--db", "-10"]).noise_threshold_db, number(-10.0));
    assert_eq!(options(&["-f", "wav", "-f", "ogg"]).custom_format, None);
}

#[test]
fn a_missing_value_is_ignored() {
    for option in ["-d", "-p", "-m", "-f", "--groq-key", "--gemini-key", "--deepseek-key"] {
        let o = options(&["a", option]);
        assert_eq!(o.positional, vec!["a".to_string()]);
        assert_eq!(o.noise_threshold_db, number(-35.0));
        assert!(o.keys.groq.is_none());
    }
}

#[test]
fn a_value_can_look_like_an_option() {
    assert_eq!(options(&["--groq-key", "-t"]).keys.groq.as_deref(), Some("-t"));
    assert!(!options(&["--groq-key", "-t"]).ai_transcribe);
}

#[test]
fn refusals() {
    assert_eq!(refusal(&["--db", "loud"]), "Некорректное значение дБ для --db");
    assert_eq!(refusal(&["-m", ""]), "Некорректное значение секунд для --min-sec");
    assert_eq!(
        refusal(&["-p", "loud"]),
        "Неизвестный пресет. Используйте: pure, normal или noisy"
    );
    assert_eq!(refusal(&["a", "--fast", "-p", "loud"]), "Неизвестная опция: --fast");
    assert_eq!(refusal(&["a", "--"]), "Неизвестная опция: --");
}

#[test]
fn the_environment_is_a_fallback() {
    let env = || ApiKeys {
        groq: Some("env-g".to_string()),
        gemini: None,
        deepseek: Some("env-d".to_string()),
    };
    let o = parse_options(&args(&["--groq-key", "opt-g", "a"]), 0, env()).unwrap();
    assert_eq!(o.keys.groq.as_deref(), Some("opt-g"));
    assert_eq!(o.keys.deepseek.as_deref(), Some("env-d"));
    assert_eq!(o.keys.gemini, None);
}

#[test]
fn invocations() {
    assert!(matches!(parse_args(&args(&["x", "a", "-h"]), no_keys()), Invocation::Help));
    assert!(matches!(parse_args(&args(&["--help"]), no_keys()), Invocation::Help));
    assert!(matches!(
        parse_args(&args(&["x", "--groq-key", "--help"]), no_keys()),
        Invocation::Help
    ));
    assert!(matches!(parse_args(&args(&["x"]), no_keys()), Invocation::Interactive(_)));
    assert!(matches!(parse_args(&args(&["x", "--"]), no_keys()), Invocation::Interactive(_)));
    assert!(matches!(parse_args(&args(&[]), no_keys()), Invocation::Interactive(_)));
    match parse_args(&args(&["x", "--", "a.mp3"]), no_keys()) {
        Invocation::Run { input, options } => {
            assert_eq!(input, "a.mp3");
            assert_eq!(options.positional, vec!["a.mp3".to_string()]);
        }
        other => panic!("{:?}", other),
    }
    match parse_args(&args(&["x", "a.mp3", "--"]), no_keys()) {
        Invocation::Refused(e) => assert_eq!(e.message(), "Неизвестная опция: --"),
        other => panic!("{:?}", other),
    }
}

#[test]
fn a_run_names_the_file_to_look_for() {
    match parse_args(&args(&["x", "-t", "in.mp3", "out.mp3"]), no_keys()) {
        Invocation::Run { input, .. } => assert_eq!(input, "in.mp3"),
        other => panic!("{:?}", other),
    }
    match parse_args(&args(&["x", "-t"]), no_keys()) {
        Invocation::Refused(e) => assert_eq!(e.message(), "Не указан входной файл!"),
        other => panic!("{:?}", other),
    }
}

#[test]
fn values_are_read_in_lower_case() {
    let value = Arg { text: "ignored".to_string(), number: None };
    let mut o = options(&["a"]);
    assert!(apply_value(&mut o, Word::Preset, &value, "pure").is_ok());
    assert_eq!(o.noise_threshold_db, number(-50.0));
    assert!(apply_value(&mut o, Word::Format, &value, "wav").is_ok());
    assert_eq!(o.custom_format, Some(AudioFormat::Wav));
    assert!(apply_value(&mut o, Word::Preset, &value, "PURE").is_err());
    assert!(apply_value(&mut o, Word::GroqKey, &value, "x").is_ok());
    assert_eq!(o.keys.groq.as_deref(), Some("ignored"));
}

#[test]
fn program_names() {
    assert_eq!(exe_name(&args(&["./tool", "a"])), "./tool");
    assert_eq!(exe_name(&args(&[])), "silence_remover");
}

#[test]
fn settling_needs_an_input_that_exists() {
    assert_eq!(
        settle(options(&["-t"]), true).unwrap_err().message(),
        "Не указан входной файл!"
    );
    assert_eq!(
        settle(options(&["lost.mp3"]), false).unwrap_err().message(),
        "Входной файл не найден: lost.mp3"
    );
}

#[test]
fn settling_the_output() {
    let c = settle(options(&["talk.m4a"]), true).unwrap();
    assert_eq!(c.input_path, "talk.m4a");
    assert_eq!(c.output_path, "talk_clean.mp3");
    assert_eq!(c.output_format, AudioFormat::Mp3);

    let c = settle(options(&["talk.m4a", "-f", "wav"]), true).unwrap();
    assert_eq!(c.output_path, "talk_clean.wav");
    assert_eq!(c.output_format, AudioFormat::Wav);

    let c = settle(options(&["talk.m4a", "res.WAV"]), true).unwrap();
    assert_eq!(c.output_path, "res.WAV");
    assert_eq!(c.output_format, AudioFormat::Wav);

    let c = settle(options(&["talk.m4a", "res.wav", "-f", "mp3", "rest"]), true).unwrap();
    assert_eq!(c.output_path, "res.wav");
    assert_eq!(c.output_format, AudioFormat::Mp3);

    let c = settle(options(&["talk.m4a", "res.flac"]), true).unwrap();
    assert_eq!(c.output_format, AudioFormat::Mp3);
}
