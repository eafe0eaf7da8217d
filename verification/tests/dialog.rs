use silence_remover::config::{ApiKeys, AppConfig, Single};
use silence_remover::dialog::{
    is_affirmative, key_notice, read_key, says_yes, Dialog, DialogAction, DialogEvent, DialogReply,
    DialogState, Input,
};
use silence_remover::format::AudioFormat;
use silence_remover::usage::usage_text;

fn env(groq: Option<&str>, deepseek: Option<&str>) -> ApiKeys {
    ApiKeys {
        groq: groq.map(|k| k.to_string()),
        gemini: Some("gem".to_string()),
        deepseek: deepseek.map(|k| k.to_string()),
    }
}

fn line(text: &str) -> DialogEvent {
    DialogEvent::Input(Input::Line(text.to_string()))
}

fn failed(reason: &str, read: &str) -> DialogEvent {
    DialogEvent::Input(Input::Failed { reason: reason.to_string(), read: read.to_string() })
}

fn go(dialog: &mut Dialog, event: DialogEvent) -> DialogReply {
    assert!(dialog.accepts(&event));
    dialog.step(event)
}

fn config(reply: DialogReply) -> AppConfig {
    match reply.action {
        DialogAction::Run(c) => c,
        other => panic!("{:?}", other),
    }
}

fn up_to_preset(keys: ApiKeys) -> Dialog {
    let (mut d, _) = Dialog::start(keys, "tool");
    go(&mut d, line(" \"talk.m4a\"\n"));
    go(&mut d, DialogEvent::FileExists(true));
    d
}

#[test]
fn yes_in_two_languages() {
    for answer in ["y", "Y\n", " yes ", "YES", "д", "Да\r\n", "ДА", "1", "у", "У"] {
        assert!(says_yes(answer), "{}", answer);
    }
    for answer in ["", "n", "н", "нет", "no", "yess", "2", "y y"] {
        assert!(!says_yes(answer), "{}", answer);
    }
    assert!(is_affirmative("да"));
    assert!(!is_affirmative("ДА"));
}

#[test]
fn keys_are_trimmed() {
    assert_eq!(read_key(" gsk_1 \n").as_deref(), Some("gsk_1"));
    assert_eq!(read_key(" \n"), None);
}

#[test]
fn found_keys_are_shown_in_part() {
    assert_eq!(key_notice("gsk_1234567"), "✅ Найден Groq API Key в системе: gsk_1234...\n");
    assert_eq!(key_notice("abc"), "✅ Найден Groq API Key в системе: abc...\n");
    assert_eq!(key_notice("ключики"), "✅ Найден Groq API Key в системе: ключ...\n");
}

#[test]
fn the_dialogue_starts_with_the_manual() {
    let (d, reply) = Dialog::start(env(None, None), "tool");
    assert!(matches!(d.state, DialogState::File));
    assert_eq!(
        reply.notice,
        usage_text("tool")
            + "==================================================\n💡 ИНТЕРАКТИВНЫЙ РЕЖИМ (Прямой запуск)\n==================================================\n"
    );
    assert_eq!(reply.prompt, "👉 Перетащите файл в это окно и нажмите Enter:\n> ");
    assert!(matches!(reply.action, DialogAction::ReadLine));
    assert_eq!(reply.found_key, None);
}

#[test]
fn the_dialogue_can_end_early() {
    let (mut d, _) = Dialog::start(env(None, None), "tool");
    let reply = go(&mut d, line("  \n"));
    assert_eq!(reply.notice, "Файл не передан. Завершение работы.\n");
    assert!(matches!(reply.action, DialogAction::Quit));

    let (mut d, _) = Dialog::start(env(None, None), "tool");
    let reply = go(&mut d, failed("broken", "half"));
    assert!(matches!(reply.action, DialogAction::Fail(e) if e == "broken"));

    let (mut d, _) = Dialog::start(env(None, None), "tool");
    let reply = go(&mut d, line("'lost.mp3'"));
    assert!(matches!(reply.action, DialogAction::CheckFile(p) if p == "lost.mp3"));
    let reply = go(&mut d, DialogEvent::FileExists(false));
    assert!(matches!(reply.action, DialogAction::Fail(e) if e == "Файл не найден: lost.mp3"));
    assert!(matches!(d.state, DialogState::Ended));
}

#[test]
fn without_a_transcript() {
    let mut d = up_to_preset(env(None, None));
    let reply = go(&mut d, line("3\n"));
    assert_eq!(reply.prompt, "\n📝 Выполнить ИИ-расшифровку речи в .txt файл? (y/n / д/н): ");
    let c = config(go(&mut d, line("н")));
    assert_eq!(c.input_path, "talk.m4a");
    assert_eq!(c.output_path, "talk_clean.mp3");
    assert_eq!(c.noise_threshold_db, Single { bits: (-25.0f32).to_bits() });
    assert_eq!(c.min_silence_sec, Single { bits: 0.4f32.to_bits() });
    assert_eq!(c.output_format, AudioFormat::Mp3);
    assert!(!c.ai_transcribe);
    assert_eq!(c.keys.groq, None);
    assert_eq!(c.keys.gemini.as_deref(), Some("gem"));
}

#[test]
fn with_all_keys_in_the_environment() {
    let mut d = up_to_preset(env(Some("gsk"), Some("ds")));
    go(&mut d, line("pure"));
    let reply = go(&mut d, line("да"));
    assert_eq!(reply.found_key.as_deref(), Some("gsk"));
    assert_eq!(
        reply.notice,
        "\n--------------------------------------------------\n🔑 НАСТРОЙКА ИИ-КЛЮЧЕЙ\n--------------------------------------------------\n"
    );
    let c = config(reply);
    assert_eq!(c.noise_threshold_db, Single { bits: (-50.0f32).to_bits() });
    assert!(c.ai_transcribe);
    assert_eq!(c.keys.groq.as_deref(), Some("gsk"));
    assert_eq!(c.keys.deepseek.as_deref(), Some("ds"));
}

#[test]
fn missing_keys_are_asked_for() {
    let mut d = up_to_preset(env(None, None));
    go(&mut d, line(""));
    let reply = go(&mut d, line("y"));
    assert_eq!(reply.found_key, None);
    assert_eq!(reply.prompt, "👉 Вставьте ваш Groq API Key (gsk_...) и нажмите Enter:\n> ");
    let reply = go(&mut d, line(" gsk_x \n"));
    assert_eq!(
        reply.prompt,
        "\n🧠 (Опционально) Введите DeepSeek API Key для пунктуации [Enter - пропустить]:\n> "
    );
    let c = config(go(&mut d, line("\n")));
    assert_eq!(c.keys.groq.as_deref(), Some("gsk_x"));
    assert_eq!(c.keys.deepseek, None);
    assert_eq!(c.noise_threshold_db, Single { bits: (-35.0f32).to_bits() });

    let mut d = up_to_preset(env(Some("gsk"), None));
    go(&mut d, line("1"));
    let reply = d.answer_transcript(true);
    assert_eq!(reply.found_key.as_deref(), Some("gsk"));
    let c = config(go(&mut d, line("ds")));
    assert_eq!(c.keys.groq.as_deref(), Some("gsk"));
    assert_eq!(c.keys.deepseek.as_deref(), Some("ds"));

    let mut d = up_to_preset(env(None, Some("ds")));
    go(&mut d, line("1"));
    d.answer_transcript(true);
    let c = config(go(&mut d, line("")));
    assert_eq!(c.keys.groq, None);
    assert_eq!(c.keys.deepseek.as_deref(), Some("ds"));
}

#[test]
fn the_menu_is_shown() {
    let (mut d, _) = Dialog::start(env(None, None), "tool");
    go(&mut d, line("a"));
    let reply = go(&mut d, DialogEvent::FileExists(true));
    assert_eq!(
        reply.notice,
        "\nВыберите пресет чувствительности:\n  [1] normal (-35 dB) - Стандарт для речи (по умолчанию)\n  [2] pure   (-50 dB) - Только абсолютная тишина\n  [3] noisy  (-25 dB) - Агрессивная обрезка (для шума)\n"
    );
    assert_eq!(reply.prompt, "Ваш выбор [1-3]: ");
}

#[test]
fn the_dialogue_accepts_only_what_it_waits_for() {
    let (d, _) = Dialog::start(env(None, None), "tool");
    assert!(!d.accepts(&DialogEvent::FileExists(true)));
    let d = up_to_preset(env(None, None));
    assert!(d.accepts(&failed("x", "")));
    assert!(!d.accepts(&DialogEvent::FileExists(true)));
    let ended = Dialog { env: env(None, None), state: DialogState::Ended };
    assert!(!ended.accepts(&line("a")));
}

#[test]
fn later_failures_are_answers() {
    let mut d = up_to_preset(env(None, None));
    go(&mut d, failed("broken", ""));
    let c = config(go(&mut d, failed("broken", "")));
    assert_eq!(c.noise_threshold_db, Single { bits: (-35.0f32).to_bits() });
    assert!(!c.ai_transcribe);

    let mut d = up_to_preset(env(None, None));
    go(&mut d, failed("broken", "2"));
    go(&mut d, failed("broken", "y"));
    go(&mut d, failed("broken", ""));
    let c = config(go(&mut d, failed("broken", "ds")));
    assert_eq!(c.noise_threshold_db, Single { bits: (-50.0f32).to_bits() });
    assert!(c.ai_transcribe);
    assert_eq!(c.keys.groq, None);
    assert_eq!(c.keys.deepseek.as_deref(), Some("ds"));
}
