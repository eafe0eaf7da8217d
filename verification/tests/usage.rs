use silence_remover::config::{ApiKeys, AppConfig, Single};
use silence_remover::format::AudioFormat;
use silence_remover::media::WrittenNumbers;
use silence_remover::usage::{
    args_complaint, header_text, setup_complaint, show_settings, usage_text, WAIT_NOTE,
};

#[test]
fn manual_is_exact() {
    let mut expected = String::new();
    expected += &format!("\n📌 РУКОВОДСТВО ПО ИСПОЛЬЗОВАНИЮ:");
    expected += "\n";
    expected += &format!("--------------------------------------------------");
    expected += "\n";
    expected += &format!("  1. Командная строка:");
    expected += "\n";
    expected += &format!("     {} <входной_файл> [выходной_файл] [опции]", "tool");
    expected += "\n";
    expected += &format!("     cargo run -- <входной_файл> [выходной_файл] [опции]\n");
    expected += "\n";
    expected += &format!("  2. Опции:");
    expected += "\n";
    expected += &format!("     -d, --db <число>         Порог тишины в дБ (по умолчанию: -35)");
    expected += "\n";
    expected += &format!("     -p, --preset <название>  Пресеты:");
    expected += "\n";
    expected += &format!("                              • pure   (-50 dB) - только 100% цифровая пустота");
    expected += "\n";
    expected += &format!("                              • normal (-35 dB) - комната/микрофон (стандарт)");
    expected += "\n";
    expected += &format!("                              • noisy  (-25 dB) - шумное помещение");
    expected += "\n";
    expected += &format!("     -m, --min-sec <число>    Мин. длительность тишины в сек (по умолчанию: 0.4)");
    expected += "\n";
    expected += &format!("     -f, --format <mp3|wav>   Формат файла (mp3 или wav)");
    expected += "\n";
    expected += &format!("     -t, --transcribe         Включить ИИ-распознавание речи в .txt");
    expected += "\n";
    expected += &format!("     --groq-key <ключ>        API ключ Groq Whisper (перем. среды GROQ_API_KEY) [Рекомендуется]");
    expected += "\n";
    expected += &format!("     --gemini-key <ключ>      API ключ Gemini (перем. среды GEMINI_API_KEY)");
    expected += "\n";
    expected += &format!("     --deepseek-key <ключ>    API ключ DeepSeek для постобработки текста");
    expected += "\n";
    expected += &format!("     -h, --help               Показать это руководство\n");
    expected += "\n";
    assert_eq!(usage_text("tool"), expected);
}

#[test]
fn title_is_exact() {
    assert_eq!(
        header_text(),
        "==================================================\n    Silence Remover & AI Transcriber (Rust)\n==================================================\n"
    );
}

#[test]
fn settings_are_shown() {
    let config = AppConfig {
        input_path: "in.m4a".to_string(),
        output_path: "out.wav".to_string(),
        noise_threshold_db: Single { bits: (-35.0f32).to_bits() },
        min_silence_sec: Single { bits: 0.4f32.to_bits() },
        output_format: AudioFormat::Wav,
        ai_transcribe: true,
        keys: ApiKeys { groq: None, gemini: None, deepseek: None },
    };
    let numbers = WrittenNumbers { threshold: "-35.0".to_string(), pause: "0.40".to_string() };
    assert_eq!(
        show_settings(&config, &numbers),
        "\n Настройки:\n ├ Вход:         in.m4a\n ├ Выход:        out.wav\n ├ Формат:       WAV\n ├ Порог:        -35.0 dB\n ├ Мин. пауза:   0.40 сек\n └ ИИ Расшифровка: ВКЛЮЧЕНА\n--------------------------------------------------\n"
    );
    let quiet = AppConfig { ai_transcribe: false, output_format: AudioFormat::Mp3, ..config };
    let shown = show_settings(&quiet, &numbers);
    assert!(shown.contains(" ├ Формат:       MP3\n"));
    assert!(shown.contains(" └ ИИ Расшифровка: выключена\n"));
}

#[test]
fn complaints() {
    assert_eq!(setup_complaint("x"), "\n❌ Ошибка подготовки FFmpeg: x\n");
    assert_eq!(args_complaint("y"), "\n❌ Ошибка параметров: y\n");
    assert_eq!(WAIT_NOTE, "\nНажмите Enter, чтобы закрыть окно...\n");
}
