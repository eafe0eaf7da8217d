//! What the tool shows before it works: its title, its manual, its settings.

use vstd::prelude::*;

use crate::config::{AppConfig, AppConfigView};
use crate::format::AudioFormat;
use crate::media::WrittenNumbers;
use crate::text::{
    fields, holds, law_last_field, law_one_field, law_pattern_stands, lemma_parts_without,
    lemma_same_inside, starts_with,
};
use crate::tools::join3;

verus! {

/// The title.
pub const HEADER: &'static str = "==================================================
    Silence Remover & AI Transcriber (Rust)
==================================================
";

/// The manual up to the name of the program.
pub const USAGE_HEAD: &'static str = "
📌 РУКОВОДСТВО ПО ИСПОЛЬЗОВАНИЮ:
--------------------------------------------------
  1. Командная строка:
     ";

/// The manual behind the name of the program.
pub const USAGE_TAIL: &'static str = " <входной_файл> [выходной_файл] [опции]
     cargo run -- <входной_файл> [выходной_файл] [опции]

  2. Опции:
     -d, --db <число>         Порог тишины в дБ (по умолчанию: -35)
     -p, --preset <название>  Пресеты:
                              • pure   (-50 dB) - только 100% цифровая пустота
                              • normal (-35 dB) - комната/микрофон (стандарт)
                              • noisy  (-25 dB) - шумное помещение
     -m, --min-sec <число>    Мин. длительность тишины в сек (по умолчанию: 0.4)
     -f, --format <mp3|wav>   Формат файла (mp3 или wav)
     -t, --transcribe         Включить ИИ-распознавание речи в .txt
     --groq-key <ключ>        API ключ Groq Whisper (перем. среды GROQ_API_KEY) [Рекомендуется]
     --gemini-key <ключ>      API ключ Gemini (перем. среды GEMINI_API_KEY)
     --deepseek-key <ключ>    API ключ DeepSeek для постобработки текста
     -h, --help               Показать это руководство

";

/// The manual.
pub open spec fn usage(exe_name: Seq<char>) -> Seq<char> {
    USAGE_HEAD@ + exe_name + USAGE_TAIL@
}

/// The title.
pub fn header_text() -> (r: String)
    ensures
        r@ == HEADER@,
{
    HEADER.to_owned()
}

/// The manual, for the name by which the program was called.
pub fn usage_text(exe_name: &str) -> (r: String)
    ensures
        r@ == usage(exe_name@),
{
    join3(USAGE_HEAD, exe_name, USAGE_TAIL)
}

/// The settings as they are shown before the work starts.
pub open spec fn settings(
    config: AppConfigView,
    threshold: Seq<char>,
    pause: Seq<char>,
) -> Seq<char> {
    "\n Настройки:\n ├ Вход:         "@ + config.input_path + "\n ├ Выход:        "@
        + config.output_path + "\n ├ Формат:       "@ + config.output_format.label_text()
        + "\n ├ Порог:        "@ + threshold + " dB\n ├ Мин. пауза:   "@ + pause
        + " сек\n └ ИИ Расшифровка: "@ + (if config.ai_transcribe {
        "ВКЛЮЧЕНА"@
    } else {
        "выключена"@
    }) + "\n--------------------------------------------------\n"@
}

/// Shows the settings.
pub fn show_settings(config: &AppConfig, numbers: &WrittenNumbers) -> (r: String)
    ensures
        r@ == settings(config@, numbers.threshold@, numbers.pause@),
{
    let mut out = "\n Настройки:\n ├ Вход:         ".to_owned();
    out.append(config.input_path.as_str());
    out.append("\n ├ Выход:        ");
    out.append(config.output_path.as_str());
    out.append("\n ├ Формат:       ");
    out.append(config.output_format.label());
    out.append("\n ├ Порог:        ");
    out.append(numbers.threshold.as_str());
    out.append(" dB\n ├ Мин. пауза:   ");
    out.append(numbers.pause.as_str());
    out.append(" сек\n └ ИИ Расшифровка: ");
    if config.ai_transcribe {
        out.append("ВКЛЮЧЕНА");
    } else {
        out.append("выключена");
    }
    out.append("\n--------------------------------------------------\n");
    out
}

/// What is shown before the window closes.
pub const WAIT_NOTE: &'static str = "\nНажмите Enter, чтобы закрыть окно...\n";

/// The complaint that FFmpeg cannot be had.
pub fn setup_complaint(error: &str) -> (r: String)
    ensures
        r@ == "\n❌ Ошибка подготовки FFmpeg: "@ + error@ + "\n"@,
{
    join3("\n❌ Ошибка подготовки FFmpeg: ", error, "\n")
}

/// The complaint that the arguments or the answers are of no use.
pub fn args_complaint(error: &str) -> (r: String)
    ensures
        r@ == "\n❌ Ошибка параметров: "@ + error@ + "\n"@,
{
    join3("\n❌ Ошибка параметров: ", error, "\n")
}

// ---------------------------------------------------------------------------
// Laws
// ---------------------------------------------------------------------------

proof fn lemma_settings_words()
    ensures
        "\n Настройки:\n ├ Вход:         "@ == Seq::empty() + seq!['\n'] + " Настройки:"@
            + seq!['\n'] + " ├ Вход:         "@,
        "\n ├ Выход:        "@ == seq!['\n'] + " ├ Выход:        "@,
        "\n ├ Формат:       "@ == seq!['\n'] + " ├ Формат:       "@,
        "\n ├ Порог:        "@ == seq!['\n'] + " ├ Порог:        "@,
        " dB\n ├ Мин. пауза:   "@ == " dB"@ + seq!['\n'] + " ├ Мин. пауза:   "@,
        " сек\n └ ИИ Расшифровка: "@ == " сек"@ + seq!['\n'] + " └ ИИ Расшифровка: "@,
        "\n--------------------------------------------------\n"@ == seq!['\n']
            + "--------------------------------------------------"@ + seq!['\n'] + Seq::empty(),
        !" Настройки:"@.contains('\n'),
        !" ├ Вход:         "@.contains('\n'),
        !" ├ Выход:        "@.contains('\n'),
        !" ├ Формат:       "@.contains('\n'),
        !" ├ Порог:        "@.contains('\n'),
        !" dB"@.contains('\n'),
        !" ├ Мин. пауза:   "@.contains('\n'),
        !" сек"@.contains('\n'),
        !" └ ИИ Расшифровка: "@.contains('\n'),
        !"--------------------------------------------------"@.contains('\n'),
        !"MP3"@.contains('\n'),
        !"WAV"@.contains('\n'),
        !"ВКЛЮЧЕНА"@.contains('\n'),
        !"выключена"@.contains('\n'),
{
    reveal_strlit("\n Настройки:\n ├ Вход:         ");
    reveal_strlit("\n ├ Выход:        ");
    reveal_strlit("\n ├ Формат:       ");
    reveal_strlit("\n ├ Порог:        ");
    reveal_strlit(" dB\n ├ Мин. пауза:   ");
    reveal_strlit(" сек\n └ ИИ Расшифровка: ");
    reveal_strlit("\n--------------------------------------------------\n");
    reveal_strlit(" Настройки:");
    reveal_strlit(" ├ Вход:         ");
    reveal_strlit(" ├ Выход:        ");
    reveal_strlit(" ├ Формат:       ");
    reveal_strlit(" ├ Порог:        ");
    reveal_strlit(" dB");
    reveal_strlit(" ├ Мин. пауза:   ");
    reveal_strlit(" сек");
    reveal_strlit(" └ ИИ Расшифровка: ");
    reveal_strlit("--------------------------------------------------");
    reveal_strlit("MP3");
    reveal_strlit("WAV");
    reveal_strlit("ВКЛЮЧЕНА");
    reveal_strlit("выключена");
    let n = seq!['\n'];
    let none = Seq::<char>::empty();
    let rule = "--------------------------------------------------"@;
    assert("\n Настройки:\n ├ Вход:         "@ =~= none + n + " Настройки:"@ + n
        + " ├ Вход:         "@);
    assert("\n ├ Выход:        "@ =~= n + " ├ Выход:        "@);
    assert("\n ├ Формат:       "@ =~= n + " ├ Формат:       "@);
    assert("\n ├ Порог:        "@ =~= n + " ├ Порог:        "@);
    assert(" dB\n ├ Мин. пауза:   "@ =~= " dB"@ + n + " ├ Мин. пауза:   "@);
    assert(" сек\n └ ИИ Расшифровка: "@ =~= " сек"@ + n + " └ ИИ Расшифровка: "@);
    assert("\n--------------------------------------------------\n"@ =~= n + rule + n + none);
}

/// The settings are shown line by line: each line names one of them and gives its
/// value. Paths and numbers hold no line break.
pub proof fn law_settings_line_by_line(
    config: AppConfigView,
    threshold: Seq<char>,
    pause: Seq<char>,
)
    requires
        !config.input_path.contains('\n'),
        !config.output_path.contains('\n'),
        !threshold.contains('\n'),
        !pause.contains('\n'),
    ensures
        ({
            let lines = fields(settings(config, threshold, pause), '\n');
            &&& lines.len() == 10
            &&& lines[1] == " Настройки:"@
            &&& lines[2] == " ├ Вход:         "@ + config.input_path
            &&& lines[3] == " ├ Выход:        "@ + config.output_path
            &&& lines[4] == " ├ Формат:       "@ + if config.output_format == AudioFormat::Mp3 {
                "MP3"@
            } else {
                "WAV"@
            }
            &&& lines[5] == " ├ Порог:        "@ + threshold + " dB"@
            &&& lines[6] == " ├ Мин. пауза:   "@ + pause + " сек"@
            &&& lines[7] == " └ ИИ Расшифровка: "@ + if config.ai_transcribe {
                "ВКЛЮЧЕНА"@
            } else {
                "выключена"@
            }
            &&& lines[8] == "--------------------------------------------------"@
            &&& lines[0].len() == 0 && lines[9].len() == 0
        }),
{
    lemma_settings_words();
    let n = seq!['\n'];
    let label = if config.output_format == AudioFormat::Mp3 {
        "MP3"@
    } else {
        "WAV"@
    };
    let on = if config.ai_transcribe {
        "ВКЛЮЧЕНА"@
    } else {
        "выключена"@
    };
    let none = Seq::<char>::empty();
    let rule = "--------------------------------------------------"@;
    let line2 = " ├ Вход:         "@ + config.input_path;
    let line3 = " ├ Выход:        "@ + config.output_path;
    let line4 = " ├ Формат:       "@ + label;
    let line5 = " ├ Порог:        "@ + threshold + " dB"@;
    let line6 = " ├ Мин. пауза:   "@ + pause + " сек"@;
    let line7 = " └ ИИ Расшифровка: "@ + on;
    lemma_parts_without(" ├ Вход:         "@, config.input_path, '\n');
    lemma_parts_without(" ├ Выход:        "@, config.output_path, '\n');
    lemma_parts_without(" ├ Формат:       "@, label, '\n');
    lemma_parts_without(" ├ Порог:        "@, threshold, '\n');
    lemma_parts_without(" ├ Порог:        "@ + threshold, " dB"@, '\n');
    lemma_parts_without(" ├ Мин. пауза:   "@, pause, '\n');
    lemma_parts_without(" ├ Мин. пауза:   "@ + pause, " сек"@, '\n');
    lemma_parts_without(" └ ИИ Расшифровка: "@, on, '\n');
    let p0 = none + n + " Настройки:"@;
    let p1 = "\n Настройки:\n ├ Вход:         "@ + config.input_path;
    let p2 = p1 + "\n ├ Выход:        "@ + config.output_path;
    let p3 = p2 + "\n ├ Формат:       "@ + label;
    let p4 = p3 + "\n ├ Порог:        "@ + threshold;
    let p5 = p4 + " dB\n ├ Мин. пауза:   "@ + pause;
    let p6 = p5 + " сек\n └ ИИ Расшифровка: "@ + on;
    assert(p1 =~= p0 + n + line2);
    assert(p2 =~= p1 + n + line3);
    assert(p3 =~= p2 + n + line4);
    assert(p4 + " dB"@ =~= p3 + n + line5);
    assert(p5 =~= p4 + " dB"@ + n + (" ├ Мин. пауза:   "@ + pause));
    assert(p5 + " сек"@ =~= p4 + " dB"@ + n + line6);
    assert(p6 =~= p5 + " сек"@ + n + line7);
    let whole = p6 + "\n--------------------------------------------------\n"@;
    assert(whole =~= p6 + n + rule + n + none);
    law_one_field(none, '\n');
    law_last_field(none, '\n', " Настройки:"@);
    law_last_field(p0, '\n', line2);
    law_last_field(p1, '\n', line3);
    law_last_field(p2, '\n', line4);
    law_last_field(p3, '\n', line5);
    law_last_field(p4 + " dB"@, '\n', line6);
    law_last_field(p5 + " сек"@, '\n', line7);
    law_last_field(p6, '\n', rule);
    law_last_field(p6 + n + rule, '\n', none);
    assert(settings(config, threshold, pause) == whole);
}

/// Whatever the paths are, the recording is shown first and the output file
/// second.
pub proof fn law_both_paths_are_shown(
    config: AppConfigView,
    threshold: Seq<char>,
    pause: Seq<char>,
)
    ensures
        starts_with(
            settings(config, threshold, pause),
            "\n Настройки:\n ├ Вход:         "@ + config.input_path + "\n ├ Выход:        "@
                + config.output_path + "\n ├ Формат:       "@,
        ),
{
    let front = "\n Настройки:\n ├ Вход:         "@ + config.input_path
        + "\n ├ Выход:        "@ + config.output_path + "\n ├ Формат:       "@;
    let all = settings(config, threshold, pause);
    assert(all.take(front.len() as int) =~= front);
}

proof fn lemma_call_line()
    ensures
        starts_with(USAGE_TAIL@, " <входной_файл> [выходной_файл] [опции]\n"@),
{
    reveal_strlit(
        " <входной_файл> [выходной_файл] [опции]
     cargo run -- <входной_файл> [выходной_файл] [опции]

  2. Опции:
     -d, --db <число>         Порог тишины в дБ (по умолчанию: -35)
     -p, --preset <название>  Пресеты:
                              • pure   (-50 dB) - только 100% цифровая пустота
                              • normal (-35 dB) - комната/микрофон (стандарт)
                              • noisy  (-25 dB) - шумное помещение
     -m, --min-sec <число>    Мин. длительность тишины в сек (по умолчанию: 0.4)
     -f, --format <mp3|wav>   Формат файла (mp3 или wav)
     -t, --transcribe         Включить ИИ-распознавание речи в .txt
     --groq-key <ключ>        API ключ Groq Whisper (перем. среды GROQ_API_KEY) [Рекомендуется]
     --gemini-key <ключ>      API ключ Gemini (перем. среды GEMINI_API_KEY)
     --deepseek-key <ключ>    API ключ DeepSeek для постобработки текста
     -h, --help               Показать это руководство

",
    );
    reveal_strlit(" <входной_файл> [выходной_файл] [опции]\n");
    let line = " <входной_файл> [выходной_файл] [опции]\n"@;
    assert(USAGE_TAIL@.take(line.len() as int) =~= line);
}

/// The manual shows how the tool is called, by the name it was called by; for
/// another name nothing else of it changes.
pub proof fn law_manual_names_the_program(exe_name: Seq<char>, other: Seq<char>)
    ensures
        holds(usage(exe_name), exe_name + " <входной_файл> [выходной_файл] [опции]\n"@),
        usage(exe_name) == usage(other) <==> exe_name == other,
        exists|front: Seq<char>, back: Seq<char>|
            {
                &&& usage(exe_name) == #[trigger] (front + exe_name + back)
                &&& usage(other) == front + other + back
            },
{
    lemma_call_line();
    let line = " <входной_файл> [выходной_файл] [опции]\n"@;
    let rest = USAGE_TAIL@.skip(line.len() as int);
    law_pattern_stands(USAGE_HEAD@, exe_name + line, rest);
    assert(USAGE_TAIL@ =~= line + rest);
    assert(usage(exe_name) =~= USAGE_HEAD@ + (exe_name + line) + rest);
    lemma_same_inside(USAGE_HEAD@, exe_name, other, USAGE_TAIL@);
    assert(usage(exe_name) == USAGE_HEAD@ + exe_name + USAGE_TAIL@);
}

} // verus!
