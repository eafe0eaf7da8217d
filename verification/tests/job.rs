use silence_remover::config::{ApiKeys, AppConfig, Single};
use silence_remover::format::AudioFormat;
use silence_remover::job::{Job, JobAction, JobEvent, JobReply, Measure};
use silence_remover::media::{
    ffmpeg_command, probe_command, DurationParts, FfmpegPaths, WrittenNumbers,
};
use silence_remover::speech::groq_command;
use silence_remover::usage::show_settings;

fn numbers() -> WrittenNumbers {
    WrittenNumbers { threshold: "-35.0".to_string(), pause: "0.40".to_string() }
}

fn config(ai_transcribe: bool, groq: Option<&str>, deepseek: Option<&str>) -> AppConfig {
    AppConfig {
        input_path: "in.m4a".to_string(),
        output_path: "in_clean.mp3".to_string(),
        noise_threshold_db: Single { bits: (-35.0f32).to_bits() },
        min_silence_sec: Single { bits: 0.4f32.to_bits() },
        output_format: AudioFormat::Mp3,
        ai_transcribe,
        keys: ApiKeys {
            groq: groq.map(|k| k.to_string()),
            gemini: None,
            deepseek: deepseek.map(|k| k.to_string()),
        },
    }
}

fn tools() -> FfmpegPaths {
    FfmpegPaths { ffmpeg: "ffmpeg".to_string(), ffprobe: "ffprobe".to_string() }
}

fn parts(minutes: u32, tenths: &str, hundredths: &str) -> DurationParts {
    DurationParts { minutes, tenths: tenths.to_string(), hundredths: hundredths.to_string() }
}

fn known(seconds: f32, parts: DurationParts) -> Measure {
    Measure { duration: Ok(Single { bits: seconds.to_bits() }), parts }
}

fn unknown() -> Measure {
    Measure { duration: Err("no".to_string()), parts: parts(0, "0.0", "0.00") }
}

fn go(job: &mut Job, event: JobEvent) -> JobReply {
    assert!(job.accepts(&event));
    job.step(event)
}

fn cleaned() -> JobEvent {
    JobEvent::Cleaned { result: Ok(()), elapsed: "1.25".to_string() }
}

fn output(length: Measure) -> JobEvent {
    JobEvent::OutputMeasured {
        length,
        saved: parts(0, "30.0", "30.00"),
        percent: "25.0".to_string(),
    }
}

fn up_to_output(config: AppConfig, interactive: bool) -> Job {
    let (mut job, _) = Job::start(config, tools(), numbers(), interactive);
    go(&mut job, JobEvent::InputMeasured(known(120.0, parts(2, "0.0", "0.00"))));
    go(&mut job, cleaned());
    job
}

fn finished(reply: &JobReply) -> (bool, i32) {
    match &reply.action {
        JobAction::Finish { wait, exit_code } => (*wait, *exit_code),
        other => panic!("{:?}", other),
    }
}

fn saved(reply: &JobReply) -> (String, String) {
    match &reply.action {
        JobAction::Save { path, text } => (path.clone(), text.clone()),
        other => panic!("{:?}", other),
    }
}

#[test]
fn work_starts_with_a_measurement() {
    let (job, reply) = Job::start(config(false, None, None), tools(), numbers(), false);
    assert_eq!(reply.out, show_settings(&config(false, None, None), &numbers()));
    match &reply.action {
        JobAction::MeasureInput(c) => assert_eq!(c.args, probe_command("ffprobe", "in.m4a").args),
        other => panic!("{:?}", other),
    }
    assert!(!job.accepts(&JobEvent::Saved(true)));
}

#[test]
fn plain_cleaning() {
    let (mut job, _) = Job::start(config(false, None, None), tools(), numbers(), true);
    let reply = go(&mut job, JobEvent::InputMeasured(known(120.0, parts(2, "0.0", "0.00"))));
    assert_eq!(
        reply.out,
        "⏱ Исходная длительность: 2 м 0.0 с\n▶ Обработка файла: in.m4a\n"
    );
    match &reply.action {
        JobAction::Clean(c) => assert_eq!(
            c.args,
            ffmpeg_command("ffmpeg", &config(false, None, None), &numbers()).args
        ),
        other => panic!("{:?}", other),
    }
    let reply = go(&mut job, cleaned());
    assert_eq!(reply.out, "\n✅ Аудио очищено за 1.25 сек!\n");
    match &reply.action {
        JobAction::MeasureOutput(c) => assert_eq!(c.args.last().unwrap(), "in_clean.mp3"),
        other => panic!("{:?}", other),
    }
    let reply = go(&mut job, output(known(90.0, parts(1, "30.0", "30.00"))));
    assert_eq!(
        reply.out,
        "--------------------------------------------------\n📊 Итоги очистки:\n ├ Итоговая длительность: 1 м 30.0 с\n └ Вырезано тишины:        30.00 с (25.0%)\n"
    );
    assert_eq!(finished(&reply), (true, 0));
}

#[test]
fn unknown_durations_are_not_shown() {
    let (mut job, _) = Job::start(config(false, None, None), tools(), numbers(), false);
    let reply = go(&mut job, JobEvent::InputMeasured(unknown()));
    assert_eq!(reply.out, "▶ Обработка файла: in.m4a\n");
    go(&mut job, cleaned());
    let reply = go(&mut job, output(known(90.0, parts(1, "30.0", "30.00"))));
    assert_eq!(reply.out, "");
    assert_eq!(finished(&reply), (false, 0));

    let mut job = up_to_output(config(false, None, None), false);
    assert_eq!(go(&mut job, output(unknown())).out, "");
    let mut job = up_to_output(config(false, None, None), false);
    assert_eq!(go(&mut job, output(known(0.0, parts(0, "0.0", "0.00")))).out, "");
}

#[test]
fn failed_cleaning_fails_the_tool() {
    for interactive in [true, false] {
        let (mut job, _) =
            Job::start(config(true, Some("g"), None), tools(), numbers(), interactive);
        go(&mut job, JobEvent::InputMeasured(unknown()));
        let failed =
            JobEvent::Cleaned { result: Err("bad".to_string()), elapsed: "1.00".to_string() };
        let reply = go(&mut job, failed);
        assert_eq!(reply.err, "\n❌ Ошибка обработки:\nbad\n");
        assert_eq!(reply.out, "");
        assert_eq!(finished(&reply), (interactive, 1));
    }
}

#[test]
fn a_transcript_needs_a_key() {
    let mut job = up_to_output(config(true, None, Some("ds")), false);
    let reply = go(&mut job, output(unknown()));
    assert_eq!(reply.out, "\n--------------------------------------------------\n");
    assert_eq!(
        reply.err,
        "❌ Ошибка ИИ расшифровки: Не указан API ключ (Groq)\n💡 Подсказка: убедитесь, что указали ключ через --groq-key или переменную окружения GROQ_API_KEY\n"
    );
    assert_eq!(finished(&reply), (false, 0));
}

#[test]
fn a_transcript_is_saved() {
    let mut job = up_to_output(config(true, Some("g"), None), false);
    let reply = go(&mut job, output(unknown()));
    assert_eq!(
        reply.out,
        "\n--------------------------------------------------\n⚡ Выполняем сверхбыстрое распознавание речи через Groq Whisper API...\n"
    );
    match &reply.action {
        JobAction::Transcribe(c) => {
            assert_eq!(c.args, groq_command("in_clean.mp3", "g").args)
        }
        other => panic!("{:?}", other),
    }
    let reply = go(&mut job, JobEvent::Transcribed(Ok("речь".to_string())));
    assert_eq!(reply.out, "✅ Распознавание завершено!\n");
    assert_eq!(saved(&reply), ("in_clean.txt".to_string(), "речь".to_string()));
    let reply = go(&mut job, JobEvent::Saved(true));
    assert_eq!(reply.out, "📄 Текст сохранен в: in_clean.txt\n");
    assert_eq!(finished(&reply), (false, 0));
}

#[test]
fn an_unsaved_transcript_is_not_announced() {
    let mut job = up_to_output(config(true, Some("g"), None), true);
    go(&mut job, output(unknown()));
    go(&mut job, JobEvent::Transcribed(Ok("речь".to_string())));
    let reply = go(&mut job, JobEvent::Saved(false));
    assert_eq!(reply.out, "");
    assert_eq!(finished(&reply), (true, 0));
}

#[test]
fn a_failed_transcription_is_no_failure() {
    let mut job = up_to_output(config(true, Some("g"), None), true);
    go(&mut job, output(unknown()));
    let reply = go(&mut job, JobEvent::Transcribed(Err("down".to_string())));
    assert!(reply.err.starts_with("❌ Ошибка ИИ расшифровки: down\n💡 Подсказка: "));
    assert_eq!(finished(&reply), (true, 0));
}

#[test]
fn a_transcript_is_edited() {
    let mut job = up_to_output(config(true, Some("g"), Some("ds")), false);
    go(&mut job, output(unknown()));
    let reply = go(&mut job, JobEvent::Transcribed(Ok("речь \"a\"".to_string())));
    assert_eq!(
        reply.out,
        "✅ Распознавание завершено!\n🧠 Редактируем и расставляем знаки препинания через DeepSeek API...\n"
    );
    match &reply.action {
        JobAction::Edit { text, api_key } => {
            assert_eq!(text, "речь \"a\"");
            assert_eq!(api_key, "ds");
        }
        other => panic!("{:?}", other),
    }
    let reply = go(&mut job, JobEvent::Edited(Ok("Речь.".to_string())));
    assert_eq!(saved(&reply), ("in_clean.txt".to_string(), "Речь.".to_string()));
    assert_eq!(reply.err, "");
}

#[test]
fn failed_editing_keeps_the_transcript() {
    let mut job = up_to_output(config(true, Some("g"), Some("ds")), false);
    go(&mut job, output(unknown()));
    go(&mut job, JobEvent::Transcribed(Ok("речь".to_string())));
    let reply = go(&mut job, JobEvent::Edited(Err("down".to_string())));
    assert_eq!(reply.err, "⚠️ DeepSeek редактор пропущен: down\n");
    assert_eq!(saved(&reply), ("in_clean.txt".to_string(), "речь".to_string()));
}

#[test]
fn transcripts_go_beside_the_recording() {
    let path_for = |output_path: &str| {
        let mut c = config(true, Some("g"), None);
        c.output_path = output_path.to_string();
        let mut job = up_to_output(c, false);
        go(&mut job, output(unknown()));
        saved(&go(&mut job, JobEvent::Transcribed(Ok("речь".to_string())))).0
    };
    for (output_path, expected) in [
        ("a.b.mp3", "a.b.txt"),
        ("plain", "plain.txt"),
        (".hidden", ".hidden.txt"),
        ("...mp3", "...txt"),
        ("..", ".."),
    ] {
        assert_eq!(path_for(output_path), expected);
    }
    let odd = std::path::Path::new("..mp3").with_extension("txt").display().to_string();
    assert_eq!(path_for("..mp3"), odd);
    assert_eq!(odd, "..");
}
