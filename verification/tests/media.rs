use silence_remover::config::{ApiKeys, AppConfig, Single};
use silence_remover::format::AudioFormat;
use silence_remover::media::{
    build_silence_filter, duration_text, ffmpeg_command, format_duration, get_file_duration,
    probe_command, process_audio_file, DurationParts, WrittenNumbers,
};
use silence_remover::tools::ToolRun;

fn numbers() -> WrittenNumbers {
    WrittenNumbers { threshold: "-35.0".to_string(), pause: "0.40".to_string() }
}

fn config(output_format: AudioFormat) -> AppConfig {
    AppConfig {
        input_path: "in.m4a".to_string(),
        output_path: "out.x".to_string(),
        noise_threshold_db: Single { bits: (-35.0f32).to_bits() },
        min_silence_sec: Single { bits: 0.4f32.to_bits() },
        output_format,
        ai_transcribe: false,
        keys: ApiKeys { groq: None, gemini: None, deepseek: None },
    }
}

fn exited(success: bool, stdout: &[u8], stderr: &[u8]) -> ToolRun {
    ToolRun::Exited { success, stdout: stdout.to_vec(), stderr: stderr.to_vec() }
}

#[test]
fn the_filter_is_exact() {
    assert_eq!(
        build_silence_filter(&numbers()),
        format!(
            "silenceremove=start_periods=1:start_duration=0.02:start_threshold={:.1}dB:start_silence=0.15:stop_periods=-1:stop_duration={:.2}:stop_threshold={:.1}dB:stop_silence=0.15",
            -35.0f32, 0.4f32, -35.0f32
        )
    );
}

#[test]
fn the_cleaning_call_is_exact() {
    let filter = build_silence_filter(&numbers());
    let c = ffmpeg_command("bin/ffmpeg", &config(AudioFormat::Mp3), &numbers());
    assert_eq!(c.program, "bin/ffmpeg");
    assert_eq!(
        c.args,
        ["-y", "-i", "in.m4a", "-af", &filter, "-c:a", "libmp3lame", "-b:a", "192k", "out.x"]
    );
    let c = ffmpeg_command("ffmpeg", &config(AudioFormat::Wav), &numbers());
    assert_eq!(c.args, ["-y", "-i", "in.m4a", "-af", &filter, "-c:a", "pcm_s16le", "out.x"]);
}

#[test]
fn the_probe_call_is_exact() {
    let c = probe_command("ffprobe", "a b.mp3");
    assert_eq!(c.program, "ffprobe");
    assert_eq!(
        c.args,
        [
            "-v", "error", "-show_entries", "format=duration", "-of",
            "default=noprint_wrappers=1:nokey=1", "a b.mp3",
        ]
    );
}

#[test]
fn measurements() {
    assert_eq!(duration_text(&exited(true, b" 12.5\n", b"")), Ok("12.5".to_string()));
    assert_eq!(
        duration_text(&exited(true, b"\xff1\n", b"")),
        Ok("\u{fffd}1".to_string())
    );
    assert_eq!(
        duration_text(&exited(false, b"12.5", b"")),
        Err("Не удалось прочитать длительность исходного файла.".to_string())
    );
    assert_eq!(
        duration_text(&ToolRun::NotStarted("gone".to_string())),
        Err("Ошибка запуска ffprobe: gone".to_string())
    );
    let n = Single { bits: 12.5f32.to_bits() };
    assert_eq!(get_file_duration(Ok(Some(n))), Ok(n));
    assert_eq!(get_file_duration(Ok(None)), Err("Ошибка парсинга длительности".to_string()));
    assert_eq!(get_file_duration(Err("e".to_string())), Err("e".to_string()));
}

#[test]
fn durations_are_shown() {
    let d = |minutes, tenths: &str, hundredths: &str| DurationParts {
        minutes,
        tenths: tenths.to_string(),
        hundredths: hundredths.to_string(),
    };
    assert_eq!(format_duration(&d(2, "5.5", "5.50")), "2 м 5.5 с");
    assert_eq!(format_duration(&d(0, "5.5", "5.50")), "5.50 с");
    assert_eq!(format_duration(&d(125, "0.0", "0.00")), "125 м 0.0 с");
}

#[test]
fn cleaning_results() {
    assert_eq!(process_audio_file(&exited(true, b"", b"noise")), Ok(()));
    assert_eq!(
        process_audio_file(&exited(false, b"", b"bad \xff input")),
        Err("FFmpeg завершился с ошибкой:\nbad \u{fffd} input".to_string())
    );
    assert_eq!(
        process_audio_file(&ToolRun::NotStarted("gone".to_string())),
        Err("Ошибка запуска FFmpeg: gone".to_string())
    );
}
