use silence_remover::format::AudioFormat;
use silence_remover::output::{
    format_of_name, name_clean_file, pick_format, place_clean_file, read_format,
};
use silence_remover::paths::{extension_of, sanitize_path, stem_of};
use std::path::Path;

#[test]
fn dropped_paths_lose_their_quotes() {
    assert_eq!(sanitize_path("  \"C:\\My Files\\a.mp3\"\r\n"), "C:\\My Files\\a.mp3");
    assert_eq!(sanitize_path("'/tmp/it is.wav'"), "/tmp/it is.wav");
    assert_eq!(sanitize_path("/tmp/plain.wav\n"), "/tmp/plain.wav");
    assert_eq!(sanitize_path("\" inner \""), " inner ");
    assert_eq!(sanitize_path("it's"), "it's");
    assert_eq!(sanitize_path("\"\""), "");
    assert_eq!(sanitize_path(""), "");
}

#[test]
fn quotes_around_a_path_make_no_difference() {
    for path in ["a b.mp3", "'inner'", "it's\"", "", "\"", "C:\\x"] {
        for q in ['"', '\''] {
            assert_eq!(sanitize_path(&format!(" {}{}{}\n", q, path, q)), sanitize_path(path));
        }
    }
}

#[test]
fn names_come_apart_as_in_std() {
    for name in ["a.mp3", "a", ".hidden", ".hidden.txt", "a.b.c", "a.", "речь.v2.WAV", "..a"] {
        let path = Path::new(name);
        assert_eq!(Some(stem_of(name).as_str()), path.file_stem().and_then(|s| s.to_str()));
        assert_eq!(extension_of(name).as_deref(), path.extension().and_then(|s| s.to_str()));
    }
}

#[test]
fn clean_files_are_named_after_their_source() {
    let stem = Some("talk.v2".to_string());
    assert_eq!(name_clean_file(&stem, AudioFormat::Wav), "talk.v2_clean.wav");
    assert_eq!(name_clean_file(&None, AudioFormat::Mp3), "output_clean.mp3");
}

#[test]
fn clean_files_go_beside_their_source() {
    let beside = Path::new("dir").join("talk_clean.mp3").display().to_string();
    let source = Path::new("dir").join("talk.m4a").display().to_string();
    assert_eq!(place_clean_file(&source, AudioFormat::Mp3), beside);
    assert_eq!(place_clean_file("talk", AudioFormat::Wav), "talk_clean.wav");
    let up = Path::new("..").join("output_clean.mp3").display().to_string();
    assert_eq!(place_clean_file("..", AudioFormat::Mp3), up);
}

#[test]
fn formats_are_read_off_paths() {
    let path = Path::new("d.mp3").join("x.WAV").display().to_string();
    assert_eq!(read_format(&path), Some(AudioFormat::Wav));
    assert_eq!(read_format("x.Mp3"), Some(AudioFormat::Mp3));
    assert_eq!(read_format("x.flac"), None);
    assert_eq!(read_format("mp3"), None);
    assert_eq!(read_format(".mp3"), None);
    assert_eq!(read_format(".."), None);
    assert_eq!(format_of_name("a.wav"), Some(AudioFormat::Wav));
    assert_eq!(format_of_name("a"), None);
}

#[test]
fn an_asked_for_format_wins() {
    let (mp3, wav) = (AudioFormat::Mp3, AudioFormat::Wav);
    assert_eq!(pick_format(Some(wav), Some(mp3)), wav);
    assert_eq!(pick_format(None, Some(wav)), wav);
    assert_eq!(pick_format(None, None), mp3);
}

fn name_of(path: &Path) -> Option<String> {
    path.file_name().map(|n| n.to_string_lossy().into_owned())
}

#[test]
fn std_paths_keep_to_what_is_relied_on() {
    let mut paths = vec![String::new()];
    let mut from = 0;
    for _ in 0..7 {
        let to = paths.len();
        for i in from..to {
            for c in ['a', '.', '/'] {
                paths.push(format!("{}{}", paths[i], c));
            }
        }
        from = to;
    }
    for text in &paths {
        let path = Path::new(text);
        let two_separators = text.starts_with("//");
        for name in ["x", "x_clean.mp3", ".x", "x."] {
            if !two_separators {
                assert_eq!(name_of(&path.with_file_name(name)).as_deref(), Some(name));
            }
        }
        let with_txt = path.with_extension("txt");
        match name_of(path) {
            None => assert_eq!(with_txt, path),
            Some(name) => {
                assert_eq!(
                    Some(stem_of(&name).as_str()),
                    path.file_stem().and_then(|s| s.to_str())
                );
                assert_eq!(
                    extension_of(&name).as_deref(),
                    path.extension().and_then(|s| s.to_str())
                );
                if stem_of(&name) != "." {
                    assert_eq!(name_of(&with_txt), Some(stem_of(&name) + ".txt"), "{}", text);
                }
            }
        }
    }
}
