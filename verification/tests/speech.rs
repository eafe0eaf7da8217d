use silence_remover::speech::{
    groq_command, read_transcript, transcribe_with_groq, transcribing_note_text,
};
use silence_remover::tools::ToolRun;

fn exited(success: bool, stdout: &[u8]) -> ToolRun {
    ToolRun::Exited { success, stdout: stdout.to_vec(), stderr: Vec::new() }
}

#[test]
fn the_speech_call_is_exact() {
    let c = groq_command("out.mp3", "gsk_1");
    assert_eq!(c.program, "curl");
    assert_eq!(
        c.args,
        [
            "-s", "-X", "POST", "https://api.groq.com/openai/v1/audio/transcriptions", "-H",
            "Authorization: Bearer gsk_1", "-F", "file=@out.mp3", "-F", "model=whisper-large-v3",
            "-F", "response_format=json",
        ]
    );
    assert_eq!(
        transcribing_note_text(),
        "⚡ Выполняем сверхбыстрое распознавание речи через Groq Whisper API...\n"
    );
}

#[test]
fn transcripts_are_read() {
    let read = |reply| read_transcript(reply).unwrap();
    assert_eq!(read("{\"text\":\" Привет\",\"x_groq\":{}}"), " Привет");
    assert_eq!(read("{\"id\": 1, \"text\" : \"a\\\\nb\"}"), "a\\\nb");
    assert_eq!(read("{\"text\":\"one\\ntwo\"}"), "one\ntwo");
    assert_eq!(read("{\"text\":\"c:\\\\\\\\dir\"}"), "c:\\\\dir");
    assert_eq!(read("{\"text\":\"\"}"), "");
    assert_eq!(read("{\"text\":\"he said \\\"hi\\\"\"}"), "he said \\");
    assert_eq!(read("{\"text\":null,\"b\":\"c\"}"), "b");
}

#[test]
fn replies_without_a_transcript() {
    for reply in ["", "{}", "{\"error\":\"x\"}", "\"text\"", "\"text\":", "\"text\":\"open"] {
        assert_eq!(
            read_transcript(reply),
            Err(format!("Не удалось распарсить ответ от Groq API:\n{}", reply))
        );
    }
}

#[test]
fn transcription_results() {
    assert_eq!(
        transcribe_with_groq(&exited(true, "{\"text\":\"да\"}".as_bytes())),
        Ok("да".to_string())
    );
    assert_eq!(
        transcribe_with_groq(&exited(true, b"{\"text\":\"a\xff\"}")),
        Ok("a\u{fffd}".to_string())
    );
    assert_eq!(
        transcribe_with_groq(&exited(false, b"{\"text\":\"a\"}")),
        Err("Ошибка при отправке HTTP-запроса в Groq API через curl.".to_string())
    );
    assert_eq!(
        transcribe_with_groq(&ToolRun::NotStarted("gone".to_string())),
        Err("Ошибка вызова curl: gone. Убедитесь, что curl установлен.".to_string())
    );
}
