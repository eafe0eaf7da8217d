use silence_remover::editor::{
    deepseek_command, deepseek_request, editing_note_text, polish_text_with_deepseek, read_edited,
    Edit, EditAction, EditEvent, REQUEST_FILE,
};
use silence_remover::tools::ToolRun;

fn exited(success: bool, stdout: &[u8]) -> ToolRun {
    ToolRun::Exited { success, stdout: stdout.to_vec(), stderr: Vec::new() }
}

fn start(text: &str) -> (Edit, EditAction) {
    polish_text_with_deepseek(text, "/tmp/r.json".to_string(), "ds".to_string())
}

fn go(edit: &mut Edit, event: EditEvent) -> EditAction {
    assert!(edit.accepts(&event));
    edit.step(event)
}

fn finished(action: EditAction) -> Result<String, String> {
    match action {
        EditAction::Finish(result) => result,
        other => panic!("{:?}", other),
    }
}

#[test]
fn the_request_is_exact() {
    for text in ["", "Привет", "a \"b\"\nc", "\\ \\n \\\""] {
        let safe_text = text.replace('"', "\\\"").replace('\n', "\\n");
        let expected = format!(
        r#"{{
  "model": "deepseek-chat",
  "messages": [
    {{"role": "system", "content": "Ты - профессиональный редактор. Твоя задача: взять расшифрованный текст речи, исправить грамматические ошибки, расставить пунктуацию и грамотно разбить текст на смысловые абзацы. Не меняй смысл и слова спикера."}},
    {{"role": "user", "content": "{}"}}
  ]
}}"#,
            safe_text
        );
        assert_eq!(deepseek_request(text), expected);
    }
}

#[test]
fn the_editing_call_is_exact() {
    let c = deepseek_command("/tmp/deepseek_req.json", "ds");
    assert_eq!(c.program, "curl");
    assert_eq!(
        c.args,
        [
            "-s", "-X", "POST", "-H", "Content-Type: application/json", "-H",
            "Authorization: Bearer ds", "-d", "@/tmp/deepseek_req.json",
            "https://api.deepseek.com/v1/chat/completions",
        ]
    );
    assert_eq!(
        editing_note_text(),
        "🧠 Редактируем и расставляем знаки препинания через DeepSeek API...\n"
    );
}

#[test]
fn edited_texts_are_read() {
    let read = |reply| read_edited(reply).unwrap();
    assert_eq!(read("{\"content\":\"Один.\\n\\nДва.\"}"), "Один.\n\nДва.");
    assert_eq!(read("x\"content\":\"\""), "");
    assert_eq!(read("{\"content\":\"a\\\\b\"}"), "a\\\\b");
    assert_eq!(read("{\"content\":\"cut \\\"here\\\"\"}"), "cut \\");
}

#[test]
fn replies_without_content() {
    for reply in ["", "{\"content\": \"spaced\"}", "\"content\":\"open"] {
        assert_eq!(
            read_edited(reply),
            Err(format!("Ошибка ответа DeepSeek API:\n{}", reply))
        );
    }
}

#[test]
fn echoed_text_comes_back() {
    let text = "Один\nдва, три\n";
    let reply = format!("{{\"content\":\"{}\"}}", text.replace('\n', "\\n"));
    assert_eq!(read_edited(&reply), Ok(text.to_string()));
}

#[test]
fn an_exchange_writes_sends_and_removes() {
    let (mut e, first) = start("речь \"a\"");
    match &first {
        EditAction::Write { path, text } => {
            assert_eq!(path, "/tmp/r.json");
            assert_eq!(text, &deepseek_request("речь \"a\""));
        }
        other => panic!("{:?}", other),
    }
    match go(&mut e, EditEvent::Written(Ok(()))) {
        EditAction::Send(c) => assert_eq!(c.args, deepseek_command("/tmp/r.json", "ds").args),
        other => panic!("{:?}", other),
    }
    let reply = "{\"content\":\"да\"}".as_bytes();
    let action = go(&mut e, EditEvent::Sent(exited(true, reply)));
    assert!(matches!(action, EditAction::Remove(path) if path == "/tmp/r.json"));
    assert_eq!(finished(go(&mut e, EditEvent::Removed)), Ok("да".to_string()));
    assert!(!e.accepts(&EditEvent::Removed));
}

#[test]
fn exchange_results() {
    let result = |run| {
        let (mut e, _) = start("x");
        go(&mut e, EditEvent::Written(Ok(())));
        go(&mut e, EditEvent::Sent(run));
        finished(go(&mut e, EditEvent::Removed))
    };
    assert_eq!(
        result(exited(false, "{\"content\":\"да\"}".as_bytes())),
        Ok("да".to_string())
    );
    assert_eq!(
        result(exited(true, b"\xff")),
        Err("Ошибка ответа DeepSeek API:\n\u{fffd}".to_string())
    );
}

#[test]
fn exchange_errors_end_it() {
    let (mut e, _) = start("x");
    let action = go(&mut e, EditEvent::Written(Err("full".to_string())));
    assert_eq!(finished(action), Err("Ошибка записи запроса: full".to_string()));

    let (mut e, _) = start("x");
    go(&mut e, EditEvent::Written(Ok(())));
    let action = go(&mut e, EditEvent::Sent(ToolRun::NotStarted("gone".to_string())));
    assert_eq!(finished(action), Err("Ошибка вызова curl для DeepSeek: gone".to_string()));
    assert!(!e.accepts(&EditEvent::Removed));
    assert_eq!(REQUEST_FILE, "deepseek_req.json");
}
