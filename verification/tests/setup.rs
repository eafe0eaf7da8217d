use silence_remover::setup::{
    download_ffmpeg, ensure_ffmpeg_available, find_local_tools, find_system_tools, setup_accepts,
    setup_step, SetupAction, SetupEvent, SetupState, TargetOs,
};
use silence_remover::tools::CommandLine;

fn local(name: &str) -> String {
    std::path::Path::new("ffmpeg_bin").join(name).display().to_string()
}

fn both(there: bool) -> SetupEvent {
    SetupEvent::LocalTools { ffmpeg: there, ffprobe: there }
}

fn message(action: &SetupAction) -> String {
    match action {
        SetupAction::GiveUp(e) => e.clone(),
        other => panic!("{:?}", other),
    }
}

fn call(action: SetupAction) -> CommandLine {
    match action {
        SetupAction::Download(c) | SetupAction::ProbeSystem(c) => c,
        other => panic!("{:?}", other),
    }
}

#[test]
fn windows_script_is_exact() {
    let expected = format!(
            "[Net.ServicePointManager]::SecurityProtocol = [Net.SecurityProtocolType]::Tls12; \
             $zip = '$env:TEMP\\ffmpeg_download.zip'; \
             $extract = '$env:TEMP\\ffmpeg_extracted'; \
             $url = 'https://www.gyan.dev/ffmpeg/builds/ffmpeg-release-essentials.zip'; \
             Write-Host 'Скачивание FFmpeg для Windows...'; \
             Invoke-WebRequest -Uri $url -OutFile $zip; \
             Write-Host 'Распаковка архива...'; \
             Expand-Archive -Path $zip -DestinationPath $extract -Force; \
             Get-ChildItem -Path $extract -Filter 'ffmpeg.exe' -Recurse | Copy-Item -Destination '{0}\\ffmpeg.exe'; \
             Get-ChildItem -Path $extract -Filter 'ffprobe.exe' -Recurse | Copy-Item -Destination '{0}\\ffprobe.exe'; \
             Remove-Item -Path $zip -Force -ErrorAction SilentlyContinue; \
             Remove-Item -Path $extract -Recurse -Force -ErrorAction SilentlyContinue;",
        "D:\\tools"
    );
    let c = download_ffmpeg(TargetOs::Windows, "D:\\tools").unwrap();
    assert_eq!(c.program, "powershell");
    assert_eq!(c.args, vec!["-NoProfile".to_string(), "-Command".to_string(), expected]);
}

#[test]
fn linux_script_is_exact() {
    let expected = format!(
            "URL='https://johnvansickle.com/ffmpeg/releases/ffmpeg-release-amd64-static.tar.xz'; \
             TMP_XZ='/tmp/ffmpeg.tar.xz'; \
             TMP_EXT='/tmp/ffmpeg_extracted'; \
             curl -sSL \"$URL\" -o \"$TMP_XZ\" && \
             mkdir -p \"$TMP_EXT\" && \
             tar -xf \"$TMP_XZ\" -C \"$TMP_EXT\" && \
             find \"$TMP_EXT\" -name 'ffmpeg' -exec cp {{}} '{0}/ffmpeg' \\; && \
             find \"$TMP_EXT\" -name 'ffprobe' -exec cp {{}} '{0}/ffprobe' \\; && \
             chmod +x '{0}/ffmpeg' '{0}/ffprobe' && \
             rm -rf \"$TMP_XZ\" \"$TMP_EXT\"",
        "ffmpeg_bin"
    );
    let c = download_ffmpeg(TargetOs::Linux, "ffmpeg_bin").unwrap();
    assert_eq!(c.program, "sh");
    assert_eq!(c.args, vec!["-c".to_string(), expected]);
}

#[test]
fn macos_script_is_exact() {
    let expected = format!(
            "curl -sSL 'https://evermeet.cx/ffmpeg/getrelease/zip' -o /tmp/ffmpeg.zip && \
             curl -sSL 'https://evermeet.cx/ffmpeg/getrelease/ffprobe/zip' -o /tmp/ffprobe.zip && \
             unzip -o /tmp/ffmpeg.zip -d '{0}' && \
             unzip -o /tmp/ffprobe.zip -d '{0}' && \
             chmod +x '{0}/ffmpeg' '{0}/ffprobe' && \
             rm -f /tmp/ffmpeg.zip /tmp/ffprobe.zip",
        "ffmpeg_bin"
    );
    let c = download_ffmpeg(TargetOs::MacOs, "ffmpeg_bin").unwrap();
    assert_eq!(c.program, "sh");
    assert_eq!(c.args, vec!["-c".to_string(), expected]);
}

#[test]
fn other_systems_have_no_download() {
    assert!(download_ffmpeg(TargetOs::Other, "ffmpeg_bin").is_none());
}

#[test]
fn tool_paths() {
    let linux = find_local_tools(TargetOs::Linux);
    assert_eq!(linux.ffmpeg, local("ffmpeg"));
    assert_eq!(linux.ffprobe, local("ffprobe"));
    assert_eq!(find_local_tools(TargetOs::MacOs).ffmpeg, "ffmpeg_bin/ffmpeg");
    let windows = find_local_tools(TargetOs::Windows);
    assert_eq!(windows.ffmpeg, "ffmpeg_bin\\ffmpeg.exe");
    assert_eq!(windows.ffprobe, "ffmpeg_bin\\ffprobe.exe");
    let system = find_system_tools();
    assert_eq!(system.ffmpeg, "ffmpeg");
    assert_eq!(system.ffprobe, "ffprobe");
}

#[test]
fn local_copies_win() {
    let first = ensure_ffmpeg_available(TargetOs::Linux);
    assert_eq!(first.state, SetupState::LookingLocally);
    assert!(matches!(&first.action, SetupAction::LookLocally(p) if p.ffmpeg == local("ffmpeg")));
    let event = both(true);
    assert!(setup_accepts(first.state, &event));
    let step = setup_step(TargetOs::Linux, first.state, event);
    assert_eq!(step.state, SetupState::Ended);
    assert!(matches!(&step.action, SetupAction::UseTools(p) if p.ffprobe == local("ffprobe")));
}

#[test]
fn installed_programs_come_second() {
    let probe = setup_step(
        TargetOs::MacOs,
        SetupState::LookingLocally,
        both(false),
    );
    assert_eq!(probe.state, SetupState::ProbingSystem);
    let c = call(probe.action);
    assert_eq!(c.program, "ffmpeg");
    assert_eq!(c.args, vec!["-version".to_string()]);
    let step = setup_step(TargetOs::MacOs, probe.state, SetupEvent::SystemTools(true));
    assert!(matches!(&step.action, SetupAction::UseTools(p) if p.ffmpeg == "ffmpeg"));
}

#[test]
fn download_is_the_last_resort() {
    let os = TargetOs::Linux;
    let dir = setup_step(os, SetupState::ProbingSystem, SetupEvent::SystemTools(false));
    assert!(matches!(&dir.action, SetupAction::MakeDirectory(d) if d == "ffmpeg_bin"));
    let fetch = setup_step(os, dir.state, SetupEvent::Directory(Ok(())));
    assert_eq!(
        fetch.note,
        "⏳ FFmpeg не обнаружен в системе. Начинаем автоматическую загрузку...\n"
    );
    assert_eq!(call(fetch.action).program, "sh");
    let again = setup_step(os, fetch.state, SetupEvent::Download(Ok(true)));
    assert_eq!(again.state, SetupState::LookingAgain);
    assert_eq!(again.note, "✅ FFmpeg успешно сохранен в локальную папку 'ffmpeg_bin'!\n");
    let end = setup_step(os, again.state, both(true));
    assert!(matches!(&end.action, SetupAction::UseTools(p) if p.ffmpeg == local("ffmpeg")));
}

#[test]
fn search_errors() {
    let give_up = |os, state, event| message(&setup_step(os, state, event).action);
    assert_eq!(
        give_up(
            TargetOs::Linux,
            SetupState::MakingDirectory,
            SetupEvent::Directory(Err("denied".to_string()))
        ),
        "Не удалось создать директорию: denied"
    );
    assert_eq!(
        give_up(TargetOs::Other, SetupState::MakingDirectory, SetupEvent::Directory(Ok(()))),
        "Автоматическое скачивание не поддерживается для текущей ОС."
    );
    assert_eq!(
        give_up(
            TargetOs::Windows,
            SetupState::Downloading,
            SetupEvent::Download(Err("x".to_string()))
        ),
        "Ошибка выполнения PowerShell: x"
    );
    assert_eq!(
        give_up(
            TargetOs::MacOs,
            SetupState::Downloading,
            SetupEvent::Download(Err("x".to_string()))
        ),
        "Ошибка выполнения shell-скрипта: x"
    );
    assert_eq!(
        give_up(TargetOs::Windows, SetupState::Downloading, SetupEvent::Download(Ok(false))),
        "Не удалось автоматически загрузить FFmpeg через PowerShell."
    );
    assert_eq!(
        give_up(TargetOs::Linux, SetupState::Downloading, SetupEvent::Download(Ok(false))),
        "Не удалось автоматически загрузить FFmpeg на Linux."
    );
    assert_eq!(
        give_up(TargetOs::MacOs, SetupState::Downloading, SetupEvent::Download(Ok(false))),
        "Не удалось автоматически загрузить FFmpeg на macOS."
    );
    assert_eq!(
        give_up(TargetOs::Linux, SetupState::LookingAgain, both(false)),
        "Не удалось загрузить бинарные файлы FFmpeg."
    );
}

#[test]
fn search_accepts_only_what_it_waits_for() {
    assert!(!setup_accepts(SetupState::LookingLocally, &SetupEvent::SystemTools(true)));
    assert!(!setup_accepts(SetupState::Ended, &both(true)));
    assert!(setup_accepts(SetupState::Downloading, &SetupEvent::Download(Ok(true))));
}

#[test]
fn one_local_copy_is_not_enough() {
    for (ffmpeg, ffprobe) in [(true, false), (false, true)] {
        let event = || SetupEvent::LocalTools { ffmpeg, ffprobe };
        let step = setup_step(TargetOs::Linux, SetupState::LookingLocally, event());
        assert_eq!(step.state, SetupState::ProbingSystem);
        let step = setup_step(TargetOs::Linux, SetupState::LookingAgain, event());
        assert_eq!(message(&step.action), "Не удалось загрузить бинарные файлы FFmpeg.");
    }
}
