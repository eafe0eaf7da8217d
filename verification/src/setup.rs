//! Getting hold of FFmpeg: local copies first, then installed ones, then a
//! download.

use vstd::prelude::*;

use crate::media::{FfmpegPaths, FfmpegPathsView};
use crate::text::{ends_with, holds, occurs_at, starts_with, texts};
use crate::tools::{join2, join3, CommandLine, CommandLineView};

verus! {

/// The system that the tool runs on.
#[derive(Debug, Clone, Copy, PartialEq, Eq, Structural)]
pub enum TargetOs {
    Windows,
    Linux,
    MacOs,
    Other,
}

/// The directory of the local copies.
pub const BIN_DIR: &'static str = "ffmpeg_bin";

pub const WINDOWS_FETCH: &'static str = "[Net.ServicePointManager]::SecurityProtocol = [Net.SecurityProtocolType]::Tls12; \
     $zip = '$env:TEMP\\ffmpeg_download.zip'; \
     $extract = '$env:TEMP\\ffmpeg_extracted'; \
     $url = 'https://www.gyan.dev/ffmpeg/builds/ffmpeg-release-essentials.zip'; \
     Write-Host 'Скачивание FFmpeg для Windows...'; \
     Invoke-WebRequest -Uri $url -OutFile $zip; \
     Write-Host 'Распаковка архива...'; \
     Expand-Archive -Path $zip -DestinationPath $extract -Force; \
     Get-ChildItem -Path $extract -Filter 'ffmpeg.exe' -Recurse | Copy-Item -Destination '";

pub const WINDOWS_PROBE: &'static str = "\\ffmpeg.exe'; \
     Get-ChildItem -Path $extract -Filter 'ffprobe.exe' -Recurse | Copy-Item -Destination '";

pub const WINDOWS_CLEAN: &'static str = "\\ffprobe.exe'; \
     Remove-Item -Path $zip -Force -ErrorAction SilentlyContinue; \
     Remove-Item -Path $extract -Recurse -Force -ErrorAction SilentlyContinue;";

pub const LINUX_FETCH: &'static str = "URL='https://johnvansickle.com/ffmpeg/releases/ffmpeg-release-amd64-static.tar.xz'; \
     TMP_XZ='/tmp/ffmpeg.tar.xz'; \
     TMP_EXT='/tmp/ffmpeg_extracted'; \
     curl -sSL \"$URL\" -o \"$TMP_XZ\" && \
     mkdir -p \"$TMP_EXT\" && \
     tar -xf \"$TMP_XZ\" -C \"$TMP_EXT\" && \
     find \"$TMP_EXT\" -name 'ffmpeg' -exec cp {} '";

pub const LINUX_PROBE: &'static str = "/ffmpeg' \\; && \
     find \"$TMP_EXT\" -name 'ffprobe' -exec cp {} '";

pub const LINUX_CHMOD: &'static str = "/ffprobe' \\; && \
     chmod +x '";

pub const MACOS_FETCH: &'static str = "curl -sSL 'https://evermeet.cx/ffmpeg/getrelease/zip' -o /tmp/ffmpeg.zip && \
     curl -sSL 'https://evermeet.cx/ffmpeg/getrelease/ffprobe/zip' -o /tmp/ffprobe.zip && \
     unzip -o /tmp/ffmpeg.zip -d '";

pub const MACOS_PROBE: &'static str = "' && \
     unzip -o /tmp/ffprobe.zip -d '";

pub const MACOS_CHMOD: &'static str = "' && \
     chmod +x '";

/// The script that downloads FFmpeg into a directory on Windows.
pub open spec fn windows_script(dir: Seq<char>) -> Seq<char> {
    WINDOWS_FETCH@ + dir + WINDOWS_PROBE@ + dir + WINDOWS_CLEAN@
}

/// The script that downloads FFmpeg into a directory on Linux.
pub open spec fn linux_script(dir: Seq<char>) -> Seq<char> {
    LINUX_FETCH@ + dir + LINUX_PROBE@ + dir + LINUX_CHMOD@ + dir + "/ffmpeg' '"@ + dir
        + "/ffprobe' && rm -rf \"$TMP_XZ\" \"$TMP_EXT\""@
}

/// The script that downloads FFmpeg into a directory on macOS.
pub open spec fn macos_script(dir: Seq<char>) -> Seq<char> {
    MACOS_FETCH@ + dir + MACOS_PROBE@ + dir + MACOS_CHMOD@ + dir + "/ffmpeg' '"@ + dir
        + "/ffprobe' && rm -f /tmp/ffmpeg.zip /tmp/ffprobe.zip"@
}

/// The call that downloads FFmpeg, where the system has one.
pub open spec fn download_call(os: TargetOs, dir: Seq<char>) -> Option<CommandLineView> {
    match os {
        TargetOs::Windows => Some(
            CommandLineView {
                program: "powershell"@,
                args: seq!["-NoProfile"@, "-Command"@, windows_script(dir)],
            },
        ),
        TargetOs::Linux => Some(
            CommandLineView { program: "sh"@, args: seq!["-c"@, linux_script(dir)] },
        ),
        TargetOs::MacOs => Some(
            CommandLineView { program: "sh"@, args: seq!["-c"@, macos_script(dir)] },
        ),
        TargetOs::Other => None,
    }
}

/// Builds the call that downloads FFmpeg into a directory.
pub fn download_ffmpeg(os: TargetOs, dir: &str) -> (r: Option<CommandLine>)
    ensures
        match r {
            Some(c) => download_call(os, dir@) == Some(c@),
            None => download_call(os, dir@) is None,
        },
{
    let mut args: Vec<String> = Vec::new();
    let r = match os {
        TargetOs::Windows => {
            let mut script = WINDOWS_FETCH.to_owned();
            script.append(dir);
            script.append(WINDOWS_PROBE);
            script.append(dir);
            script.append(WINDOWS_CLEAN);
            args.push("-NoProfile".to_owned());
            args.push("-Command".to_owned());
            args.push(script);
            CommandLine { program: "powershell".to_owned(), args }
        },
        TargetOs::Linux => {
            let mut script = LINUX_FETCH.to_owned();
            script.append(dir);
            script.append(LINUX_PROBE);
            script.append(dir);
            script.append(LINUX_CHMOD);
            script.append(dir);
            script.append("/ffmpeg' '");
            script.append(dir);
            script.append("/ffprobe' && rm -rf \"$TMP_XZ\" \"$TMP_EXT\"");
            args.push("-c".to_owned());
            args.push(script);
            CommandLine { program: "sh".to_owned(), args }
        },
        TargetOs::MacOs => {
            let mut script = MACOS_FETCH.to_owned();
            script.append(dir);
            script.append(MACOS_PROBE);
            script.append(dir);
            script.append(MACOS_CHMOD);
            script.append(dir);
            script.append("/ffmpeg' '");
            script.append(dir);
            script.append("/ffprobe' && rm -f /tmp/ffmpeg.zip /tmp/ffprobe.zip");
            args.push("-c".to_owned());
            args.push(script);
            CommandLine { program: "sh".to_owned(), args }
        },
        TargetOs::Other => {
            return None;
        },
    };
    assert(r@.args =~= download_call(os, dir@).unwrap().args);
    Some(r)
}

// ---------------------------------------------------------------------------
// The search
// ---------------------------------------------------------------------------

/// The suffix of the names of programs.
pub open spec fn exe_suffix(os: TargetOs) -> Seq<char> {
    if os == TargetOs::Windows {
        ".exe"@
    } else {
        ""@
    }
}

/// What stands between a directory and a name in it.
pub open spec fn separator(os: TargetOs) -> Seq<char> {
    if os == TargetOs::Windows {
        "\\"@
    } else {
        "/"@
    }
}

/// The local copies.
pub open spec fn local_tools(os: TargetOs) -> FfmpegPathsView {
    FfmpegPathsView {
        ffmpeg: BIN_DIR@ + separator(os) + "ffmpeg"@ + exe_suffix(os),
        ffprobe: BIN_DIR@ + separator(os) + "ffprobe"@ + exe_suffix(os),
    }
}

/// The installed programs, found by their names.
pub open spec fn system_tools() -> FfmpegPathsView {
    FfmpegPathsView { ffmpeg: "ffmpeg"@, ffprobe: "ffprobe"@ }
}

/// The local copies.
pub fn find_local_tools(os: TargetOs) -> (r: FfmpegPaths)
    ensures
        r@ == local_tools(os),
{
    let (sep, ext) = if os == TargetOs::Windows {
        ("\\", ".exe")
    } else {
        ("/", "")
    };
    let mut ffmpeg = join3(BIN_DIR, sep, "ffmpeg");
    ffmpeg.append(ext);
    let mut ffprobe = join3(BIN_DIR, sep, "ffprobe");
    ffprobe.append(ext);
    FfmpegPaths { ffmpeg, ffprobe }
}

/// The installed programs, found by their names.
pub fn find_system_tools() -> (r: FfmpegPaths)
    ensures
        r@ == system_tools(),
{
    FfmpegPaths { ffmpeg: "ffmpeg".to_owned(), ffprobe: "ffprobe".to_owned() }
}

/// How far the search has come.
#[derive(Debug, Clone, Copy, PartialEq, Eq, Structural)]
pub enum SetupState {
    LookingLocally,
    ProbingSystem,
    MakingDirectory,
    Downloading,
    LookingAgain,
    Ended,
}

/// What came of the last action.
#[derive(Debug)]
pub enum SetupEvent {
    /// Which of the local copies exist.
    LocalTools { ffmpeg: bool, ffprobe: bool },
    /// Whether the installed FFmpeg could be run.
    SystemTools(bool),
    /// Whether the directory is there, or why not.
    Directory(Result<(), String>),
    /// Whether the download succeeded, or why it could not be run.
    Download(Result<bool, String>),
}

/// What is to be done next.
#[derive(Debug)]
pub enum SetupAction {
    /// Check which of the two files exist.
    LookLocally(FfmpegPaths),
    /// Run a program, without showing what it prints.
    ProbeSystem(CommandLine),
    /// Make a directory, with all its parents.
    MakeDirectory(String),
    /// Run a program.
    Download(CommandLine),
    /// The search ended: these are the programs to call.
    UseTools(FfmpegPaths),
    /// The search ended with an error.
    GiveUp(String),
}

/// What `SetupAction` holds.
pub enum SetupActionView {
    LookLocally(FfmpegPathsView),
    ProbeSystem(CommandLineView),
    MakeDirectory(Seq<char>),
    Download(CommandLineView),
    UseTools(FfmpegPathsView),
    GiveUp(Seq<char>),
}

impl View for SetupAction {
    type V = SetupActionView;

    open spec fn view(&self) -> SetupActionView {
        match self {
            SetupAction::LookLocally(p) => SetupActionView::LookLocally(p@),
            SetupAction::ProbeSystem(c) => SetupActionView::ProbeSystem(c@),
            SetupAction::MakeDirectory(d) => SetupActionView::MakeDirectory(d@),
            SetupAction::Download(c) => SetupActionView::Download(c@),
            SetupAction::UseTools(p) => SetupActionView::UseTools(p@),
            SetupAction::GiveUp(e) => SetupActionView::GiveUp(e@),
        }
    }
}

/// A step of the search: the next state, what is shown, what is to be done.
#[derive(Debug)]
pub struct SetupStep {
    pub state: SetupState,
    pub note: String,
    pub action: SetupAction,
}

/// What `SetupStep` holds.
pub struct SetupStepView {
    pub state: SetupState,
    pub note: Seq<char>,
    pub action: SetupActionView,
}

impl View for SetupStep {
    type V = SetupStepView;

    open spec fn view(&self) -> SetupStepView {
        SetupStepView { state: self.state, note: self.note@, action: self.action@ }
    }
}

/// The event answers the action that the state waits for.
pub open spec fn setup_expects(state: SetupState, event: SetupEvent) -> bool {
    match state {
        SetupState::LookingLocally | SetupState::LookingAgain => event is LocalTools,
        SetupState::ProbingSystem => event is SystemTools,
        SetupState::MakingDirectory => event is Directory,
        SetupState::Downloading => event is Download,
        SetupState::Ended => false,
    }
}

/// The end of the search with an error.
pub open spec fn given_up(note: Seq<char>, message: Seq<char>) -> SetupStepView {
    SetupStepView { state: SetupState::Ended, note, action: SetupActionView::GiveUp(message) }
}

/// The end of the search with programs to call.
pub open spec fn found(tools: FfmpegPathsView) -> SetupStepView {
    SetupStepView {
        state: SetupState::Ended,
        note: ""@,
        action: SetupActionView::UseTools(tools),
    }
}

/// The first step of the search.
pub open spec fn setup_first(os: TargetOs) -> SetupStepView {
    SetupStepView {
        state: SetupState::LookingLocally,
        note: ""@,
        action: SetupActionView::LookLocally(local_tools(os)),
    }
}

/// The error of a download that could not be run.
pub open spec fn download_not_run(os: TargetOs, reason: Seq<char>) -> Seq<char> {
    if os == TargetOs::Windows {
        "Ошибка выполнения PowerShell: "@ + reason
    } else {
        "Ошибка выполнения shell-скрипта: "@ + reason
    }
}

/// The error of a download that failed.
pub open spec fn download_failed(os: TargetOs) -> Seq<char> {
    match os {
        TargetOs::Windows => "Не удалось автоматически загрузить FFmpeg через PowerShell."@,
        TargetOs::MacOs => "Не удалось автоматически загрузить FFmpeg на macOS."@,
        _ => "Не удалось автоматически загрузить FFmpeg на Linux."@,
    }
}

/// The note before a download.
pub const DOWNLOAD_NOTE: &'static str = "⏳ FFmpeg не обнаружен в системе. Начинаем автоматическую загрузку...\n";

/// The note behind a download that succeeded.
pub const DOWNLOADED_NOTE: &'static str = "✅ FFmpeg успешно сохранен в локальную папку 'ffmpeg_bin'!\n";

/// The step that follows an event.
pub open spec fn setup_next(os: TargetOs, state: SetupState, event: SetupEvent) -> SetupStepView {
    match (state, event) {
        (SetupState::LookingLocally, SetupEvent::LocalTools { ffmpeg, ffprobe }) => if ffmpeg
            && ffprobe {
            found(local_tools(os))
        } else {
            SetupStepView {
                state: SetupState::ProbingSystem,
                note: ""@,
                action: SetupActionView::ProbeSystem(
                    CommandLineView { program: "ffmpeg"@, args: seq!["-version"@] },
                ),
            }
        },
        (SetupState::ProbingSystem, SetupEvent::SystemTools(there)) => if there {
            found(system_tools())
        } else {
            SetupStepView {
                state: SetupState::MakingDirectory,
                note: ""@,
                action: SetupActionView::MakeDirectory(BIN_DIR@),
            }
        },
        (SetupState::MakingDirectory, SetupEvent::Directory(made)) => match made {
            Err(e) => given_up(""@, "Не удалось создать директорию: "@ + e@),
            Ok(_) => match download_call(os, BIN_DIR@) {
                Some(call) => SetupStepView {
                    state: SetupState::Downloading,
                    note: DOWNLOAD_NOTE@,
                    action: SetupActionView::Download(call),
                },
                None => given_up(
                    DOWNLOAD_NOTE@,
                    "Автоматическое скачивание не поддерживается для текущей ОС."@,
                ),
            },
        },
        (SetupState::Downloading, SetupEvent::Download(run)) => match run {
            Err(e) => given_up(""@, download_not_run(os, e@)),
            Ok(success) => if success {
                SetupStepView {
                    state: SetupState::LookingAgain,
                    note: DOWNLOADED_NOTE@,
                    action: SetupActionView::LookLocally(local_tools(os)),
                }
            } else {
                given_up(""@, download_failed(os))
            },
        },
        (_, SetupEvent::LocalTools { ffmpeg, ffprobe }) => if ffmpeg && ffprobe {
            found(local_tools(os))
        } else {
            given_up(""@, "Не удалось загрузить бинарные файлы FFmpeg."@)
        },
        _ => arbitrary(),
    }
}

fn give_up(note: &str, message: String) -> (r: SetupStep)
    ensures
        r@ == given_up(note@, message@),
{
    SetupStep {
        state: SetupState::Ended,
        note: note.to_owned(),
        action: SetupAction::GiveUp(message),
    }
}

fn use_tools(tools: FfmpegPaths) -> (r: SetupStep)
    ensures
        r@ == found(tools@),
{
    SetupStep {
        state: SetupState::Ended,
        note: "".to_owned(),
        action: SetupAction::UseTools(tools),
    }
}

/// Starts the search for FFmpeg.
pub fn ensure_ffmpeg_available(os: TargetOs) -> (r: SetupStep)
    ensures
        r@ == setup_first(os),
{
    SetupStep {
        state: SetupState::LookingLocally,
        note: "".to_owned(),
        action: SetupAction::LookLocally(find_local_tools(os)),
    }
}

/// Tells whether an event answers the action that a state waits for.
pub fn setup_accepts(state: SetupState, event: &SetupEvent) -> (r: bool)
    ensures
        r == setup_expects(state, *event),
{
    match (state, event) {
        (SetupState::LookingLocally, SetupEvent::LocalTools { .. }) => true,
        (SetupState::LookingAgain, SetupEvent::LocalTools { .. }) => true,
        (SetupState::ProbingSystem, SetupEvent::SystemTools(_)) => true,
        (SetupState::MakingDirectory, SetupEvent::Directory(_)) => true,
        (SetupState::Downloading, SetupEvent::Download(_)) => true,
        _ => false,
    }
}

/// Goes on with the search.
pub fn setup_step(os: TargetOs, state: SetupState, event: SetupEvent) -> (r: SetupStep)
    requires
        setup_expects(state, event),
    ensures
        r@ == setup_next(os, state, event),
{
    match event {
        SetupEvent::LocalTools { ffmpeg, ffprobe } => {
            if ffmpeg && ffprobe {
                use_tools(find_local_tools(os))
            } else if state == SetupState::LookingLocally {
                let mut args: Vec<String> = Vec::new();
                args.push("-version".to_owned());
                assert(texts(args@) =~= seq!["-version"@]);
                SetupStep {
                    state: SetupState::ProbingSystem,
                    note: "".to_owned(),
                    action: SetupAction::ProbeSystem(
                        CommandLine { program: "ffmpeg".to_owned(), args },
                    ),
                }
            } else {
                give_up("", "Не удалось загрузить бинарные файлы FFmpeg.".to_owned())
            }
        },
        SetupEvent::SystemTools(there) => {
            if there {
                use_tools(find_system_tools())
            } else {
                SetupStep {
                    state: SetupState::MakingDirectory,
                    note: "".to_owned(),
                    action: SetupAction::MakeDirectory(BIN_DIR.to_owned()),
                }
            }
        },
        SetupEvent::Directory(made) => match made {
            Err(e) => give_up("", join2("Не удалось создать директорию: ", e.as_str())),
            Ok(_) => match download_ffmpeg(os, BIN_DIR) {
                Some(call) => SetupStep {
                    state: SetupState::Downloading,
                    note: DOWNLOAD_NOTE.to_owned(),
                    action: SetupAction::Download(call),
                },
                None => give_up(
                    DOWNLOAD_NOTE,
                    "Автоматическое скачивание не поддерживается для текущей ОС.".to_owned(),
                ),
            },
        },
        SetupEvent::Download(run) => match run {
            Err(e) => {
                let message = if os == TargetOs::Windows {
                    join2("Ошибка выполнения PowerShell: ", e.as_str())
                } else {
                    join2("Ошибка выполнения shell-скрипта: ", e.as_str())
                };
                give_up("", message)
            },
            Ok(success) => {
                if success {
                    SetupStep {
                        state: SetupState::LookingAgain,
                        note: DOWNLOADED_NOTE.to_owned(),
                        action: SetupAction::LookLocally(find_local_tools(os)),
                    }
                } else {
                    let message = match os {
                        TargetOs::Windows =>
                            "Не удалось автоматически загрузить FFmpeg через PowerShell.",
                        TargetOs::MacOs => "Не удалось автоматически загрузить FFmpeg на macOS.",
                        _ => "Не удалось автоматически загрузить FFmpeg на Linux.",
                    };
                    give_up("", message.to_owned())
                }
            },
        },
    }
}

// ---------------------------------------------------------------------------
// Laws
// ---------------------------------------------------------------------------

/// How many steps the search can still take at most.
pub open spec fn steps_left(state: SetupState) -> nat {
    match state {
        SetupState::LookingLocally => 5,
        SetupState::ProbingSystem => 4,
        SetupState::MakingDirectory => 3,
        SetupState::Downloading => 2,
        SetupState::LookingAgain => 1,
        SetupState::Ended => 0,
    }
}

/// Every step brings the search closer to its end, and it ends exactly with
/// programs to call or with an error.
pub proof fn law_search_ends(os: TargetOs, state: SetupState, event: SetupEvent)
    requires
        setup_expects(state, event),
    ensures
        steps_left(setup_next(os, state, event).state) < steps_left(state),
        setup_next(os, state, event).state == SetupState::Ended <==> (setup_next(
            os,
            state,
            event,
        ).action is UseTools || setup_next(os, state, event).action is GiveUp),
{
}

/// Programs are only called that were found: the local copies after both were
/// seen, the installed ones after FFmpeg could be run.
pub proof fn law_tools_were_found(os: TargetOs, state: SetupState, event: SetupEvent)
    requires
        setup_expects(state, event),
    ensures
        setup_next(os, state, event).action matches SetupActionView::UseTools(tools) ==> ((event
            == (SetupEvent::LocalTools { ffmpeg: true, ffprobe: true }) && tools == local_tools(os)) || (event
            == SetupEvent::SystemTools(true) && tools == system_tools())),
{
}

/// The local copies lie in the directory `ffmpeg_bin`, under the names that
/// programs have on the system, and the installed programs are called by their
/// bare names.
pub proof fn law_where_the_tools_lie(os: TargetOs)
    ensures
        local_tools(os) == if os == TargetOs::Windows {
            FfmpegPathsView {
                ffmpeg: "ffmpeg_bin\\ffmpeg.exe"@,
                ffprobe: "ffmpeg_bin\\ffprobe.exe"@,
            }
        } else {
            FfmpegPathsView { ffmpeg: "ffmpeg_bin/ffmpeg"@, ffprobe: "ffmpeg_bin/ffprobe"@ }
        },
        system_tools() == (FfmpegPathsView { ffmpeg: "ffmpeg"@, ffprobe: "ffprobe"@ }),
{
    reveal_strlit("ffmpeg_bin");
    reveal_strlit("\\");
    reveal_strlit("/");
    reveal_strlit("ffmpeg");
    reveal_strlit("ffprobe");
    reveal_strlit(".exe");
    reveal_strlit("");
    reveal_strlit("ffmpeg_bin\\ffmpeg.exe");
    reveal_strlit("ffmpeg_bin\\ffprobe.exe");
    reveal_strlit("ffmpeg_bin/ffmpeg");
    reveal_strlit("ffmpeg_bin/ffprobe");
    let tools = local_tools(os);
    if os == TargetOs::Windows {
        assert(tools.ffmpeg =~= "ffmpeg_bin\\ffmpeg.exe"@);
        assert(tools.ffprobe =~= "ffmpeg_bin\\ffprobe.exe"@);
    } else {
        assert(tools.ffmpeg =~= "ffmpeg_bin/ffmpeg"@);
        assert(tools.ffprobe =~= "ffmpeg_bin/ffprobe"@);
    }
}

/// The call that downloads FFmpeg is the one of the system, for any directory:
/// PowerShell on Windows, the shell on Linux and macOS, with the script that
/// fetches the build for that system; any other system has none.
pub proof fn law_every_system_its_download(os: TargetOs, dir: Seq<char>)
    ensures
        match download_call(os, dir) {
            Some(call) => {
                let script = call.args.last();
                &&& os == TargetOs::Windows ==> call.program == "powershell"@ && call.args.len()
                    == 3 && call.args[0] == "-NoProfile"@ && call.args[1] == "-Command"@ && holds(
                    script,
                    "$url = 'https://www.gyan.dev/ffmpeg/builds/ffmpeg-release-essentials.zip'; "@,
                ) && script == windows_script(dir)
                &&& os == TargetOs::Linux ==> call.program == "sh"@ && call.args.len() == 2
                    && call.args[0] == "-c"@ && starts_with(
                    script,
                    "URL='https://johnvansickle.com/ffmpeg/releases/ffmpeg-release-amd64-static.tar.xz'; "@,
                ) && script == linux_script(dir)
                &&& os == TargetOs::MacOs ==> call.program == "sh"@ && call.args.len() == 2
                    && call.args[0] == "-c"@ && starts_with(
                    script,
                    "curl -sSL 'https://evermeet.cx/ffmpeg/getrelease/zip' -o /tmp/ffmpeg.zip && "@,
                ) && script == macos_script(dir)
                &&& os != TargetOs::Other
            },
            None => os == TargetOs::Other,
        },
{
    law_windows_script(dir);
    law_linux_script(dir);
    law_macos_script(dir);
}

/// The text `front` followed by the directory and by `back` stands in a script.
pub open spec fn names_in(
    script: Seq<char>,
    front: Seq<char>,
    dir: Seq<char>,
    back: Seq<char>,
) -> bool {
    holds(script, front + dir + back)
}

/// The script for Windows fetches the archive of gyan.dev and copies both
/// programs out of it into the directory.
pub proof fn law_windows_script(dir: Seq<char>)
    ensures
        ({
            let script = windows_script(dir);
            &&& holds(
                script,
                "$url = 'https://www.gyan.dev/ffmpeg/builds/ffmpeg-release-essentials.zip'; "@,
            )
            &&& names_in(
                script,
                "-Filter 'ffmpeg.exe' -Recurse | Copy-Item -Destination '"@,
                dir,
                "\\ffmpeg.exe'; "@,
            )
            &&& names_in(
                script,
                "-Filter 'ffprobe.exe' -Recurse | Copy-Item -Destination '"@,
                dir,
                "\\ffprobe.exe'; "@,
            )
        }),
{
    reveal_strlit(
        "[Net.ServicePointManager]::SecurityProtocol = [Net.SecurityProtocolType]::Tls12; \
     $zip = '$env:TEMP\\ffmpeg_download.zip'; \
     $extract = '$env:TEMP\\ffmpeg_extracted'; \
     $url = 'https://www.gyan.dev/ffmpeg/builds/ffmpeg-release-essentials.zip'; \
     Write-Host 'Скачивание FFmpeg для Windows...'; \
     Invoke-WebRequest -Uri $url -OutFile $zip; \
     Write-Host 'Распаковка архива...'; \
     Expand-Archive -Path $zip -DestinationPath $extract -Force; \
     Get-ChildItem -Path $extract -Filter 'ffmpeg.exe' -Recurse | Copy-Item -Destination '",
    );
    reveal_strlit(
        "\\ffmpeg.exe'; \
     Get-ChildItem -Path $extract -Filter 'ffprobe.exe' -Recurse | Copy-Item -Destination '",
    );
    reveal_strlit(
        "\\ffprobe.exe'; \
     Remove-Item -Path $zip -Force -ErrorAction SilentlyContinue; \
     Remove-Item -Path $extract -Recurse -Force -ErrorAction SilentlyContinue;",
    );
    let url = "$url = 'https://www.gyan.dev/ffmpeg/builds/ffmpeg-release-essentials.zip'; "@;
    let ffmpeg = "-Filter 'ffmpeg.exe' -Recurse | Copy-Item -Destination '"@;
    let ffmpeg_end = "\\ffmpeg.exe'; "@;
    let ffprobe = "-Filter 'ffprobe.exe' -Recurse | Copy-Item -Destination '"@;
    let ffprobe_end = "\\ffprobe.exe'; "@;
    reveal_strlit("$url = 'https://www.gyan.dev/ffmpeg/builds/ffmpeg-release-essentials.zip'; ");
    reveal_strlit("-Filter 'ffmpeg.exe' -Recurse | Copy-Item -Destination '");
    reveal_strlit("\\ffmpeg.exe'; ");
    reveal_strlit("-Filter 'ffprobe.exe' -Recurse | Copy-Item -Destination '");
    reveal_strlit("\\ffprobe.exe'; ");
    let script = windows_script(dir);
    let fetch = WINDOWS_FETCH@;
    let probe = WINDOWS_PROBE@;
    let clean = WINDOWS_CLEAN@;
    let at = 162int;
    assert(fetch.subrange(at, at + url.len()) =~= url);
    assert(script.subrange(at, at + url.len()) =~= url);
    assert(occurs_at(script, url, at));
    let cut = fetch.len() - ffmpeg.len();
    assert(fetch.skip(cut) =~= ffmpeg);
    assert(probe.take(ffmpeg_end.len() as int) =~= ffmpeg_end);
    let whole = ffmpeg + dir + ffmpeg_end;
    assert(script.subrange(cut, cut + whole.len()) =~= whole);
    assert(occurs_at(script, whole, cut));
    let cut2 = probe.len() - ffprobe.len();
    assert(probe.skip(cut2) =~= ffprobe);
    assert(clean.take(ffprobe_end.len() as int) =~= ffprobe_end);
    let whole2 = ffprobe + dir + ffprobe_end;
    let at2 = fetch.len() + dir.len() + cut2;
    assert(script.subrange(at2, at2 + whole2.len()) =~= whole2);
    assert(occurs_at(script, whole2, at2));
}

/// The script for Linux fetches the archive of johnvansickle.com, copies both
/// programs out of it into the directory, and lets them be run.
pub proof fn law_linux_script(dir: Seq<char>)
    ensures
        ({
            let script = linux_script(dir);
            &&& starts_with(
                script,
                "URL='https://johnvansickle.com/ffmpeg/releases/ffmpeg-release-amd64-static.tar.xz'; "@,
            )
            &&& names_in(script, "-name 'ffmpeg' -exec cp {} '"@, dir, "/ffmpeg' "@)
            &&& names_in(script, "-name 'ffprobe' -exec cp {} '"@, dir, "/ffprobe' "@)
            &&& names_in(script, "chmod +x '"@, dir, "/ffmpeg' '"@)
            &&& names_in(script, "/ffmpeg' '"@, dir, "/ffprobe' && "@)
        }),
{
    reveal_strlit(
        "URL='https://johnvansickle.com/ffmpeg/releases/ffmpeg-release-amd64-static.tar.xz'; \
     TMP_XZ='/tmp/ffmpeg.tar.xz'; \
     TMP_EXT='/tmp/ffmpeg_extracted'; \
     curl -sSL \"$URL\" -o \"$TMP_XZ\" && \
     mkdir -p \"$TMP_EXT\" && \
     tar -xf \"$TMP_XZ\" -C \"$TMP_EXT\" && \
     find \"$TMP_EXT\" -name 'ffmpeg' -exec cp {} '",
    );
    reveal_strlit(
        "/ffmpeg' \\; && \
     find \"$TMP_EXT\" -name 'ffprobe' -exec cp {} '",
    );
    reveal_strlit(
        "/ffprobe' \\; && \
     chmod +x '",
    );
    reveal_strlit("/ffprobe' && rm -rf \"$TMP_XZ\" \"$TMP_EXT\"");
    reveal_strlit(
        "URL='https://johnvansickle.com/ffmpeg/releases/ffmpeg-release-amd64-static.tar.xz'; ",
    );
    reveal_strlit("-name 'ffmpeg' -exec cp {} '");
    reveal_strlit("-name 'ffprobe' -exec cp {} '");
    reveal_strlit("/ffmpeg' ");
    reveal_strlit("/ffprobe' ");
    reveal_strlit("chmod +x '");
    reveal_strlit("/ffmpeg' '");
    reveal_strlit("/ffprobe' && ");
    let script = linux_script(dir);
    let fetch = LINUX_FETCH@;
    let probe = LINUX_PROBE@;
    let chmod = LINUX_CHMOD@;
    let tail = "/ffprobe' && rm -rf \"$TMP_XZ\" \"$TMP_EXT\""@;
    let url =
        "URL='https://johnvansickle.com/ffmpeg/releases/ffmpeg-release-amd64-static.tar.xz'; "@;
    assert(fetch.take(url.len() as int) =~= url);
    assert(script.take(url.len() as int) =~= url);
    let a = "-name 'ffmpeg' -exec cp {} '"@;
    let b = "-name 'ffprobe' -exec cp {} '"@;
    assert(fetch.skip(fetch.len() - a.len()) =~= a);
    assert(probe.skip(probe.len() - b.len()) =~= b);
    assert(probe.take(9) =~= "/ffmpeg' "@);
    assert(chmod.take(10) =~= "/ffprobe' "@);
    assert(chmod.skip(chmod.len() - 10) =~= "chmod +x '"@);
    assert("/ffmpeg' '"@.skip(0) =~= "/ffmpeg' '"@);
    assert("/ffmpeg' '"@.take(10) =~= "/ffmpeg' '"@);
    assert(tail.take(13) =~= "/ffprobe' && "@);
    lemma_joint(Seq::empty(), fetch, dir, probe, "-name 'ffmpeg' -exec cp {} '"@, "/ffmpeg' "@);
    lemma_joint(fetch + dir, probe, dir, chmod, "-name 'ffprobe' -exec cp {} '"@, "/ffprobe' "@);
    lemma_joint(
        fetch + dir + probe + dir,
        chmod,
        dir,
        "/ffmpeg' '"@,
        "chmod +x '"@,
        "/ffmpeg' '"@,
    );
    lemma_joint(
        fetch + dir + probe + dir + chmod + dir,
        "/ffmpeg' '"@,
        dir,
        tail,
        "/ffmpeg' '"@,
        "/ffprobe' && "@,
    );
    lemma_longer(
        Seq::empty() + fetch + dir + probe,
        dir + chmod + dir + "/ffmpeg' '"@ + dir + tail,
        script,
        "-name 'ffmpeg' -exec cp {} '"@ + dir + "/ffmpeg' "@,
    );
    lemma_longer(
        fetch + dir + probe + dir + chmod,
        dir + "/ffmpeg' '"@ + dir + tail,
        script,
        "-name 'ffprobe' -exec cp {} '"@ + dir + "/ffprobe' "@,
    );
    lemma_longer(
        fetch + dir + probe + dir + chmod + dir + "/ffmpeg' '"@,
        dir + tail,
        script,
        "chmod +x '"@ + dir + "/ffmpeg' '"@,
    );
}

/// The script for macOS fetches the two archives of evermeet.cx, unpacks both
/// into the directory, and lets the programs be run.
pub proof fn law_macos_script(dir: Seq<char>)
    ensures
        ({
            let script = macos_script(dir);
            &&& starts_with(
                script,
                "curl -sSL 'https://evermeet.cx/ffmpeg/getrelease/zip' -o /tmp/ffmpeg.zip && "@,
            )
            &&& holds(
                script,
                "curl -sSL 'https://evermeet.cx/ffmpeg/getrelease/ffprobe/zip' -o /tmp/ffprobe.zip"@,
            )
            &&& names_in(script, "unzip -o /tmp/ffmpeg.zip -d '"@, dir, "' && "@)
            &&& names_in(script, "unzip -o /tmp/ffprobe.zip -d '"@, dir, "' && "@)
            &&& names_in(script, "chmod +x '"@, dir, "/ffmpeg' '"@)
            &&& names_in(script, "/ffmpeg' '"@, dir, "/ffprobe' && "@)
        }),
{
    reveal_strlit(
        "curl -sSL 'https://evermeet.cx/ffmpeg/getrelease/zip' -o /tmp/ffmpeg.zip && \
     curl -sSL 'https://evermeet.cx/ffmpeg/getrelease/ffprobe/zip' -o /tmp/ffprobe.zip && \
     unzip -o /tmp/ffmpeg.zip -d '",
    );
    reveal_strlit(
        "' && \
     unzip -o /tmp/ffprobe.zip -d '",
    );
    reveal_strlit(
        "' && \
     chmod +x '",
    );
    reveal_strlit("/ffprobe' && rm -f /tmp/ffmpeg.zip /tmp/ffprobe.zip");
    reveal_strlit(
        "curl -sSL 'https://evermeet.cx/ffmpeg/getrelease/zip' -o /tmp/ffmpeg.zip && ",
    );
    reveal_strlit(
        "curl -sSL 'https://evermeet.cx/ffmpeg/getrelease/ffprobe/zip' -o /tmp/ffprobe.zip",
    );
    reveal_strlit("unzip -o /tmp/ffmpeg.zip -d '");
    reveal_strlit("unzip -o /tmp/ffprobe.zip -d '");
    reveal_strlit("' && ");
    reveal_strlit("chmod +x '");
    reveal_strlit("/ffmpeg' '");
    reveal_strlit("/ffprobe' && ");
    let script = macos_script(dir);
    let fetch = MACOS_FETCH@;
    let probe = MACOS_PROBE@;
    let chmod = MACOS_CHMOD@;
    let tail = "/ffprobe' && rm -f /tmp/ffmpeg.zip /tmp/ffprobe.zip"@;
    let first = "curl -sSL 'https://evermeet.cx/ffmpeg/getrelease/zip' -o /tmp/ffmpeg.zip && "@;
    let second =
        "curl -sSL 'https://evermeet.cx/ffmpeg/getrelease/ffprobe/zip' -o /tmp/ffprobe.zip"@;
    let at = first.len() as int;
    assert(fetch.take(at) =~= first);
    assert(script.take(at) =~= first);
    assert(fetch.subrange(at, at + second.len()) =~= second);
    assert(script.subrange(at, at + second.len()) =~= second);
    assert(occurs_at(script, second, at));
    let a = "unzip -o /tmp/ffmpeg.zip -d '"@;
    let b = "unzip -o /tmp/ffprobe.zip -d '"@;
    assert(fetch.skip(fetch.len() - a.len()) =~= a);
    assert(probe.skip(probe.len() - b.len()) =~= b);
    assert(probe.take(5) =~= "' && "@);
    assert(chmod.take(5) =~= "' && "@);
    assert(chmod.skip(chmod.len() - 10) =~= "chmod +x '"@);
    assert("/ffmpeg' '"@.skip(0) =~= "/ffmpeg' '"@);
    assert("/ffmpeg' '"@.take(10) =~= "/ffmpeg' '"@);
    assert(tail.take(13) =~= "/ffprobe' && "@);
    lemma_joint(Seq::empty(), fetch, dir, probe, "unzip -o /tmp/ffmpeg.zip -d '"@, "' && "@);
    lemma_joint(fetch + dir, probe, dir, chmod, "unzip -o /tmp/ffprobe.zip -d '"@, "' && "@);
    lemma_joint(
        fetch + dir + probe + dir,
        chmod,
        dir,
        "/ffmpeg' '"@,
        "chmod +x '"@,
        "/ffmpeg' '"@,
    );
    lemma_joint(
        fetch + dir + probe + dir + chmod + dir,
        "/ffmpeg' '"@,
        dir,
        tail,
        "/ffmpeg' '"@,
        "/ffprobe' && "@,
    );
    lemma_longer(
        Seq::empty() + fetch + dir + probe,
        dir + chmod + dir + "/ffmpeg' '"@ + dir + tail,
        script,
        "unzip -o /tmp/ffmpeg.zip -d '"@ + dir + "' && "@,
    );
    lemma_longer(
        fetch + dir + probe + dir + chmod,
        dir + "/ffmpeg' '"@ + dir + tail,
        script,
        "unzip -o /tmp/ffprobe.zip -d '"@ + dir + "' && "@,
    );
    lemma_longer(
        fetch + dir + probe + dir + chmod + dir + "/ffmpeg' '"@,
        dir + tail,
        script,
        "chmod +x '"@ + dir + "/ffmpeg' '"@,
    );
}

proof fn lemma_joint(
    before: Seq<char>,
    left: Seq<char>,
    dir: Seq<char>,
    right: Seq<char>,
    front: Seq<char>,
    back: Seq<char>,
)
    requires
        ends_with(left, front),
        starts_with(right, back),
    ensures
        names_in(before + left + dir + right, front, dir, back),
{
    let whole = before + left + dir + right;
    let part = front + dir + back;
    let cut = left.len() - front.len();
    let at = before.len() + cut;
    assert forall|i: int| 0 <= i < part.len() implies whole.subrange(at, at + part.len())[i]
        == part[i] by {
        if i < front.len() {
            assert(left.skip(cut)[i] == front[i]);
        } else if i >= front.len() + dir.len() {
            assert(right.take(back.len() as int)[i - front.len() - dir.len()] == back[i
                - front.len() - dir.len()]);
        }
    }
    assert(whole.subrange(at, at + part.len()) =~= part);
    assert(occurs_at(whole, part, at));
}

proof fn lemma_longer(s: Seq<char>, rest: Seq<char>, whole: Seq<char>, part: Seq<char>)
    requires
        holds(s, part),
        whole =~= s + rest,
    ensures
        holds(whole, part),
{
    let i = choose|i: int| occurs_at(s, part, i);
    assert(whole.subrange(i, i + part.len()) =~= s.subrange(i, i + part.len()));
    assert(occurs_at(whole, part, i));
}

/// Whenever the search downloads FFmpeg, it runs the script of the very system
/// that it runs on, which puts both programs into the directory that was made
/// and is searched again; a system without a script gets no download.
pub proof fn law_download_fits_the_system(os: TargetOs, state: SetupState, event: SetupEvent)
    requires
        setup_expects(state, event),
    ensures
        setup_next(os, state, event).action matches SetupActionView::Download(call) ==> {
            let script = call.args.last();
            &&& state == SetupState::MakingDirectory
            &&& os == TargetOs::Windows ==> {
                &&& call.program == "powershell"@
                &&& call.args.len() == 3 && call.args[0] == "-NoProfile"@ && call.args[1]
                    == "-Command"@
                &&& holds(script, "https://www.gyan.dev/"@)
                &&& names_in(script, " -Destination '"@, local_tools(os).ffmpeg, "'; "@)
                &&& names_in(script, " -Destination '"@, local_tools(os).ffprobe, "'; "@)
            }
            &&& os == TargetOs::Linux ==> {
                &&& call.program == "sh"@
                &&& call.args.len() == 2 && call.args[0] == "-c"@
                &&& starts_with(script, "URL='https://johnvansickle.com/"@)
                &&& names_in(script, "-exec cp {} '"@, local_tools(os).ffmpeg, "' "@)
                &&& names_in(script, "-exec cp {} '"@, local_tools(os).ffprobe, "' "@)
            }
            &&& os == TargetOs::MacOs ==> {
                &&& call.program == "sh"@
                &&& call.args.len() == 2 && call.args[0] == "-c"@
                &&& starts_with(script, "curl -sSL 'https://evermeet.cx/"@)
                &&& names_in(script, " -d '"@, "ffmpeg_bin"@, "' && "@)
                &&& names_in(script, "chmod +x '"@, local_tools(os).ffmpeg, "' "@)
                &&& names_in(script, " '"@, local_tools(os).ffprobe, "' && "@)
            }
            &&& os != TargetOs::Other
        },
        setup_next(os, state, event).action matches SetupActionView::MakeDirectory(dir) ==> dir
            == "ffmpeg_bin"@,
{
    let step = setup_next(os, state, event);
    if let SetupActionView::Download(call) = step.action {
        let script = call.args.last();
        let dir = "ffmpeg_bin"@;
        law_where_the_tools_lie(os);
        reveal_strlit("ffmpeg_bin");
        match os {
            TargetOs::Windows => {
                lemma_windows_places(script);
            },
            TargetOs::Linux => {
                lemma_linux_places(script);
            },
            TargetOs::MacOs => {
                lemma_macos_places(script);
            },
            TargetOs::Other => {},
        }
    }
}

proof fn lemma_part(s: Seq<char>, whole: Seq<char>, a: Seq<char>, part: Seq<char>, b: Seq<char>)
    requires
        holds(s, whole),
        whole == a + part + b,
    ensures
        holds(s, part),
{
    let i = choose|i: int| occurs_at(s, whole, i);
    let at = i + a.len();
    assert(whole.subrange(a.len() as int, a.len() + part.len() as int) =~= part);
    assert(s.subrange(at, at + part.len()) =~= s.subrange(i, i + whole.len()).subrange(
        a.len() as int,
        a.len() + part.len() as int,
    ));
    assert(occurs_at(s, part, at));
}

proof fn lemma_windows_places(script: Seq<char>)
    requires
        script == windows_script("ffmpeg_bin"@),
    ensures
        holds(script, "https://www.gyan.dev/"@),
        names_in(script, " -Destination '"@, "ffmpeg_bin\\ffmpeg.exe"@, "'; "@),
        names_in(script, " -Destination '"@, "ffmpeg_bin\\ffprobe.exe"@, "'; "@),
{
    let dir = "ffmpeg_bin"@;
    law_windows_script(dir);
    reveal_strlit("ffmpeg_bin");
    reveal_strlit("$url = 'https://www.gyan.dev/ffmpeg/builds/ffmpeg-release-essentials.zip'; ");
    reveal_strlit("https://www.gyan.dev/");
    reveal_strlit("-Filter 'ffmpeg.exe' -Recurse | Copy-Item -Destination '");
    reveal_strlit("-Filter 'ffprobe.exe' -Recurse | Copy-Item -Destination '");
    reveal_strlit("\\ffmpeg.exe'; ");
    reveal_strlit("\\ffprobe.exe'; ");
    reveal_strlit(" -Destination '");
    reveal_strlit("ffmpeg_bin\\ffmpeg.exe");
    reveal_strlit("ffmpeg_bin\\ffprobe.exe");
    reveal_strlit("'; ");
    let url = "$url = 'https://www.gyan.dev/ffmpeg/builds/ffmpeg-release-essentials.zip'; "@;
    let host = "https://www.gyan.dev/"@;
    assert(url =~= url.take(8) + host + url.skip(8 + host.len() as int));
    lemma_part(script, url, url.take(8), host, url.skip(8 + host.len() as int));
    let front = "-Filter 'ffmpeg.exe' -Recurse | Copy-Item -Destination '"@;
    let whole = front + dir + "\\ffmpeg.exe'; "@;
    let part = " -Destination '"@ + "ffmpeg_bin\\ffmpeg.exe"@ + "'; "@;
    let cut = front.len() - " -Destination '"@.len();
    assert(whole =~= front.take(cut) + part + Seq::empty());
    lemma_part(script, whole, front.take(cut), part, Seq::empty());
    let front2 = "-Filter 'ffprobe.exe' -Recurse | Copy-Item -Destination '"@;
    let whole2 = front2 + dir + "\\ffprobe.exe'; "@;
    let part2 = " -Destination '"@ + "ffmpeg_bin\\ffprobe.exe"@ + "'; "@;
    let cut2 = front2.len() - " -Destination '"@.len();
    assert(whole2 =~= front2.take(cut2) + part2 + Seq::empty());
    lemma_part(script, whole2, front2.take(cut2), part2, Seq::empty());
}

proof fn lemma_linux_places(script: Seq<char>)
    requires
        script == linux_script("ffmpeg_bin"@),
    ensures
        starts_with(script, "URL='https://johnvansickle.com/"@),
        names_in(script, "-exec cp {} '"@, "ffmpeg_bin/ffmpeg"@, "' "@),
        names_in(script, "-exec cp {} '"@, "ffmpeg_bin/ffprobe"@, "' "@),
{
    let dir = "ffmpeg_bin"@;
    law_linux_script(dir);
    reveal_strlit("ffmpeg_bin");
    reveal_strlit(
        "URL='https://johnvansickle.com/ffmpeg/releases/ffmpeg-release-amd64-static.tar.xz'; ",
    );
    reveal_strlit("URL='https://johnvansickle.com/");
    reveal_strlit("-name 'ffmpeg' -exec cp {} '");
    reveal_strlit("-name 'ffprobe' -exec cp {} '");
    reveal_strlit("/ffmpeg' ");
    reveal_strlit("/ffprobe' ");
    reveal_strlit("-exec cp {} '");
    reveal_strlit("ffmpeg_bin/ffmpeg");
    reveal_strlit("ffmpeg_bin/ffprobe");
    reveal_strlit("' ");
    let url =
        "URL='https://johnvansickle.com/ffmpeg/releases/ffmpeg-release-amd64-static.tar.xz'; "@;
    let host = "URL='https://johnvansickle.com/"@;
    let n = host.len() as int;
    assert(url.take(n) =~= host);
    assert(script.take(url.len() as int).take(n) =~= script.take(n));
    let front = "-name 'ffmpeg' -exec cp {} '"@;
    let whole = front + dir + "/ffmpeg' "@;
    let part = "-exec cp {} '"@ + "ffmpeg_bin/ffmpeg"@ + "' "@;
    let cut = front.len() - "-exec cp {} '"@.len();
    assert(whole =~= front.take(cut) + part + Seq::empty());
    lemma_part(script, whole, front.take(cut), part, Seq::empty());
    let front2 = "-name 'ffprobe' -exec cp {} '"@;
    let whole2 = front2 + dir + "/ffprobe' "@;
    let part2 = "-exec cp {} '"@ + "ffmpeg_bin/ffprobe"@ + "' "@;
    let cut2 = front2.len() - "-exec cp {} '"@.len();
    assert(whole2 =~= front2.take(cut2) + part2 + Seq::empty());
    lemma_part(script, whole2, front2.take(cut2), part2, Seq::empty());
}

proof fn lemma_macos_places(script: Seq<char>)
    requires
        script == macos_script("ffmpeg_bin"@),
    ensures
        starts_with(script, "curl -sSL 'https://evermeet.cx/"@),
        names_in(script, " -d '"@, "ffmpeg_bin"@, "' && "@),
        names_in(script, "chmod +x '"@, "ffmpeg_bin/ffmpeg"@, "' "@),
        names_in(script, " '"@, "ffmpeg_bin/ffprobe"@, "' && "@),
{
    let dir = "ffmpeg_bin"@;
    law_macos_script(dir);
    reveal_strlit("ffmpeg_bin");
    reveal_strlit(
        "curl -sSL 'https://evermeet.cx/ffmpeg/getrelease/zip' -o /tmp/ffmpeg.zip && ",
    );
    reveal_strlit("curl -sSL 'https://evermeet.cx/");
    reveal_strlit("unzip -o /tmp/ffmpeg.zip -d '");
    reveal_strlit("' && ");
    reveal_strlit(" -d '");
    reveal_strlit("chmod +x '");
    reveal_strlit("/ffmpeg' '");
    reveal_strlit("/ffprobe' && ");
    reveal_strlit("ffmpeg_bin/ffmpeg");
    reveal_strlit("ffmpeg_bin/ffprobe");
    reveal_strlit("' ");
    reveal_strlit(" '");
    let url = "curl -sSL 'https://evermeet.cx/ffmpeg/getrelease/zip' -o /tmp/ffmpeg.zip && "@;
    let host = "curl -sSL 'https://evermeet.cx/"@;
    let n = host.len() as int;
    assert(url.take(n) =~= host);
    assert(script.take(url.len() as int).take(n) =~= script.take(n));
    let front = "unzip -o /tmp/ffmpeg.zip -d '"@;
    let whole = front + dir + "' && "@;
    let part = " -d '"@ + dir + "' && "@;
    let cut = front.len() - 5;
    assert(whole =~= front.take(cut) + part + Seq::empty());
    lemma_part(script, whole, front.take(cut), part, Seq::empty());
    let whole2 = "chmod +x '"@ + dir + "/ffmpeg' '"@;
    let part2 = "chmod +x '"@ + "ffmpeg_bin/ffmpeg"@ + "' "@;
    assert(whole2 =~= Seq::empty() + part2 + seq!['\'']);
    lemma_part(script, whole2, Seq::empty(), part2, seq!['\'']);
    let whole3 = "/ffmpeg' '"@ + dir + "/ffprobe' && "@;
    let part3 = " '"@ + "ffmpeg_bin/ffprobe"@ + "' && "@;
    assert(whole3 =~= "/ffmpeg' '"@.take(8) + part3 + Seq::empty());
    lemma_part(script, whole3, "/ffmpeg' '"@.take(8), part3, Seq::empty());
}

/// What each step does. A full pair of local copies is used, and they are the
/// files that were looked at; one of the two counts for nothing. Without them
/// FFmpeg is called by its bare name to show its version, then the directory is
/// made, then FFmpeg is downloaded where that can be done, and after a download
/// the same two files are looked at as in the beginning.
pub proof fn law_search_steps(os: TargetOs, state: SetupState, event: SetupEvent)
    requires
        setup_expects(state, event),
    ensures
        ({
            let action = setup_next(os, state, event).action;
            let first = setup_first(os).action;
            &&& first == SetupActionView::LookLocally(local_tools(os))
            &&& match event {
                SetupEvent::LocalTools { ffmpeg, ffprobe } => if ffmpeg && ffprobe {
                    action matches SetupActionView::UseTools(tools) && first
                        == SetupActionView::LookLocally(tools)
                } else if state == SetupState::LookingLocally {
                    action matches SetupActionView::ProbeSystem(call) && call.program == "ffmpeg"@
                        && call.args == seq!["-version"@]
                } else {
                    action is GiveUp
                },
                SetupEvent::SystemTools(there) => if there {
                    action matches SetupActionView::UseTools(tools) && tools.ffmpeg == "ffmpeg"@
                        && tools.ffprobe == "ffprobe"@
                } else {
                    action is MakeDirectory
                },
                SetupEvent::Directory(made) => if made is Ok && os != TargetOs::Other {
                    action is Download
                } else {
                    action is GiveUp
                },
                SetupEvent::Download(run) => if run == Ok::<bool, String>(true) {
                    action == first
                } else {
                    action is GiveUp
                },
            }
        }),
{
}

/// The next state waits for what comes of the action, and a second look at the
/// local copies is the last one.
pub proof fn law_every_search_action_is_answered(
    os: TargetOs,
    state: SetupState,
    event: SetupEvent,
    reply: SetupEvent,
)
    requires
        setup_expects(state, event),
    ensures
        ({
            let step = setup_next(os, state, event);
            &&& setup_expects(step.state, reply) <==> match step.action {
                SetupActionView::LookLocally(_) => reply is LocalTools,
                SetupActionView::ProbeSystem(_) => reply is SystemTools,
                SetupActionView::MakeDirectory(_) => reply is Directory,
                SetupActionView::Download(_) => reply is Download,
                _ => false,
            }
            &&& step.state != SetupState::LookingLocally
        }),
        setup_first(os).state == SetupState::LookingLocally,
        setup_expects(setup_first(os).state, reply) <==> reply is LocalTools,
{
}

/// What the user is told. A search that is given up says why, with the reason of
/// the system at the end, and a download that failed is named after the system.
/// Notes are shown exactly before a download and behind one
/// that succeeded.
pub proof fn law_search_messages(os: TargetOs, state: SetupState, event: SetupEvent)
    requires
        setup_expects(state, event),
    ensures
        ({
            let step = setup_next(os, state, event);
            &&& setup_first(os).note == Seq::<char>::empty()
            &&& match event {
                SetupEvent::Directory(Ok(_)) => step.note
                    == "⏳ FFmpeg не обнаружен в системе. Начинаем автоматическую загрузку...\n"@,
                SetupEvent::Download(Ok(true)) => step.note
                    == "✅ FFmpeg успешно сохранен в локальную папку 'ffmpeg_bin'!\n"@,
                _ => step.note == Seq::<char>::empty(),
            }
            &&& step.action matches SetupActionView::GiveUp(message) ==> match event {
                SetupEvent::Directory(Err(e)) => message == "Не удалось создать директорию: "@ + e@,
                SetupEvent::Download(Err(e)) => message == (if os == TargetOs::Windows {
                    "Ошибка выполнения PowerShell: "@
                } else {
                    "Ошибка выполнения shell-скрипта: "@
                }) + e@,
                SetupEvent::Download(Ok(_)) => message == "Не удалось автоматически загрузить FFmpeg "@
                    + match os {
                    TargetOs::Windows => "через PowerShell."@,
                    TargetOs::MacOs => "на macOS."@,
                    _ => "на Linux."@,
                },
                SetupEvent::Directory(Ok(_)) => os == TargetOs::Other && message
                    == "Автоматическое скачивание не поддерживается для текущей ОС."@,
                _ => message == "Не удалось загрузить бинарные файлы FFmpeg."@,
            }
        }),
{
    reveal_strlit("");
    match event {
        SetupEvent::Download(Ok(false)) => {
            reveal_strlit("Не удалось автоматически загрузить FFmpeg через PowerShell.");
            reveal_strlit("Не удалось автоматически загрузить FFmpeg на macOS.");
            reveal_strlit("Не удалось автоматически загрузить FFmpeg на Linux.");
            reveal_strlit("Не удалось автоматически загрузить FFmpeg ");
            reveal_strlit("через PowerShell.");
            reveal_strlit("на macOS.");
            reveal_strlit("на Linux.");
            let front = "Не удалось автоматически загрузить FFmpeg "@;
            assert("Не удалось автоматически загрузить FFmpeg через PowerShell."@ =~= front
                + "через PowerShell."@);
            assert("Не удалось автоматически загрузить FFmpeg на macOS."@ =~= front + "на macOS."@);
            assert("Не удалось автоматически загрузить FFmpeg на Linux."@ =~= front + "на Linux."@);
        },
        _ => {},
    }
}

/// What every action of a search would come to.
pub struct Surroundings {
    pub local_ffmpeg: bool,
    pub local_ffprobe: bool,
    pub system: bool,
    pub directory: Result<(), String>,
    pub download: Result<bool, String>,
    pub ffmpeg_afterwards: bool,
    pub ffprobe_afterwards: bool,
}

/// What the action of a state comes to.
pub open spec fn answer(state: SetupState, s: Surroundings) -> SetupEvent {
    match state {
        SetupState::LookingLocally => SetupEvent::LocalTools {
            ffmpeg: s.local_ffmpeg,
            ffprobe: s.local_ffprobe,
        },
        SetupState::ProbingSystem => SetupEvent::SystemTools(s.system),
        SetupState::MakingDirectory => SetupEvent::Directory(s.directory),
        SetupState::Downloading => SetupEvent::Download(s.download),
        _ => SetupEvent::LocalTools {
            ffmpeg: s.ffmpeg_afterwards,
            ffprobe: s.ffprobe_afterwards,
        },
    }
}

/// The result of a search that goes on from a state.
pub open spec fn search_from(os: TargetOs, state: SetupState, s: Surroundings) -> Result<
    FfmpegPathsView,
    Seq<char>,
>
    decreases steps_left(state),
{
    let step = setup_next(os, state, answer(state, s));
    match step.action {
        SetupActionView::UseTools(tools) => Ok(tools),
        SetupActionView::GiveUp(message) => Err(message),
        _ => if steps_left(step.state) < steps_left(state) {
            search_from(os, step.state, s)
        } else {
            Err(Seq::empty())
        },
    }
}

/// The search as a whole: a full pair of local copies wins over the installed
/// programs, and only where neither is there FFmpeg is downloaded, after which
/// both local copies must be there.
pub proof fn law_search_order(os: TargetOs, s: Surroundings)
    ensures
        search_from(os, SetupState::LookingLocally, s) == if s.local_ffmpeg && s.local_ffprobe {
            Ok::<FfmpegPathsView, Seq<char>>(local_tools(os))
        } else if s.system {
            Ok(system_tools())
        } else {
            match s.directory {
                Err(e) => Err("Не удалось создать директорию: "@ + e@),
                Ok(_) => if os == TargetOs::Other {
                    Err("Автоматическое скачивание не поддерживается для текущей ОС."@)
                } else {
                    match s.download {
                        Err(e) => Err(download_not_run(os, e@)),
                        Ok(false) => Err(download_failed(os)),
                        Ok(true) => if s.ffmpeg_afterwards && s.ffprobe_afterwards {
                            Ok(local_tools(os))
                        } else {
                            Err("Не удалось загрузить бинарные файлы FFmpeg."@)
                        },
                    }
                },
            }
        },
{
    reveal_with_fuel(search_from, 5);
}

} // verus!
