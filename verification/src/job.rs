//! The work on one recording, from the first measurement to the saved text.

use vstd::prelude::*;

use crate::config::{AppConfig, AppConfigView, Single};
use crate::editor::{editing_note, editing_note_text};
use crate::format::AudioFormat;
use crate::media::{
    cleaning_call, cleaning_note, ffmpeg_command, format_duration, law_cleaning_call,
    law_filter_options, law_measuring_call, probe_call, probe_command, shown_duration,
    silence_filter, DurationParts, FfmpegPaths, FfmpegPathsView, WrittenNumbers,
};
use crate::paths::{path_file_name, path_with_extension, stem_part, with_extension};
use crate::speech::{
    groq_call, groq_command, law_speech_call, transcribing_note, transcribing_note_text,
};
use crate::text::fields;
use crate::tools::{join3, CommandLine, CommandLineView};
use crate::usage::{law_settings_line_by_line, settings, show_settings};

verus! {

/// What came of a measurement: the duration in seconds, or why it is not known,
/// and its parts for display.
#[derive(Debug)]
pub struct Measure {
    pub duration: Result<Single, String>,
    pub parts: DurationParts,
}

impl Measure {
    /// The duration is known and greater than zero.
    pub open spec fn positive(self) -> bool {
        match self.duration {
            Ok(d) => d.positive(),
            Err(_) => false,
        }
    }

    /// Tells whether the duration is known and greater than zero.
    pub fn is_positive(&self) -> (r: bool)
        ensures
            r == self.positive(),
    {
        match &self.duration {
            Ok(d) => d.is_positive(),
            Err(_) => false,
        }
    }
}

/// How far the work has come.
#[derive(Debug)]
pub enum Stage {
    MeasuringInput,
    Cleaning { measured: bool },
    MeasuringOutput { measured: bool },
    Transcribing,
    Editing { transcript: String },
    Saving { path: String },
    Ended,
}

/// What `Stage` holds.
pub enum StageView {
    MeasuringInput,
    Cleaning { measured: bool },
    MeasuringOutput { measured: bool },
    Transcribing,
    Editing { transcript: Seq<char> },
    Saving { path: Seq<char> },
    Ended,
}

impl View for Stage {
    type V = StageView;

    open spec fn view(&self) -> StageView {
        match self {
            Stage::MeasuringInput => StageView::MeasuringInput,
            Stage::Cleaning { measured } => StageView::Cleaning { measured: *measured },
            Stage::MeasuringOutput { measured } => StageView::MeasuringOutput {
                measured: *measured,
            },
            Stage::Transcribing => StageView::Transcribing,
            Stage::Editing { transcript } => StageView::Editing { transcript: transcript@ },
            Stage::Saving { path } => StageView::Saving { path: path@ },
            Stage::Ended => StageView::Ended,
        }
    }
}

/// What came of the last action.
#[derive(Debug)]
pub enum JobEvent {
    /// The source was measured.
    InputMeasured(Measure),
    /// The cleaning succeeded or failed; it took `elapsed` seconds, written with
    /// two decimals.
    Cleaned { result: Result<(), String>, elapsed: String },
    /// The cleaned file was measured; `saved` was cut off, which is the share
    /// `percent`, written with one decimal.
    OutputMeasured { length: Measure, saved: DurationParts, percent: String },
    /// The transcript, or why there is none.
    Transcribed(Result<String, String>),
    /// The edited transcript, or why there is none.
    Edited(Result<String, String>),
    /// Whether the transcript could be written.
    Saved(bool),
}

/// What is to be done next.
#[derive(Debug)]
pub enum JobAction {
    /// Measure the source with a program.
    MeasureInput(CommandLine),
    /// Measure the cleaned file with a program.
    MeasureOutput(CommandLine),
    /// Clean the recording with a program.
    Clean(CommandLine),
    /// Send the recording to the speech service.
    Transcribe(CommandLine),
    /// Have a text edited by the text service.
    Edit { text: String, api_key: String },
    /// Write a text to a file.
    Save { path: String, text: String },
    /// The work ended.
    Finish { wait: bool, exit_code: i32 },
}

/// What `JobAction` holds.
pub enum JobActionView {
    MeasureInput(CommandLineView),
    MeasureOutput(CommandLineView),
    Clean(CommandLineView),
    Transcribe(CommandLineView),
    Edit { text: Seq<char>, api_key: Seq<char> },
    Save { path: Seq<char>, text: Seq<char> },
    Finish { wait: bool, exit_code: i32 },
}

impl View for JobAction {
    type V = JobActionView;

    open spec fn view(&self) -> JobActionView {
        match self {
            JobAction::MeasureInput(c) => JobActionView::MeasureInput(c@),
            JobAction::MeasureOutput(c) => JobActionView::MeasureOutput(c@),
            JobAction::Clean(c) => JobActionView::Clean(c@),
            JobAction::Transcribe(c) => JobActionView::Transcribe(c@),
            JobAction::Edit { text, api_key } => JobActionView::Edit {
                text: text@,
                api_key: api_key@,
            },
            JobAction::Save { path, text } => JobActionView::Save { path: path@, text: text@ },
            JobAction::Finish { wait, exit_code } => JobActionView::Finish {
                wait: *wait,
                exit_code: *exit_code,
            },
        }
    }
}

/// What is shown, on the standard output and then on the standard error, and
/// what is to be done then.
#[derive(Debug)]
pub struct JobReply {
    pub out: String,
    pub err: String,
    pub action: JobAction,
}

/// What `JobReply` holds.
pub struct JobReplyView {
    pub out: Seq<char>,
    pub err: Seq<char>,
    pub action: JobActionView,
}

impl View for JobReply {
    type V = JobReplyView;

    open spec fn view(&self) -> JobReplyView {
        JobReplyView { out: self.out@, err: self.err@, action: self.action@ }
    }
}

/// The work on one recording.
#[derive(Debug)]
pub struct Job {
    pub config: AppConfig,
    pub tools: FfmpegPaths,
    pub numbers: WrittenNumbers,
    /// The settings come from the dialogue.
    pub interactive: bool,
    pub stage: Stage,
}

/// What stays the same while the work goes on; the stage, which does not, is
/// spoken of beside it.
pub struct Task {
    pub config: AppConfigView,
    pub tools: FfmpegPathsView,
    pub threshold: Seq<char>,
    pub pause: Seq<char>,
    pub interactive: bool,
}

impl Job {
    /// What stays the same while the work goes on.
    pub open spec fn task(self) -> Task {
        Task {
            config: self.config@,
            tools: self.tools@,
            threshold: self.numbers.threshold@,
            pause: self.numbers.pause@,
            interactive: self.interactive,
        }
    }
}

pub const RULE: &'static str = "--------------------------------------------------\n";

pub const TRANSCRIPT_HINT: &'static str = "\n💡 Подсказка: убедитесь, что указали ключ через --groq-key или переменную окружения GROQ_API_KEY\n";

/// The event answers the action that the stage waits for.
pub open spec fn job_expects(stage: StageView, event: JobEvent) -> bool {
    match stage {
        StageView::MeasuringInput => event is InputMeasured,
        StageView::Cleaning { .. } => event is Cleaned,
        StageView::MeasuringOutput { .. } => event is OutputMeasured,
        StageView::Transcribing => event is Transcribed,
        StageView::Editing { .. } => event is Edited,
        StageView::Saving { .. } => event is Saved,
        StageView::Ended => false,
    }
}

/// The start of the work.
pub open spec fn job_first(t: Task) -> JobReplyView {
    JobReplyView {
        out: settings(t.config, t.threshold, t.pause),
        err: ""@,
        action: JobActionView::MeasureInput(probe_call(t.tools.ffprobe, t.config.input_path)),
    }
}

/// The end of the work.
pub open spec fn finish(t: Task, out: Seq<char>, err: Seq<char>, exit_code: i32) -> (
    StageView,
    JobReplyView,
) {
    (
        StageView::Ended,
        JobReplyView {
            out,
            err,
            action: JobActionView::Finish { wait: t.interactive, exit_code },
        },
    )
}

/// The end of the work without a transcript.
pub open spec fn no_transcript(t: Task, out: Seq<char>, reason: Seq<char>) -> (
    StageView,
    JobReplyView,
) {
    finish(t, out, "❌ Ошибка ИИ расшифровки: "@ + reason + TRANSCRIPT_HINT@, 0)
}

/// What follows the cleaning and its summary.
pub open spec fn then_transcribe(t: Task, out: Seq<char>) -> (StageView, JobReplyView) {
    if !t.config.ai_transcribe {
        finish(t, out, ""@, 0)
    } else {
        match t.config.keys.groq {
            Some(key) => (
                StageView::Transcribing,
                JobReplyView {
                    out: out + "\n"@ + RULE@ + transcribing_note(),
                    err: ""@,
                    action: JobActionView::Transcribe(groq_call(t.config.output_path, key)),
                },
            ),
            None => no_transcript(t, out + "\n"@ + RULE@, "Не указан API ключ (Groq)"@),
        }
    }
}

/// Where the transcript is saved: beside the cleaned recording.
pub open spec fn transcript_path(t: Task) -> Seq<char> {
    path_with_extension(t.config.output_path, "txt"@)
}

/// A text that is saved goes to a file with the stem of the cleaned recording
/// and the extension `txt`; nothing is said of a stem that is a single dot.
pub open spec fn saves_beside(t: Task, reply: JobReplyView) -> bool {
    reply.action matches JobActionView::Save { path, .. } ==> match path_file_name(
        t.config.output_path,
    ) {
        Some(name) => stem_part(name) != "."@ ==> path_file_name(path) == Some(
            stem_part(name) + "."@ + "txt"@,
        ),
        None => path == t.config.output_path,
    }
}

/// The transcript is saved next.
pub open spec fn then_save(t: Task, out: Seq<char>, err: Seq<char>, text: Seq<char>) -> (
    StageView,
    JobReplyView,
) {
    (
        StageView::Saving { path: transcript_path(t) },
        JobReplyView {
            out,
            err,
            action: JobActionView::Save { path: transcript_path(t), text },
        },
    )
}

/// The note on the duration of the source.
pub open spec fn input_note(m: Measure) -> Seq<char> {
    if m.positive() {
        "⏱ Исходная длительность: "@ + shown_duration(m.parts) + "\n"@
    } else {
        ""@
    }
}

/// The summary of the cleaning, where both durations are known.
pub open spec fn summary(
    measured: bool,
    length: Measure,
    saved: DurationParts,
    percent: Seq<char>,
) -> Seq<char> {
    if measured && length.positive() {
        RULE@ + "📊 Итоги очистки:\n ├ Итоговая длительность: "@ + shown_duration(length.parts)
            + "\n └ Вырезано тишины:        "@ + shown_duration(saved) + " ("@ + percent
            + "%)\n"@
    } else {
        ""@
    }
}

/// What follows an event.
pub open spec fn job_next(t: Task, stage: StageView, event: JobEvent) -> (
    StageView,
    JobReplyView,
) {
    match (stage, event) {
        (StageView::MeasuringInput, JobEvent::InputMeasured(m)) => (
            StageView::Cleaning { measured: m.positive() },
            JobReplyView {
                out: input_note(m) + cleaning_note(t.config.input_path),
                err: ""@,
                action: JobActionView::Clean(
                    cleaning_call(
                        t.tools.ffmpeg,
                        t.config,
                        silence_filter(t.threshold, t.pause),
                    ),
                ),
            },
        ),
        (StageView::Cleaning { measured }, JobEvent::Cleaned { result, elapsed }) => match result {
            Ok(_) => (
                StageView::MeasuringOutput { measured },
                JobReplyView {
                    out: "\n✅ Аудио очищено за "@ + elapsed@ + " сек!\n"@,
                    err: ""@,
                    action: JobActionView::MeasureOutput(
                        probe_call(t.tools.ffprobe, t.config.output_path),
                    ),
                },
            ),
            Err(e) => finish(t, ""@, "\n❌ Ошибка обработки:\n"@ + e@ + "\n"@, 1),
        },
        (
            StageView::MeasuringOutput { measured },
            JobEvent::OutputMeasured { length, saved, percent },
        ) => then_transcribe(t, summary(measured, length, saved, percent@)),
        (StageView::Transcribing, JobEvent::Transcribed(result)) => match result {
            Ok(text) => match t.config.keys.deepseek {
                Some(key) => (
                    StageView::Editing { transcript: text@ },
                    JobReplyView {
                        out: "✅ Распознавание завершено!\n"@ + editing_note(),
                        err: ""@,
                        action: JobActionView::Edit { text: text@, api_key: key },
                    },
                ),
                None => then_save(t, "✅ Распознавание завершено!\n"@, ""@, text@),
            },
            Err(e) => no_transcript(t, ""@, e@),
        },
        (StageView::Editing { transcript }, JobEvent::Edited(result)) => match result {
            Ok(text) => then_save(t, ""@, ""@, text@),
            Err(e) => then_save(
                t,
                ""@,
                "⚠️ DeepSeek редактор пропущен: "@ + e@ + "\n"@,
                transcript,
            ),
        },
        (StageView::Saving { path }, JobEvent::Saved(done)) => finish(
            t,
            if done {
                "📄 Текст сохранен в: "@ + path + "\n"@
            } else {
                ""@
            },
            ""@,
            0,
        ),
        _ => arbitrary(),
    }
}

fn reply(out: String, err: String, action: JobAction) -> (r: JobReply)
    ensures
        r@ == (JobReplyView { out: out@, err: err@, action: action@ }),
{
    JobReply { out, err, action }
}

impl Job {
    /// Starts the work and says what to do first.
    pub fn start(
        config: AppConfig,
        tools: FfmpegPaths,
        numbers: WrittenNumbers,
        interactive: bool,
    ) -> (r: (Job, JobReply))
        ensures
            r.0.config == config,
            r.0.tools == tools,
            r.0.numbers == numbers,
            r.0.interactive == interactive,
            r.0.stage@ == StageView::MeasuringInput,
            r.1@ == job_first(r.0.task()),
            r.1.action matches JobAction::MeasureInput(call) && call.program@ == tools.ffprobe@,
    {
        let out = show_settings(&config, &numbers);
        let call = probe_command(tools.ffprobe.as_str(), config.input_path.as_str());
        let first = reply(out, "".to_owned(), JobAction::MeasureInput(call));
        let job = Job { config, tools, numbers, interactive, stage: Stage::MeasuringInput };
        (job, first)
    }

    /// Tells whether an event answers the action that the work waits for.
    pub fn accepts(&self, event: &JobEvent) -> (r: bool)
        ensures
            r == job_expects(self.stage@, *event),
    {
        match (&self.stage, event) {
            (Stage::MeasuringInput, JobEvent::InputMeasured(_)) => true,
            (Stage::Cleaning { .. }, JobEvent::Cleaned { .. }) => true,
            (Stage::MeasuringOutput { .. }, JobEvent::OutputMeasured { .. }) => true,
            (Stage::Transcribing, JobEvent::Transcribed(_)) => true,
            (Stage::Editing { .. }, JobEvent::Edited(_)) => true,
            (Stage::Saving { .. }, JobEvent::Saved(_)) => true,
            _ => false,
        }
    }

    fn end(&mut self, out: String, err: String, exit_code: i32) -> (r: JobReply)
        ensures
            final(self).task() == old(self).task(),
            (final(self).stage@, r@) == finish(old(self).task(), out@, err@, exit_code),
    {
        self.stage = Stage::Ended;
        reply(out, err, JobAction::Finish { wait: self.interactive, exit_code })
    }

    fn end_without_transcript(&mut self, out: String, reason: &str) -> (r: JobReply)
        ensures
            final(self).task() == old(self).task(),
            (final(self).stage@, r@) == no_transcript(old(self).task(), out@, reason@),
    {
        let err = join3("❌ Ошибка ИИ расшифровки: ", reason, TRANSCRIPT_HINT);
        self.end(out, err, 0)
    }

    fn transcribe(&mut self, out: String) -> (r: JobReply)
        ensures
            final(self).task() == old(self).task(),
            (final(self).stage@, r@) == then_transcribe(old(self).task(), out@),
    {
        if !self.config.ai_transcribe {
            return self.end(out, "".to_owned(), 0);
        }
        let mut shown = out;
        shown.append("\n");
        shown.append(RULE);
        let call = match &self.config.keys.groq {
            Some(key) => Some(groq_command(self.config.output_path.as_str(), key.as_str())),
            None => None,
        };
        match call {
            Some(call) => {
                shown.append(transcribing_note_text().as_str());
                self.stage = Stage::Transcribing;
                reply(shown, "".to_owned(), JobAction::Transcribe(call))
            },
            None => self.end_without_transcript(shown, "Не указан API ключ (Groq)"),
        }
    }

    fn save(&mut self, out: String, err: String, text: String) -> (r: JobReply)
        ensures
            final(self).task() == old(self).task(),
            (final(self).stage@, r@) == then_save(old(self).task(), out@, err@, text@),
            saves_beside(old(self).task(), r@),
    {
        proof {
            reveal_strlit("txt");
        }
        let path = with_extension(self.config.output_path.as_str(), "txt");
        self.stage = Stage::Saving { path: path.clone() };
        reply(out, err, JobAction::Save { path, text })
    }

    /// Goes on with the work.
    pub fn step(&mut self, event: JobEvent) -> (r: JobReply)
        requires
            job_expects(old(self).stage@, event),
        ensures
            final(self).task() == old(self).task(),
            (final(self).stage@, r@) == job_next(old(self).task(), old(self).stage@, event),
            saves_beside(old(self).task(), r@),
            r.action matches JobAction::Clean(call) ==> call.program@ == old(self).tools.ffmpeg@,
            r.action matches JobAction::MeasureOutput(call) ==> call.program@
                == old(self).tools.ffprobe@,
    {
        match event {
            JobEvent::InputMeasured(m) => {
                let mut out = if m.is_positive() {
                    join3("⏱ Исходная длительность: ", format_duration(&m.parts).as_str(), "\n")
                } else {
                    "".to_owned()
                };
                out.append(
                    join3("▶ Обработка файла: ", self.config.input_path.as_str(), "\n").as_str(),
                );
                let call = ffmpeg_command(self.tools.ffmpeg.as_str(), &self.config, &self.numbers);
                self.stage = Stage::Cleaning { measured: m.is_positive() };
                reply(out, "".to_owned(), JobAction::Clean(call))
            },
            JobEvent::Cleaned { result, elapsed } => match result {
                Ok(_) => {
                    let measured = match &self.stage {
                        Stage::Cleaning { measured } => *measured,
                        _ => false,
                    };
                    self.stage = Stage::MeasuringOutput { measured };
                    let out = join3("\n✅ Аудио очищено за ", elapsed.as_str(), " сек!\n");
                    let call = probe_command(
                        self.tools.ffprobe.as_str(),
                        self.config.output_path.as_str(),
                    );
                    reply(out, "".to_owned(), JobAction::MeasureOutput(call))
                },
                Err(e) => {
                    let err = join3("\n❌ Ошибка обработки:\n", e.as_str(), "\n");
                    self.end("".to_owned(), err, 1)
                },
            },
            JobEvent::OutputMeasured { length, saved, percent } => {
                let measured = match &self.stage {
                    Stage::MeasuringOutput { measured } => *measured,
                    _ => false,
                };
                let mut out = "".to_owned();
                if measured && length.is_positive() {
                    out = RULE.to_owned();
                    out.append("📊 Итоги очистки:\n ├ Итоговая длительность: ");
                    out.append(format_duration(&length.parts).as_str());
                    out.append("\n └ Вырезано тишины:        ");
                    out.append(format_duration(&saved).as_str());
                    out.append(" (");
                    out.append(percent.as_str());
                    out.append("%)\n");
                }
                self.transcribe(out)
            },
            JobEvent::Transcribed(result) => match result {
                Ok(text) => {
                    let mut out = "✅ Распознавание завершено!\n".to_owned();
                    let key = match &self.config.keys.deepseek {
                        Some(key) => Some(key.clone()),
                        None => None,
                    };
                    match key {
                        Some(api_key) => {
                            out.append(editing_note_text().as_str());
                            self.stage = Stage::Editing { transcript: text.clone() };
                            reply(out, "".to_owned(), JobAction::Edit { text, api_key })
                        },
                        None => self.save(out, "".to_owned(), text),
                    }
                },
                Err(e) => self.end_without_transcript("".to_owned(), e.as_str()),
            },
            JobEvent::Edited(result) => match result {
                Ok(text) => self.save("".to_owned(), "".to_owned(), text),
                Err(e) => {
                    let transcript = match &self.stage {
                        Stage::Editing { transcript } => transcript.clone(),
                        _ => String::new(),
                    };
                    let err = join3("⚠️ DeepSeek редактор пропущен: ", e.as_str(), "\n");
                    self.save("".to_owned(), err, transcript)
                },
            },
            JobEvent::Saved(done) => {
                let out = match &self.stage {
                    Stage::Saving { path } => if done {
                        join3("📄 Текст сохранен в: ", path.as_str(), "\n")
                    } else {
                        "".to_owned()
                    },
                    _ => String::new(),
                };
                self.end(out, "".to_owned(), 0)
            },
        }
    }
}

// ---------------------------------------------------------------------------
// Laws
// ---------------------------------------------------------------------------

/// How many steps the work can still take at most.
pub open spec fn stages_left(stage: StageView) -> nat {
    match stage {
        StageView::MeasuringInput => 6,
        StageView::Cleaning { .. } => 5,
        StageView::MeasuringOutput { .. } => 4,
        StageView::Transcribing => 3,
        StageView::Editing { .. } => 2,
        StageView::Saving { .. } => 1,
        StageView::Ended => 0,
    }
}

/// Every step brings the work closer to its end, which is reached exactly with
/// the action that finishes it.
pub proof fn law_work_ends(t: Task, stage: StageView, event: JobEvent)
    requires
        job_expects(stage, event),
    ensures
        stages_left(job_next(t, stage, event).0) < stages_left(stage),
        job_next(t, stage, event).0 == StageView::Ended <==> job_next(t, stage, event).1.action is
            Finish,
{
}

/// The tool fails exactly when the cleaning failed, and it waits for the user
/// at its end exactly when it was started without arguments.
pub proof fn law_exit_code(t: Task, stage: StageView, event: JobEvent)
    requires
        job_expects(stage, event),
    ensures
        job_next(t, stage, event).1.action matches JobActionView::Finish { wait, exit_code } ==> {
            &&& wait == t.interactive
            &&& exit_code == 0 || exit_code == 1
            &&& exit_code == 1 <==> (event matches JobEvent::Cleaned { result, .. } && result is Err)
        },
{
}

/// The recording is sent to the speech service only if a transcript is wanted
/// and a key is known; it is the cleaned recording, sent with that key.
pub proof fn law_speech_needs_consent(t: Task, stage: StageView, event: JobEvent)
    requires
        job_expects(stage, event),
    ensures
        job_next(t, stage, event).1.action matches JobActionView::Transcribe(call) ==> {
            &&& t.config.ai_transcribe
            &&& t.config.keys.groq matches Some(key) && call == groq_call(
                t.config.output_path,
                key,
            )
        },
{
}

/// A transcript is never lost to a failed editing: it is saved as it was.
pub proof fn law_failed_editing_keeps_transcript(t: Task, transcript: Seq<char>, error: String)
    ensures
        job_next(
            t,
            StageView::Editing { transcript },
            JobEvent::Edited(Err(error)),
        ).1.action == (JobActionView::Save { path: transcript_path(t), text: transcript }),
{
}

/// A duration counts as known and greater than zero exactly when the measurement
/// gave a number greater than zero.
pub proof fn law_positive_measure(m: Measure)
    ensures
        m.positive() <==> (m.duration matches Ok(d) && d.positive()),
{
}

/// What a job holds is what its work is about.
pub proof fn law_task_of_a_job(j: Job)
    ensures
        j.task().config == j.config@,
        j.task().tools.ffmpeg == j.tools.ffmpeg@,
        j.task().tools.ffprobe == j.tools.ffprobe@,
        j.task().threshold == j.numbers.threshold@,
        j.task().pause == j.numbers.pause@,
        j.task().interactive == j.interactive,
{
}

/// The work starts with the settings on the screen: the recording, the output
/// file, the threshold and the shortest pause, each on its line. Paths and
/// numbers hold no line break.
pub proof fn law_work_starts_with_the_settings(t: Task)
    requires
        !t.config.input_path.contains('\n'),
        !t.config.output_path.contains('\n'),
        !t.threshold.contains('\n'),
        !t.pause.contains('\n'),
    ensures
        ({
            let lines = fields(job_first(t).out, '\n');
            &&& lines[2] == " ├ Вход:         "@ + t.config.input_path
            &&& lines[3] == " ├ Выход:        "@ + t.config.output_path
            &&& lines[5] == " ├ Порог:        "@ + t.threshold + " dB"@
            &&& lines[6] == " ├ Мин. пауза:   "@ + t.pause + " сек"@
            &&& job_first(t).err.len() == 0
        }),
{
    reveal_strlit("");
    law_settings_line_by_line(t.config, t.threshold, t.pause);
}

/// Every program does its own work: FFmpeg cleans, reading the recording and
/// writing the output file; ffprobe measures, the source at the start and the
/// output file after the cleaning.
pub proof fn law_every_program_its_work(t: Task, stage: StageView, event: JobEvent)
    requires
        job_expects(stage, event),
    ensures
        job_next(t, stage, event).1.action matches JobActionView::Clean(call) ==> {
            &&& call.program == t.tools.ffmpeg
            &&& call.args[1] == "-i"@
            &&& call.args[2] == t.config.input_path
            &&& call.args.last() == t.config.output_path
        },
        job_next(t, stage, event).1.action matches JobActionView::MeasureOutput(call) ==> {
            &&& call.program == t.tools.ffprobe
            &&& call.args.last() == t.config.output_path
        },
        job_next(t, stage, event).1.action !is MeasureInput,
        job_first(t).action matches JobActionView::MeasureInput(call) && {
            &&& call.program == t.tools.ffprobe
            &&& call.args.last() == t.config.input_path
        },
{
    law_cleaning_call(t.tools.ffmpeg, t.config, silence_filter(t.threshold, t.pause));
    law_measuring_call(t.tools.ffprobe, t.config.input_path);
    law_measuring_call(t.tools.ffprobe, t.config.output_path);
}

/// The settings reach the cleaning: it cuts at the threshold of the settings, on
/// both ends of a pause, cuts pauses as long as they say, and writes the format
/// that they name. Written numbers hold no colon.
pub proof fn law_settings_reach_the_cleaning(t: Task, stage: StageView, event: JobEvent)
    requires
        job_expects(stage, event),
        !t.threshold.contains(':'),
        !t.pause.contains(':'),
    ensures
        job_next(t, stage, event).1.action matches JobActionView::Clean(call) ==> {
            let options = fields(call.args[4], ':');
            &&& call.args[3] == "-af"@
            &&& options.contains("start_threshold="@ + t.threshold + "dB"@)
            &&& options.contains("stop_threshold="@ + t.threshold + "dB"@)
            &&& options.contains("stop_duration="@ + t.pause)
            &&& call.args[5] == "-c:a"@
            &&& call.args[6] == "libmp3lame"@ <==> t.config.output_format == AudioFormat::Mp3
            &&& call.args[6] == "pcm_s16le"@ <==> t.config.output_format == AudioFormat::Wav
        },
{
    law_cleaning_call(t.tools.ffmpeg, t.config, silence_filter(t.threshold, t.pause));
    law_filter_options(t.threshold, t.pause);
    let options = fields(silence_filter(t.threshold, t.pause), ':');
    assert(options[2] == "start_threshold="@ + t.threshold + "dB"@);
    assert(options[5] == "stop_duration="@ + t.pause);
    assert(options[6] == "stop_threshold="@ + t.threshold + "dB"@);
}

/// The services get what is theirs: the speech service the cleaned recording and
/// its key, the text service the transcript and its own key; each of them only
/// where the settings hold that key.
pub proof fn law_services_get_what_is_theirs(t: Task, stage: StageView, event: JobEvent)
    requires
        job_expects(stage, event),
    ensures
        job_next(t, stage, event).1.action matches JobActionView::Transcribe(call) ==> {
            &&& event is OutputMeasured
            &&& t.config.keys.groq matches Some(key) && call.args[5] == "Authorization: Bearer "@
                + key
            &&& call.args[7] == "file=@"@ + t.config.output_path
        },
        job_next(t, stage, event).1.action matches JobActionView::Edit { text, api_key } ==> {
            &&& event matches JobEvent::Transcribed(Ok(heard)) && text == heard@
            &&& t.config.keys.deepseek == Some(api_key)
        },
{
    if let Some(key) = t.config.keys.groq {
        law_speech_call(t.config.output_path, key);
    }
}

/// A text is saved beside the output file under the extension `txt`: the edited
/// text, the transcript where there is no key for editing, or the transcript as
/// it was where the editing failed.
pub proof fn law_what_is_saved(t: Task, stage: StageView, event: JobEvent)
    requires
        job_expects(stage, event),
    ensures
        job_next(t, stage, event).1.action matches JobActionView::Save { path, text } ==> {
            &&& path == path_with_extension(t.config.output_path, "txt"@)
            &&& match event {
                JobEvent::Transcribed(Ok(heard)) => text == heard@ && t.config.keys.deepseek
                    is None,
                JobEvent::Edited(Ok(better)) => text == better@,
                JobEvent::Edited(Err(_)) => stage matches StageView::Editing { transcript }
                    && text == transcript,
                _ => false,
            }
        },
{
}

/// The order of the work. The cleaning follows the first measurement, known or
/// not; a cleaning that succeeded is measured; then comes the transcript where
/// it is wanted and can be had, the editing where there is a key for it, and the
/// saving. Whatever goes wrong behind the cleaning, the work ends well.
pub proof fn law_order_of_work(t: Task, stage: StageView, event: JobEvent)
    requires
        job_expects(stage, event),
    ensures
        ({
            let action = job_next(t, stage, event).1.action;
            match event {
                JobEvent::InputMeasured(_) => action is Clean,
                JobEvent::Cleaned { result, .. } => if result is Ok {
                    action is MeasureOutput
                } else {
                    action == (JobActionView::Finish { wait: t.interactive, exit_code: 1 })
                },
                JobEvent::OutputMeasured { .. } => if t.config.ai_transcribe
                    && t.config.keys.groq is Some {
                    action is Transcribe
                } else {
                    action == (JobActionView::Finish { wait: t.interactive, exit_code: 0 })
                },
                JobEvent::Transcribed(Ok(_)) => if t.config.keys.deepseek is Some {
                    action is Edit
                } else {
                    action is Save
                },
                JobEvent::Transcribed(Err(_)) => action == (JobActionView::Finish {
                    wait: t.interactive,
                    exit_code: 0,
                }),
                JobEvent::Edited(_) => action is Save,
                JobEvent::Saved(_) => action == (JobActionView::Finish {
                    wait: t.interactive,
                    exit_code: 0,
                }),
            }
        }),
{
}

/// The next state waits for what comes of the action: an action of one kind is
/// answered by the event of that kind.
pub proof fn law_every_action_is_answered(
    t: Task,
    stage: StageView,
    event: JobEvent,
    reply: JobEvent,
)
    requires
        job_expects(stage, event),
    ensures
        ({
            let (next, shown) = job_next(t, stage, event);
            job_expects(next, reply) <==> match shown.action {
                JobActionView::MeasureInput(_) => reply is InputMeasured,
                JobActionView::Clean(_) => reply is Cleaned,
                JobActionView::MeasureOutput(_) => reply is OutputMeasured,
                JobActionView::Transcribe(_) => reply is Transcribed,
                JobActionView::Edit { .. } => reply is Edited,
                JobActionView::Save { .. } => reply is Saved,
                JobActionView::Finish { .. } => false,
            }
        }),
        job_expects(StageView::MeasuringInput, reply) <==> reply is InputMeasured,
{
}

/// What the user sees of the cleaning: the name of the source, its duration
/// before that exactly where it is known, the time that the cleaning took, and
/// the error where it failed, which goes to the standard error.
pub proof fn law_cleaning_is_shown(t: Task, m: Measure, measured: bool, result: Result<
    (),
    String,
>, elapsed: String)
    ensures
        ({
            let before = job_next(t, StageView::MeasuringInput, JobEvent::InputMeasured(m)).1;
            let after = job_next(
                t,
                StageView::Cleaning { measured },
                JobEvent::Cleaned { result, elapsed },
            ).1;
            &&& before.err == Seq::<char>::empty()
            &&& before.out == (if m.positive() {
                "⏱ Исходная длительность: "@ + shown_duration(m.parts) + "\n"@
            } else {
                Seq::empty()
            }) + ("▶ Обработка файла: "@ + t.config.input_path + "\n"@)
            &&& match result {
                Ok(_) => after.out == "\n✅ Аудио очищено за "@ + elapsed@ + " сек!\n"@ && after.err
                    == Seq::<char>::empty(),
                Err(e) => after.err == "\n❌ Ошибка обработки:\n"@ + e@ + "\n"@ && after.out
                    == Seq::<char>::empty(),
            }
        }),
{
    reveal_strlit("");
}

/// What the cleaning saved is shown exactly where both durations are known and
/// greater than zero: the new duration, what was cut off and its share. Where a
/// transcript is wanted a rule follows, and without a key the user is told so.
pub proof fn law_summary_needs_both_durations(
    t: Task,
    m: Measure,
    elapsed: String,
    length: Measure,
    saved: DurationParts,
    percent: String,
)
    ensures
        ({
            let one = job_next(t, StageView::MeasuringInput, JobEvent::InputMeasured(m)).0;
            let two = job_next(t, one, JobEvent::Cleaned { result: Ok(()), elapsed }).0;
            let shown = job_next(
                t,
                two,
                JobEvent::OutputMeasured { length, saved, percent },
            ).1;
            let report = "--------------------------------------------------\n"@
                + "📊 Итоги очистки:\n ├ Итоговая длительность: "@ + shown_duration(length.parts)
                + "\n └ Вырезано тишины:        "@ + shown_duration(saved) + " ("@ + percent@
                + "%)\n"@;
            let known = if m.positive() && length.positive() {
                report
            } else {
                Seq::empty()
            };
            let rule = "\n--------------------------------------------------\n"@;
            if !t.config.ai_transcribe {
                shown.out == known && shown.err == Seq::<char>::empty()
            } else if t.config.keys.groq is Some {
                shown.out == known + rule
                    + "⚡ Выполняем сверхбыстрое распознавание речи через Groq Whisper API...\n"@
                    && shown.err == Seq::<char>::empty()
            } else {
                shown.out == known + rule && shown.err == "❌ Ошибка ИИ расшифровки: "@
                    + "Не указан API ключ (Groq)"@
                    + "\n💡 Подсказка: убедитесь, что указали ключ через --groq-key или переменную окружения GROQ_API_KEY\n"@
            }
        }),
{
    reveal_strlit("");
    reveal_strlit("\n");
    reveal_strlit("--------------------------------------------------\n");
    reveal_strlit("\n--------------------------------------------------\n");
    let rule = "\n--------------------------------------------------\n"@;
    assert("\n"@ + RULE@ =~= rule);
    let known = summary(m.positive(), length, saved, percent@);
    assert(known + "\n"@ + RULE@ =~= known + rule);
}

/// What the user sees of the transcript: why there is none, that the editing
/// was left out and why, and where the text lies, exactly where it was written.
pub proof fn law_transcript_is_shown(
    t: Task,
    stage: StageView,
    event: JobEvent,
)
    requires
        job_expects(stage, event),
    ensures
        ({
            let shown = job_next(t, stage, event).1;
            match event {
                JobEvent::Transcribed(Err(e)) => shown.err == "❌ Ошибка ИИ расшифровки: "@ + e@
                    + "\n💡 Подсказка: убедитесь, что указали ключ через --groq-key или переменную окружения GROQ_API_KEY\n"@
                    && shown.out == Seq::<char>::empty(),
                JobEvent::Transcribed(Ok(_)) => shown.err == Seq::<char>::empty() && shown.out
                    == "✅ Распознавание завершено!\n"@ + if t.config.keys.deepseek is Some {
                    "🧠 Редактируем и расставляем знаки препинания через DeepSeek API...\n"@
                } else {
                    Seq::empty()
                },
                JobEvent::Edited(Err(e)) => shown.err == "⚠️ DeepSeek редактор пропущен: "@ + e@
                    + "\n"@ && shown.out == Seq::<char>::empty(),
                JobEvent::Edited(Ok(_)) => shown.err == Seq::<char>::empty() && shown.out == Seq::<
                    char,
                >::empty(),
                JobEvent::Saved(done) => stage matches StageView::Saving { path } && {
                    &&& shown.err == Seq::<char>::empty()
                    &&& done ==> shown.out == "📄 Текст сохранен в: "@ + path + "\n"@
                    &&& !done ==> shown.out == Seq::<char>::empty()
                },
                _ => true,
            }
        }),
        job_next(t, stage, event).0 matches StageView::Saving { path } ==> job_next(
            t,
            stage,
            event,
        ).1.action matches JobActionView::Save { path: written, .. } && path == written,
{
    reveal_strlit("");
    let shown = job_next(t, stage, event).1;
    match event {
        JobEvent::Transcribed(Ok(text)) => {
            let alone = "✅ Распознавание завершено!\n"@;
            assert(alone + Seq::empty() =~= alone);
        },
        _ => {},
    }
}

/// What every action of the work would come to.
pub struct Outcomes {
    pub input: Measure,
    pub cleaning: Result<(), String>,
    pub elapsed: String,
    pub output: Measure,
    pub saved: DurationParts,
    pub percent: String,
    pub speech: Result<String, String>,
    pub editing: Result<String, String>,
    pub written: bool,
}

/// What the action of a stage comes to.
pub open spec fn outcome(stage: StageView, o: Outcomes) -> JobEvent {
    match stage {
        StageView::MeasuringInput => JobEvent::InputMeasured(o.input),
        StageView::Cleaning { .. } => JobEvent::Cleaned {
            result: o.cleaning,
            elapsed: o.elapsed,
        },
        StageView::MeasuringOutput { .. } => JobEvent::OutputMeasured {
            length: o.output,
            saved: o.saved,
            percent: o.percent,
        },
        StageView::Transcribing => JobEvent::Transcribed(o.speech),
        StageView::Editing { .. } => JobEvent::Edited(o.editing),
        _ => JobEvent::Saved(o.written),
    }
}

/// The texts that work going on from a stage writes, with their paths, and its
/// exit code.
pub open spec fn work_from(t: Task, stage: StageView, o: Outcomes) -> (
    Seq<(Seq<char>, Seq<char>)>,
    int,
)
    decreases stages_left(stage),
{
    let (next, reply) = job_next(t, stage, outcome(stage, o));
    match reply.action {
        JobActionView::Finish { exit_code, .. } => (Seq::empty(), exit_code as int),
        action => if stages_left(next) < stages_left(stage) {
            let (rest, code) = work_from(t, next, o);
            match action {
                JobActionView::Save { path, text } => (seq![(path, text)] + rest, code),
                _ => (rest, code),
            }
        } else {
            (Seq::empty(), 0)
        },
    }
}

/// The work as a whole: it fails exactly when the cleaning failed, and it writes
/// one text, the edited transcript or else the transcript itself, exactly when
/// the cleaning succeeded, a transcript was wanted, a key was known and the
/// speech service answered.
pub proof fn law_work_result(t: Task, o: Outcomes)
    ensures
        work_from(t, StageView::MeasuringInput, o) == (
            if o.cleaning is Ok && t.config.ai_transcribe && t.config.keys.groq is Some
                && o.speech is Ok {
                let text = if t.config.keys.deepseek is Some && o.editing is Ok {
                    o.editing->Ok_0@
                } else {
                    o.speech->Ok_0@
                };
                seq![(transcript_path(t), text)]
            } else {
                Seq::empty()
            },
            if o.cleaning is Ok {
                0int
            } else {
                1int
            },
        ),
{
    reveal_with_fuel(work_from, 6);
    let all = work_from(t, StageView::MeasuringInput, o).0;
    if o.cleaning is Ok && t.config.ai_transcribe && t.config.keys.groq is Some && o.speech is Ok {
        let text = if t.config.keys.deepseek is Some && o.editing is Ok {
            o.editing->Ok_0@
        } else {
            o.speech->Ok_0@
        };
        assert(all =~= seq![(transcript_path(t), text)]);
    }
}

} // verus!
