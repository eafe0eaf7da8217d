//! The calls to FFmpeg and ffprobe, and what their results mean.

use vstd::prelude::*;
use vstd::utf8::*;

use crate::config::{AppConfig, AppConfigView, Single};
use crate::format::AudioFormat;
use crate::text::{
    decimal, decimal_text, decimal_value, decode_lossy, ends_with, fields, law_decimal_notation,
    law_end, law_next_field, law_one_field, law_trim_around, lemma_parts_without,
    lemma_same_inside, result_text, starts_with, trim, trimmed, utf8_lossy, white_space, Edge,
};
use crate::tools::{join2, stderr_of, stdout_of, CommandLine, CommandLineView, ToolRun};

verus! {

/// The programs to call.
#[derive(Debug)]
pub struct FfmpegPaths {
    pub ffmpeg: String,
    pub ffprobe: String,
}

/// What `FfmpegPaths` holds.
pub struct FfmpegPathsView {
    pub ffmpeg: Seq<char>,
    pub ffprobe: Seq<char>,
}

impl View for FfmpegPaths {
    type V = FfmpegPathsView;

    open spec fn view(&self) -> FfmpegPathsView {
        FfmpegPathsView { ffmpeg: self.ffmpeg@, ffprobe: self.ffprobe@ }
    }
}

// ---------------------------------------------------------------------------
// Durations
// ---------------------------------------------------------------------------

/// The call that measures a file.
pub open spec fn probe_call(ffprobe: Seq<char>, path: Seq<char>) -> CommandLineView {
    CommandLineView {
        program: ffprobe,
        args: seq![
            "-v"@,
            "error"@,
            "-show_entries"@,
            "format=duration"@,
            "-of"@,
            "default=noprint_wrappers=1:nokey=1"@,
            path,
        ],
    }
}

/// Builds the call that measures a file.
pub fn probe_command(ffprobe: &str, path: &str) -> (r: CommandLine)
    ensures
        r@ == probe_call(ffprobe@, path@),
{
    let mut args: Vec<String> = Vec::new();
    args.push("-v".to_owned());
    args.push("error".to_owned());
    args.push("-show_entries".to_owned());
    args.push("format=duration".to_owned());
    args.push("-of".to_owned());
    args.push("default=noprint_wrappers=1:nokey=1".to_owned());
    args.push(path.to_owned());
    let r = CommandLine { program: ffprobe.to_owned(), args };
    assert(r@.args =~= probe_call(ffprobe@, path@).args);
    r
}

/// The text of the duration that a measurement printed, where `printed` is its
/// standard output as text.
pub open spec fn measurement(run: ToolRun, printed: Seq<char>) -> Result<Seq<char>, Seq<char>> {
    match run {
        ToolRun::NotStarted(e) => Err("Ошибка запуска ffprobe: "@ + e@),
        ToolRun::Exited { success, .. } => if success {
            Ok(trimmed(printed, Edge::Whitespace))
        } else {
            Err("Не удалось прочитать длительность исходного файла."@)
        },
    }
}

/// Reads the text of the duration out of a measurement.
pub fn duration_text(run: &ToolRun) -> (r: Result<String, String>)
    ensures
        result_text(r) == measurement(*run, utf8_lossy(stdout_of(*run))),
        valid_utf8(stdout_of(*run)) ==> result_text(r) == measurement(
            *run,
            decode_utf8(stdout_of(*run)),
        ),
{
    match run {
        ToolRun::NotStarted(e) => Err(join2("Ошибка запуска ffprobe: ", e.as_str())),
        ToolRun::Exited { success, stdout, .. } => {
            if *success {
                let printed = decode_lossy(stdout);
                Ok(trim(printed.as_str(), Edge::Whitespace))
            } else {
                Err("Не удалось прочитать длительность исходного файла.".to_owned())
            }
        },
    }
}

/// The duration that was measured: the number that the text stands for, if it
/// is one.
pub fn get_file_duration(text: Result<Option<Single>, String>) -> (r: Result<Single, String>)
    ensures
        match text {
            Ok(Some(n)) => r == Ok::<_, String>(n),
            Ok(None) => r matches Err(e) && e@ == "Ошибка парсинга длительности"@,
            Err(e) => r == Err::<Single, _>(e),
        },
{
    match text {
        Ok(Some(n)) => Ok(n),
        Ok(None) => Err("Ошибка парсинга длительности".to_owned()),
        Err(e) => Err(e),
    }
}

/// A duration, taken apart for display: whole minutes, and the seconds beyond
/// them with one and with two decimals.
#[derive(Debug)]
pub struct DurationParts {
    pub minutes: u32,
    pub tenths: String,
    pub hundredths: String,
}

/// A duration as it is shown.
pub open spec fn shown_duration(d: DurationParts) -> Seq<char> {
    if d.minutes > 0 {
        decimal(d.minutes as nat) + " м "@ + d.tenths@ + " с"@
    } else {
        d.hundredths@ + " с"@
    }
}

/// Shows a duration.
pub fn format_duration(d: &DurationParts) -> (r: String)
    ensures
        r@ == shown_duration(*d),
{
    if d.minutes > 0 {
        let mut out = decimal_text(d.minutes);
        out.append(" м ");
        out.append(d.tenths.as_str());
        out.append(" с");
        out
    } else {
        join2(d.hundredths.as_str(), " с")
    }
}

// ---------------------------------------------------------------------------
// Cleaning
// ---------------------------------------------------------------------------

/// The numbers of the settings as they are written out: the threshold with one
/// decimal and the shortest pause with two.
#[derive(Debug)]
pub struct WrittenNumbers {
    pub threshold: String,
    pub pause: String,
}

/// The filter that cuts the silence.
pub open spec fn silence_filter(threshold: Seq<char>, pause: Seq<char>) -> Seq<char> {
    "silenceremove=start_periods=1:start_duration=0.02:start_threshold="@ + threshold
        + "dB:start_silence=0.15:stop_periods=-1:stop_duration="@ + pause + ":stop_threshold="@
        + threshold + "dB:stop_silence=0.15"@
}

/// Builds the filter that cuts the silence: it reacts to speech at once and
/// leaves a soft margin.
pub fn build_silence_filter(numbers: &WrittenNumbers) -> (r: String)
    ensures
        r@ == silence_filter(numbers.threshold@, numbers.pause@),
{
    let mut out =
        "silenceremove=start_periods=1:start_duration=0.02:start_threshold=".to_owned();
    out.append(numbers.threshold.as_str());
    out.append("dB:start_silence=0.15:stop_periods=-1:stop_duration=");
    out.append(numbers.pause.as_str());
    out.append(":stop_threshold=");
    out.append(numbers.threshold.as_str());
    out.append("dB:stop_silence=0.15");
    out
}

/// The arguments that set the bit rate; only MP3 has one.
pub open spec fn bit_rate(format: AudioFormat) -> Seq<Seq<char>> {
    match format {
        AudioFormat::Mp3 => seq!["-b:a"@, "192k"@],
        AudioFormat::Wav => Seq::empty(),
    }
}

/// The call that cleans a recording.
pub open spec fn cleaning_call(
    ffmpeg: Seq<char>,
    config: AppConfigView,
    filter: Seq<char>,
) -> CommandLineView {
    CommandLineView {
        program: ffmpeg,
        args: seq![
            "-y"@,
            "-i"@,
            config.input_path,
            "-af"@,
            filter,
            "-c:a"@,
            config.output_format.codec(),
        ] + bit_rate(config.output_format) + seq![config.output_path],
    }
}

/// Builds the call that cleans a recording; an output file that exists is
/// overwritten.
pub fn ffmpeg_command(ffmpeg: &str, config: &AppConfig, numbers: &WrittenNumbers) -> (r:
    CommandLine)
    ensures
        r@ == cleaning_call(
            ffmpeg@,
            config@,
            silence_filter(numbers.threshold@, numbers.pause@),
        ),
{
    let mut args: Vec<String> = Vec::new();
    args.push("-y".to_owned());
    args.push("-i".to_owned());
    args.push(config.input_path.clone());
    args.push("-af".to_owned());
    args.push(build_silence_filter(numbers));
    args.push("-c:a".to_owned());
    args.push(config.output_format.default_codec().to_owned());
    if config.output_format == AudioFormat::Mp3 {
        args.push("-b:a".to_owned());
        args.push("192k".to_owned());
    }
    args.push(config.output_path.clone());
    let r = CommandLine { program: ffmpeg.to_owned(), args };
    assert(r@.args =~= cleaning_call(
        ffmpeg@,
        config@,
        silence_filter(numbers.threshold@, numbers.pause@),
    ).args);
    r
}

/// The note shown when the cleaning starts.
pub open spec fn cleaning_note(input_path: Seq<char>) -> Seq<char> {
    "▶ Обработка файла: "@ + input_path + "\n"@
}

/// What came of the cleaning, where `complaint` is the standard error as text.
pub open spec fn cleaning(run: ToolRun, complaint: Seq<char>) -> Result<(), Seq<char>> {
    match run {
        ToolRun::NotStarted(e) => Err("Ошибка запуска FFmpeg: "@ + e@),
        ToolRun::Exited { success, .. } => if success {
            Ok(())
        } else {
            Err("FFmpeg завершился с ошибкой:\n"@ + complaint)
        },
    }
}

/// The view of a result that carries a message on failure.
pub open spec fn failure_text(r: Result<(), String>) -> Result<(), Seq<char>> {
    match r {
        Ok(_) => Ok(()),
        Err(e) => Err(e@),
    }
}

/// Reads what came of the cleaning.
pub fn process_audio_file(run: &ToolRun) -> (r: Result<(), String>)
    ensures
        failure_text(r) == cleaning(*run, utf8_lossy(stderr_of(*run))),
        valid_utf8(stderr_of(*run)) ==> failure_text(r) == cleaning(
            *run,
            decode_utf8(stderr_of(*run)),
        ),
{
    match run {
        ToolRun::NotStarted(e) => Err(join2("Ошибка запуска FFmpeg: ", e.as_str())),
        ToolRun::Exited { success, stderr, .. } => {
            if *success {
                Ok(())
            } else {
                let complaint = decode_lossy(stderr);
                Err(join2("FFmpeg завершился с ошибкой:\n", complaint.as_str()))
            }
        },
    }
}

// ---------------------------------------------------------------------------
// Laws
// ---------------------------------------------------------------------------

/// Taken apart at its colons, the filter is a list of eight options. Both
/// thresholds are the chosen one, in decibels, and a pause counts once it lasts
/// as long as the chosen one; the rest is the same for every filter. Written
/// numbers hold no colon.
pub proof fn law_filter_options(threshold: Seq<char>, pause: Seq<char>)
    requires
        !threshold.contains(':'),
        !pause.contains(':'),
    ensures
        fields(silence_filter(threshold, pause), ':') == seq![
            "silenceremove=start_periods=1"@,
            "start_duration=0.02"@,
            "start_threshold="@ + threshold + "dB"@,
            "start_silence=0.15"@,
            "stop_periods=-1"@,
            "stop_duration="@ + pause,
            "stop_threshold="@ + threshold + "dB"@,
            "stop_silence=0.15"@,
        ],
{
    reveal_strlit("silenceremove=start_periods=1:start_duration=0.02:start_threshold=");
    reveal_strlit("dB:start_silence=0.15:stop_periods=-1:stop_duration=");
    reveal_strlit(":stop_threshold=");
    reveal_strlit("dB:stop_silence=0.15");
    reveal_strlit("silenceremove=start_periods=1");
    reveal_strlit("start_duration=0.02");
    reveal_strlit("start_threshold=");
    reveal_strlit("dB");
    reveal_strlit("start_silence=0.15");
    reveal_strlit("stop_periods=-1");
    reveal_strlit("stop_duration=");
    reveal_strlit("stop_threshold=");
    reveal_strlit("stop_silence=0.15");
    let c = seq![':'];
    assert("silenceremove=start_periods=1:start_duration=0.02:start_threshold="@
        =~= "silenceremove=start_periods=1"@ + c + "start_duration=0.02"@ + c
        + "start_threshold="@);
    assert("dB:start_silence=0.15:stop_periods=-1:stop_duration="@ =~= "dB"@ + c
        + "start_silence=0.15"@ + c + "stop_periods=-1"@ + c + "stop_duration="@);
    assert(":stop_threshold="@ =~= c + "stop_threshold="@);
    assert("dB:stop_silence=0.15"@ =~= "dB"@ + c + "stop_silence=0.15"@);
    let start = "start_threshold="@ + threshold + "dB"@;
    let length = "stop_duration="@ + pause;
    let stop = "stop_threshold="@ + threshold + "dB"@;
    lemma_no_colon(threshold, pause);
    let rest7 = "stop_silence=0.15"@;
    let rest6 = stop + c + rest7;
    let rest5 = length + c + rest6;
    let rest4 = "stop_periods=-1"@ + c + rest5;
    let rest3 = "start_silence=0.15"@ + c + rest4;
    let rest2 = start + c + rest3;
    let rest1 = "start_duration=0.02"@ + c + rest2;
    assert(silence_filter(threshold, pause) =~= "silenceremove=start_periods=1"@ + c + rest1);
    law_next_field("silenceremove=start_periods=1"@, ':', rest1);
    law_next_field("start_duration=0.02"@, ':', rest2);
    law_next_field(start, ':', rest3);
    law_next_field("start_silence=0.15"@, ':', rest4);
    law_next_field("stop_periods=-1"@, ':', rest5);
    law_next_field(length, ':', rest6);
    law_next_field(stop, ':', rest7);
    law_one_field(rest7, ':');
}

proof fn lemma_no_colon(threshold: Seq<char>, pause: Seq<char>)
    requires
        !threshold.contains(':'),
        !pause.contains(':'),
    ensures
        !"silenceremove=start_periods=1"@.contains(':'),
        !"start_duration=0.02"@.contains(':'),
        !("start_threshold="@ + threshold + "dB"@).contains(':'),
        !"start_silence=0.15"@.contains(':'),
        !"stop_periods=-1"@.contains(':'),
        !("stop_duration="@ + pause).contains(':'),
        !("stop_threshold="@ + threshold + "dB"@).contains(':'),
        !"stop_silence=0.15"@.contains(':'),
{
    reveal_strlit("silenceremove=start_periods=1");
    reveal_strlit("start_duration=0.02");
    reveal_strlit("start_threshold=");
    reveal_strlit("dB");
    reveal_strlit("start_silence=0.15");
    reveal_strlit("stop_periods=-1");
    reveal_strlit("stop_duration=");
    reveal_strlit("stop_threshold=");
    reveal_strlit("stop_silence=0.15");
    lemma_parts_without("start_threshold="@, threshold, ':');
    lemma_parts_without("start_threshold="@ + threshold, "dB"@, ':');
    lemma_parts_without("stop_duration="@, pause, ':');
    lemma_parts_without("stop_threshold="@, threshold, ':');
    lemma_parts_without("stop_threshold="@ + threshold, "dB"@, ':');
}

/// Whatever the numbers are, the filter starts with the threshold at which it
/// begins to keep sound, and ends with the pause and the same threshold, at
/// which it begins to cut.
pub proof fn law_filter_ends(threshold: Seq<char>, pause: Seq<char>)
    ensures
        starts_with(
            silence_filter(threshold, pause),
            "silenceremove=start_periods=1:start_duration=0.02:start_threshold="@ + threshold
                + "dB:start_silence=0.15:stop_periods=-1:stop_duration="@,
        ),
        ends_with(
            silence_filter(threshold, pause),
            "dB:start_silence=0.15:stop_periods=-1:stop_duration="@ + pause + ":stop_threshold="@
                + threshold + "dB:stop_silence=0.15"@,
        ),
{
    let filter = silence_filter(threshold, pause);
    let head = "silenceremove=start_periods=1:start_duration=0.02:start_threshold="@ + threshold;
    let middle = "dB:start_silence=0.15:stop_periods=-1:stop_duration="@;
    let tail = pause + ":stop_threshold="@ + threshold + "dB:stop_silence=0.15"@;
    let end = middle + pause + ":stop_threshold="@ + threshold + "dB:stop_silence=0.15"@;
    assert(filter =~= (head + middle) + tail);
    assert(filter =~= head + end);
    law_end(head + middle, tail);
    law_end(head, end);
}

/// Filters with other thresholds or pauses are other filters: from the filter
/// both numbers can be read again.
pub proof fn law_filters_differ(
    threshold: Seq<char>,
    pause: Seq<char>,
    threshold2: Seq<char>,
    pause2: Seq<char>,
)
    requires
        !threshold.contains(':'),
        !pause.contains(':'),
        !threshold2.contains(':'),
        !pause2.contains(':'),
    ensures
        ({
            let one = fields(silence_filter(threshold, pause), ':');
            let two = fields(silence_filter(threshold2, pause2), ':');
            &&& one[2] == two[2] <==> threshold == threshold2
            &&& one[6] == two[6] <==> threshold == threshold2
            &&& one[5] == two[5] <==> pause == pause2
        }),
{
    law_filter_options(threshold, pause);
    law_filter_options(threshold2, pause2);
    lemma_same_inside("start_threshold="@, threshold, threshold2, "dB"@);
    lemma_same_inside("stop_threshold="@, threshold, threshold2, "dB"@);
    lemma_same_inside("stop_duration="@, pause, pause2, Seq::empty());
    assert("stop_duration="@ + pause + Seq::empty() =~= "stop_duration="@ + pause);
    assert("stop_duration="@ + pause2 + Seq::empty() =~= "stop_duration="@ + pause2);
}

/// The cleaning is a call of FFmpeg that overwrites without asking, reads the
/// input file through the filter, and writes the output file, which it is told
/// last, with the encoder of the format; a bit rate is given exactly for MP3.
pub proof fn law_cleaning_call(ffmpeg: Seq<char>, config: AppConfigView, filter: Seq<char>)
    ensures
        ({
            let args = cleaning_call(ffmpeg, config, filter).args;
            &&& args[0] == "-y"@
            &&& args[1] == "-i"@
            &&& args[2] == config.input_path
            &&& args[3] == "-af"@
            &&& args[4] == filter
            &&& args.last() == config.output_path
            &&& args.len() == 10 <==> config.output_format == AudioFormat::Mp3
            &&& args.len() == 8 <==> config.output_format == AudioFormat::Wav
            &&& args[5] == "-c:a"@
            &&& args[6] == "libmp3lame"@ <==> config.output_format == AudioFormat::Mp3
            &&& args[6] == "pcm_s16le"@ <==> config.output_format == AudioFormat::Wav
            &&& config.output_format == AudioFormat::Mp3 ==> args[7] == "-b:a"@ && args[8]
                == "192k"@
        }),
        cleaning_call(ffmpeg, config, filter).program == ffmpeg,
{
    reveal_strlit("libmp3lame");
    reveal_strlit("pcm_s16le");
    assert("libmp3lame"@[0] != "pcm_s16le"@[0]);
}

/// A measurement is a call of ffprobe that is told the file last and prints the
/// duration alone; whatever the file is, the rest of the call is the same.
pub proof fn law_measuring_call(ffprobe: Seq<char>, path: Seq<char>)
    ensures
        ({
            let call = probe_call(ffprobe, path);
            &&& call.program == ffprobe
            &&& call.args.len() == 7
            &&& call.args.last() == path
            &&& call.args[0] == "-v"@ && call.args[1] == "error"@
            &&& call.args[2] == "-show_entries"@ && call.args[3] == "format=duration"@
            &&& call.args[4] == "-of"@ && call.args[5] == "default=noprint_wrappers=1:nokey=1"@
            &&& forall|p: Seq<char>, other: Seq<char>|
                (#[trigger] probe_call(p, other)).args.drop_last() == call.args.drop_last()
        }),
{
    let call = probe_call(ffprobe, path);
    assert forall|p: Seq<char>, other: Seq<char>|
        (#[trigger] probe_call(p, other)).args.drop_last() == call.args.drop_last() by {
        assert(probe_call(p, other).args.drop_last() =~= call.args.drop_last());
    }
}

/// A measurement that succeeded gives what was printed without the white space
/// around it, such as the line break behind a number; one that failed gives no
/// duration, whatever was printed, and where ffprobe was never started the
/// message says why.
pub proof fn law_measurement(
    run: ToolRun,
    before: Seq<char>,
    printed: Seq<char>,
    after: Seq<char>,
)
    requires
        forall|i: int| 0 <= i < before.len() ==> white_space(#[trigger] before[i]),
        forall|i: int| 0 <= i < after.len() ==> white_space(#[trigger] after[i]),
        printed.len() > 0 ==> !white_space(printed[0]) && !white_space(printed.last()),
    ensures
        match run {
            ToolRun::Exited { success: true, .. } => measurement(run, before + printed + after)
                == Ok::<_, Seq<char>>(printed),
            ToolRun::Exited { success: false, .. } => measurement(run, before + printed + after)
                == Err::<Seq<char>, _>("Не удалось прочитать длительность исходного файла."@),
            ToolRun::NotStarted(e) => measurement(run, before + printed + after) == Err::<
                Seq<char>,
                _,
            >("Ошибка запуска ffprobe: "@ + e@),
        },
{
    law_trim_around(before, printed, after, Edge::Whitespace);
}

/// The cleaning succeeded exactly when FFmpeg ran and reported success; else the
/// message gives what FFmpeg complained of, or why it was not started.
pub proof fn law_cleaning_result(run: ToolRun, complaint: Seq<char>)
    ensures
        cleaning(run, complaint) is Ok <==> (run matches ToolRun::Exited { success, .. }
            && success),
        cleaning(run, complaint) matches Err(message) ==> message == match run {
            ToolRun::NotStarted(e) => "Ошибка запуска FFmpeg: "@ + e@,
            ToolRun::Exited { .. } => "FFmpeg завершился с ошибкой:\n"@ + complaint,
        },
{
}

/// From a minute on a duration is shown as its minutes in decimal digits and the
/// seconds beyond them with one decimal; a shorter one as its seconds with two.
pub proof fn law_duration_shown(d: DurationParts)
    ensures
        ({
            let shown = shown_duration(d);
            if d.minutes > 0 {
                exists|k: int|
                    {
                        &&& 0 < k <= shown.len()
                        &&& decimal_value(#[trigger] shown.take(k)) == d.minutes
                        &&& shown.take(k)[0] != '0'
                        &&& shown.skip(k) == " м "@ + d.tenths@ + " с"@
                    }
            } else {
                shown == d.hundredths@ + " с"@
            }
        }),
{
    if d.minutes > 0 {
        let shown = shown_duration(d);
        let number = decimal(d.minutes as nat);
        law_decimal_notation(d.minutes as nat);
        let k = number.len() as int;
        assert(shown.take(k) =~= number);
        assert(shown.skip(k) =~= " м "@ + d.tenths@ + " с"@);
        assert(decimal_value(shown.take(k)) == d.minutes);
    }
}

/// The view of the programs has both paths.
pub proof fn law_programs_view(p: FfmpegPaths)
    ensures
        p@.ffmpeg == p.ffmpeg@,
        p@.ffprobe == p.ffprobe@,
{
}

} // verus!
