//! The audio formats that the tool writes.

use vstd::prelude::*;
use vstd::utf8::*;

use crate::text::{ascii_lower, same_text, to_lower, unicode_lower};

verus! {

/// Formats of the cleaned recording.
#[derive(Debug, Clone, Copy, PartialEq, Eq, Structural)]
pub enum AudioFormat {
    Mp3,
    Wav,
}

/// The format whose file extension, in lower case, is the given text.
pub open spec fn format_named(lowered: Seq<char>) -> Option<AudioFormat> {
    if lowered == "mp3"@ {
        Some(AudioFormat::Mp3)
    } else if lowered == "wav"@ {
        Some(AudioFormat::Wav)
    } else {
        None
    }
}

impl AudioFormat {
    /// The file extension of the format.
    pub open spec fn ext(self) -> Seq<char> {
        match self {
            AudioFormat::Mp3 => "mp3"@,
            AudioFormat::Wav => "wav"@,
        }
    }

    /// The name of the encoder that FFmpeg uses for the format.
    pub open spec fn codec(self) -> Seq<char> {
        match self {
            AudioFormat::Mp3 => "libmp3lame"@,
            AudioFormat::Wav => "pcm_s16le"@,
        }
    }

    /// The format for a file extension that is in lower case already.
    pub fn from_lowered(lowered: &str) -> (r: Option<Self>)
        ensures
            r == format_named(lowered@),
    {
        if same_text(lowered, "mp3") {
            Some(AudioFormat::Mp3)
        } else if same_text(lowered, "wav") {
            Some(AudioFormat::Wav)
        } else {
            None
        }
    }

    /// The format for a file extension, whatever its letter case.
    pub fn from_ext(ext: &str) -> (r: Option<Self>)
        ensures
            r == format_named(unicode_lower(ext@)),
            is_ascii_chars(ext@) ==> r == format_named(ascii_lower(ext@)),
    {
        AudioFormat::from_lowered(to_lower(ext).as_str())
    }

    /// The file extension of the format.
    pub fn as_ext(&self) -> (r: &'static str)
        ensures
            r@ == self.ext(),
    {
        match self {
            AudioFormat::Mp3 => "mp3",
            AudioFormat::Wav => "wav",
        }
    }

    /// The encoder that FFmpeg uses for the format.
    pub fn default_codec(&self) -> (r: &'static str)
        ensures
            r@ == self.codec(),
    {
        match self {
            AudioFormat::Mp3 => "libmp3lame",
            AudioFormat::Wav => "pcm_s16le",
        }
    }

    /// The extension in upper case, as the settings are shown.
    pub fn label(&self) -> (r: &'static str)
        ensures
            r@ == self.label_text(),
    {
        match self {
            AudioFormat::Mp3 => "MP3",
            AudioFormat::Wav => "WAV",
        }
    }

    /// The extension in upper case.
    pub open spec fn label_text(self) -> Seq<char> {
        match self {
            AudioFormat::Mp3 => "MP3"@,
            AudioFormat::Wav => "WAV"@,
        }
    }
}

/// Every extension names its own format, in lower and in upper case.
pub proof fn law_extension_names_format(f: AudioFormat)
    ensures
        is_ascii_chars(f.ext()),
        is_ascii_chars(f.label_text()),
        format_named(ascii_lower(f.ext())) == Some(f),
        format_named(ascii_lower(f.label_text())) == Some(f),
{
    reveal_strlit("mp3");
    reveal_strlit("wav");
    reveal_strlit("MP3");
    reveal_strlit("WAV");
    assert(ascii_lower("mp3"@) =~= "mp3"@);
    assert(ascii_lower("wav"@) =~= "wav"@);
    assert(ascii_lower("MP3"@) =~= "mp3"@);
    assert(ascii_lower("WAV"@) =~= "wav"@);
    assert("mp3"@[0] != "wav"@[0]);
}

/// Different formats have different extensions and different encoders.
pub proof fn law_formats_differ(f: AudioFormat, g: AudioFormat)
    ensures
        f.ext() == g.ext() <==> f == g,
        f.codec() == g.codec() <==> f == g,
{
    reveal_strlit("mp3");
    reveal_strlit("wav");
    reveal_strlit("libmp3lame");
    reveal_strlit("pcm_s16le");
    assert("mp3"@[0] != "wav"@[0]);
    assert("libmp3lame"@[0] != "pcm_s16le"@[0]);
}

/// A text names a format exactly when it is the extension of that format: `mp3`
/// or `wav`.
pub proof fn law_only_extensions_name_formats(lowered: Seq<char>)
    ensures
        format_named(lowered) == Some(AudioFormat::Mp3) <==> lowered == "mp3"@,
        format_named(lowered) == Some(AudioFormat::Wav) <==> lowered == "wav"@,
        format_named(lowered) matches Some(f) ==> f.ext() == lowered,
{
    reveal_strlit("mp3");
    reveal_strlit("wav");
    assert("mp3"@[0] != "wav"@[0]);
}

/// The label of a format is its extension in capital letters.
pub proof fn law_label_is_the_extension(f: AudioFormat)
    ensures
        ascii_lower(f.label_text()) == f.ext(),
        forall|i: int|
            0 <= i < f.label_text().len() ==> !('a' <= #[trigger] f.label_text()[i] <= 'z'),
{
    reveal_strlit("mp3");
    reveal_strlit("wav");
    reveal_strlit("MP3");
    reveal_strlit("WAV");
    assert(ascii_lower("MP3"@) =~= "mp3"@);
    assert(ascii_lower("WAV"@) =~= "wav"@);
}

} // verus!
