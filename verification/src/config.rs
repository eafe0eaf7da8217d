//! The settings of one run.

use vstd::arithmetic::power2::{lemma2_to64, pow2};
use vstd::prelude::*;

use crate::format::AudioFormat;
use crate::text::{opt_text, same_text};

verus! {

/// A single-precision number, held by its IEEE 754 bit pattern. The crate hands
/// such numbers on; it never computes with them.
#[derive(Debug, Clone, Copy, PartialEq, Eq, Structural)]
pub struct Single {
    pub bits: u32,
}

impl Single {
    /// The number is greater than zero: its sign bit is clear, and it is neither
    /// zero nor beyond infinity, where the patterns stand for no number.
    pub open spec fn positive(self) -> bool {
        0 < self.bits <= 0x7F80_0000
    }

    /// Tells whether the number is greater than zero.
    pub fn is_positive(self) -> (r: bool)
        ensures
            r == self.positive(),
    {
        0 < self.bits && self.bits <= 0x7F80_0000
    }
}

/// Bit pattern of -50, the threshold of the preset `pure`.
pub const PURE_DB_BITS: u32 = 0xC248_0000;

/// Bit pattern of -35, the threshold of the preset `normal`.
pub const NORMAL_DB_BITS: u32 = 0xC20C_0000;

/// Bit pattern of -25, the threshold of the preset `noisy`.
pub const NOISY_DB_BITS: u32 = 0xC1C8_0000;

/// Bit pattern of 0.4, the shortest pause in seconds that is cut by default.
pub const MIN_SILENCE_BITS: u32 = 0x3ECC_CCCD;

/// How sensitive the detection of silence is.
#[derive(Debug, Clone, Copy, PartialEq, Eq, Structural)]
pub enum Preset {
    Pure,
    Normal,
    Noisy,
}

/// The preset that an option value, in lower case, names.
pub open spec fn preset_named(lowered: Seq<char>) -> Option<Preset> {
    if lowered == "pure"@ || lowered == "clean"@ {
        Some(Preset::Pure)
    } else if lowered == "normal"@ || lowered == "medium"@ {
        Some(Preset::Normal)
    } else if lowered == "noisy"@ || lowered == "aggressive"@ {
        Some(Preset::Noisy)
    } else {
        None
    }
}

/// The preset that an answer to the menu picks; anything unknown is `Normal`.
pub open spec fn preset_picked(answer: Seq<char>) -> Preset {
    if answer == "2"@ || answer == "pure"@ {
        Preset::Pure
    } else if answer == "3"@ || answer == "noisy"@ {
        Preset::Noisy
    } else {
        Preset::Normal
    }
}

impl Preset {
    /// The noise threshold of the preset, in decibels.
    pub open spec fn db(self) -> Single {
        match self {
            Preset::Pure => Single { bits: PURE_DB_BITS },
            Preset::Normal => Single { bits: NORMAL_DB_BITS },
            Preset::Noisy => Single { bits: NOISY_DB_BITS },
        }
    }

    /// The noise threshold of the preset, in decibels.
    pub fn threshold(self) -> (r: Single)
        ensures
            r == self.db(),
    {
        match self {
            Preset::Pure => Single { bits: PURE_DB_BITS },
            Preset::Normal => Single { bits: NORMAL_DB_BITS },
            Preset::Noisy => Single { bits: NOISY_DB_BITS },
        }
    }

    /// The preset that an option value names; the value is in lower case.
    pub fn from_name(lowered: &str) -> (r: Option<Preset>)
        ensures
            r == preset_named(lowered@),
    {
        if same_text(lowered, "pure") || same_text(lowered, "clean") {
            Some(Preset::Pure)
        } else if same_text(lowered, "normal") || same_text(lowered, "medium") {
            Some(Preset::Normal)
        } else if same_text(lowered, "noisy") || same_text(lowered, "aggressive") {
            Some(Preset::Noisy)
        } else {
            None
        }
    }

    /// The preset that a trimmed answer to the menu picks.
    pub fn from_answer(answer: &str) -> (r: Preset)
        ensures
            r == preset_picked(answer@),
    {
        if same_text(answer, "2") || same_text(answer, "pure") {
            Preset::Pure
        } else if same_text(answer, "3") || same_text(answer, "noisy") {
            Preset::Noisy
        } else {
            Preset::Normal
        }
    }
}

/// The keys of the speech and text services.
#[derive(Debug)]
pub struct ApiKeys {
    pub groq: Option<String>,
    pub gemini: Option<String>,
    pub deepseek: Option<String>,
}

/// What `ApiKeys` holds.
pub struct ApiKeysView {
    pub groq: Option<Seq<char>>,
    pub gemini: Option<Seq<char>>,
    pub deepseek: Option<Seq<char>>,
}

impl View for ApiKeys {
    type V = ApiKeysView;

    open spec fn view(&self) -> ApiKeysView {
        ApiKeysView {
            groq: opt_text(self.groq),
            gemini: opt_text(self.gemini),
            deepseek: opt_text(self.deepseek),
        }
    }
}

/// How one recording is to be processed.
#[derive(Debug)]
pub struct AppConfig {
    pub input_path: String,
    pub output_path: String,
    /// Level in decibels below which sound counts as silence.
    pub noise_threshold_db: Single,
    /// Shortest pause in seconds that is cut.
    pub min_silence_sec: Single,
    pub output_format: AudioFormat,
    /// Turn the speech into text afterwards.
    pub ai_transcribe: bool,
    pub keys: ApiKeys,
}

/// What `AppConfig` holds.
pub struct AppConfigView {
    pub input_path: Seq<char>,
    pub output_path: Seq<char>,
    pub noise_threshold_db: Single,
    pub min_silence_sec: Single,
    pub output_format: AudioFormat,
    pub ai_transcribe: bool,
    pub keys: ApiKeysView,
}

impl View for AppConfig {
    type V = AppConfigView;

    open spec fn view(&self) -> AppConfigView {
        AppConfigView {
            input_path: self.input_path@,
            output_path: self.output_path@,
            noise_threshold_db: self.noise_threshold_db,
            min_silence_sec: self.min_silence_sec,
            output_format: self.output_format,
            ai_transcribe: self.ai_transcribe,
            keys: self.keys@,
        }
    }
}

// ---------------------------------------------------------------------------
// Laws
// ---------------------------------------------------------------------------

impl Single {
    /// The sign bit is set.
    pub open spec fn negative_sign(self) -> bool {
        self.bits >= 0x8000_0000
    }

    /// The exponent as it is stored.
    pub open spec fn exponent(self) -> int {
        (self.bits as int / 0x80_0000) % 0x100
    }

    /// The fraction as it is stored.
    pub open spec fn fraction(self) -> int {
        self.bits as int % 0x80_0000
    }

    /// The number is not zero, and its exponent is one of a finite number that is
    /// written with a leading one: it is the significand, times two to the power
    /// of the exponent less 150.
    pub open spec fn normal(self) -> bool {
        0 < self.exponent() < 255
    }

    /// The significand of a normal number, with its leading one.
    pub open spec fn significand(self) -> int {
        0x80_0000 + self.fraction()
    }

    /// The number is the whole number `v`, other than zero and below two to the
    /// power of 24.
    pub open spec fn is_whole(self, v: int) -> bool {
        &&& 127 <= self.exponent() <= 150
        &&& self.negative_sign() <==> v < 0
        &&& self.significand() == (if v < 0 {
            -v
        } else {
            v
        }) * pow2((150 - self.exponent()) as nat)
    }
}

/// A number is greater than zero exactly when it has no sign and is neither zero
/// nor a pattern that stands for no number; infinity and the numbers too small
/// for a leading one count.
pub proof fn law_positive_numbers(n: Single)
    ensures
        n.positive() <==> {
            &&& !n.negative_sign()
            &&& n.exponent() != 0 || n.fraction() != 0
            &&& n.exponent() == 255 ==> n.fraction() == 0
        },
{
}

/// The presets are -50, -35 and -25 dB.
pub proof fn law_preset_thresholds(p: Preset)
    ensures
        p.db().is_whole(
            match p {
                Preset::Pure => -50,
                Preset::Normal => -35,
                Preset::Noisy => -25,
            },
        ),
{
    lemma2_to64();
}

/// A pause is cut by default once it lasts 0.4 seconds: the number is off that
/// by no more than half a step of its significand.
pub proof fn law_default_pause()
    ensures
        ({
            let n = Single { bits: MIN_SILENCE_BITS };
            &&& n.normal()
            &&& !n.negative_sign()
            &&& n.exponent() == 125
            &&& -5 <= 2 * (5 * n.significand() - 2 * pow2(25)) <= 5
        }),
{
    lemma2_to64();
}

/// A preset is known by two names on the command line, and by its number or its
/// first name in the menu, where anything else is the normal one.
pub proof fn law_preset_names(name: Seq<char>)
    ensures
        preset_named(name) == Some(Preset::Pure) <==> seq!["pure"@, "clean"@].contains(name),
        preset_named(name) == Some(Preset::Normal) <==> seq!["normal"@, "medium"@].contains(name),
        preset_named(name) == Some(Preset::Noisy) <==> seq!["noisy"@, "aggressive"@].contains(
            name,
        ),
        preset_picked(name) == Preset::Pure <==> seq!["2"@, "pure"@].contains(name),
        preset_picked(name) == Preset::Noisy <==> seq!["3"@, "noisy"@].contains(name),
{
    reveal_strlit("pure");
    reveal_strlit("clean");
    reveal_strlit("normal");
    reveal_strlit("medium");
    reveal_strlit("noisy");
    reveal_strlit("aggressive");
    reveal_strlit("2");
    reveal_strlit("3");
    assert("pure"@[0] == 'p' && "clean"@[0] == 'c' && "normal"@[1] == 'o' && "medium"@[0] == 'm'
        && "noisy"@.len() == 5 && "noisy"@[0] == 'n' && "aggressive"@[0] == 'a' && "2"@[0] == '2'
        && "3"@[0] == '3');
    let pure = seq!["pure"@, "clean"@];
    let normal = seq!["normal"@, "medium"@];
    let noisy = seq!["noisy"@, "aggressive"@];
    let second = seq!["2"@, "pure"@];
    let third = seq!["3"@, "noisy"@];
    assert(pure[0] == "pure"@ && pure[1] == "clean"@);
    assert(normal[0] == "normal"@ && normal[1] == "medium"@);
    assert(noisy[0] == "noisy"@ && noisy[1] == "aggressive"@);
    assert(second[0] == "2"@ && second[1] == "pure"@);
    assert(third[0] == "3"@ && third[1] == "noisy"@);
}

/// The view of the settings has every one of them.
pub proof fn law_settings_view(c: AppConfig)
    ensures
        c@.input_path == c.input_path@,
        c@.output_path == c.output_path@,
        c@.noise_threshold_db == c.noise_threshold_db,
        c@.min_silence_sec == c.min_silence_sec,
        c@.output_format == c.output_format,
        c@.ai_transcribe == c.ai_transcribe,
        c@.keys.groq == opt_text(c.keys.groq),
        c@.keys.gemini == opt_text(c.keys.gemini),
        c@.keys.deepseek == opt_text(c.keys.deepseek),
{
}

} // verus!
