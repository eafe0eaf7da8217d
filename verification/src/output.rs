//! Where the cleaned recording goes and in which format.

use vstd::prelude::*;
use vstd::utf8::*;

use crate::config::AppConfigView;
use crate::format::{format_named, law_only_extensions_name_formats, AudioFormat};
use crate::paths::{
    extension_of, extension_part, file_name, is_plain_name, law_joined_name_comes_apart,
    law_names_without_extension, opens_with_two_separators, path_file_name, path_with_file_name,
    stem_of, stem_part, with_file_name,
};
use crate::text::{ascii_lower, lemma_parts_without, opt_text, unicode_lower};

verus! {

/// The name of a cleaned file: the stem of the source, or `output` where it has
/// none, marked as clean, with the extension of the format.
pub open spec fn clean_name(stem: Option<Seq<char>>, format: AudioFormat) -> Seq<char> {
    let base = match stem {
        Some(s) => s,
        None => "output"@,
    };
    base + "_clean."@ + format.ext()
}

/// The stem of the file that a path leads to.
pub open spec fn path_stem(path: Seq<char>) -> Option<Seq<char>> {
    match path_file_name(path) {
        Some(name) => Some(stem_part(name)),
        None => None,
    }
}

/// The place of a cleaned file that the user gave no path for: beside the source.
pub open spec fn clean_path(input: Seq<char>, format: AudioFormat) -> Seq<char> {
    path_with_file_name(input, clean_name(path_stem(input), format))
}

/// The output file is named after the source, in the format that is written,
/// wherever that name is plain and the source path does not open with two
/// separators.
pub open spec fn named_after_source(config: AppConfigView) -> bool {
    let name = clean_name(path_stem(config.input_path), config.output_format);
    is_plain_name(name) && !opens_with_two_separators(config.input_path) ==> path_file_name(
        config.output_path,
    ) == Some(name)
}

/// The format that the extension of a path names.
pub open spec fn format_of_path(path: Seq<char>) -> Option<AudioFormat> {
    match path_file_name(path) {
        Some(name) => match extension_part(name) {
            Some(ext) => format_named(unicode_lower(ext)),
            None => None,
        },
        None => None,
    }
}

/// The format to write: the one asked for, else the one that the output path
/// names, else MP3.
pub open spec fn format_picked(
    asked: Option<AudioFormat>,
    named: Option<AudioFormat>,
) -> AudioFormat {
    match asked {
        Some(f) => f,
        None => match named {
            Some(f) => f,
            None => AudioFormat::Mp3,
        },
    }
}

/// Names the cleaned file after the stem of its source.
pub fn name_clean_file(stem: &Option<String>, format: AudioFormat) -> (r: String)
    ensures
        r@ == clean_name(opt_text(*stem), format),
{
    let mut name = match stem {
        Some(s) => s.clone(),
        None => "output".to_owned(),
    };
    name.append("_clean.");
    name.append(format.as_ext());
    name
}

/// Places the cleaned file beside its source.
pub fn place_clean_file(input: &str, format: AudioFormat) -> (r: String)
    ensures
        r@ == clean_path(input@, format),
        is_plain_name(clean_name(path_stem(input@), format)) && !opens_with_two_separators(input@)
            ==> path_file_name(r@) == Some(clean_name(path_stem(input@), format)),
{
    let stem = match file_name(input) {
        Some(name) => Some(stem_of(name.as_str())),
        None => None,
    };
    let name = name_clean_file(&stem, format);
    with_file_name(input, name.as_str())
}

/// Reads the format off a file name.
pub fn format_of_name(name: &str) -> (r: Option<AudioFormat>)
    ensures
        match extension_part(name@) {
            Some(ext) => {
                &&& r == format_named(unicode_lower(ext))
                &&& is_ascii_chars(ext) ==> r == format_named(ascii_lower(ext))
            },
            None => r is None,
        },
{
    match extension_of(name) {
        Some(ext) => AudioFormat::from_ext(ext.as_str()),
        None => None,
    }
}

/// Reads the format off the extension of a path.
pub fn read_format(path: &str) -> (r: Option<AudioFormat>)
    ensures
        r == format_of_path(path@),
{
    match file_name(path) {
        Some(name) => format_of_name(name.as_str()),
        None => None,
    }
}

/// Picks the format to write.
pub fn pick_format(asked: Option<AudioFormat>, named: Option<AudioFormat>) -> (r: AudioFormat)
    ensures
        r == format_picked(asked, named),
{
    match asked {
        Some(f) => f,
        None => match named {
            Some(f) => f,
            None => AudioFormat::Mp3,
        },
    }
}

/// The name of a cleaned file has the extension of its format, and its stem is
/// that of the source, marked as clean.
pub proof fn law_clean_name_shows_format(stem: Seq<char>, format: AudioFormat)
    ensures
        extension_part(clean_name(Some(stem), format)) == Some(format.ext()),
        stem_part(clean_name(Some(stem), format)) == stem + "_clean"@,
{
    reveal_strlit("mp3");
    reveal_strlit("wav");
    reveal_strlit("_clean.");
    reveal_strlit("_clean");
    assert(clean_name(Some(stem), format) =~= (stem + "_clean"@) + seq!['.'] + format.ext());
    assert(!format.ext().contains('.'));
    law_joined_name_comes_apart(stem + "_clean"@, format.ext());
}

/// A source without a stem gives the name `output_clean`, with the extension of
/// the format.
pub proof fn law_nameless_source(format: AudioFormat)
    ensures
        extension_part(clean_name(None, format)) == Some(format.ext()),
        stem_part(clean_name(None, format)) == "output"@ + "_clean"@,
{
    law_clean_name_shows_format("output"@, format);
}

/// The cleaned file lies beside its source: its path is that of the source with
/// another file name, whose stem is that of the source, marked as clean, and
/// whose extension is that of the format.
pub proof fn law_clean_file_lies_beside_its_source(input: Seq<char>, format: AudioFormat)
    ensures
        exists|name: Seq<char>|
            {
                &&& clean_path(input, format) == #[trigger] path_with_file_name(input, name)
                &&& extension_part(name) == Some(format.ext())
                &&& stem_part(name) == match path_file_name(input) {
                    Some(source) => stem_part(source),
                    None => "output"@,
                } + "_clean"@
            },
{
    let name = clean_name(path_stem(input), format);
    match path_file_name(input) {
        Some(source) => {
            law_clean_name_shows_format(stem_part(source), format);
        },
        None => {
            law_nameless_source(format);
        },
    }
    assert(clean_path(input, format) == path_with_file_name(input, name));
}

/// The name of a cleaned file is plain wherever the stem of its source holds no
/// separator and no colon.
pub proof fn law_clean_name_is_plain(stem: Seq<char>, format: AudioFormat)
    requires
        !stem.contains('/'),
        !stem.contains('\\'),
        !stem.contains(':'),
    ensures
        is_plain_name(clean_name(Some(stem), format)),
{
    reveal_strlit("_clean.");
    reveal_strlit("mp3");
    reveal_strlit("wav");
    reveal_strlit(".");
    reveal_strlit("..");
    let mark = "_clean."@;
    let ext = format.ext();
    lemma_parts_without(stem, mark, '/');
    lemma_parts_without(stem + mark, ext, '/');
    lemma_parts_without(stem, mark, '\\');
    lemma_parts_without(stem + mark, ext, '\\');
    lemma_parts_without(stem, mark, ':');
    lemma_parts_without(stem + mark, ext, ':');
}

/// The format is read off what stands behind the last dot of the file name,
/// whatever its letter case; a name without such a part names no format.
pub proof fn law_path_names_format(path: Seq<char>, stem: Seq<char>, ext: Seq<char>)
    requires
        stem.len() > 0,
        !ext.contains('.'),
    ensures
        path_file_name(path) == Some(stem + seq!['.'] + ext) ==> {
            &&& format_of_path(path) == Some(AudioFormat::Mp3) <==> unicode_lower(ext) == "mp3"@
            &&& format_of_path(path) == Some(AudioFormat::Wav) <==> unicode_lower(ext) == "wav"@
        },
        path_file_name(path) == Some(ext) ==> format_of_path(path) is None,
        path_file_name(path) == Some(seq!['.'] + ext) ==> format_of_path(path) is None,
        path_file_name(path) is None ==> format_of_path(path) is None,
{
    law_joined_name_comes_apart(stem, ext);
    law_names_without_extension(ext);
    law_only_extensions_name_formats(unicode_lower(ext));
}

/// A format that was asked for wins over the one that the path names, and MP3 is
/// written only where it was asked for, was named, or nothing was.
pub proof fn law_format_choice(asked: Option<AudioFormat>, named: Option<AudioFormat>)
    ensures
        asked is Some ==> Some(format_picked(asked, named)) == asked,
        asked is None && named is Some ==> Some(format_picked(asked, named)) == named,
        format_picked(None, None) == AudioFormat::Mp3,
{
}

} // verus!
