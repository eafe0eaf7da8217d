//! Parts of file paths, in the path syntax of the platform that the crate is
//! built for. A path is the text that the user typed.

use vstd::prelude::*;

use crate::text::{
    chars_of, law_trim_around, law_trimmed_edges, law_what_is_cut, opt_text, string_of, trim,
    trimmed, white_space_codes, Edge,
};

verus! {

// ---------------------------------------------------------------------------
// File names
// ---------------------------------------------------------------------------

/// The position of the last dot in a file name.
pub open spec fn last_dot(name: Seq<char>) -> Option<int>
    decreases name.len(),
{
    if name.len() == 0 {
        None
    } else if name.last() == '.' {
        Some(name.len() - 1)
    } else {
        last_dot(name.drop_last())
    }
}

/// The part of a file name before its last dot; a name without a dot, or with
/// none but the one it starts with, is its own stem.
pub open spec fn stem_part(name: Seq<char>) -> Seq<char> {
    match last_dot(name) {
        Some(i) => if i > 0 {
            name.take(i)
        } else {
            name
        },
        None => name,
    }
}

/// The part of a file name behind its last dot; a name without a dot, or with
/// none but the one it starts with, has no extension.
pub open spec fn extension_part(name: Seq<char>) -> Option<Seq<char>> {
    match last_dot(name) {
        Some(i) => if i > 0 {
            Some(name.skip(i + 1))
        } else {
            None
        },
        None => None,
    }
}

/// The name holds no separator and no colon and is neither `.` nor `..`, so that
/// it can stand as one component of a path.
pub open spec fn is_plain_name(name: Seq<char>) -> bool {
    &&& name.len() > 0
    &&& !name.contains('/')
    &&& !name.contains('\\')
    &&& !name.contains(':')
    &&& name != "."@
    &&& name != ".."@
}

/// The path opens with two separators; on some platforms what follows them is
/// no file name but the name of a device or of a share.
pub open spec fn opens_with_two_separators(path: Seq<char>) -> bool {
    &&& path.len() >= 2
    &&& path[0] == '/' || path[0] == '\\'
    &&& path[1] == '/' || path[1] == '\\'
}

fn find_last_dot(name: &Vec<char>) -> (r: Option<usize>)
    ensures
        match r {
            Some(i) => last_dot(name@) == Some(i as int) && i < name.len(),
            None => last_dot(name@) is None,
        },
{
    let mut end: usize = name.len();
    assert(name@.take(end as int) =~= name@);
    while end > 0
        invariant
            end <= name.len(),
            last_dot(name@) == last_dot(name@.take(end as int)),
        decreases end,
    {
        let ghost front = name@.take(end as int);
        if name[end - 1] == '.' {
            return Some(end - 1);
        }
        end -= 1;
        assert(front.drop_last() =~= name@.take(end as int));
    }
    None
}

/// Takes the stem off a file name.
pub fn stem_of(name: &str) -> (r: String)
    ensures
        r@ == stem_part(name@),
{
    let v = chars_of(name);
    match find_last_dot(&v) {
        Some(i) => if i > 0 {
            string_of(&v, 0, i)
        } else {
            name.to_owned()
        },
        None => name.to_owned(),
    }
}

/// Takes the extension off a file name.
pub fn extension_of(name: &str) -> (r: Option<String>)
    ensures
        opt_text(r) == extension_part(name@),
{
    let v = chars_of(name);
    match find_last_dot(&v) {
        Some(i) => if i > 0 {
            Some(string_of(&v, i + 1, v.len()))
        } else {
            None
        },
        None => None,
    }
}

proof fn lemma_last_dot(name: Seq<char>)
    ensures
        match last_dot(name) {
            Some(i) => 0 <= i < name.len() && name[i] == '.' && !name.skip(i + 1).contains('.'),
            None => !name.contains('.'),
        },
    decreases name.len(),
{
    if name.len() > 0 && name.last() != '.' {
        let front = name.drop_last();
        lemma_last_dot(front);
        match last_dot(front) {
            Some(i) => {
                let tail = name.skip(i + 1);
                if tail.contains('.') {
                    let k = choose|k: int| 0 <= k < tail.len() && tail[k] == '.';
                    assert(k < tail.len() - 1);
                    assert(front.skip(i + 1)[k] == '.');
                }
            },
            None => {
                if name.contains('.') {
                    let k = choose|k: int| 0 <= k < name.len() && name[k] == '.';
                    assert(front[k] == '.');
                }
            },
        }
    }
}

proof fn lemma_last_dot_is(front: Seq<char>, tail: Seq<char>)
    requires
        !tail.contains('.'),
    ensures
        last_dot(front + seq!['.'] + tail) == Some(front.len() as int),
    decreases tail.len(),
{
    let name = front + seq!['.'] + tail;
    if tail.len() == 0 {
        assert(name.last() == '.');
    } else {
        assert(tail.contains(tail.last()));
        assert(name.last() == tail.last());
        let shorter = tail.drop_last();
        if shorter.contains('.') {
            let k = choose|k: int| 0 <= k < shorter.len() && shorter[k] == '.';
            assert(tail[k] == '.');
        }
        assert(name.drop_last() =~= front + seq!['.'] + shorter);
        lemma_last_dot_is(front, shorter);
    }
}

/// A file name is its stem, a dot and its extension, where it has one, and else
/// its stem alone; an extension holds no dot.
pub proof fn law_stem_and_extension(name: Seq<char>)
    ensures
        match extension_part(name) {
            Some(ext) => name == stem_part(name) + seq!['.'] + ext && !ext.contains('.'),
            None => name == stem_part(name),
        },
{
    lemma_last_dot(name);
    if let Some(ext) = extension_part(name) {
        assert(name =~= stem_part(name) + seq!['.'] + ext);
    }
}

/// A name that is put together from a stem and an extension comes apart into
/// the same two.
pub proof fn law_joined_name_comes_apart(stem: Seq<char>, ext: Seq<char>)
    requires
        stem.len() > 0,
        !ext.contains('.'),
    ensures
        stem_part(stem + seq!['.'] + ext) == stem,
        extension_part(stem + seq!['.'] + ext) == Some(ext),
{
    lemma_last_dot_is(stem, ext);
    let name = stem + seq!['.'] + ext;
    assert(name.take(stem.len() as int) =~= stem);
    assert(name.skip(stem.len() as int + 1) =~= ext);
}

/// A name without a dot has no extension, and neither has one whose only dot is
/// its first character; both are their own stems.
pub proof fn law_names_without_extension(rest: Seq<char>)
    requires
        !rest.contains('.'),
    ensures
        extension_part(rest) is None,
        stem_part(rest) == rest,
        extension_part(seq!['.'] + rest) is None,
        stem_part(seq!['.'] + rest) == seq!['.'] + rest,
{
    lemma_last_dot(rest);
    if let Some(i) = last_dot(rest) {
        assert(rest.contains(rest[i]));
    }
    lemma_last_dot_is(Seq::empty(), rest);
    assert(Seq::<char>::empty() + seq!['.'] + rest =~= seq!['.'] + rest);
}

// ---------------------------------------------------------------------------
// Paths
// ---------------------------------------------------------------------------

/// The text that `Path::file_name` returns for a path.
pub uninterp spec fn path_file_name(path: Seq<char>) -> Option<Seq<char>>;

/// `Path::file_name`: the last component of the path, where that is a name; for
/// a given build of the crate it is a function of the path alone. The name in a
/// path that is text is text, so the conversion back loses nothing.
#[verifier::external_body]
pub(crate) fn file_name(path: &str) -> (r: Option<String>)
    ensures
        opt_text(r) == path_file_name(path@),
{
    match std::path::Path::new(path).file_name() {
        Some(name) => Some(name.to_string_lossy().into_owned()),
        None => None,
    }
}

/// The text of the path that `Path::with_file_name` returns.
pub uninterp spec fn path_with_file_name(path: Seq<char>, name: Seq<char>) -> Seq<char>;

/// `Path::with_file_name`: the path with its last component replaced by the
/// given name; for a given build of the crate it is a function of the path and
/// the name alone. A plain name is the file name of the result, unless the path
/// opens with two separators: there the result can be a bare prefix, which has
/// no file name.
#[verifier::external_body]
pub(crate) fn with_file_name(path: &str, name: &str) -> (r: String)
    ensures
        r@ == path_with_file_name(path@, name@),
        is_plain_name(name@) && !opens_with_two_separators(path@) ==> path_file_name(r@) == Some(
            name@,
        ),
{
    std::path::Path::new(path).with_file_name(name).to_string_lossy().into_owned()
}

/// The text of the path that `Path::with_extension` returns.
pub uninterp spec fn path_with_extension(path: Seq<char>, ext: Seq<char>) -> Seq<char>;

/// `Path::with_extension`: the path with the extension of its last component
/// replaced by the given one, or with it added; a path without a file name
/// stays. For a given build of the crate the result is a function of the path
/// and the extension alone. Nothing more is said of a file name whose stem is a
/// single dot, such as `..mp3`: there the result can be the path of the parent
/// directory. The outside function panics on an extension that holds a path
/// separator, and it takes an empty one for none.
#[verifier::external_body]
pub(crate) fn with_extension(path: &str, ext: &str) -> (r: String)
    requires
        ext@.len() > 0,
        !ext@.contains('/'),
        !ext@.contains('\\'),
    ensures
        r@ == path_with_extension(path@, ext@),
        match path_file_name(path@) {
            Some(name) => stem_part(name) != "."@ ==> path_file_name(r@) == Some(
                stem_part(name) + "."@ + ext@,
            ),
            None => r@ == path@,
        },
{
    std::path::Path::new(path).with_extension(ext).to_string_lossy().into_owned()
}

// ---------------------------------------------------------------------------
// Typed paths
// ---------------------------------------------------------------------------

/// A path as it was meant, when it was typed or dropped into the console: the
/// white space around it is cut off, then the quotation marks are.
pub open spec fn sanitized(typed: Seq<char>) -> Seq<char> {
    trimmed(trimmed(typed, Edge::Whitespace), Edge::Quotes)
}

/// Frees a path of the quotation marks that a console puts around it.
pub fn sanitize_path(path_str: &str) -> (r: String)
    ensures
        r@ == sanitized(path_str@),
{
    let bare = trim(path_str, Edge::Whitespace);
    trim(bare.as_str(), Edge::Quotes)
}

/// A path in quotation marks, with white space around them, is freed of both;
/// white space inside the quotation marks belongs to the path. The path itself
/// neither starts nor ends with a quotation mark.
pub proof fn law_quotes_are_removed(
    before: Seq<char>,
    open: Seq<char>,
    path: Seq<char>,
    close: Seq<char>,
    after: Seq<char>,
)
    requires
        forall|i: int| 0 <= i < before.len() ==> Edge::Whitespace.covers(#[trigger] before[i]),
        forall|i: int| 0 <= i < after.len() ==> Edge::Whitespace.covers(#[trigger] after[i]),
        open.len() > 0,
        close.len() > 0,
        forall|i: int| 0 <= i < open.len() ==> Edge::Quotes.covers(#[trigger] open[i]),
        forall|i: int| 0 <= i < close.len() ==> Edge::Quotes.covers(#[trigger] close[i]),
        path.len() > 0 ==> !Edge::Quotes.covers(path[0]) && !Edge::Quotes.covers(path.last()),
    ensures
        sanitized(before + (open + path + close) + after) == path,
{
    let quoted = open + path + close;
    assert(Edge::Quotes.covers(open[0]));
    assert(Edge::Quotes.covers(close[close.len() - 1]));
    assert(quoted[0] == open[0]);
    assert(quoted.last() == close[close.len() - 1]);
    law_trim_around(before, quoted, after, Edge::Whitespace);
    law_trim_around(open, path, close, Edge::Quotes);
}

proof fn lemma_one_more_quote(t: Seq<char>, q: char)
    requires
        Edge::Quotes.covers(q),
    ensures
        trimmed(t + seq![q], Edge::Quotes) == trimmed(t, Edge::Quotes),
    decreases t.len(),
{
    let longer = t + seq![q];
    if t.len() == 0 {
        assert(longer.skip(1) =~= t);
    } else if Edge::Quotes.covers(t[0]) {
        assert(longer.skip(1) =~= t.skip(1) + seq![q]);
        lemma_one_more_quote(t.skip(1), q);
    } else {
        assert(longer.drop_last() =~= t);
    }
}

/// Quotation marks around a typed path, with white space around them, make no
/// difference, whatever the path is, as long as it neither starts nor ends with
/// white space.
pub proof fn law_quotes_make_no_difference(
    before: Seq<char>,
    q: char,
    path: Seq<char>,
    after: Seq<char>,
)
    requires
        forall|i: int| 0 <= i < before.len() ==> Edge::Whitespace.covers(#[trigger] before[i]),
        forall|i: int| 0 <= i < after.len() ==> Edge::Whitespace.covers(#[trigger] after[i]),
        Edge::Quotes.covers(q),
        trimmed(path, Edge::Whitespace) == path,
    ensures
        sanitized(before + (seq![q] + path + seq![q]) + after) == sanitized(path),
{
    let quoted = seq![q] + path + seq![q];
    assert(quoted[0] == q && quoted.last() == q);
    law_trim_around(before, quoted, after, Edge::Whitespace);
    assert(quoted.skip(1) =~= path + seq![q]);
    lemma_one_more_quote(path, q);
}

/// A path without quotation marks and white space at its ends stays as it is.
pub proof fn law_bare_path_is_kept(path: Seq<char>)
    requires
        path.len() > 0 ==> !Edge::Quotes.covers(path[0]) && !Edge::Quotes.covers(path.last())
            && !Edge::Whitespace.covers(path[0]) && !Edge::Whitespace.covers(path.last()),
    ensures
        sanitized(path) == path,
{
}

/// No quotation mark is left at the ends.
pub proof fn law_no_quotes_at_the_ends(typed: Seq<char>)
    ensures
        sanitized(typed).len() > 0 ==> !Edge::Quotes.covers(sanitized(typed)[0])
            && !Edge::Quotes.covers(sanitized(typed).last()),
{
    law_trimmed_edges(trimmed(typed, Edge::Whitespace), Edge::Quotes);
}

/// Every quotation mark at the ends is removed, on one side alone too, once the
/// white space around the text is cut off; what is left is the path, which may
/// hold both inside.
pub proof fn law_what_is_left_of_a_typed_path(
    before: Seq<char>,
    open: Seq<char>,
    path: Seq<char>,
    close: Seq<char>,
    after: Seq<char>,
)
    requires
        forall|i: int|
            0 <= i < before.len() ==> white_space_codes().contains(#[trigger] before[i] as u32),
        forall|i: int|
            0 <= i < after.len() ==> white_space_codes().contains(#[trigger] after[i] as u32),
        forall|i: int| 0 <= i < open.len() ==> seq!['"', '\''].contains(#[trigger] open[i]),
        forall|i: int| 0 <= i < close.len() ==> seq!['"', '\''].contains(#[trigger] close[i]),
        path.len() > 0 ==> !seq!['"', '\''].contains(path[0]) && !seq!['"', '\''].contains(
            path.last(),
        ),
        open.len() == 0 && path.len() > 0 ==> !white_space_codes().contains(path[0] as u32),
        close.len() == 0 && path.len() > 0 ==> !white_space_codes().contains(path.last() as u32),
    ensures
        sanitized(before + (open + path + close) + after) == path,
{
    let quoted = open + path + close;
    assert forall|i: int| 0 <= i < before.len() implies Edge::Whitespace.covers(
        #[trigger] before[i],
    ) by {
        law_what_is_cut(before[i]);
    }
    assert forall|i: int| 0 <= i < after.len() implies Edge::Whitespace.covers(
        #[trigger] after[i],
    ) by {
        law_what_is_cut(after[i]);
    }
    assert forall|i: int| 0 <= i < open.len() implies Edge::Quotes.covers(#[trigger] open[i]) by {
        law_what_is_cut(open[i]);
    }
    assert forall|i: int| 0 <= i < close.len() implies Edge::Quotes.covers(
        #[trigger] close[i],
    ) by {
        law_what_is_cut(close[i]);
    }
    if path.len() > 0 {
        law_what_is_cut(path[0]);
        law_what_is_cut(path.last());
    }
    if quoted.len() > 0 {
        let first = quoted[0];
        let last = quoted.last();
        assert(!Edge::Whitespace.covers(first)) by {
            if open.len() > 0 {
                assert(Edge::Quotes.covers(open[0]));
            } else if path.len() == 0 {
                assert(Edge::Quotes.covers(close[0]));
            }
        }
        assert(!Edge::Whitespace.covers(last)) by {
            if close.len() > 0 {
                assert(Edge::Quotes.covers(close[close.len() - 1]));
            } else if path.len() == 0 {
                assert(Edge::Quotes.covers(open[open.len() - 1]));
            }
        }
    }
    law_trim_around(before, quoted, after, Edge::Whitespace);
    law_trim_around(open, path, close, Edge::Quotes);
}

} // verus!
