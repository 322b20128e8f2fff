//! The command-line options of the agent and how they are checked.
use vstd::prelude::*;

use crate::text::{chars_eq, concat_chars, from_chars, to_chars};

verus! {

/// The options given on the command line.
#[derive(Clone, Debug)]
pub struct Options {
    pub file_extensions: Option<Vec<String>>,
    pub file_types: Option<Vec<String>>,
    pub list_directories: Option<Vec<String>>,
    pub watch_directories: Option<Vec<String>>,
}

/// Why the options were refused, with the message shown.
#[derive(Debug)]
pub enum OptionsError {
    ConflictingOptions(String),
    InvalidDirectory(String),
    InvalidFileType(String),
    InvalidFileExtension(String),
}

/// The `Debug` rendering of a path (`format!("{:?}", path)`).
pub uninterp spec fn debug_rendering(s: Seq<char>) -> Seq<char>;

/// `format!("{:?}", path)` on a path. The contract claims only that the
/// text is the one named [`debug_rendering`], a function of the path alone.
#[verifier::external_body]
fn debug_render(s: &str) -> (res: String)
    ensures
        res@ == debug_rendering(s@),
{
    format!("{:?}", std::path::Path::new(s))
}

/// The extensions and file types that may be asked for.
pub open spec fn valid_extension(e: Seq<char>) -> bool {
    e == "txt"@ || e == "docx"@ || e == "pdf"@ || e == "ai"@ || e == "xlsx"@
}

pub open spec fn valid_file_type(t: Seq<char>) -> bool {
    t == "regular"@ || t == "all"@ || t == "directories"@
}

/// The index of the first `false` in `flags`, if any.
pub open spec fn first_false(flags: Seq<bool>) -> Option<int> {
    if exists|i: int| 0 <= i < flags.len() && !flags[i] {
        Some(choose|i: int| 0 <= i < flags.len() && !flags[i] && forall|j: int| 0 <= j < i ==> flags[j])
    } else {
        None
    }
}

/// The index of the first word of `words` that `ok` refuses, if any.
pub open spec fn first_refused(words: Seq<Seq<char>>, ok: spec_fn(Seq<char>) -> bool) -> Option<int> {
    if exists|i: int| 0 <= i < words.len() && !ok(words[i]) {
        Some(choose|i: int| 0 <= i < words.len() && !ok(words[i]) && forall|j: int| 0 <= j < i ==> ok(words[j]))
    } else {
        None
    }
}

/// The views of a list of strings.
pub open spec fn views(v: Seq<String>) -> Seq<Seq<char>> {
    v.map_values(|s: String| s@)
}

/// The message for a directory that does not exist.
pub open spec fn invalid_directory_message(d: Seq<char>) -> Seq<char> {
    "Specified directory "@ + debug_rendering(d) + " does not exists"@
}

/// What checking the options gives, in the order the checks are made:
/// listing and watching together conflict; then the first listed, then the
/// first watched directory that is not a directory; then the first invalid
/// extension; then the first invalid file type; and otherwise the options
/// are accepted. `list_is_dir[i]` tells whether the i-th directory to list
/// is a directory, `watch_is_dir` likewise.
pub open spec fn check_options_spec(
    options: Options,
    list_is_dir: Seq<bool>,
    watch_is_dir: Seq<bool>,
    res: Result<Options, OptionsError>,
) -> bool {
    if options.list_directories is Some && options.watch_directories is Some {
        res matches Err(OptionsError::ConflictingOptions(m)) && m@
            == "Can't specify both list and watch"@
    } else if options.list_directories is Some && first_false(list_is_dir) is Some {
        res matches Err(OptionsError::InvalidDirectory(m)) && m@ == invalid_directory_message(
            options.list_directories->0@[first_false(list_is_dir)->0]@,
        )
    } else if options.watch_directories is Some && first_false(watch_is_dir) is Some {
        res matches Err(OptionsError::InvalidDirectory(m)) && m@ == invalid_directory_message(
            options.watch_directories->0@[first_false(watch_is_dir)->0]@,
        )
    } else if options.file_extensions is Some && first_refused(
        views(options.file_extensions->0@),
        |e: Seq<char>| valid_extension(e),
    ) is Some {
        res matches Err(OptionsError::InvalidFileExtension(m)) && m@ == "Invalid file extension: "@
            + options.file_extensions->0@[first_refused(
            views(options.file_extensions->0@),
            |e: Seq<char>| valid_extension(e),
        )->0]@
    } else if options.file_types is Some && first_refused(
        views(options.file_types->0@),
        |t: Seq<char>| valid_file_type(t),
    ) is Some {
        res matches Err(OptionsError::InvalidFileType(m)) && m@ == "Invalid file type: "@
            + options.file_types->0@[first_refused(
            views(options.file_types->0@),
            |t: Seq<char>| valid_file_type(t),
        )->0]@
    } else {
        res matches Ok(o) && o == options
    }
}

/// The first index whose flag is `false` is `i`, when `i` is one and every
/// flag before it holds.
proof fn lemma_first_false_at(flags: Seq<bool>, i: int)
    requires
        0 <= i < flags.len(),
        !flags[i],
        forall|j: int| 0 <= j < i ==> flags[j],
    ensures
        first_false(flags) == Some(i),
{
    let c = choose|k: int| 0 <= k < flags.len() && !flags[k] && forall|j: int| 0 <= j < k ==> flags[j];
    assert(c == i) by {
        if c < i {
        } else if c > i {
        }
    }
}

/// The first word that `ok` refuses is the `i`-th, when `ok` refuses it and
/// accepts every word before it.
proof fn lemma_first_refused_at(words: Seq<Seq<char>>, ok: spec_fn(Seq<char>) -> bool, i: int)
    requires
        0 <= i < words.len(),
        !ok(words[i]),
        forall|j: int| 0 <= j < i ==> ok(words[j]),
    ensures
        first_refused(words, ok) == Some(i),
{
    let c = choose|k: int| 0 <= k < words.len() && !ok(words[k]) && forall|j: int| 0 <= j < k ==> ok(words[j]);
    assert(c == i) by {
        if c < i {
        } else if c > i {
        }
    }
}

fn first_non_dir(flags: &Vec<bool>) -> (res: Option<usize>)
    ensures
        match res {
            Some(i) => first_false(flags@) == Some(i as int) && i < flags@.len(),
            None => first_false(flags@) is None,
        },
{
    let mut i: usize = 0;
    while i < flags.len()
        invariant
            i <= flags.len(),
            forall|j: int| 0 <= j < i ==> flags@[j],
        decreases flags.len() - i,
    {
        if !flags[i] {
            proof {
                lemma_first_false_at(flags@, i as int);
            }
            return Some(i);
        }
        i = i + 1;
    }
    None
}

/// Which words a list may hold: extensions, or file types.
pub open spec fn word_is_valid(w: Seq<char>, extensions: bool) -> bool {
    if extensions {
        valid_extension(w)
    } else {
        valid_file_type(w)
    }
}

fn is_valid_word(w: &String, extensions: bool) -> (res: bool)
    ensures
        res == word_is_valid(w@, extensions),
{
    let w = to_chars(w.as_str());
    if extensions {
        chars_eq(&w, &to_chars("txt")) || chars_eq(&w, &to_chars("docx")) || chars_eq(&w, &to_chars("pdf"))
            || chars_eq(&w, &to_chars("ai")) || chars_eq(&w, &to_chars("xlsx"))
    } else {
        chars_eq(&w, &to_chars("regular")) || chars_eq(&w, &to_chars("all")) || chars_eq(
            &w,
            &to_chars("directories"),
        )
    }
}

/// The index of the first word of `words` that is not a valid extension
/// (`extensions`) or file type (otherwise).
fn first_invalid_word(words: &Vec<String>, extensions: bool) -> (res: Option<usize>)
    ensures
        match res {
            Some(i) => i < words@.len() && (if extensions {
                first_refused(views(words@), |e: Seq<char>| valid_extension(e)) == Some(i as int)
            } else {
                first_refused(views(words@), |t: Seq<char>| valid_file_type(t)) == Some(i as int)
            }),
            None => if extensions {
                first_refused(views(words@), |e: Seq<char>| valid_extension(e)) is None
            } else {
                first_refused(views(words@), |t: Seq<char>| valid_file_type(t)) is None
            },
        },
{
    let ghost ws = views(words@);
    let mut i: usize = 0;
    while i < words.len()
        invariant
            i <= words.len(),
            ws == views(words@),
            forall|j: int| 0 <= j < i ==> word_is_valid(#[trigger] ws[j], extensions),
        decreases words.len() - i,
    {
        assert(ws[i as int] == words@[i as int]@);
        if !is_valid_word(&words[i], extensions) {
            proof {
                if extensions {
                    lemma_first_refused_at(ws, |e: Seq<char>| valid_extension(e), i as int);
                } else {
                    lemma_first_refused_at(ws, |t: Seq<char>| valid_file_type(t), i as int);
                }
            }
            return Some(i);
        }
        i = i + 1;
    }
    None
}

fn message(prefix: &str, tail: &String) -> (res: String)
    ensures
        res@ == prefix@ + tail@,
{
    let p = to_chars(prefix);
    let t = to_chars(tail.as_str());
    from_chars(&concat_chars(&p, &t))
}

fn directory_message(d: &String) -> (res: String)
    ensures
        res@ == invalid_directory_message(d@),
{
    let head = to_chars("Specified directory ");
    let shown = debug_render(d.as_str());
    let mid = to_chars(shown.as_str());
    let tail = to_chars(" does not exists");
    let a = concat_chars(&head, &mid);
    from_chars(&concat_chars(&a, &tail))
}

/// Checks the options read from the command line, as
/// [`check_options_spec`] states: `list_is_dir` and `watch_is_dir` tell,
/// for each directory to list and to watch, whether it is a directory.
pub fn check_options(options: Options, list_is_dir: &Vec<bool>, watch_is_dir: &Vec<bool>) -> (res: Result<Options, OptionsError>)
    requires
        options.list_directories matches Some(d) ==> list_is_dir@.len() == d@.len(),
        options.watch_directories matches Some(d) ==> watch_is_dir@.len() == d@.len(),
    ensures
        check_options_spec(options, list_is_dir@, watch_is_dir@, res),
{
    if options.list_directories.is_some() && options.watch_directories.is_some() {
        return Err(OptionsError::ConflictingOptions("Can't specify both list and watch".to_owned()));
    }
    if let Some(dirs) = &options.list_directories {
        if let Some(i) = first_non_dir(list_is_dir) {
            return Err(OptionsError::InvalidDirectory(directory_message(&dirs[i])));
        }
    }
    if let Some(dirs) = &options.watch_directories {
        if let Some(i) = first_non_dir(watch_is_dir) {
            return Err(OptionsError::InvalidDirectory(directory_message(&dirs[i])));
        }
    }
    if let Some(exts) = &options.file_extensions {
        if let Some(i) = first_invalid_word(exts, true) {
            return Err(OptionsError::InvalidFileExtension(message("Invalid file extension: ", &exts[i])));
        }
    }
    if let Some(types) = &options.file_types {
        if let Some(i) = first_invalid_word(types, false) {
            return Err(OptionsError::InvalidFileType(message("Invalid file type: ", &types[i])));
        }
    }
    Ok(options)
}

/// Options are accepted only when they are all valid: not both listing and
/// watching, every directory to list or to watch a directory, every
/// extension and every file type one of those that may be asked for; and
/// accepted options come back unchanged.
pub proof fn lemma_accepted_options_are_valid(
    options: Options,
    list_is_dir: Seq<bool>,
    watch_is_dir: Seq<bool>,
    res: Result<Options, OptionsError>,
)
    requires
        check_options_spec(options, list_is_dir, watch_is_dir, res),
        res is Ok,
    ensures
        res == Ok::<Options, OptionsError>(options),
        !(options.list_directories is Some && options.watch_directories is Some),
        options.list_directories is Some ==> forall|i: int| 0 <= i < list_is_dir.len() ==> #[trigger] list_is_dir[i],
        options.watch_directories is Some ==> forall|i: int| 0 <= i < watch_is_dir.len() ==> #[trigger] watch_is_dir[i],
        options.file_extensions matches Some(e) ==> forall|i: int| 0 <= i < e@.len() ==> valid_extension(#[trigger] e@[i]@),
        options.file_types matches Some(t) ==> forall|i: int| 0 <= i < t@.len() ==> valid_file_type(#[trigger] t@[i]@),
{
    if let Some(e) = options.file_extensions {
        assert forall|i: int| 0 <= i < e@.len() implies valid_extension(#[trigger] e@[i]@) by {
            let ws = views(e@);
            assert(ws[i] == e@[i]@);
            assert(!(0 <= i < ws.len() && !(|w: Seq<char>| valid_extension(w))(ws[i])));
        }
    }
    if let Some(t) = options.file_types {
        assert forall|i: int| 0 <= i < t@.len() implies valid_file_type(#[trigger] t@[i]@) by {
            let ws = views(t@);
            assert(ws[i] == t@[i]@);
            assert(!(0 <= i < ws.len() && !(|w: Seq<char>| valid_file_type(w))(ws[i])));
        }
    }
}

} // verus!
