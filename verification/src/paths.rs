use vstd::prelude::*;
use std::path::Path;

verus! {

/// The final component of a path, as `std::path::Path::file_name` finds it
/// (`None` where the path ends in `..`, or has no normal component, such as
/// `/`, `.` or the empty path).
pub uninterp spec fn path_file_name(path: Seq<char>) -> Option<Seq<char>>;

/// A path whose extension is set to the given one, as
/// `std::path::Path::with_extension` builds it.
pub uninterp spec fn path_with_extension(path: Seq<char>, extension: Seq<char>) -> Seq<char>;

/// Index of the last `c` in `s`, or -1 where there is none.
pub open spec fn last_index_of(s: Seq<char>, c: char) -> int
    decreases s.len(),
{
    if s.len() == 0 {
        -1
    } else if s.last() == c {
        s.len() - 1
    } else {
        last_index_of(s.drop_last(), c)
    }
}

/// Index of the last `.` in `name`, or -1 where there is none.
pub open spec fn last_dot(name: Seq<char>) -> int {
    last_index_of(name, '.')
}

/// The text after the last `/` of a path (all of it where there is none).
pub open spec fn final_text(path: Seq<char>) -> Seq<char> {
    path.subrange(last_index_of(path, '/') + 1, path.len() as int)
}

/// Whether the text after the last `/` of a path is a plain name: not empty,
/// not `.` and not `..`. Such a text is the path's file name.
pub open spec fn is_plain_final(path: Seq<char>) -> bool {
    let n = final_text(path);
    &&& n.len() > 0
    &&& !(n.len() == 1 && n[0] == '.')
    &&& !(n.len() == 2 && n[0] == '.' && n[1] == '.')
}

/// Where the file stem of a path with a plain final name ends: before the
/// last `.` of that name, unless the name has no `.` but a leading one, in
/// which case the whole name is the stem.
pub open spec fn stem_end(path: Seq<char>) -> int {
    let start = last_index_of(path, '/') + 1;
    let dot = last_dot(final_text(path));
    if dot <= 0 {
        path.len() as int
    } else {
        start + dot
    }
}

/// What `PathBuf::set_extension` documents for a path with a plain final
/// name: the path up to the end of its file stem, then `.` and the extension
/// (nothing where the extension is empty).
pub open spec fn with_extension_text(path: Seq<char>, extension: Seq<char>) -> Seq<char> {
    path.take(stem_end(path)) + if extension.len() == 0 {
        Seq::empty()
    } else {
        seq!['.'] + extension
    }
}

/// The text `.wav`.
pub open spec fn wav_suffix() -> Seq<char> {
    seq!['.', 'w', 'a', 'v']
}

/// The extension of a file name, as `std::path::Path::extension` documents it:
/// none without a file name, none without a `.`, none where the only `.`
/// begins the name, and otherwise what follows the last `.`.
pub open spec fn extension_of(name: Option<Seq<char>>) -> Option<Seq<char>> {
    match name {
        None => None,
        Some(n) => {
            let dot = last_dot(n);
            if dot <= 0 {
                None
            } else {
                Some(n.subrange(dot + 1, n.len() as int))
            }
        },
    }
}

/// A text, or the empty text for `None`.
pub open spec fn text_or_empty(text: Option<Seq<char>>) -> Seq<char> {
    match text {
        Some(t) => t,
        None => Seq::empty(),
    }
}

/// The file name of `path`, empty where it has none.
pub open spec fn file_name_text(path: Seq<char>) -> Seq<char> {
    text_or_empty(path_file_name(path))
}

/// The extension of `path`, empty where it has none.
pub open spec fn extension_text(path: Seq<char>) -> Seq<char> {
    text_or_empty(extension_of(path_file_name(path)))
}

/// The extensions that mark a file as audio to be summed.
pub open spec fn is_audio_extension(ext: Seq<char>) -> bool {
    ext == "wav"@ || ext == "flac"@ || ext == "mp3"@ || ext == "ogg"@
}

proof fn lemma_last_index_of(s: Seq<char>, c: char)
    ensures
        -1 <= last_index_of(s, c) < s.len(),
        last_index_of(s, c) >= 0 ==> s[last_index_of(s, c)] == c,
        forall|j: int| last_index_of(s, c) < j < s.len() ==> #[trigger] s[j] != c,
    decreases s.len(),
{
    if s.len() > 0 && s.last() != c {
        lemma_last_index_of(s.drop_last(), c);
        assert forall|j: int| last_index_of(s, c) < j < s.len() implies #[trigger] s[j] != c by {
            if j < s.len() - 1 {
                assert(s.drop_last()[j] == s[j]);
            }
        }
    }
}

proof fn lemma_last_index_of_is(s: Seq<char>, c: char, r: int)
    requires
        -1 <= r < s.len(),
        r >= 0 ==> s[r] == c,
        forall|j: int| r < j < s.len() ==> #[trigger] s[j] != c,
    ensures
        last_index_of(s, c) == r,
{
    lemma_last_index_of(s, c);
    let q = last_index_of(s, c);
    if q < r {
        assert(s[r] != c);
    } else if r < q {
        assert(s[q] != c);
    }
}

/// Setting the extension of a path whose final name is plain to `wav`, as
/// `output_file_path` and `Settings::from_args` do: everything up to the final
/// name is kept; a name without an extension gets `.wav` appended, and a
/// name's extension (the text after its last `.` that is not its first
/// character) is replaced by `wav`; the result's final name is plain and its
/// extension is `wav`.
pub proof fn law_output_path_sets_wav_extension(out_file: Seq<char>, path: Seq<char>)
    requires
        is_plain_final(out_file),
        path == out_file.take(stem_end(out_file)) + wav_suffix(),
    ensures
        last_index_of(path, '/') == last_index_of(out_file, '/'),
        path.take(last_index_of(out_file, '/') + 1) == out_file.take(last_index_of(out_file, '/') + 1),
        extension_of(Some(final_text(out_file))) is None ==> path == out_file + wav_suffix(),
        extension_of(Some(final_text(out_file))) matches Some(e)
            ==> path == out_file.take(out_file.len() - e.len()) + seq!['w', 'a', 'v'],
        is_plain_final(path),
        extension_of(Some(final_text(path))) == Some(seq!['w', 'a', 'v']),
{
    let ls = last_index_of(out_file, '/');
    let s0 = ls + 1;
    let n = final_text(out_file);
    let d = last_dot(n);
    let se = stem_end(out_file);
    let stem = out_file.take(se);
    lemma_last_index_of(out_file, '/');
    lemma_last_index_of(n, '.');
    assert(s0 < se <= out_file.len());
    assert(path.len() == se + 4);
    // the last '/' stays where it was
    assert forall|j: int| ls < j < path.len() implies #[trigger] path[j] != '/' by {
        if j < se {
            assert(path[j] == out_file[j]);
        } else {
            assert(path[j] == wav_suffix()[j - se]);
        }
    }
    if ls >= 0 {
        assert(path[ls] == out_file[ls]);
    }
    lemma_last_index_of_is(path, '/', ls);
    assert(path.take(s0) =~= out_file.take(s0));
    // the final name of the result and its last '.'
    let m = final_text(path);
    assert(m =~= n.take(se - s0) + wav_suffix());
    let k = se - s0;
    assert(m[k] == '.');
    assert forall|j: int| k < j < m.len() implies #[trigger] m[j] != '.' by {
        assert(m[j] == wav_suffix()[j - k]);
    }
    lemma_last_index_of_is(m, '.', k);
    assert(m.subrange(k + 1, m.len() as int) =~= seq!['w', 'a', 'v']);
    if d <= 0 {
        assert(stem =~= out_file);
    } else {
        let e = n.subrange(d + 1, n.len() as int);
        assert(out_file[se] == n[d]);
        assert(out_file.take(out_file.len() - e.len()) =~= stem.push('.'));
        assert(path =~= out_file.take(out_file.len() - e.len()) + seq!['w', 'a', 'v']);
    }
}

/// Calls `std::path::Path::file_name` on `path`. Claimed: the result is the
/// named final component; a component of a path given as text is text too;
/// where the text after the last `/` is a plain name, that text is the file
/// name (with `/` as the only separator, as on Unix).
#[verifier::external_body]
fn final_component(path: &str) -> (name: Option<&str>)
    ensures
        match name {
            Some(n) => path_file_name(path@) == Some(n@),
            None => path_file_name(path@) is None,
        },
        is_plain_final(path@) ==> name is Some && name.unwrap()@ == final_text(path@),
{
    Path::new(path).file_name()?.to_str()
}

/// Calls `std::path::Path::extension` on `path`. Claimed: the result is what
/// its documentation gives from the file name (see `extension_of`).
#[verifier::external_body]
fn path_extension(path: &str) -> (ext: Option<&str>)
    ensures
        match ext {
            Some(e) => extension_of(path_file_name(path@)) == Some(e@),
            None => extension_of(path_file_name(path@)) is None,
        },
{
    Path::new(path).extension()?.to_str()
}

/// Calls `std::path::Path::with_extension`. Claimed: the result is the named
/// path; a path built from texts is text too. As `PathBuf::set_extension`
/// documents: a path without a file name is left as it is, and for a path
/// whose final name is plain (with `/` as the only separator, as on Unix) the
/// extension of that name is replaced, or added where it has none. The call
/// panics on an extension that holds a path separator, so such extensions are
/// not admitted.
#[verifier::external_body]
fn with_extension(path: &str, extension: &str) -> (out: String)
    requires
        forall|i: int| 0 <= i < extension@.len() ==> #[trigger] extension@[i] != '/' && extension@[i] != '\\',
    ensures
        out@ == path_with_extension(path@, extension@),
        path_file_name(path@) is None ==> out@ == path@,
        is_plain_final(path@) ==> out@ == with_extension_text(path@, extension@),
{
    Path::new(path).with_extension(extension).to_string_lossy().into_owned()
}

/// The file name of `path`, or `""` where it has none.
pub fn file_name(path: &str) -> (name: &str)
    ensures
        name@ == file_name_text(path@),
        is_plain_final(path@) ==> name@ == final_text(path@),
{
    proof {
        reveal_strlit("");
    }
    match final_component(path) {
        Some(n) => n,
        None => "",
    }
}

/// The extension of `path`, or `""` where it has none.
pub fn file_extension(path: &str) -> (ext: &str)
    ensures
        ext@ == extension_text(path@),
{
    proof {
        reveal_strlit("");
    }
    match path_extension(path) {
        Some(e) => e,
        None => "",
    }
}

/// Whether `path` names a file of one of the audio kinds that are summed:
/// `wav`, `flac`, `mp3` or `ogg`, by its extension (case counts).
pub fn is_audio_file(path: &str) -> (b: bool)
    ensures
        b == is_audio_extension(extension_text(path@)),
{
    let ext = file_extension(path);
    let ext_string = String::from_str(ext);
    let wav = String::from_str("wav");
    let flac = String::from_str("flac");
    let mp3 = String::from_str("mp3");
    let ogg = String::from_str("ogg");
    ext_string == wav || ext_string == flac || ext_string == mp3 || ext_string == ogg
}

/// The output file: `out_file` with its extension set to `wav` (a path
/// without a file name, such as `/` or `..`, is left as it is).
pub fn output_file_path(out_file: &str) -> (path: String)
    ensures
        path@ == path_with_extension(out_file@, "wav"@),
        path_file_name(out_file@) is None ==> path@ == out_file@,
        is_plain_final(out_file@) ==> path@ == out_file@.take(stem_end(out_file@)) + wav_suffix(),
{
    proof {
        reveal_strlit("wav");
        assert(seq!['.'] + "wav"@ =~= wav_suffix());
    }
    with_extension(out_file, "wav")
}

} // verus!
