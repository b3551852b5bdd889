//! Path related types.
//!
//! These aren't used in the API itself, but will be useful to code on both
//! sides of the API, so they live here.

use vstd::prelude::*;
use vstd::seq_lib::*;
use vstd::string::*;

verus! {

/// Is `c` a Unicode control character (category Cc)?
///
/// That is the C0 range below U+0020 together with U+007F and the C1 range
/// up to U+009F.
pub open spec fn is_control_char(c: char) -> bool {
    (c as u32) < 0x20 || (0x7f <= (c as u32) && (c as u32) <= 0x9f)
}

/// Does the text contain a control character anywhere?
pub open spec fn has_control_char(s: Seq<char>) -> bool {
    exists|i: int| 0 <= i < s.len() && is_control_char(s[i])
}

/// The index of the first `:` in `s`; meaningful only when one exists.
pub open spec fn colon_index(s: Seq<char>) -> int {
    s.index_of_first(':')->Some_0
}

/// Does the path carry a drive specifier, i.e. contain a `:`?
pub open spec fn spec_has_drive(s: Seq<char>) -> bool {
    s.contains(':')
}

/// Is the path absolute? Absolute paths are exactly those with a drive
/// specifier.
pub open spec fn spec_is_absolute(s: Seq<char>) -> bool {
    spec_has_drive(s)
}

/// The drive specifier: the text before the first `:`.
/// Meaningful only when `spec_has_drive(s)`.
pub open spec fn spec_drive(s: Seq<char>) -> Seq<char> {
    s.subrange(0, colon_index(s))
}

/// The text after the first `:` when a drive is present, else the whole text.
pub open spec fn spec_remainder(s: Seq<char>) -> Seq<char> {
    if spec_has_drive(s) {
        s.subrange(colon_index(s) + 1, s.len() as int)
    } else {
        s
    }
}

/// Is `s` a well-formed path?
///
/// A path must be non-empty; if it carries a drive specifier, the specifier
/// must contain no `/`, the remainder must contain no further `:` and must be
/// empty or rooted at `/`; without a drive specifier it must not start with
/// `/`; and no character anywhere may be a control character.
pub open spec fn spec_valid_path(s: Seq<char>) -> bool {
    &&& s.len() > 0
    &&& if spec_has_drive(s) {
        &&& !spec_drive(s).contains('/')
        &&& !spec_remainder(s).contains(':')
        &&& (spec_remainder(s).len() == 0 || spec_remainder(s)[0] == '/')
    } else {
        s[0] != '/'
    }
    &&& !has_control_char(s)
}

/// The drive path: the remainder after the drive separator, with an empty
/// remainder (a bare drive) standing for the root `/`; the whole text when
/// no drive is present.
pub open spec fn spec_drive_path(s: Seq<char>) -> Seq<char> {
    if spec_has_drive(s) && spec_remainder(s).len() == 0 {
        seq!['/']
    } else {
        spec_remainder(s)
    }
}

/// Does the drive path contain a `/` separating a directory from a filename?
pub open spec fn spec_has_dir_sep(s: Seq<char>) -> bool {
    spec_drive_path(s).contains('/')
}

/// The index of the last `/` in the drive path; meaningful only when
/// `spec_has_dir_sep(s)`.
pub open spec fn sep_index(s: Seq<char>) -> int {
    spec_drive_path(s).index_of_last('/')->Some_0
}

/// The text before the last `/` of the drive path (possibly empty).
/// Meaningful only when `spec_has_dir_sep(s)`.
pub open spec fn spec_raw_directory(s: Seq<char>) -> Seq<char> {
    spec_drive_path(s).subrange(0, sep_index(s))
}

/// The text after the last `/` of the drive path (possibly empty).
/// Meaningful only when `spec_has_dir_sep(s)`.
pub open spec fn spec_raw_filename(s: Seq<char>) -> Seq<char> {
    spec_drive_path(s).subrange(sep_index(s) + 1, spec_drive_path(s).len() as int)
}

/// The directory portion: the text before the last `/` of the drive path,
/// with an empty portion standing for the root `/`; the whole drive path
/// when it contains no `/` at all.
pub open spec fn spec_directory(s: Seq<char>) -> Seq<char> {
    if spec_has_dir_sep(s) {
        if spec_raw_directory(s).len() == 0 {
            seq!['/']
        } else {
            spec_raw_directory(s)
        }
    } else {
        spec_drive_path(s)
    }
}

/// Does the path name a file (rather than denoting a directory)?
pub open spec fn spec_has_filename(s: Seq<char>) -> bool {
    if spec_has_dir_sep(s) {
        spec_raw_filename(s).len() != 0
    } else {
        true
    }
}

/// The filename portion: the text after the last `/` of the drive path, or
/// the whole drive path when it contains no `/`.
/// Meaningful only when `spec_has_filename(s)`.
pub open spec fn spec_filename(s: Seq<char>) -> Seq<char> {
    if spec_has_dir_sep(s) {
        spec_raw_filename(s)
    } else {
        spec_drive_path(s)
    }
}

/// Does the filename carry an extension, i.e. contain a `.`?
pub open spec fn spec_has_extension(s: Seq<char>) -> bool {
    spec_has_filename(s) && spec_filename(s).contains('.')
}

/// The index of the last `.` in the filename; meaningful only when
/// `spec_has_extension(s)`.
pub open spec fn dot_index(s: Seq<char>) -> int {
    spec_filename(s).index_of_last('.')->Some_0
}

/// The basename: the part of the filename before its last `.` (possibly
/// empty). Meaningful only when `spec_has_extension(s)`.
pub open spec fn spec_basename(s: Seq<char>) -> Seq<char> {
    spec_filename(s).subrange(0, dot_index(s))
}

/// The extension: the part of the filename after its last `.`.
/// Meaningful only when `spec_has_extension(s)`.
pub open spec fn spec_extension(s: Seq<char>) -> Seq<char> {
    spec_filename(s).subrange(dot_index(s) + 1, spec_filename(s).len() as int)
}

/// Find the index of the first occurrence of `c` in `s`, if any.
fn find_first_char(s: &str, c: char) -> (r: Option<usize>)
    ensures
        match r {
            Some(i) => {
                &&& s@.contains(c)
                &&& s@.index_of_first(c) == Some(i as int)
                &&& 0 <= i < s@.len()
                &&& s@[i as int] == c
            },
            None => !s@.contains(c),
        },
{
    let n = s.unicode_len();
    let mut i: usize = 0;
    while i < n
        invariant
            n == s@.len(),
            0 <= i <= n,
            forall|j: int| 0 <= j < i ==> s@[j] != c,
        decreases n - i,
    {
        if s.get_char(i) == c {
            proof {
                s@.index_of_first_ensures(c);
            }
            return Some(i);
        }
        i = i + 1;
    }
    None
}

/// Find the index of the last occurrence of `c` in `s`, if any.
fn find_last_char(s: &str, c: char) -> (r: Option<usize>)
    ensures
        match r {
            Some(i) => {
                &&& s@.contains(c)
                &&& s@.index_of_last(c) == Some(i as int)
                &&& 0 <= i < s@.len()
                &&& s@[i as int] == c
            },
            None => !s@.contains(c),
        },
{
    let n = s.unicode_len();
    let mut i: usize = n;
    while i > 0
        invariant
            n == s@.len(),
            0 <= i <= n,
            forall|j: int| i <= j < n ==> s@[j] != c,
        decreases i,
    {
        i = i - 1;
        if s.get_char(i) == c {
            proof {
                s@.index_of_last_ensures(c);
            }
            return Some(i);
        }
    }
    None
}

/// Is `c` a control character? Mirrors the Unicode Cc category.
fn char_is_control(c: char) -> (r: bool)
    ensures
        r == is_control_char(c),
{
    let u = c as u32;
    u < 0x20 || (0x7f <= u && u <= 0x9f)
}

/// Does `s` contain a control character anywhere?
fn contains_control_char(s: &str) -> (r: bool)
    ensures
        r == has_control_char(s@),
{
    let n = s.unicode_len();
    let mut i: usize = 0;
    while i < n
        invariant
            n == s@.len(),
            0 <= i <= n,
            forall|j: int| 0 <= j < i ==> !is_control_char(s@[j]),
        decreases n - i,
    {
        if char_is_control(s.get_char(i)) {
            return true;
        }
        i = i + 1;
    }
    false
}

/// Represents a path to a file.
///
/// Paths use the following format:
///
/// `<drive>:/[<directory>/]...<filename>.<extension>`
///
/// Unlike on MS-DOS, the `drive` specifier portion is not limited to a single
/// ASCII letter and can be any UTF-8 string that does not contain `:` or `/`.
///
/// Typically drives will look like `DEV:` or `HD0:`, but that's not enforced
/// here.
///
/// Paths are a sub-set of UTF-8 strings in this API, but be aware that not
/// all filesystems support all Unicode characters. This API expressly
/// disallows control characters (notably UTF-8 codepoints below 32) to avoid
/// confusion, but non-ASCII codepoints are accepted.
///
/// Paths are case-preserving: the stored text is exactly the text that was
/// validated, with no trimming or normalisation.
///
/// Files and Directories generally have distinct APIs, so a directory is
/// normally written with a trailing `/`; a path with a trailing `/` has no
/// filename portion.
#[derive(Debug)]
pub struct Path {
    raw: String,
}

impl View for Path {
    type V = Seq<char>;

    closed spec fn view(&self) -> Seq<char> {
        self.raw@
    }
}

impl Path {
    /// The character that separates one directory name from another
    /// directory name.
    pub const PATH_SEP: char = '/';

    /// The character that separates drive specifiers from directories.
    pub const DRIVE_SEP: char = ':';

    /// Well-formedness: the stored text satisfies the path grammar.
    pub open spec fn wf(&self) -> bool {
        spec_valid_path(self@)
    }

    #[verifier::type_invariant]
    spec fn type_inv(self) -> bool {
        spec_valid_path(self.raw@)
    }

    /// Create a path from a string.
    ///
    /// Returns `Ok` exactly when the string satisfies the path grammar, and
    /// `Err(Error::InvalidPath)` otherwise; the constructed path stores the
    /// given text unchanged.
    pub fn new(path_str: &str) -> (r: Result<Path, crate::Error>)
        ensures
            r is Ok <==> spec_valid_path(path_str@),
            r matches Ok(p) ==> p@ == path_str@ && p.wf(),
            r matches Err(e) ==> e == crate::Error::InvalidPath,
    {
        let n = path_str.unicode_len();
        if n == 0 {
            // No empty paths
            return Err(crate::Error::InvalidPath);
        }
        match find_first_char(path_str, ':') {
            Some(ci) => {
                let drive = path_str.substring_char(0, ci);
                if find_first_char(drive, '/').is_some() {
                    // No slashes in drive specifier
                    return Err(crate::Error::InvalidPath);
                }
                let rest = path_str.substring_char(ci + 1, n);
                if find_first_char(rest, ':').is_some() {
                    // No colons in directory path
                    return Err(crate::Error::InvalidPath);
                }
                if rest.unicode_len() > 0 && rest.get_char(0) != '/' {
                    // No relative paths if drive is specified. An empty
                    // path is OK (it means "/")
                    return Err(crate::Error::InvalidPath);
                }
            }
            None => {
                if path_str.get_char(0) == '/' {
                    // No absolute paths if drive is not specified
                    return Err(crate::Error::InvalidPath);
                }
            }
        }
        if contains_control_char(path_str) {
            // No control characters allowed
            return Err(crate::Error::InvalidPath);
        }
        Ok(Path { raw: path_str.to_owned() })
    }

    /// Is this an absolute path?
    ///
    /// Absolute paths have drive specifiers. Relative paths do not.
    pub fn is_absolute_path(&self) -> (r: bool)
        ensures
            r == spec_is_absolute(self@),
    {
        self.drive_specifier().is_some()
    }

    /// Get the drive specifier for this path.
    ///
    /// * A path like `DS0:/FOO/BAR.TXT` has a drive specifier of `DS0`.
    /// * A path like `BAR.TXT` has no drive specifier.
    pub fn drive_specifier(&self) -> (r: Option<&str>)
        ensures
            r is Some == spec_has_drive(self@),
            r matches Some(d) ==> d@ == spec_drive(self@),
    {
        match find_first_char(self.raw.as_str(), ':') {
            Some(ci) => Some(self.raw.as_str().substring_char(0, ci)),
            None => None,
        }
    }

    /// Get the drive path portion.
    ///
    /// That is, everything after the drive specifier. A bare drive like
    /// `HD0:` reports the root `/`; a path with no drive specifier reports
    /// the whole text. This never returns `None` for a constructed path.
    pub fn drive_path(&self) -> (r: Option<&str>)
        ensures
            r matches Some(d) && d@ == spec_drive_path(self@),
    {
        let s = self.raw.as_str();
        let n = s.unicode_len();
        match find_first_char(s, ':') {
            Some(ci) => {
                if ci + 1 == n {
                    // Bare drives are assumed to be at the root
                    let root = "/";
                    proof {
                        reveal_strlit("/");
                        assert(root@ =~= seq!['/']);
                    }
                    Some(root)
                } else {
                    Some(s.substring_char(ci + 1, n))
                }
            }
            None => Some(s),
        }
    }

    /// Get the directory portion of this path.
    ///
    /// * A path like `DS0:/FOO/BAR.TXT` has a directory portion of `/FOO`.
    /// * A path like `DS0:/FOO/BAR/` has a directory portion of `/FOO/BAR`.
    /// * A path like `BAR.TXT` reports itself as its directory portion: when
    ///   the drive path contains no `/` at all, the whole drive path doubles
    ///   as the directory.
    pub fn directory(&self) -> (r: Option<&str>)
        ensures
            r matches Some(d) && d@ == spec_directory(self@),
    {
        let dp = match self.drive_path() {
            Some(dp) => dp,
            None => return None,
        };
        match find_last_char(dp, '/') {
            Some(li) => {
                if li == 0 {
                    // An empty portion before the separator means the root
                    let root = "/";
                    proof {
                        reveal_strlit("/");
                        assert(root@ =~= seq!['/']);
                    }
                    Some(root)
                } else {
                    Some(dp.substring_char(0, li))
                }
            }
            None => Some(dp),
        }
    }

    /// Get the filename portion of this path. This filename will include the
    /// file extension, if any.
    ///
    /// * A path like `DS0:/FOO/BAR.TXT` has a filename portion of `BAR.TXT`.
    /// * A path like `DS0:/FOO/` has no filename portion (so it's important
    ///   directories have a trailing `/`).
    /// * A path like `BAR.TXT` reports the whole drive path as its filename,
    ///   mirroring the directory fallback.
    pub fn filename(&self) -> (r: Option<&str>)
        ensures
            r is Some == spec_has_filename(self@),
            r matches Some(f) ==> f@ == spec_filename(self@),
    {
        let dp = match self.drive_path() {
            Some(dp) => dp,
            None => return None,
        };
        let m = dp.unicode_len();
        match find_last_char(dp, '/') {
            Some(li) => {
                if li + 1 == m {
                    None
                } else {
                    Some(dp.substring_char(li + 1, m))
                }
            }
            None => Some(dp),
        }
    }

    /// Get the filename extension portion of this path.
    ///
    /// * A path like `DS0:/FOO/BAR.TXT` has an extension of `TXT`.
    /// * A path like `DS0:/FOO/BAR` has no extension.
    pub fn extension(&self) -> (r: Option<&str>)
        ensures
            r is Some == spec_has_extension(self@),
            r matches Some(e) ==> e@ == spec_extension(self@),
    {
        let f = match self.filename() {
            Some(f) => f,
            None => return None,
        };
        let m = f.unicode_len();
        match find_last_char(f, '.') {
            Some(di) => Some(f.substring_char(di + 1, m)),
            None => None,
        }
    }

    /// View this [`Path`] as a string-slice.
    pub fn as_str(&self) -> (r: &str)
        ensures
            r@ == self@,
    {
        self.raw.as_str()
    }
}

/// Law: a path is absolute exactly when it carries a drive specifier.
///
/// `is_absolute_path` answers `spec_is_absolute` and `drive_specifier`
/// returns `Some` exactly when `spec_has_drive` holds, so the two queries
/// always agree.
pub proof fn lemma_absolute_iff_drive(s: Seq<char>)
    ensures
        spec_is_absolute(s) == spec_has_drive(s),
{
}

/// Law: a string containing a control character is never a valid path,
/// whatever its structure otherwise.
pub proof fn lemma_control_char_rejected(s: Seq<char>)
    requires
        has_control_char(s),
    ensures
        !spec_valid_path(s),
{
}

/// Law: structural round-trip. The components read back from a valid path
/// reassemble into the original text under the grammar:
///
/// * the drive specifier, `:` and the remainder concatenate to the whole
///   text (or, with no drive, the drive path is the whole text);
/// * the drive path is the remainder, except that a bare drive stands for
///   the root `/`;
/// * the raw directory portion, `/` and the raw filename portion concatenate
///   to the drive path (or, with no `/`, the whole drive path doubles as
///   both directory and filename);
/// * the reported directory is the raw portion, except that an empty raw
///   portion stands for the root `/`; the reported filename is the raw
///   portion, absent when that portion is empty;
/// * when an extension is present, the basename, `.` and the extension
///   concatenate to the filename.
pub proof fn lemma_structural_round_trip(s: Seq<char>)
    requires
        spec_valid_path(s),
    ensures
        spec_has_drive(s) ==> s == spec_drive(s) + seq![':'] + spec_remainder(s),
        !spec_has_drive(s) ==> spec_drive_path(s) == s,
        spec_has_drive(s) && spec_remainder(s).len() == 0 ==> spec_drive_path(s) == seq!['/'],
        spec_remainder(s).len() > 0 ==> spec_drive_path(s) == spec_remainder(s),
        spec_has_dir_sep(s) ==> spec_drive_path(s) == spec_raw_directory(s) + seq!['/']
            + spec_raw_filename(s),
        !spec_has_dir_sep(s) ==> spec_directory(s) == spec_drive_path(s) && spec_has_filename(s)
            && spec_filename(s) == spec_drive_path(s),
        spec_has_dir_sep(s) && spec_raw_directory(s).len() == 0 ==> spec_directory(s) == seq!['/'],
        spec_has_dir_sep(s) && spec_raw_directory(s).len() > 0 ==> spec_directory(s)
            == spec_raw_directory(s),
        spec_has_filename(s) == (!spec_has_dir_sep(s) || spec_raw_filename(s).len() > 0),
        spec_has_dir_sep(s) && spec_has_filename(s) ==> spec_filename(s) == spec_raw_filename(s),
        spec_has_extension(s) ==> spec_filename(s) == spec_basename(s) + seq!['.']
            + spec_extension(s),
{
    if spec_has_drive(s) {
        s.index_of_first_ensures(':');
        assert(s =~= spec_drive(s) + seq![':'] + s.subrange(
            colon_index(s) + 1,
            s.len() as int,
        ));
    }
    let dp = spec_drive_path(s);
    if spec_has_dir_sep(s) {
        dp.index_of_last_ensures('/');
        assert(dp =~= spec_raw_directory(s) + seq!['/'] + spec_raw_filename(s));
    }
    if spec_has_extension(s) {
        let f = spec_filename(s);
        f.index_of_last_ensures('.');
        assert(f =~= spec_basename(s) + seq!['.'] + spec_extension(s));
    }
}

} // verus!

