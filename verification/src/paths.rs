//! Where templates live: `<home>/.template/<directory>/<file>`, and where
//! registered and copied files are written.

use vstd::prelude::*;
use vstd::string::StringExecFns;

use crate::names::{
    after_last_dot, copy_file_name, copy_name_spec, extension_of, law_copy_keeps_extension,
    lemma_after_last_dot_concat,
};

verus! {

/// `part` adjoined to `base`, as a Unix path: an absolute `part` replaces
/// `base`; otherwise a `'/'` separates them unless `base` is empty or
/// already ends with one.
pub open spec fn joined(base: Seq<char>, part: Seq<char>) -> Seq<char> {
    if part.len() > 0 && part[0] == '/' {
        part
    } else if base.len() > 0 && base.last() != '/' {
        base.push('/') + part
    } else {
        base + part
    }
}

/// The template root below a home directory.
pub open spec fn template_dir_spec(home: Seq<char>) -> Seq<char> {
    joined(home, ".template"@)
}

/// The directory that holds the templates of one kind.
pub open spec fn extension_dir_spec(home: Seq<char>, dir: Seq<char>) -> Seq<char> {
    joined(template_dir_spec(home), dir)
}

/// Where a file registered in `dir` is stored.
pub open spec fn register_destination_spec(
    home: Seq<char>,
    dir: Seq<char>,
    filename: Seq<char>,
) -> Seq<char> {
    joined(extension_dir_spec(home, dir), filename)
}

/// `part` adjoined to `base`, as `Path::join` does on Unix.
pub fn join_path(base: &str, part: &str) -> (r: String)
    ensures
        r@ == joined(base@, part@),
{
    if !part.is_empty() && part.get_char(0) == '/' {
        return String::from_str(part);
    }
    let base_len = base.unicode_len();
    let mut out = String::from_str(base);
    if base_len > 0 && base.get_char(base_len - 1) != '/' {
        out.append("/");
        proof {
            reveal_strlit("/");
        }
    }
    out.append(part);
    out
}

/// The template root below `home`: `<home>/.template`.
pub fn template_dir_path(home: &str) -> (r: String)
    ensures
        r@ == template_dir_spec(home@),
{
    join_path(home, ".template")
}

/// The directory `<home>/.template/<dir>` that holds the templates of one kind.
pub fn extension_dir_path(home: &str, dir: &str) -> (r: String)
    ensures
        r@ == extension_dir_spec(home@, dir@),
{
    let root = template_dir_path(home);
    join_path(root.as_str(), dir)
}

/// The source and the destination of registering `filename`, taken from the
/// working directory `cwd`, in the directory `dir` below `home`.
pub fn register_paths(cwd: &str, home: &str, dir: &str, filename: &str) -> (r: (String, String))
    ensures
        r.0@ == joined(cwd@, filename@),
        r.1@ == register_destination_spec(home@, dir@, filename@),
{
    let source = join_path(cwd, filename);
    let ext_dir = extension_dir_path(home, dir);
    let destination = join_path(ext_dir.as_str(), filename);
    (source, destination)
}

/// Where a copy of `template_file_name` is written in the working directory
/// `cwd` when the user typed `typed_name`.
pub fn copy_destination(cwd: &str, template_file_name: &str, typed_name: &str) -> (r: String)
    ensures
        r@ == joined(cwd@, copy_name_spec(template_file_name@, typed_name@)),
{
    let name = copy_file_name(template_file_name, typed_name);
    join_path(cwd, name.as_str())
}

/// `dirs::home_dir`: the current user's home directory, turned into a
/// `String` with `to_string_lossy`. Its documentation gives the home as a
/// value of a table (`$HOME` on Linux and macOS, `FOLDERID_Profile` on
/// Windows): on Linux and macOS `$HOME` is used only when it is set and not
/// empty, and an empty home from the password database gives `None`. So a
/// home that comes back is not empty. Which directory it is, and whether one
/// comes back, depends on the environment; that is not claimed.
#[verifier::external_body]
fn home_dir() -> (r: Option<String>)
    ensures
        r matches Some(h) ==> h@.len() > 0,
{
    match dirs::home_dir() {
        Some(path) => Some(path.to_string_lossy().into_owned()),
        None => None,
    }
}

/// The template root below the current user's home directory, or `None` when
/// no home directory is known.
pub fn template_root() -> (r: Option<String>)
    ensures
        r matches Some(p) ==> exists|h: Seq<char>|
            h.len() > 0 && p@ == #[trigger] template_dir_spec(h),
{
    match home_dir() {
        Some(home) => Some(template_dir_path(home.as_str())),
        None => None,
    }
}

/// The directory `<home>/.template/<extension>` below the current user's
/// home directory, or `None` when no home directory is known.
pub fn template_kind_dir(extension: &str) -> (r: Option<String>)
    ensures
        r matches Some(p) ==> exists|h: Seq<char>|
            h.len() > 0 && p@ == #[trigger] extension_dir_spec(h, extension@),
{
    match home_dir() {
        Some(home) => Some(extension_dir_path(home.as_str(), extension)),
        None => None,
    }
}

/// The last dot-separated piece of a joined path is that of the adjoined
/// part, when the part holds a `'.'`.
pub proof fn lemma_joined_keeps_last_piece(base: Seq<char>, part: Seq<char>)
    requires
        part.contains('.'),
    ensures
        after_last_dot(joined(base, part)) == after_last_dot(part),
{
    if part.len() > 0 && part[0] == '/' {
    } else if base.len() > 0 && base.last() != '/' {
        lemma_after_last_dot_concat(base.push('/'), part);
    } else {
        lemma_after_last_dot_concat(base, part);
    }
}

/// A file that has an extension, once registered, is copied back out under
/// a name with that same extension, whatever name the user types.
pub proof fn law_registered_copy_keeps_extension(
    home: Seq<char>,
    dir: Seq<char>,
    filename: Seq<char>,
    typed: Seq<char>,
)
    requires
        filename.contains('.'),
    ensures
        extension_of(copy_name_spec(register_destination_spec(home, dir, filename), typed))
            == extension_of(filename),
{
    let stored = register_destination_spec(home, dir, filename);
    lemma_joined_keeps_last_piece(extension_dir_spec(home, dir), filename);
    law_copy_keeps_extension(stored, typed);
}

/// The template root lies inside the home directory: it is the home, one
/// `'/'` (unless the home already ends with one) and `.template`; so it
/// starts with the whole home and is longer than it.
pub proof fn law_template_root_below_home(home: Seq<char>)
    requires
        home.len() > 0,
    ensures
        home.last() != '/' ==> template_dir_spec(home) == home + seq![
            '/',
            '.',
            't',
            'e',
            'm',
            'p',
            'l',
            'a',
            't',
            'e',
        ],
        home.last() == '/' ==> template_dir_spec(home) == home + seq![
            '.',
            't',
            'e',
            'm',
            'p',
            'l',
            'a',
            't',
            'e',
        ],
        template_dir_spec(home).take(home.len() as int) == home,
        template_dir_spec(home).len() > home.len() + 8,
{
    reveal_strlit(".template");
    let t = template_dir_spec(home);
    if home.last() != '/' {
        assert(home.push('/') + ".template"@ =~= home + seq![
            '/',
            '.',
            't',
            'e',
            'm',
            'p',
            'l',
            'a',
            't',
            'e',
        ]);
    } else {
        assert(home + ".template"@ =~= home + seq![
            '.',
            't',
            'e',
            'm',
            'p',
            'l',
            'a',
            't',
            'e',
        ]);
    }
    assert(t.take(home.len() as int) =~= home);
}

/// Every registered file is stored in the directory named for it below the
/// template root, whether or not its name holds a `'.'`: for a home and a
/// directory name that do not end with `'/'` and a relative file name, the
/// destination is `<home>/.template/<dir>/<filename>`, and the source is
/// `<cwd>/<filename>`.
pub proof fn law_register_destination_in_its_directory(
    cwd: Seq<char>,
    home: Seq<char>,
    dir: Seq<char>,
    filename: Seq<char>,
)
    requires
        home.len() > 0,
        home.last() != '/',
        dir.len() > 0,
        dir[0] != '/',
        dir.last() != '/',
        filename.len() > 0,
        filename[0] != '/',
    ensures
        register_destination_spec(home, dir, filename) == home + seq![
            '/',
            '.',
            't',
            'e',
            'm',
            'p',
            'l',
            'a',
            't',
            'e',
            '/',
        ] + dir + seq!['/'] + filename,
        cwd.len() > 0 && cwd.last() != '/' ==> joined(cwd, filename) == cwd + seq!['/']
            + filename,
{
    law_template_root_below_home(home);
    let root = template_dir_spec(home);
    assert(root.last() == 'e');
    let kind = extension_dir_spec(home, dir);
    assert(kind =~= root.push('/') + dir);
    assert(kind.last() == dir.last());
    assert(register_destination_spec(home, dir, filename) =~= home + seq![
        '/',
        '.',
        't',
        'e',
        'm',
        'p',
        'l',
        'a',
        't',
        'e',
        '/',
    ] + dir + seq!['/'] + filename);
    if cwd.len() > 0 && cwd.last() != '/' {
        assert(cwd.push('/') + filename =~= cwd + seq!['/'] + filename);
    }
}

} // verus!
