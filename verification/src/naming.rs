use vstd::prelude::*;
use vstd::string::*;

use crate::selection::opt_view;

verus! {

/// The index of the last `.` among the first `n` characters of `name`, or -1.
pub open spec fn last_dot_before(name: Seq<char>, n: int) -> int
    decreases n,
{
    if n <= 0 {
        -1
    } else if name[n - 1] == '.' {
        n - 1
    } else {
        last_dot_before(name, n - 1)
    }
}

/// The stem of a file name: the part before its final `.`; the whole name when
/// it holds no `.`, when its only `.` is its first character, or when it is `..`.
pub open spec fn spec_file_stem(name: Seq<char>) -> Seq<char> {
    let k = last_dot_before(name, name.len() as int);
    if name == seq!['.', '.'] || k <= 0 {
        name
    } else {
        name.subrange(0, k)
    }
}

/// The suffix that turns a sprite's stem into its normal map's file name.
pub open spec fn normal_suffix() -> Seq<char> {
    seq!['_', 'n', 'o', 'r', 'm', 'a', 'l', '.', 'p', 'n', 'g']
}

/// The file name of the normal map that belongs to a sprite file named
/// `file_name`: the sprite's stem followed by `_normal.png`.
pub open spec fn spec_normal_map_name(file_name: Seq<char>) -> Seq<char> {
    spec_file_stem(file_name) + normal_suffix()
}

/// Where no `.` lies among the characters from `j` up to `k`, the last `.`
/// before `k` is the last `.` before `j`.
proof fn lemma_last_dot_skips_dotless(name: Seq<char>, j: int, k: int)
    requires
        0 <= j <= k <= name.len(),
        forall|i: int| j <= i < k ==> name[i] != '.',
    ensures
        last_dot_before(name, k) == last_dot_before(name, j),
    decreases k - j,
{
    if k > j {
        lemma_last_dot_skips_dotless(name, j, k - 1);
    }
}

/// A name without any `.` is its own stem.
pub proof fn lemma_stem_of_dotless_name(name: Seq<char>)
    requires
        !name.contains('.'),
    ensures
        spec_file_stem(name) == name,
{
    assert forall|i: int| 0 <= i < name.len() implies name[i] != '.' by {
        if name[i] == '.' {
            assert(name.contains('.'));
        }
    }
    lemma_last_dot_skips_dotless(name, 0, name.len() as int);
}

/// The stem of `base.ext` is `base`, whatever the extension: the name up to
/// its final `.`, for a non-empty base and an extension without a `.`.
pub proof fn lemma_stem_drops_extension(base: Seq<char>, ext: Seq<char>)
    requires
        base.len() > 0,
        !base.contains('.'),
        !ext.contains('.'),
    ensures
        spec_file_stem(base + seq!['.'] + ext) == base,
        spec_normal_map_name(base + seq!['.'] + ext) == base + normal_suffix(),
{
    let name = base + seq!['.'] + ext;
    let n = base.len() as int;
    assert(name[n] == '.');
    assert forall|i: int| n + 1 <= i < name.len() implies name[i] != '.' by {
        assert(name[i] == ext[i - n - 1]);
        if ext[i - n - 1] == '.' {
            assert(ext.contains('.'));
        }
    }
    lemma_last_dot_skips_dotless(name, n + 1, name.len() as int);
    assert(last_dot_before(name, n + 1) == n);
    if name == seq!['.', '.'] {
        assert(base[0] == name[0]);
        assert(base.contains('.'));
    }
    assert(name.subrange(0, n) =~= base);
}

/// The stem of the file name `name` (see `spec_file_stem`).
pub fn file_stem(name: &str) -> (stem: String)
    ensures
        stem@ == spec_file_stem(name@),
{
    let len = name.unicode_len();
    let mut i = len;
    while i > 0
        invariant
            i <= len == name@.len(),
            last_dot_before(name@, len as int) == last_dot_before(name@, i as int),
        ensures
            i <= len == name@.len(),
            last_dot_before(name@, len as int) == last_dot_before(name@, i as int),
            i == 0 || name@[i - 1] == '.',
        decreases i,
    {
        if name.get_char(i - 1) == '.' {
            break;
        }
        i = i - 1;
    }
    // Here `i - 1` is the last dot, or `i == 0` when there is none.
    assert(last_dot_before(name@, len as int) == i - 1);
    let is_dot_dot = len == 2 && name.get_char(0) == '.' && name.get_char(1) == '.';
    proof {
        if len == 2 && name@[0] == '.' && name@[1] == '.' {
            assert(name@ =~= seq!['.', '.']);
        }
        if name@ == seq!['.', '.'] {
            assert(name@[0] == '.' && name@[1] == '.');
        }
    }
    if is_dot_dot || i <= 1 {
        String::from_str(name)
    } else {
        String::from_str(name.substring_char(0, i - 1))
    }
}

/// The file name of the normal map for a sprite file named `file_name`: the
/// sprite's stem with `_normal.png` appended.
pub fn normal_map_name(file_name: &str) -> (name: String)
    ensures
        name@ == spec_normal_map_name(file_name@),
{
    let mut name = file_stem(file_name);
    let suffix = "_normal.png";
    proof {
        reveal_strlit("_normal.png");
        assert(suffix@ =~= normal_suffix());
    }
    name.append(suffix);
    name
}

/// What `std::path::Path::file_name` gives for a path, converted to a string
/// (invalid UTF-8, which cannot arise from a string path, would be replaced).
/// How a path splits into components is fixed by the platform the crate is
/// built for and reads no state, so within one build the result is a function
/// of the path alone; the splitting rules themselves are not written out.
pub uninterp spec fn spec_path_file_name(path: Seq<char>) -> Option<Seq<char>>;

/// What `std::path::Path::with_file_name` gives for a path and a file name,
/// converted to a string; a function of its two arguments alone within one
/// build, as for `spec_path_file_name`.
pub uninterp spec fn spec_path_with_file_name(path: Seq<char>, name: Seq<char>) -> Seq<char>;

/// The path of the normal map for the sprite at `sprite_path`: `None` when
/// the sprite path has no file name; otherwise the sprite path with its file
/// name replaced by the normal map name of that file name.
pub open spec fn spec_normal_map_path(sprite_path: Seq<char>) -> Option<Seq<char>> {
    match spec_path_file_name(sprite_path) {
        Some(file_name) => Some(
            spec_path_with_file_name(sprite_path, spec_normal_map_name(file_name)),
        ),
        None => None,
    }
}

/// Calls `std::path::Path::file_name` on `path`: the final component of the
/// path, or `None` when the path ends in `..` or has no component. The result
/// is claimed to be `spec_path_file_name` of the path and nothing more, as
/// the splitting depends on the platform.
#[verifier::external_body]
pub(crate) fn path_file_name(path: &str) -> (name: Option<String>)
    ensures
        opt_view(name) == spec_path_file_name(path@),
{
    std::path::Path::new(path).file_name().map(|n| n.to_string_lossy().into_owned())
}

/// Calls `std::path::Path::with_file_name` on `path`: the path with its final
/// component replaced by `name` (or `name` pushed when it has none). The
/// result is claimed to be `spec_path_with_file_name` of the two arguments
/// and nothing more, as the splitting depends on the platform.
#[verifier::external_body]
pub(crate) fn path_with_file_name(path: &str, name: &str) -> (res: String)
    ensures
        res@ == spec_path_with_file_name(path@, name@),
{
    std::path::Path::new(path).with_file_name(name).to_string_lossy().into_owned()
}

/// The path of the normal map that belongs to the sprite at `sprite_path`:
/// the same directory, with the file name replaced by the sprite's stem and
/// `_normal.png`. The sprite path must have a file name.
pub fn generate_normal_map_filename(sprite_path: &str) -> (res: String)
    requires
        spec_path_file_name(sprite_path@) is Some,
    ensures
        spec_normal_map_path(sprite_path@) == Some(res@),
{
    match path_file_name(sprite_path) {
        Some(file_name) => {
            let name = normal_map_name(file_name.as_str());
            path_with_file_name(sprite_path, name.as_str())
        },
        None => {
            assert(false);
            String::new()
        },
    }
}

/// The path of the normal map for the sprite at `sprite_path` when that path
/// has a file name (see `generate_normal_map_filename`); `None` when it has none.
pub fn checked_normal_map_filename(sprite_path: &str) -> (res: Option<String>)
    ensures
        opt_view(res) == spec_normal_map_path(sprite_path@),
{
    match path_file_name(sprite_path) {
        Some(_) => Some(generate_normal_map_filename(sprite_path)),
        None => None,
    }
}

} // verus!
