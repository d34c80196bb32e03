//! File paths, read as `std::path::Path` reads them on Unix.

use vstd::prelude::*;
use crate::output::texts;
use crate::text::{split_char, split_on};

verus! {

/// Whether a piece between slashes names something: empty pieces (from
/// repeated or trailing slashes) and `.` pieces do not.
pub open spec fn is_named(piece: Seq<char>) -> bool {
    piece.len() > 0 && piece != "."@
}

/// The names along a path: the pieces between slashes, without empty and
/// `.` pieces. These are the `Normal` components of `Path::components`,
/// with each `..` kept as `..`; the root and a leading `.`, which come
/// first and are not `Normal`, are left out.
pub open spec fn segments(path: Seq<char>) -> Seq<Seq<char>> {
    split_on(path, '/').filter(|piece: Seq<char>| is_named(piece))
}

/// Whether a path runs through a `.cargo/bin` directory.
pub open spec fn in_cargo_bin(path: Seq<char>) -> bool {
    exists|i: int|
        0 <= i < segments(path).len() - 1 && #[trigger] segments(path)[i] == ".cargo"@
            && segments(path)[i + 1] == "bin"@
}

/// The last component of a path, if it names a file (`Path::file_name`).
pub open spec fn file_name_of(path: Seq<char>) -> Option<Seq<char>> {
    let s = segments(path);
    if s.len() > 0 && s.last() != ".."@ {
        Some(s.last())
    } else {
        None
    }
}

/// Whether a piece names something.
fn named(piece: &String) -> (b: bool)
    ensures
        b == is_named(piece@),
{
    let dot = String::from_str(".");
    proof {
        reveal_strlit(".");
    }
    let n = piece.as_str().unicode_len();
    if n == 0 {
        return false;
    }
    let same = *piece == dot;
    !same
}

/// The names along a path.
pub fn path_segments(path: &str) -> (r: Vec<String>)
    ensures
        texts(r@) == segments(path@),
{
    let pieces = split_char(path, '/');
    let ghost all = split_on(path@, '/');
    let ghost keep = |piece: Seq<char>| is_named(piece);
    let mut out: Vec<String> = Vec::new();
    let mut i: usize = 0;
    assert(all.take(0) =~= Seq::<Seq<char>>::empty());
    proof {
        reveal_with_fuel(Seq::filter, 1);
    }
    while i < pieces.len()
        invariant
            i <= pieces@.len(),
            texts(pieces@) == all,
            keep == (|piece: Seq<char>| is_named(piece)),
            texts(out@) == all.take(i as int).filter(keep),
        decreases pieces@.len() - i,
    {
        let ghost before = out@;
        proof {
            reveal_with_fuel(Seq::filter, 1);
            assert(all.take(i + 1).drop_last() =~= all.take(i as int));
            assert(all.take(i + 1).last() == pieces@[i as int]@);
        }
        if named(&pieces[i]) {
            out.push(pieces[i].clone());
            assert(texts(out@) =~= texts(before).push(pieces@[i as int]@));
        }
        i = i + 1;
    }
    assert(all.take(pieces@.len() as int) =~= all);
    out
}

/// Whether the program at `path` was installed by `cargo install`: the path
/// holds a `.cargo` directory directly followed by `bin`.
pub fn is_cargo_installed(path: &str) -> (b: bool)
    ensures
        b == in_cargo_bin(path@),
{
    let segs = path_segments(path);
    let cargo = String::from_str(".cargo");
    let bin = String::from_str("bin");
    let n = segs.len();
    if n < 2 {
        return false;
    }
    let mut i: usize = 0;
    while i + 1 < n
        invariant
            n == segs@.len() >= 2,
            i + 1 <= n,
            texts(segs@) == segments(path@),
            cargo@ == ".cargo"@,
            bin@ == "bin"@,
            forall|j: int|
                0 <= j < i ==> !(#[trigger] segments(path@)[j] == ".cargo"@ && segments(path@)[j
                    + 1] == "bin"@),
        decreases n - i,
    {
        assert(texts(segs@)[i as int] == segs@[i as int]@);
        assert(texts(segs@)[i + 1] == segs@[i + 1]@);
        if segs[i] == cargo && segs[i + 1] == bin {
            return true;
        }
        i = i + 1;
    }
    false
}

/// Whether an archive entry at `path` is the program itself: its file name
/// is `bugsink`.
pub fn is_program_entry(path: &str) -> (b: bool)
    ensures
        b == (file_name_of(path@) == Some("bugsink"@)),
{
    let segs = path_segments(path);
    let n = segs.len();
    if n == 0 {
        return false;
    }
    let up = String::from_str("..");
    let name = String::from_str("bugsink");
    assert(texts(segs@).last() == segs@[n - 1]@);
    if segs[n - 1] == up {
        return false;
    }
    segs[n - 1] == name
}

} // verus!
