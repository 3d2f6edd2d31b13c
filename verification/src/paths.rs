//! Names of the files and folders of a baked environment.
//!
//! A path is a string whose parts are separated by `/`.

use crate::cube_face::CubeFace;
use vstd::prelude::*;
use vstd::string::*;

verus! {

/// `name` placed inside `directory`. An empty directory stands for the
/// current one, and a directory that already ends in `/` gets no second one.
pub open spec fn spec_join(directory: Seq<char>, name: Seq<char>) -> Seq<char> {
    if directory.len() == 0 {
        name
    } else if directory.last() == '/' {
        directory + name
    } else {
        directory + seq!['/'] + name
    }
}

/// A base name followed by a dot and an extension.
pub open spec fn spec_with_extension(base: Seq<char>, extension: Seq<char>) -> Seq<char> {
    base + seq!['.'] + extension
}

/// Name of the file that holds a face: `right.png` for +X and `png`.
pub open spec fn spec_face_file_name(face: CubeFace, extension: Seq<char>) -> Seq<char> {
    spec_with_extension(face.spec_file_base_name(), extension)
}

/// The decimal digit for a number below ten.
pub open spec fn spec_digit(d: nat) -> char {
    if d == 0 {
        '0'
    } else if d == 1 {
        '1'
    } else if d == 2 {
        '2'
    } else if d == 3 {
        '3'
    } else if d == 4 {
        '4'
    } else if d == 5 {
        '5'
    } else if d == 6 {
        '6'
    } else if d == 7 {
        '7'
    } else if d == 8 {
        '8'
    } else {
        '9'
    }
}

/// A number written in decimal, without leading zeros.
pub open spec fn spec_decimal(n: nat) -> Seq<char>
    decreases n,
{
    if n < 10 {
        seq![spec_digit(n)]
    } else {
        spec_decimal(n / 10).push(spec_digit(n % 10))
    }
}

fn digit_str(d: u32) -> (s: &'static str)
    requires
        d < 10,
    ensures
        s@ == seq![spec_digit(d as nat)],
{
    proof {
        reveal_strlit("0");
        reveal_strlit("1");
        reveal_strlit("2");
        reveal_strlit("3");
        reveal_strlit("4");
        reveal_strlit("5");
        reveal_strlit("6");
        reveal_strlit("7");
        reveal_strlit("8");
        reveal_strlit("9");
    }
    let s = if d == 0 {
        "0"
    } else if d == 1 {
        "1"
    } else if d == 2 {
        "2"
    } else if d == 3 {
        "3"
    } else if d == 4 {
        "4"
    } else if d == 5 {
        "5"
    } else if d == 6 {
        "6"
    } else if d == 7 {
        "7"
    } else if d == 8 {
        "8"
    } else {
        "9"
    };
    assert(s@ =~= seq![spec_digit(d as nat)]);
    s
}

/// The name of the folder of a mip level: the level's number in decimal.
pub fn level_name(level: u32) -> (name: String)
    ensures
        name@ == spec_decimal(level as nat),
    decreases level,
{
    if level < 10 {
        String::from_str(digit_str(level))
    } else {
        let head = level_name(level / 10);
        let name = head.concat(digit_str(level % 10));
        assert(name@ =~= spec_decimal(level as nat));
        name
    }
}

/// Puts `name` inside `directory`.
pub fn join(directory: &str, name: &str) -> (path: String)
    ensures
        path@ == spec_join(directory@, name@),
{
    let len = directory.unicode_len();
    if len == 0 {
        String::from_str(name)
    } else if directory.get_char(len - 1) == '/' {
        String::from_str(directory).concat(name)
    } else {
        proof {
            reveal_strlit("/");
        }
        let path = String::from_str(directory).concat("/").concat(name);
        assert("/"@ =~= seq!['/']);
        path
    }
}

/// The file name of a face with the given extension.
pub fn face_file_name(face: CubeFace, extension: &str) -> (name: String)
    ensures
        name@ == spec_face_file_name(face, extension@),
{
    proof {
        reveal_strlit(".");
    }
    let name = String::from_str(face.file_base_name()).concat(".").concat(extension);
    assert("."@ =~= seq!['.']);
    name
}

/// The path of a face's file inside a directory.
pub fn face_path(directory: &str, face: CubeFace, extension: &str) -> (path: String)
    ensures
        path@ == spec_join(directory@, spec_face_file_name(face, extension@)),
{
    let name = face_file_name(face, extension);
    join(directory, name.as_str())
}

/// The path of a mip level's folder inside a directory.
pub fn level_path(directory: &str, level: u32) -> (path: String)
    ensures
        path@ == spec_join(directory@, spec_decimal(level as nat)),
{
    let name = level_name(level);
    join(directory, name.as_str())
}

/// A decimal number is never empty and holds nothing but digits, so it can
/// be told apart from any face's file name.
pub proof fn lemma_decimal_is_digits(n: nat)
    ensures
        spec_decimal(n).len() >= 1,
        forall|i: int|
            0 <= i < spec_decimal(n).len() ==> '0' <= #[trigger] spec_decimal(n)[i] <= '9',
    decreases n,
{
    if n >= 10 {
        lemma_decimal_is_digits(n / 10);
    }
}

/// Different numbers are written differently: no two mip levels share a
/// folder.
pub proof fn lemma_decimal_is_one_to_one(a: nat, b: nat)
    requires
        spec_decimal(a) == spec_decimal(b),
    ensures
        a == b,
    decreases a,
{
    if a < 10 && b < 10 {
        assert(spec_decimal(a) == seq![spec_digit(a)]);
        assert(spec_decimal(b) == seq![spec_digit(b)]);
        assert(seq![spec_digit(a)][0] == seq![spec_digit(b)][0]);
    } else if a >= 10 && b >= 10 {
        let sa = spec_decimal(a / 10);
        let sb = spec_decimal(b / 10);
        assert(sa =~= spec_decimal(a).drop_last());
        assert(sb =~= spec_decimal(b).drop_last());
        lemma_decimal_is_one_to_one(a / 10, b / 10);
        assert(spec_decimal(a).last() == spec_digit(a % 10));
        assert(spec_decimal(b).last() == spec_digit(b % 10));
        assert(spec_digit(a % 10) == spec_digit(b % 10));
        assert(a % 10 == b % 10);
        assert(a == 10 * (a / 10) + a % 10);
        assert(b == 10 * (b / 10) + b % 10);
    } else if a >= 10 {
        lemma_decimal_is_digits(a / 10);
        assert(spec_decimal(a).len() >= 2);
        assert(spec_decimal(b).len() == 1);
    } else {
        lemma_decimal_is_digits(b / 10);
        assert(spec_decimal(b).len() >= 2);
        assert(spec_decimal(a).len() == 1);
    }
}

/// Two names placed inside one directory give the same path only if they
/// are the same name.
pub proof fn lemma_join_is_one_to_one(directory: Seq<char>, a: Seq<char>, b: Seq<char>)
    requires
        spec_join(directory, a) == spec_join(directory, b),
    ensures
        a == b,
{
    let prefix = if directory.len() == 0 {
        Seq::<char>::empty()
    } else if directory.last() == '/' {
        directory
    } else {
        directory + seq!['/']
    };
    assert(spec_join(directory, a) =~= prefix + a);
    assert(spec_join(directory, b) =~= prefix + b);
    assert((prefix + a).len() == (prefix + b).len());
    assert forall|i: int| 0 <= i < a.len() implies a[i] == b[i] by {
        assert((prefix + a)[prefix.len() + i] == a[i]);
        assert((prefix + b)[prefix.len() + i] == b[i]);
    }
    assert(a =~= b);
}

/// Every face has a file of its own: inside one directory and with one
/// extension, two faces share a path only if they are the same face.
pub proof fn lemma_faces_have_files_of_their_own(
    directory: Seq<char>,
    extension: Seq<char>,
    a: CubeFace,
    b: CubeFace,
)
    requires
        spec_join(directory, spec_face_file_name(a, extension)) == spec_join(
            directory,
            spec_face_file_name(b, extension),
        ),
    ensures
        a == b,
{
    lemma_join_is_one_to_one(
        directory,
        spec_face_file_name(a, extension),
        spec_face_file_name(b, extension),
    );
    let na = a.spec_file_base_name();
    let nb = b.spec_file_base_name();
    let tail = seq!['.'] + extension;
    assert(spec_face_file_name(a, extension) =~= na + tail);
    assert(spec_face_file_name(b, extension) =~= nb + tail);
    assert((na + tail).len() == (nb + tail).len());
    assert forall|i: int| 0 <= i < na.len() implies na[i] == nb[i] by {
        assert((na + tail)[i] == na[i]);
        assert((nb + tail)[i] == nb[i]);
    }
    assert(na =~= nb);
    crate::cube_face::lemma_faces_are_told_apart(a, b);
}

/// Every mip level has a folder of its own.
pub proof fn lemma_levels_have_folders_of_their_own(directory: Seq<char>, a: nat, b: nat)
    requires
        spec_join(directory, spec_decimal(a)) == spec_join(directory, spec_decimal(b)),
    ensures
        a == b,
{
    lemma_join_is_one_to_one(directory, spec_decimal(a), spec_decimal(b));
    lemma_decimal_is_one_to_one(a, b);
}

} // verus!
