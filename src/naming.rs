//! Names of output files: the input's stem, an optional numeric suffix that
//! keeps a new file from colliding with an existing one, and an extension.
use vstd::prelude::*;
use vstd::string::StringExecFns;

verus! {

/// The decimal digit for `d < 10`.
pub open spec fn digit_char(d: nat) -> char {
    seq!['0', '1', '2', '3', '4', '5', '6', '7', '8', '9'][d as int]
}

/// The decimal writing of `n`, without leading zeros.
pub open spec fn decimal(n: nat) -> Seq<char>
    decreases n,
{
    if n < 10 {
        seq![digit_char(n)]
    } else {
        decimal(n / 10).push(digit_char(n % 10))
    }
}

/// Relies on `ToString::to_string` for `usize`, which writes the number in
/// decimal.
#[verifier::external_body]
fn decimal_text(n: usize) -> (r: String)
    ensures
        r@ == decimal(n as nat),
{
    n.to_string()
}

/// What `Path::file_stem` gives for a path: the file name without its
/// extension, if the path has a file name.
pub uninterp spec fn stem_of(path: Seq<char>) -> Option<Seq<char>>;

/// Relies on `std::path::Path::file_stem`: the final component's name
/// without its extension, or `None` where the path has no file name.
#[verifier::external_body]
fn file_stem(path: &str) -> (r: Option<String>)
    ensures
        match r {
            Some(s) => stem_of(path@) == Some(s@),
            None => stem_of(path@) is None,
        },
{
    std::path::Path::new(path).file_stem().map(|s| s.to_string_lossy().into_owned())
}

/// `s` ends with `tail`.
pub open spec fn ends_with(s: Seq<char>, tail: Seq<char>) -> bool {
    tail.len() <= s.len() && s.subrange(s.len() - tail.len(), s.len() as int) == tail
}

/// Relies on `std::path::Path::join`: the relative `name` is adjoined to
/// `dir` (an absolute one takes its place), so the result ends with `name`.
#[verifier::external_body]
fn join_path(dir: &str, name: &str) -> (r: String)
    ensures
        ends_with(r@, name@),
{
    std::path::Path::new(dir).join(name).to_string_lossy().into_owned()
}

/// The file name `stem.ext`, or `stem-N.ext` with a counter `N`.
pub open spec fn output_name(stem: Seq<char>, ext: Seq<char>, counter: Option<usize>) -> Seq<char> {
    match counter {
        Some(c) => stem + seq!['-'] + decimal(c as nat) + seq!['.'] + ext,
        None => stem + seq!['.'] + ext,
    }
}

/// Builds the file name `stem.ext`, or `stem-N.ext` where a counter `N` is given.
pub fn output_file_name(stem: &str, ext: &str, counter: Option<usize>) -> (r: String)
    ensures
        r@ == output_name(stem@, ext@, counter),
{
    proof {
        reveal_strlit("-");
        reveal_strlit(".");
    }
    let mut name = String::from_str(stem);
    match counter {
        Some(c) => {
            name.append("-");
            let digits = decimal_text(c);
            name.append(digits.as_str());
        },
        None => {},
    }
    name.append(".");
    name.append(ext);
    name
}

/// The path in `dir` of the output made from `input_file`: its stem, the
/// optional counter and the extension `ext`. `None` where `input_file` has
/// no file name.
pub fn output_path(dir: &str, input_file: &str, ext: &str, counter: Option<usize>) -> (r: Option<String>)
    ensures
        r is Some <==> stem_of(input_file@) is Some,
        r matches Some(path) ==> ends_with(path@, output_name(stem_of(input_file@)->0, ext@, counter)),
{
    match file_stem(input_file) {
        Some(stem) => {
            let name = output_file_name(stem.as_str(), ext, counter);
            Some(join_path(dir, name.as_str()))
        },
        None => None,
    }
}

} // verus!
