//! The path and string operations of std and of the `home` crate that the strategies build on.
//!
//! Each is a thin trusted wrapper. Where the result is a function of the arguments alone but
//! takes the platform's path rules or the Unicode tables to state, it is given a name here.

use vstd::prelude::*;

verus! {

/// The path that `Path::join` builds from `base` and `tail` under the target's path rules.
pub uninterp spec fn path_join(base: Seq<char>, tail: Seq<char>) -> Seq<char>;

/// Whether `Path::is_absolute` holds of `p` under the target's path rules.
pub uninterp spec fn path_is_absolute(p: Seq<char>) -> bool;

/// The string that `str::to_lowercase` makes of `s`.
pub uninterp spec fn lowercase_of(s: Seq<char>) -> Seq<char>;

/// Relies on `std::path::Path::join`: appends `tail` to `base`, the result depending on the two
/// paths alone. A path joined from two valid strings is a valid string.
#[verifier::external_body]
pub(crate) fn join_path(base: &str, tail: &str) -> (r: String)
    ensures
        r@ == path_join(base@, tail@),
{
    std::path::Path::new(base).join(tail).to_string_lossy().into_owned()
}

/// Relies on `std::path::Path::is_absolute`: whether `p` is an absolute path, which depends on
/// the path alone.
#[verifier::external_body]
pub(crate) fn is_absolute_path(p: &str) -> (r: bool)
    ensures
        r == path_is_absolute(p@),
{
    std::path::Path::new(p).is_absolute()
}

/// Relies on `str::to_lowercase`: the lowercase form of `s`, which depends on its characters
/// alone.
#[verifier::external_body]
pub(crate) fn to_lowercase(s: &str) -> (r: String)
    ensures
        r@ == lowercase_of(s@),
{
    s.to_lowercase()
}

/// Relies on `home::home_dir`: the current user's home directory, or `None` when the host
/// cannot report one; a directory that is not valid Unicode is converted lossily. It depends
/// on the environment and the user database, so nothing is promised of the value.
#[verifier::external_body]
pub(crate) fn lookup_home_dir() -> (r: Option<String>) {
    home::home_dir().map(|p| p.to_string_lossy().into_owned())
}

} // verus!
