//! Expansion of what a text borrows from its surroundings: variables of the
//! environment and the home directory.

use std::path::{Path, PathBuf};
use vstd::prelude::*;

verus! {

/// Trusted: makes `std::path::PathBuf` known to the verifier as an opaque
/// type.
#[verifier::external_type_specification]
#[verifier::external_body]
pub struct ExPathBuf(std::path::PathBuf);

/// Replaces the variables of the environment that `text` names by their
/// values. Fails where a variable cannot be had; the error is its message.
///
/// Trusted: calls `shellexpand::env`. Input without a dollar sign names no
/// variable and comes back as it went in, whatever the environment holds.
/// Of any other input the outcome depends on the environment, so nothing is
/// claimed about it.
#[verifier::external_body]
pub(crate) fn expand_env(text: &str) -> (res: Result<String, String>)
    ensures
        res matches Ok(expanded) ==> text@.contains('$') || expanded@ == text@,
        res is Err ==> text@.contains('$'),
{
    match shellexpand::env(text) {
        Ok(expanded) => Ok(expanded.into_owned()),
        Err(e) => Err(e.to_string()),
    }
}

/// The path that a text spells: what `PathBuf::from` makes of the text.
pub uninterp spec fn path_of(text: Seq<char>) -> PathBuf;

/// Whether a path asks for something to be put into it: it names a variable,
/// which takes a dollar sign, or it begins with a tilde, which may stand for
/// the home directory.
pub open spec fn asks_for_expansion(path: Seq<char>) -> bool {
    path.contains('$') || (path.len() > 0 && path[0] == '~')
}

/// Replaces the variables of the environment that a path names by their
/// values, and a tilde in front by the home directory. Fails where a
/// variable cannot be had; the error is its message.
///
/// Trusted: calls `shellexpand::path::full` on the path that the text
/// spells. Input without a tilde in front and without variables comes back
/// as it went in, whatever the environment holds. Of any other input the
/// outcome depends on the environment, so nothing is claimed about it.
#[verifier::external_body]
pub(crate) fn expand_path(path: &str) -> (res: Result<PathBuf, String>)
    ensures
        res matches Ok(expanded) ==> asks_for_expansion(path@) || expanded == path_of(path@),
        res is Err ==> asks_for_expansion(path@),
{
    match shellexpand::path::full(Path::new(path)) {
        Ok(expanded) => Ok(expanded.into_owned()),
        Err(e) => Err(e.to_string()),
    }
}

} // verus!
