//! Crate names, the claims that cover them, and the paths derived from them.

use crate::error::{bad_request, AppError};
use crate::text::{chars_of, has_prefix, same_text};
use crate::version::{parse_version, SemVersion};
use vstd::prelude::*;
use vstd::string::*;

verus! {

use crate::error::Fault;
use crate::text::{begins_with, is_digit, is_lower};
use crate::version::{semver_reading, writes_version, Release};
use vstd::utf8::encode_utf8;

/// The longest crate name, in bytes.
pub const MAX_NAME_BYTES: usize = 64;

/// A character that a crate name may hold.
pub open spec fn is_name_char(ch: char) -> bool {
    is_lower(ch) || is_digit(ch) || ch == '_' || ch == '-'
}

/// Every character may stand in a crate name.
pub open spec fn all_name_chars(text: Seq<char>) -> bool {
    forall|i: int| 0 <= i < text.len() ==> is_name_char(#[trigger] text[i])
}

/// What is wrong with a crate name; the first fault counts.
pub open spec fn name_fault(name: Seq<char>) -> Option<Fault> {
    if name.len() == 0 || encode_utf8(name).len() > MAX_NAME_BYTES {
        Some(Fault::BadRequest("invalid crate name length"@))
    } else if !is_lower(name[0]) {
        Some(Fault::BadRequest("crate name must start with an ASCII lowercase letter"@))
    } else if !all_name_chars(name) {
        Some(Fault::BadRequest("crate name contains unsupported characters"@))
    } else {
        None
    }
}

/// A name under which a crate can be published.
pub open spec fn valid_name(name: Seq<char>) -> bool {
    name_fault(name) is None
}

/// The pattern ends with a star, which stands for any ending.
pub open spec fn is_prefix_pattern(pattern: Seq<char>) -> bool {
    pattern.len() > 0 && pattern.last() == '*'
}

/// What is wrong with a claim pattern.
pub open spec fn pattern_fault(pattern: Seq<char>) -> Option<Fault> {
    if pattern == "*"@ {
        None
    } else if is_prefix_pattern(pattern) {
        if pattern.len() == 1 || !all_name_chars(pattern.drop_last()) {
            Some(Fault::BadRequest("invalid crate claim pattern"@))
        } else {
            None
        }
    } else {
        name_fault(pattern)
    }
}

/// The crates that a claim pattern covers: all of them, the one it names, or
/// those that begin with what stands before its star.
pub open spec fn covers(pattern: Seq<char>, crate_name: Seq<char>) -> bool {
    ||| pattern == "*"@
    ||| pattern == crate_name
    ||| is_prefix_pattern(pattern) && begins_with(crate_name, pattern.drop_last())
}

/// The name with every hyphen turned into an underscore.
pub open spec fn normalized(name: Seq<char>) -> Seq<char> {
    name.map_values(
        |ch: char|
            if ch == '-' {
                '_'
            } else {
                ch
            },
    )
}

/// Where the sparse index keeps a crate. Names of one, two and three
/// characters have directories of their own.
pub open spec fn index_path(name: Seq<char>) -> Seq<char> {
    if name.len() == 1 {
        "1/"@ + name
    } else if name.len() == 2 {
        "2/"@ + name
    } else if name.len() == 3 {
        "3/"@ + name.take(1) + "/"@ + name
    } else {
        name.take(2) + "/"@ + name.subrange(2, 4) + "/"@ + name
    }
}

/// What follows the last slash of a path.
pub open spec fn last_segment(path: Seq<char>) -> Seq<char>
    decreases path.len(),
{
    if path.len() == 0 || path.last() == '/' {
        Seq::empty()
    } else {
        last_segment(path.drop_last()).push(path.last())
    }
}

/// What is wrong with a path of the sparse index.
pub open spec fn index_path_fault(path: Seq<char>) -> Option<Fault> {
    let name = last_segment(path);
    if name.len() == 0 {
        Some(Fault::NotFound)
    } else if !valid_name(name) {
        name_fault(name)
    } else if index_path(name) != path {
        Some(Fault::NotFound)
    } else {
        None
    }
}

/// The file name of a published crate version.
pub open spec fn filename(name: Seq<char>, version: Seq<char>) -> Seq<char> {
    name + "-"@ + version + ".crate"@
}

/// What is wrong with a crate name and a version, where `reading` is what the
/// version reads as.
pub open spec fn release_fault(name: Seq<char>, reading: Option<Release>) -> Option<Fault> {
    if !valid_name(name) {
        name_fault(name)
    } else if reading is None {
        Some(Fault::BadRequest("crate version must be semver"@))
    } else {
        None
    }
}

fn is_name_character(ch: char) -> (accepted: bool)
    ensures
        accepted == is_name_char(ch),
{
    ('a' <= ch && ch <= 'z') || ('0' <= ch && ch <= '9') || ch == '_' || ch == '-'
}

/// Whether the first `end` characters may all stand in a crate name.
fn all_name_characters(chars: &[char], end: usize) -> (accepted: bool)
    requires
        end <= chars@.len(),
    ensures
        accepted == all_name_chars(chars@.take(end as int)),
{
    let mut i: usize = 0;
    while i < end
        invariant
            i <= end <= chars@.len(),
            forall|k: int| 0 <= k < i ==> is_name_char(#[trigger] chars@[k]),
        decreases end - i,
    {
        if !is_name_character(chars[i]) {
            proof {
                assert(!is_name_char(chars@.take(end as int)[i as int]));
            }
            return false;
        }
        i = i + 1;
    }
    true
}

/// Checks that a crate can be published under the name.
pub fn validate_crate_name(name: &str) -> (result: Result<(), AppError>)
    ensures
        match result {
            Ok(()) => name_fault(name@) is None,
            Err(error) => name_fault(name@) == Some(error@),
        },
{
    let length: usize = name.as_bytes().len();
    if name.is_empty() || length > MAX_NAME_BYTES {
        return Err(bad_request("invalid crate name length"));
    }
    let chars = chars_of(name);
    let first = chars[0];
    if !('a' <= first && first <= 'z') {
        return Err(bad_request("crate name must start with an ASCII lowercase letter"));
    }
    proof {
        assert(chars@.take(chars@.len() as int) == name@);
    }
    if !all_name_characters(&chars, chars.len()) {
        return Err(bad_request("crate name contains unsupported characters"));
    }
    Ok(())
}

/// Checks that a token can claim the pattern: `*`, a prefix followed by `*`, or
/// a crate name.
pub fn validate_claim_pattern(pattern: &str) -> (result: Result<(), AppError>)
    ensures
        match result {
            Ok(()) => pattern_fault(pattern@) is None,
            Err(error) => pattern_fault(pattern@) == Some(error@),
        },
{
    if same_text(pattern, "*") {
        return Ok(());
    }
    let chars = chars_of(pattern);
    let length: usize = chars.len();
    if length > 0 && chars[length - 1] == '*' {
        proof {
            assert(chars@.take(length - 1) == pattern@.drop_last());
        }
        if length == 1 || !all_name_characters(&chars, length - 1) {
            return Err(bad_request("invalid crate claim pattern"));
        }
        return Ok(());
    }
    validate_crate_name(pattern)
}

/// Whether a claim with the pattern covers the crate.
pub fn claim_matches(pattern: &str, crate_name: &str) -> (matched: bool)
    ensures
        matched == covers(pattern@, crate_name@),
{
    if same_text(pattern, "*") || same_text(pattern, crate_name) {
        return true;
    }
    let mut prefix = chars_of(pattern);
    match prefix.pop() {
        Some(last) => last == '*' && has_prefix(crate_name, &prefix),
        None => false,
    }
}

/// The name under which crates that differ only in hyphens and underscores
/// collide.
pub fn normalized_name(name: &str) -> (normal: String)
    ensures
        normal@ == normalized(name@),
{
    let chars = chars_of(name);
    let mut normal = String::new();
    let mut i: usize = 0;
    while i < chars.len()
        invariant
            i <= chars.len(),
            chars@ == name@,
            normal@ == normalized(name@.take(i as int)),
        decreases chars.len() - i,
    {
        if chars[i] == '-' {
            normal.push('_');
        } else {
            normal.push(chars[i]);
        }
        i = i + 1;
        proof {
            assert(normal@ == normalized(name@.take(i as int)));
        }
    }
    proof {
        assert(name@.take(i as int) == name@);
    }
    normal
}

/// The path of a crate's file in the sparse index.
pub fn sparse_index_path(name: &str) -> (result: Result<String, AppError>)
    ensures
        match result {
            Ok(path) => valid_name(name@) && path@ == index_path(name@),
            Err(error) => name_fault(name@) == Some(error@),
        },
{
    validate_crate_name(name)?;
    let length: usize = name.unicode_len();
    let mut path = String::new();
    if length == 1 {
        path.append("1/");
    } else if length == 2 {
        path.append("2/");
    } else if length == 3 {
        path.append("3/");
        path.append(name.substring_char(0, 1));
        path.append("/");
    } else {
        path.append(name.substring_char(0, 2));
        path.append("/");
        path.append(name.substring_char(2, 4));
        path.append("/");
    }
    path.append(name);
    Ok(path)
}

/// The characters after the last slash.
fn name_part(path: &str) -> (name: String)
    ensures
        name@ == last_segment(path@),
{
    let chars = chars_of(path);
    let mut name = String::new();
    let mut i: usize = 0;
    while i < chars.len()
        invariant
            i <= chars.len(),
            chars@ == path@,
            name@ == last_segment(path@.take(i as int)),
        decreases chars.len() - i,
    {
        proof {
            assert(path@.take(i + 1).drop_last() == path@.take(i as int));
        }
        if chars[i] == '/' {
            name = String::new();
        } else {
            name.push(chars[i]);
        }
        i = i + 1;
    }
    proof {
        assert(path@.take(i as int) == path@);
    }
    name
}

/// The crate whose file in the sparse index has the path.
pub fn crate_name_from_sparse_path(path: &str) -> (result: Result<String, AppError>)
    ensures
        match result {
            Ok(name) => index_path_fault(path@) is None && name@ == last_segment(path@),
            Err(error) => index_path_fault(path@) == Some(error@),
        },
{
    let name = name_part(path);
    if name.as_str().is_empty() {
        return Err(AppError::NotFound);
    }
    let expected = sparse_index_path(name.as_str())?;
    if !same_text(expected.as_str(), path) {
        return Err(AppError::NotFound);
    }
    Ok(name)
}

/// Checks a crate name and what its version was read as.
pub fn check_release(name: &str, reading: Result<SemVersion, semver::Error>) -> (result: Result<
    SemVersion,
    AppError,
>)
    ensures
        match result {
            Ok(version) => release_fault(name@, Some(version@)) is None && reading == Ok::<
                SemVersion,
                semver::Error,
            >(version),
            Err(error) => release_fault(
                name@,
                match reading {
                    Ok(version) => Some(version@),
                    Err(_) => None,
                },
            ) == Some(error@),
        },
{
    validate_crate_name(name)?;
    match reading {
        Ok(version) => Ok(version),
        Err(_) => Err(bad_request("crate version must be semver")),
    }
}

/// Checks that a name and a version can denote a published crate version.
pub fn validate_release(name: &str, version: &str) -> (result: Result<SemVersion, AppError>)
    ensures
        match result {
            Ok(read) => {
                &&& release_fault(name@, semver_reading(version@)) is None
                &&& semver_reading(version@) == Some(read@)
                &&& writes_version(version@, read@)
            },
            Err(error) => release_fault(name@, semver_reading(version@)) == Some(error@),
        },
{
    check_release(name, parse_version(version))
}

/// The file name of a crate version whose parts were checked before.
pub fn versioned_filename(name: &str, version: &str) -> (file: String)
    ensures
        file@ == filename(name@, version@),
{
    let mut file = name.to_owned();
    file.append("-");
    file.append(version);
    file.append(".crate");
    file
}

/// The file name of a crate version.
pub fn crate_filename(name: &str, version: &str) -> (result: Result<String, AppError>)
    ensures
        match result {
            Ok(file) => {
                &&& release_fault(name@, semver_reading(version@)) is None
                &&& writes_version(version@, semver_reading(version@).unwrap())
                &&& file@ == filename(name@, version@)
            },
            Err(error) => release_fault(name@, semver_reading(version@)) == Some(error@),
        },
{
    validate_release(name, version)?;
    Ok(versioned_filename(name, version))
}

} // verus!
