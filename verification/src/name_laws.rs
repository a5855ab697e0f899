//! What holds of crate names, claims and index paths taken together.

use crate::crate_name::{
    check_release, claim_matches, crate_filename, crate_name_from_sparse_path, normalized_name,
    sparse_index_path, validate_claim_pattern, validate_crate_name, validate_release,
    versioned_filename,
};
use crate::error::AppError;
use crate::version::SemVersion;
use vstd::prelude::*;
use vstd::string::*;

verus! {

use crate::crate_name::{
    all_name_chars, covers, index_path, index_path_fault, is_name_char, last_segment, name_fault,
    normalized, pattern_fault, valid_name,
};
use crate::text::{begins_with, is_lower};
use crate::version::semver_reading;
use vstd::utf8::{encode_utf8, is_ascii_chars, is_ascii_chars_encode_utf8};

/// The text holds no slash.
pub open spec fn slashless(text: Seq<char>) -> bool {
    forall|i: int| 0 <= i < text.len() ==> #[trigger] text[i] != '/'
}

/// A crate name is valid exactly when it has 1 to 64 characters, starts with an
/// ASCII lowercase letter, and holds nothing but ASCII lowercase letters, digits,
/// underscores and hyphens.
pub proof fn law_valid_names(name: Seq<char>)
    ensures
        valid_name(name) <==> 1 <= name.len() <= 64 && is_lower(name[0]) && all_name_chars(name),
{
    if all_name_chars(name) {
        assert forall|i: int| 0 <= i < name.len() implies (#[trigger] name[i] as u32) < 128 by {
            assert(is_name_char(name[i]));
        }
        assert(is_ascii_chars(name));
        is_ascii_chars_encode_utf8(name);
        assert(encode_utf8(name).len() == name.len());
    }
}

/// A valid name holds neither a slash nor a star.
pub proof fn lemma_name_marks(name: Seq<char>)
    requires
        all_name_chars(name),
    ensures
        slashless(name),
        forall|i: int| 0 <= i < name.len() ==> #[trigger] name[i] != '*',
{
    assert forall|i: int| 0 <= i < name.len() implies #[trigger] name[i] != '/' && name[i] != '*' by {
        assert(is_name_char(name[i]));
    }
}

/// What stands behind a slash and holds none is the last segment.
pub proof fn lemma_last_segment(front: Seq<char>, name: Seq<char>)
    requires
        front.len() == 0 || front.last() == '/',
        slashless(name),
    ensures
        last_segment(front + name) == name,
    decreases name.len(),
{
    if name.len() == 0 {
        assert(front + name == front);
    } else {
        assert((front + name).drop_last() == front + name.drop_last());
        lemma_last_segment(front, name.drop_last());
        assert(name.drop_last().push(name.last()) == name);
    }
}

/// The crate found at a crate's index path is that crate.
pub proof fn law_index_path_round_trip(name: Seq<char>)
    requires
        valid_name(name),
    ensures
        index_path_fault(index_path(name)) is None,
        last_segment(index_path(name)) == name,
{
    lemma_name_marks(name);
    reveal_strlit("1/");
    reveal_strlit("2/");
    reveal_strlit("3/");
    reveal_strlit("/");
    let path = index_path(name);
    let front = path.take(path.len() - name.len());
    assert(front + name == path);
    assert(front.last() == '/');
    lemma_last_segment(front, name);
}

/// A path that names a crate is that crate's index path, and no other crate has it.
pub proof fn law_index_path_unique(path: Seq<char>, other: Seq<char>)
    requires
        index_path_fault(path) is None,
        valid_name(other),
        index_path(other) == path,
    ensures
        valid_name(last_segment(path)),
        index_path(last_segment(path)) == path,
        other == last_segment(path),
{
    law_index_path_round_trip(other);
}

/// Different crates have different index paths.
pub proof fn law_index_paths_differ(a: Seq<char>, b: Seq<char>)
    requires
        valid_name(a),
        valid_name(b),
        a != b,
    ensures
        index_path(a) != index_path(b),
{
    law_index_path_round_trip(a);
    law_index_path_round_trip(b);
}

/// Normalizing keeps the length, leaves no hyphen, changes nothing when done
/// again, and keeps a name valid or invalid as it was.
pub proof fn law_normalizing(name: Seq<char>)
    ensures
        normalized(name).len() == name.len(),
        forall|i: int| 0 <= i < name.len() ==> #[trigger] normalized(name)[i] != '-',
        normalized(normalized(name)) == normalized(name),
        valid_name(name) <==> valid_name(normalized(name)),
{
    assert(normalized(normalized(name)) =~= normalized(name));
    law_valid_names(name);
    law_valid_names(normalized(name));
    if all_name_chars(name) {
        assert forall|i: int| 0 <= i < name.len() implies is_name_char(
            #[trigger] normalized(name)[i],
        ) by {
            assert(is_name_char(name[i]));
        }
    }
    if all_name_chars(normalized(name)) {
        assert forall|i: int| 0 <= i < name.len() implies is_name_char(#[trigger] name[i]) by {
            assert(is_name_char(normalized(name)[i]));
        }
    }
    if name.len() > 0 {
        assert(is_lower(normalized(name)[0]) <==> is_lower(name[0]));
    }
}

/// Two names normalize alike exactly when they differ at most in hyphens and
/// underscores.
pub proof fn law_normalized_collisions(a: Seq<char>, b: Seq<char>)
    ensures
        normalized(a) == normalized(b) <==> a.len() == b.len() && forall|i: int|
            0 <= i < a.len() ==> (#[trigger] a[i] == #[trigger] b[i] || (a[i] == '-' || a[i] == '_') && (
            b[i] == '-' || b[i] == '_')),
{
    if normalized(a) == normalized(b) {
        assert(a.len() == normalized(a).len() == normalized(b).len() == b.len());
        assert forall|i: int| 0 <= i < a.len() implies (#[trigger] a[i] == #[trigger] b[i] || (a[i]
            == '-' || a[i] == '_') && (b[i] == '-' || b[i] == '_')) by {
            assert(normalized(a)[i] == normalized(b)[i]);
        }
    }
    if a.len() == b.len() && forall|i: int|
        0 <= i < a.len() ==> (#[trigger] a[i] == #[trigger] b[i] || (a[i] == '-' || a[i] == '_') && (
        b[i] == '-' || b[i] == '_')) {
        assert(normalized(a) =~= normalized(b));
    }
}

/// The claim `*` is accepted and covers every crate.
pub proof fn law_star_claim(crate_name: Seq<char>)
    ensures
        pattern_fault("*"@) is None,
        covers("*"@, crate_name),
{
}

/// A crate name is accepted as a claim and covers that crate alone.
pub proof fn law_exact_claim(pattern: Seq<char>, crate_name: Seq<char>)
    requires
        valid_name(pattern),
    ensures
        pattern_fault(pattern) is None,
        covers(pattern, crate_name) <==> pattern == crate_name,
{
    lemma_name_marks(pattern);
    reveal_strlit("*");
    assert(pattern.last() == pattern[pattern.len() - 1]);
}

/// A prefix followed by a star covers exactly the crates that begin with the
/// prefix, and is accepted as a claim when the prefix holds only what a crate
/// name may hold.
pub proof fn law_prefix_claim(prefix: Seq<char>, crate_name: Seq<char>)
    ensures
        covers(prefix.push('*'), crate_name) <==> begins_with(crate_name, prefix),
        pattern_fault(prefix.push('*')) is None <==> all_name_chars(prefix),
{
    reveal_strlit("*");
    let pattern = prefix.push('*');
    assert(pattern.drop_last() == prefix);
    assert(pattern.last() == '*');
    assert(pattern.subrange(0, prefix.len() as int) == prefix);
    if pattern == "*"@ {
        assert(prefix.len() == 0);
        assert(crate_name.subrange(0, 0) == prefix);
    }
    if prefix.len() == 0 {
        assert(pattern == "*"@);
    }
}

/// A claim on a shorter prefix covers all that a claim on a longer one covers.
pub proof fn law_prefix_claims_nest(short: Seq<char>, long: Seq<char>, crate_name: Seq<char>)
    requires
        begins_with(long, short),
        covers(long.push('*'), crate_name),
    ensures
        covers(short.push('*'), crate_name),
{
    law_prefix_claim(long, crate_name);
    law_prefix_claim(short, crate_name);
    assert(crate_name.subrange(0, short.len() as int) == crate_name.subrange(
        0,
        long.len() as int,
    ).subrange(0, short.len() as int));
}

/// A character that a crate name can hold: a lowercase ASCII letter, an ASCII
/// digit, an underscore or a hyphen.
pub open spec fn is_letter_of_names(ch: char) -> bool {
    'a' <= ch <= 'z' || '0' <= ch <= '9' || ch == '_' || ch == '-'
}

/// The text has 1 to 64 characters, begins with a lowercase ASCII letter, and
/// holds characters of crate names alone.
pub open spec fn names_a_crate(text: Seq<char>) -> bool {
    &&& 1 <= text.len() <= 64
    &&& 'a' <= text[0] <= 'z'
    &&& forall|i: int| 0 <= i < text.len() ==> is_letter_of_names(#[trigger] text[i])
}

/// The directories of a crate's index file, by the length of its name: `1` or
/// `2`; `3` and the first character; the first two characters and the two behind
/// them.
pub open spec fn index_directories(name: Seq<char>) -> Seq<Seq<char>> {
    if name.len() == 1 {
        seq![seq!['1']]
    } else if name.len() == 2 {
        seq![seq!['2']]
    } else if name.len() == 3 {
        seq![seq!['3'], seq![name[0]]]
    } else {
        seq![seq![name[0], name[1]], seq![name[2], name[3]]]
    }
}

/// The directories, each with a slash behind it.
pub open spec fn with_slashes(directories: Seq<Seq<char>>) -> Seq<char>
    decreases directories.len(),
{
    if directories.len() == 0 {
        Seq::empty()
    } else {
        with_slashes(directories.drop_last()) + directories.last().push('/')
    }
}

proof fn lemma_one_directory(a: Seq<char>)
    ensures
        with_slashes(seq![a]) == a.push('/'),
{
    reveal_with_fuel(with_slashes, 2);
    assert(with_slashes(seq![a]) =~= a.push('/'));
}

proof fn lemma_two_directories(a: Seq<char>, b: Seq<char>)
    ensures
        with_slashes(seq![a, b]) == a.push('/') + b.push('/'),
{
    assert(seq![a, b].drop_last() =~= seq![a]);
    lemma_one_directory(a);
}

/// The index file of a crate lies in the directories that its name gives.
pub proof fn lemma_index_directories(name: Seq<char>)
    requires
        name.len() > 0,
    ensures
        index_path(name) == with_slashes(index_directories(name)) + name,
{
    reveal_strlit("1/");
    reveal_strlit("2/");
    reveal_strlit("3/");
    reveal_strlit("/");
    if name.len() == 1 {
        lemma_one_directory(seq!['1']);
    } else if name.len() == 2 {
        lemma_one_directory(seq!['2']);
    } else if name.len() == 3 {
        lemma_two_directories(seq!['3'], seq![name[0]]);
    } else {
        lemma_two_directories(seq![name[0], name[1]], seq![name[2], name[3]]);
    }
    assert(index_path(name) =~= with_slashes(index_directories(name)) + name);
}

/// The valid names are those that name a crate.
pub proof fn lemma_names(name: Seq<char>)
    ensures
        valid_name(name) <==> names_a_crate(name),
{
    law_valid_names(name);
    if names_a_crate(name) {
        assert forall|i: int| 0 <= i < name.len() implies is_name_char(#[trigger] name[i]) by {
            assert(is_letter_of_names(name[i]));
        }
    }
    if valid_name(name) {
        assert forall|i: int| 0 <= i < name.len() implies is_letter_of_names(#[trigger] name[i]) by {
            assert(is_name_char(name[i]));
        }
    }
}

/// The error says what is wrong with a text that names no crate: its length, where
/// it is empty or has more than 64 bytes; its first character, where that is no
/// lowercase letter; or else a character that no crate name holds.
pub open spec fn is_name_error(error: AppError, name: Seq<char>) -> bool {
    &&& !names_a_crate(name)
    &&& error matches AppError::BadRequest(text)
    &&& text@ == if name.len() == 0 || encode_utf8(name).len() > 64 {
        "invalid crate name length"@
    } else if !('a' <= name[0] <= 'z') {
        "crate name must start with an ASCII lowercase letter"@
    } else {
        "crate name contains unsupported characters"@
    }
}

/// The error says what is wrong with a name and a version that is none: the name
/// where it names no crate, or else the version.
pub open spec fn is_release_error(error: AppError, name: Seq<char>) -> bool {
    if names_a_crate(name) {
        error matches AppError::BadRequest(text) && text@ == "crate version must be semver"@
    } else {
        is_name_error(error, name)
    }
}

/// A name is accepted exactly when it names a crate. A name that is empty or has
/// more than 64 bytes is refused for its length, any other for its first
/// character where that is no lowercase letter, and the rest for a character that
/// no crate name holds.
pub proof fn law_names_are_checked(name: &str, result: Result<(), AppError>)
    requires
        call_ensures(validate_crate_name, (name,), result),
    ensures
        result is Ok <==> names_a_crate(name@),
        result matches Err(error) ==> is_name_error(error, name@),
{
    lemma_names(name@);
}

/// A pattern is accepted as a claim exactly when it is a star, characters of
/// crate names with a star behind them, or the name of a crate.
pub proof fn law_claims_are_checked(pattern: &str, result: Result<(), AppError>)
    requires
        call_ensures(validate_claim_pattern, (pattern,), result),
    ensures
        result is Ok <==> {
            ||| pattern@ == seq!['*']
            ||| names_a_crate(pattern@)
            ||| pattern@.len() > 1 && pattern@.last() == '*' && forall|i: int|
                0 <= i < pattern@.len() - 1 ==> is_letter_of_names(#[trigger] pattern@[i])
        },
        result matches Err(error) ==> if pattern@.len() > 0 && pattern@.last() == '*' {
            error matches AppError::BadRequest(text) && text@ == "invalid crate claim pattern"@
        } else {
            is_name_error(error, pattern@)
        },
{
    reveal_strlit("*");
    assert("*"@ =~= seq!['*']);
    lemma_names(pattern@);
    if pattern@.len() > 0 && pattern@.last() == '*' {
        let prefix = pattern@.drop_last();
        if names_a_crate(pattern@) {
            assert(is_letter_of_names(pattern@[pattern@.len() - 1]));
        }
        if all_name_chars(prefix) {
            assert forall|i: int| 0 <= i < pattern@.len() - 1 implies is_letter_of_names(
                #[trigger] pattern@[i],
            ) by {
                assert(is_name_char(prefix[i]));
            }
        }
        if forall|i: int|
            0 <= i < pattern@.len() - 1 ==> is_letter_of_names(#[trigger] pattern@[i]) {
            assert forall|i: int| 0 <= i < prefix.len() implies is_name_char(
                #[trigger] prefix[i],
            ) by {
                assert(is_letter_of_names(pattern@[i]));
            }
        }
    }
}

/// A claim covers a crate exactly when it is a star, the crate's name, or a
/// beginning of the name with a star behind it.
pub proof fn law_claims_cover(pattern: &str, crate_name: &str, matched: bool)
    requires
        call_ensures(claim_matches, (pattern, crate_name), matched),
    ensures
        matched <==> {
            ||| pattern@ == seq!['*']
            ||| pattern@ == crate_name@
            ||| exists|prefix: Seq<char>, rest: Seq<char>|
                pattern@ == prefix.push('*') && crate_name@ == #[trigger] (prefix + rest)
        },
{
    reveal_strlit("*");
    assert("*"@ =~= seq!['*']);
    if pattern@.len() > 0 && pattern@.last() == '*' {
        let prefix = pattern@.drop_last();
        assert(pattern@ == prefix.push('*'));
        if begins_with(crate_name@, prefix) {
            let rest = crate_name@.skip(prefix.len() as int);
            assert(crate_name@ == prefix + rest);
        }
    }
    assert forall|prefix: Seq<char>, rest: Seq<char>|
        pattern@ == prefix.push('*') && crate_name@ == #[trigger] (prefix + rest) implies matched by {
        assert(pattern@.drop_last() == prefix);
        assert(crate_name@.subrange(0, prefix.len() as int) == prefix);
    }
}

/// Normalizing turns each hyphen into an underscore and leaves every other
/// character where it is.
pub proof fn law_hyphens_are_normalized(name: &str, normal: String)
    requires
        call_ensures(normalized_name, (name,), normal),
    ensures
        normal@.len() == name@.len(),
        forall|i: int| 0 <= i < name@.len() && name@[i] == '-' ==> #[trigger] normal@[i] == '_',
        forall|i: int|
            0 <= i < name@.len() && name@[i] != '-' ==> #[trigger] normal@[i] == name@[i],
{
}

/// The index file of a crate lies in the directories that its name gives, under
/// its name. There is one for exactly the texts that name a crate.
pub proof fn law_index_files_have_their_place(name: &str, result: Result<String, AppError>)
    requires
        call_ensures(sparse_index_path, (name,), result),
    ensures
        result is Ok <==> names_a_crate(name@),
        result matches Ok(path) ==> path@ == with_slashes(index_directories(name@)) + name@,
        result matches Err(error) ==> is_name_error(error, name@),
{
    lemma_names(name@);
    if name@.len() > 0 {
        lemma_index_directories(name@);
    }
}

/// A path leads to an index file exactly when it holds the directories that a
/// crate's name gives and that name behind them, and then to the file of that
/// crate.
pub proof fn law_index_files_are_found(path: &str, result: Result<String, AppError>)
    requires
        call_ensures(crate_name_from_sparse_path, (path,), result),
    ensures
        result matches Ok(name) ==> names_a_crate(name@) && path@ == with_slashes(
            index_directories(name@),
        ) + name@,
        forall|name: Seq<char>|
            names_a_crate(name) && path@ == #[trigger] with_slashes(index_directories(name)) + name
                ==> (result matches Ok(found) && found@ == name),
{
    if result is Ok {
        lemma_names(last_segment(path@));
        lemma_index_directories(last_segment(path@));
    }
    assert forall|name: Seq<char>|
        names_a_crate(name) && path@ == #[trigger] with_slashes(index_directories(name))
            + name implies (result matches Ok(found) && found@ == name) by {
        lemma_names(name);
        lemma_index_directories(name);
        law_index_path_round_trip(name);
    }
}

/// A path that is no index path is answered by what stands behind its last
/// slash: nothing, or the name of a crate that lies elsewhere, is not found, and
/// what cannot name a crate is a bad request.
pub proof fn law_other_paths_are_refused(
    path: &str,
    front: Seq<char>,
    name: Seq<char>,
    result: Result<String, AppError>,
)
    requires
        call_ensures(crate_name_from_sparse_path, (path,), result),
        path@ == front + name,
        front.len() == 0 || front.last() == '/',
        slashless(name),
        front != with_slashes(index_directories(name)),
    ensures
        name.len() == 0 || names_a_crate(name) ==> (result matches Err(error) && error is NotFound),
        name.len() > 0 && !names_a_crate(name) ==> (result matches Err(error) && is_name_error(
            error,
            name,
        )),
{
    lemma_last_segment(front, name);
    lemma_names(name);
    if name.len() > 0 {
        lemma_index_directories(name);
        let path_of_name = index_path(name);
        if path_of_name == path@ {
            assert(path_of_name.take(path_of_name.len() - name.len()) == with_slashes(
                index_directories(name),
            ));
            assert(path@.take(path@.len() - name.len()) == front);
        }
    }
}

/// The file of a crate version is called by its name and its version with a
/// hyphen between them and `.crate` behind them.
pub proof fn law_files_are_named(name: &str, version: &str, file: String)
    requires
        call_ensures(versioned_filename, (name, version), file),
    ensures
        file@ == name@ + seq!['-'] + version@ + seq!['.', 'c', 'r', 'a', 't', 'e'],
{
    reveal_strlit("-");
    reveal_strlit(".crate");
    assert("-"@ =~= seq!['-']);
    assert(".crate"@ =~= seq!['.', 'c', 'r', 'a', 't', 'e']);
}

/// A version of a crate can be asked for exactly when its name names a crate and
/// its version is a semantic version; a name that does not is found at fault
/// before the version is.
pub proof fn law_releases_are_checked(
    name: &str,
    reading: Result<SemVersion, semver::Error>,
    result: Result<SemVersion, AppError>,
)
    requires
        call_ensures(check_release, (name, reading), result),
    ensures
        names_a_crate(name@) && reading is Ok <==> result is Ok,
        result matches Ok(version) ==> reading == Ok::<SemVersion, semver::Error>(version),
        result matches Err(error) ==> is_release_error(error, name@),
{
    lemma_names(name@);
}

/// The same holds of a version that has yet to be read.
pub proof fn law_written_releases_are_checked(
    name: &str,
    version: &str,
    result: Result<SemVersion, AppError>,
    filed: Result<String, AppError>,
)
    requires
        call_ensures(validate_release, (name, version), result),
        call_ensures(crate_filename, (name, version), filed),
    ensures
        names_a_crate(name@) && semver_reading(version@) is Some <==> result is Ok,
        result matches Ok(read) ==> semver_reading(version@) == Some(read@),
        result matches Err(error) ==> is_release_error(error, name@),
        filed is Ok <==> result is Ok,
        filed matches Ok(file) ==> file@ == name@ + seq!['-'] + version@ + seq![
            '.',
            'c',
            'r',
            'a',
            't',
            'e',
        ],
        filed matches Err(error) ==> result matches Err(same) && error@ == same@,
{
    lemma_names(name@);
    reveal_strlit("-");
    reveal_strlit(".crate");
    assert("-"@ =~= seq!['-']);
    assert(".crate"@ =~= seq!['.', 'c', 'r', 'a', 't', 'e']);
}

} // verus!
