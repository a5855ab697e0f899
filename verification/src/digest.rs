//! Tarball digests and the storage keys made from them.

use crate::crate_name::{normalized_name, validate_release, versioned_filename};
use crate::error::AppError;
use sha2::Digest;
use vstd::prelude::*;
use vstd::string::*;

verus! {

use crate::crate_name::{filename, last_segment, normalized, release_fault, valid_name};
use crate::name_laws::{
    law_normalizing, lemma_last_segment, lemma_name_marks, lemma_names, is_release_error,
    names_a_crate, slashless,
};
use crate::version::{is_identifier_char, lemma_version_chars, semver_reading, writes_version, Release};
use vstd::utf8::{
    decode_utf8, encode_utf8, encode_utf8_decode_utf8, encode_utf8_valid_utf8, is_ascii_chars,
    is_ascii_chars_encode_utf8, is_char_boundary, is_char_boundary_iff_not_is_continuation_byte,
    is_char_boundary_start_end_of_seq,
};

/// How many bytes of a digest's text a storage key holds.
pub const DIGEST_PREFIX_BYTES: usize = 24;

/// The SHA-256 digest of a byte string, as the `sha2` crate computes it.
pub uninterp spec fn sha256_digest(bytes: Seq<u8>) -> Seq<u8>;

/// `sha2::Sha256`, fed the bytes at once. A digest has 32 bytes.
#[verifier::external_body]
fn sha256(bytes: &[u8]) -> (digest: Vec<u8>)
    ensures
        digest@ == sha256_digest(bytes@),
        digest@.len() == 32,
{
    let mut hasher = sha2::Sha256::new();
    hasher.update(bytes);
    hasher.finalize().to_vec()
}

/// The lowercase hexadecimal digit of a number below 16.
pub open spec fn hex_digit(n: int) -> char {
    if n < 10 {
        (n + 48) as char
    } else {
        (n + 87) as char
    }
}

/// Bytes in lowercase hexadecimal, the high digit of each byte first.
pub open spec fn hex_text(bytes: Seq<u8>) -> Seq<char> {
    Seq::new(
        2 * bytes.len(),
        |i: int|
            if i % 2 == 0 {
                hex_digit(bytes[i / 2] as int / 16)
            } else {
                hex_digit(bytes[i / 2] as int % 16)
            },
    )
}

/// `hex::encode`: two lowercase hexadecimal digits for each byte, the high one
/// first.
#[verifier::external_body]
fn hex_encode(bytes: &[u8]) -> (text: String)
    requires
        2 * bytes@.len() <= isize::MAX,
    ensures
        text@ == hex_text(bytes@),
{
    hex::encode(bytes)
}

/// The SHA-256 digest of a tarball in hexadecimal.
pub fn hex_digest_sha256(bytes: &[u8]) -> (checksum: String)
    ensures
        checksum@ == hex_text(sha256_digest(bytes@)),
        checksum@.len() == 64,
{
    let digest = sha256(bytes);
    hex_encode(&digest)
}

/// The number of bytes of a checksum that a storage key holds.
pub open spec fn prefix_end(checksum: Seq<char>) -> int {
    if encode_utf8(checksum).len() < DIGEST_PREFIX_BYTES {
        encode_utf8(checksum).len() as int
    } else {
        DIGEST_PREFIX_BYTES as int
    }
}

/// The part of a checksum that a storage key holds ends between two characters.
/// It always does in ASCII.
pub open spec fn can_be_cut(checksum: Seq<char>) -> bool {
    is_ascii_chars(checksum) || is_char_boundary(encode_utf8(checksum), prefix_end(checksum))
}

/// The part of a checksum that a storage key holds.
pub open spec fn digest_prefix(checksum: Seq<char>) -> Seq<char> {
    decode_utf8(encode_utf8(checksum).subrange(0, prefix_end(checksum)))
}

/// Where the tarball of a crate version is stored.
pub open spec fn storage_key(name: Seq<char>, version: Seq<char>, checksum: Seq<char>) -> Seq<char> {
    "crates/"@ + normalized(name) + "/"@ + version + "/"@ + digest_prefix(checksum) + "/"@
        + filename(name, version)
}

/// The storage key of a crate version whose parts were checked before.
pub fn tarball_key(crate_name: &str, version: &str, checksum_sha256: &str) -> (key: String)
    requires
        can_be_cut(checksum_sha256@),
    ensures
        key@ == storage_key(crate_name@, version@, checksum_sha256@),
{
    let length: usize = checksum_sha256.as_bytes().len();
    let end: usize = if length < DIGEST_PREFIX_BYTES {
        length
    } else {
        DIGEST_PREFIX_BYTES
    };
    proof {
        if is_ascii_chars(checksum_sha256@) {
            lemma_ascii_prefix(checksum_sha256@);
        }
    }
    let prefix = checksum_sha256.split_at(end).0;
    proof {
        encode_utf8_decode_utf8(prefix@);
    }
    let normal = normalized_name(crate_name);
    let file = versioned_filename(crate_name, version);
    let mut key = "crates/".to_owned();
    key.append(normal.as_str());
    key.append("/");
    key.append(version);
    key.append("/");
    key.append(prefix);
    key.append("/");
    key.append(file.as_str());
    key
}

/// The storage key of a crate version's tarball.
pub fn object_key(crate_name: &str, version: &str, checksum_sha256: &str) -> (result: Result<
    String,
    AppError,
>)
    requires
        valid_name(crate_name@) ==> can_be_cut(checksum_sha256@),
    ensures
        match result {
            Ok(key) => {
                &&& release_fault(crate_name@, semver_reading(version@)) is None
                &&& writes_version(version@, semver_reading(version@).unwrap())
                &&& key@ == storage_key(crate_name@, version@, checksum_sha256@)
            },
            Err(error) => release_fault(crate_name@, semver_reading(version@)) == Some(error@),
        },
{
    validate_release(crate_name, version)?;
    Ok(tarball_key(crate_name, version, checksum_sha256))
}

/// Of an ASCII checksum, a storage key holds the first 24 characters, or all of
/// them where there are fewer.
pub proof fn lemma_ascii_prefix(checksum: Seq<char>)
    requires
        is_ascii_chars(checksum),
    ensures
        is_char_boundary(encode_utf8(checksum), prefix_end(checksum)),
        checksum.len() <= 24 ==> digest_prefix(checksum) == checksum,
        checksum.len() > 24 ==> digest_prefix(checksum) == checksum.take(24),
{
    is_ascii_chars_encode_utf8(checksum);
    encode_utf8_valid_utf8(checksum);
    let bytes = encode_utf8(checksum);
    let end = prefix_end(checksum);
    if end < bytes.len() {
        is_char_boundary_iff_not_is_continuation_byte(bytes, end);
        assert(checksum[end] as u8 == bytes[end]);
        assert('\0' <= checksum[end] <= '\u{7f}');
        let head = checksum.take(end);
        assert(is_ascii_chars(head));
        is_ascii_chars_encode_utf8(head);
        assert(bytes.subrange(0, end) =~= encode_utf8(head)) by {
            assert forall|i: int| 0 <= i < end implies bytes[i] == encode_utf8(head)[i] by {
                assert(head[i] as u8 == encode_utf8(head)[i]);
                assert(checksum[i] as u8 == bytes[i]);
            }
        }
        encode_utf8_decode_utf8(head);
    } else {
        is_char_boundary_start_end_of_seq(bytes);
        assert(bytes.subrange(0, end) =~= bytes);
        encode_utf8_decode_utf8(checksum);
        if checksum.len() > 24 {
            assert(false);
        }
    }
}

/// Hexadecimal is ASCII.
pub proof fn lemma_hex_ascii(bytes: Seq<u8>)
    ensures
        is_ascii_chars(hex_text(bytes)),
{
    assert forall|i: int| 0 <= i < hex_text(bytes).len() implies '\0' <= #[trigger] hex_text(
        bytes,
    )[i] <= '\u{7f}' by {
        let n = if i % 2 == 0 {
            bytes[i / 2] as int / 16
        } else {
            bytes[i / 2] as int % 16
        };
        assert(0 <= n < 16);
        assert(hex_digit(n) as int <= 127);
    }
}

/// Two texts up to their first slashes, and what follows.
proof fn lemma_first_slash(a: Seq<char>, x: Seq<char>, b: Seq<char>, y: Seq<char>)
    requires
        slashless(a),
        slashless(b),
        a + seq!['/'] + x == b + seq!['/'] + y,
    ensures
        a == b,
        x == y,
{
    let left = a + seq!['/'] + x;
    let right = b + seq!['/'] + y;
    if a.len() < b.len() {
        assert(left[a.len() as int] == '/');
        assert(right[a.len() as int] == b[a.len() as int]);
    }
    if b.len() < a.len() {
        assert(right[b.len() as int] == '/');
        assert(left[b.len() as int] == a[b.len() as int]);
    }
    assert(a == left.take(a.len() as int));
    assert(b == right.take(a.len() as int));
    assert(x == left.skip(a.len() as int + 1));
    assert(y == right.skip(a.len() as int + 1));
}

/// Tarballs of different crate versions are never stored under one key.
pub proof fn law_storage_keys_differ(
    name_a: Seq<char>,
    version_a: Seq<char>,
    release_a: Release,
    digest_a: Seq<u8>,
    name_b: Seq<char>,
    version_b: Seq<char>,
    release_b: Release,
    digest_b: Seq<u8>,
)
    requires
        valid_name(name_a),
        valid_name(name_b),
        writes_version(version_a, release_a),
        writes_version(version_b, release_b),
        digest_a.len() == 32,
        digest_b.len() == 32,
        storage_key(name_a, version_a, hex_text(digest_a)) == storage_key(
            name_b,
            version_b,
            hex_text(digest_b),
        ),
    ensures
        name_a == name_b,
        version_a == version_b,
        hex_text(digest_a).take(24) == hex_text(digest_b).take(24),
{
    reveal_strlit("crates/");
    reveal_strlit("/");
    reveal_strlit("-");
    reveal_strlit(".crate");
    let slash = seq!['/'];
    assert("/"@ == slash);
    lemma_hex_ascii(digest_a);
    lemma_hex_ascii(digest_b);
    lemma_ascii_prefix(hex_text(digest_a));
    lemma_ascii_prefix(hex_text(digest_b));
    lemma_key_parts(name_a, version_a, release_a);
    lemma_key_parts(name_b, version_b, release_b);
    let tail_a = digest_prefix(hex_text(digest_a)) + slash + filename(name_a, version_a);
    let tail_b = digest_prefix(hex_text(digest_b)) + slash + filename(name_b, version_b);
    let middle_a = version_a + slash + tail_a;
    let middle_b = version_b + slash + tail_b;
    let front_a = normalized(name_a) + slash + middle_a;
    let front_b = normalized(name_b) + slash + middle_b;
    let key_a = storage_key(name_a, version_a, hex_text(digest_a));
    let key_b = storage_key(name_b, version_b, hex_text(digest_b));
    assert(key_a.skip(7) == front_a);
    assert(key_b.skip(7) == front_b);
    lemma_first_slash(normalized(name_a), middle_a, normalized(name_b), middle_b);
    lemma_first_slash(version_a, tail_a, version_b, tail_b);
    assert(tail_a.take(24) == hex_text(digest_a).take(24));
    assert(tail_b.take(24) == hex_text(digest_b).take(24));
    assert(tail_a.skip(25) == filename(name_a, version_a));
    assert(tail_b.skip(25) == filename(name_b, version_b));
    assert(name_a.len() == normalized(name_a).len());
    assert(name_b.len() == normalized(name_b).len());
    assert(filename(name_a, version_a).take(name_a.len() as int) == name_a);
    assert(filename(name_b, version_b).take(name_b.len() as int) == name_b);
}

/// A tarball is stored under the file name under which it is handed out.
pub proof fn law_stored_under_filename(
    name: Seq<char>,
    version: Seq<char>,
    release: Release,
    checksum: Seq<char>,
)
    requires
        valid_name(name),
        writes_version(version, release),
    ensures
        last_segment(storage_key(name, version, checksum)) == filename(name, version),
{
    reveal_strlit("/");
    reveal_strlit("-");
    reveal_strlit(".crate");
    lemma_key_parts(name, version, release);
    lemma_name_marks(name);
    let file = filename(name, version);
    assert forall|i: int| 0 <= i < file.len() implies #[trigger] file[i] != '/' by {
        if i < name.len() {
            assert(file[i] == name[i]);
        } else if i == name.len() {
            assert(file[i] == '-');
        } else if i < name.len() + 1 + version.len() {
            assert(file[i] == version[i - name.len() - 1]);
        } else {
            assert(file[i] == ".crate"@[i - name.len() - 1 - version.len()]);
        }
    }
    let front = "crates/"@ + normalized(name) + "/"@ + version + "/"@ + digest_prefix(checksum)
        + "/"@;
    assert(front.last() == '/');
    lemma_last_segment(front, file);
}

/// Neither a normalized crate name nor a version holds a slash.
proof fn lemma_key_parts(name: Seq<char>, version: Seq<char>, release: Release)
    requires
        valid_name(name),
        writes_version(version, release),
    ensures
        slashless(normalized(name)),
        slashless(version),
{
    law_normalizing(name);
    lemma_name_marks(normalized(name));
    lemma_version_chars(version, release);
    assert forall|i: int| 0 <= i < version.len() implies #[trigger] version[i] != '/' by {
        assert(is_identifier_char(version[i]) || version[i] == '+');
    }
}

/// The number that a lowercase hexadecimal digit stands for.
pub open spec fn digit_value(ch: char) -> int {
    if '0' <= ch <= '9' {
        ch as int - '0' as int
    } else if 'a' <= ch <= 'f' {
        ch as int - 'a' as int + 10
    } else {
        -1
    }
}

/// The text writes the bytes, each as two lowercase hexadecimal digits, the high
/// one first.
pub open spec fn writes_bytes(text: Seq<char>, bytes: Seq<u8>) -> bool {
    &&& text.len() == 2 * bytes.len()
    &&& forall|i: int|
        0 <= i < bytes.len() ==> {
            &&& 0 <= digit_value(text[2 * i]) < 16
            &&& 0 <= digit_value(text[2 * i + 1]) < 16
            &&& #[trigger] bytes[i] == 16 * digit_value(text[2 * i]) + digit_value(text[2 * i + 1])
        }
}

/// Hexadecimal writes the bytes.
pub proof fn lemma_hex_writes(bytes: Seq<u8>)
    ensures
        writes_bytes(hex_text(bytes), bytes),
{
    let text = hex_text(bytes);
    assert forall|i: int| 0 <= i < bytes.len() implies {
        &&& 0 <= digit_value(text[2 * i]) < 16
        &&& 0 <= digit_value(text[2 * i + 1]) < 16
        &&& #[trigger] bytes[i] == 16 * digit_value(text[2 * i]) + digit_value(text[2 * i + 1])
    } by {
        let high = bytes[i] as int / 16;
        let low = bytes[i] as int % 16;
        assert(0 <= high < 16);
        assert(text[2 * i] == hex_digit(high));
        assert(text[2 * i + 1] == hex_digit(low));
        assert(hex_digit(high) as int == if high < 10 {
            high + 48
        } else {
            high + 87
        });
        assert(hex_digit(low) as int == if low < 10 {
            low + 48
        } else {
            low + 87
        });
    }
}

/// The checksum of a tarball writes the 32 bytes of its SHA-256 digest in
/// lowercase hexadecimal.
pub proof fn law_checksums_write_the_digest(bytes: &[u8], checksum: String)
    requires
        call_ensures(hex_digest_sha256, (bytes,), checksum),
    ensures
        checksum@.len() == 64,
        writes_bytes(checksum@, sha256_digest(bytes@)),
        is_ascii_chars(checksum@),
{
    lemma_hex_writes(sha256_digest(bytes@));
    lemma_hex_ascii(sha256_digest(bytes@));
}

/// The text is the name with underscores in place of hyphens.
pub open spec fn is_normal_form(text: Seq<char>, name: Seq<char>) -> bool {
    &&& text.len() == name.len()
    &&& forall|i: int|
        0 <= i < name.len() ==> #[trigger] text[i] == if name[i] == '-' {
            '_'
        } else {
            name[i]
        }
}

/// The key leads through directories for the crate, by its normal form, for the
/// version, and for the first 24 characters of the checksum, to the file of the
/// version.
pub open spec fn leads_to_tarball(
    key: Seq<char>,
    normal: Seq<char>,
    name: Seq<char>,
    version: Seq<char>,
    checksum: Seq<char>,
) -> bool {
    &&& is_normal_form(normal, name)
    &&& key == seq!['c', 'r', 'a', 't', 'e', 's', '/'] + normal + seq!['/'] + version + seq!['/']
        + checksum.take(
        if checksum.len() < 24 {
            checksum.len() as int
        } else {
            24
        },
    ) + seq!['/'] + name + seq!['-'] + version + seq!['.', 'c', 'r', 'a', 't', 'e']
}

/// The storage key of a tarball leads to it.
pub proof fn lemma_key_leads(name: Seq<char>, version: Seq<char>, checksum: Seq<char>)
    requires
        is_ascii_chars(checksum),
    ensures
        leads_to_tarball(
            storage_key(name, version, checksum),
            normalized(name),
            name,
            version,
            checksum,
        ),
{
    reveal_strlit("crates/");
    reveal_strlit("/");
    reveal_strlit("-");
    reveal_strlit(".crate");
    assert("crates/"@ =~= seq!['c', 'r', 'a', 't', 'e', 's', '/']);
    assert("/"@ =~= seq!['/']);
    assert("-"@ =~= seq!['-']);
    assert(".crate"@ =~= seq!['.', 'c', 'r', 'a', 't', 'e']);
    lemma_ascii_prefix(checksum);
    let prefix = checksum.take(
        if checksum.len() < 24 {
            checksum.len() as int
        } else {
            24
        },
    );
    assert(prefix =~= digest_prefix(checksum));
    let front = seq!['c', 'r', 'a', 't', 'e', 's', '/'] + normalized(name) + seq!['/'] + version
        + seq!['/'] + prefix + seq!['/'];
    assert(storage_key(name, version, checksum) =~= front + name + seq!['-'] + version + seq![
        '.',
        'c',
        'r',
        'a',
        't',
        'e',
    ]);
}

/// A tarball is stored by crate, version and checksum, under the name of its
/// file. There is a key for exactly the crate versions that can be asked for.
pub proof fn law_tarballs_have_their_place(
    name: &str,
    version: &str,
    checksum: &str,
    key: String,
    result: Result<String, AppError>,
)
    requires
        is_ascii_chars(checksum@),
        call_ensures(tarball_key, (name, version, checksum), key),
        call_ensures(object_key, (name, version, checksum), result),
    ensures
        exists|normal: Seq<char>| #[trigger]
            leads_to_tarball(key@, normal, name@, version@, checksum@),
        result matches Ok(checked) ==> checked@ == key@,
        result is Ok <==> names_a_crate(name@) && semver_reading(version@) is Some,
        result matches Err(error) ==> is_release_error(error, name@),
{
    lemma_names(name@);
    lemma_key_leads(name@, version@, checksum@);
}

} // verus!
