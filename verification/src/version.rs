//! Semantic versions.

use vstd::prelude::*;
use vstd::string::*;

verus! {

use crate::text::{is_digit, is_lower};

/// `semver::Error`, which is only carried.
#[verifier::external_type_specification]
#[verifier::external_body]
pub struct ExSemverError(semver::Error);

/// The parts of a semantic version. Without a pre-release, or without build
/// metadata, that part is empty.
pub struct SemVersion {
    pub major: u64,
    pub minor: u64,
    pub patch: u64,
    pub pre: String,
    pub build: String,
}

/// The mathematical counterpart of [`SemVersion`].
pub struct Release {
    pub major: nat,
    pub minor: nat,
    pub patch: nat,
    pub pre: Seq<char>,
    pub build: Seq<char>,
}

impl View for SemVersion {
    type V = Release;

    open spec fn view(&self) -> Release {
        Release {
            major: self.major as nat,
            minor: self.minor as nat,
            patch: self.patch as nat,
            pre: self.pre@,
            build: self.build@,
        }
    }
}

/// A number in decimal notation, without leading zeros.
pub open spec fn decimal(n: nat) -> Seq<char>
    decreases n,
{
    if n < 10 {
        seq![digit(n)]
    } else {
        decimal(n / 10).push(digit(n % 10))
    }
}

/// The character of a single digit.
pub open spec fn digit(n: nat) -> char {
    (n + 48) as char
}

/// The part behind its mark, or nothing where the part is empty.
pub open spec fn marked(mark: char, part: Seq<char>) -> Seq<char> {
    if part.len() == 0 {
        Seq::empty()
    } else {
        seq![mark] + part
    }
}

/// How a version is written.
pub open spec fn version_text(version: Release) -> Seq<char> {
    decimal(version.major) + seq!['.'] + decimal(version.minor) + seq!['.'] + decimal(version.patch)
        + marked('-', version.pre) + marked('+', version.build)
}

/// The version without its build metadata, which has no part in precedence.
pub open spec fn without_build(version: Release) -> Release {
    Release { build: Seq::empty(), ..version }
}

/// A character of a pre-release or of build metadata.
pub open spec fn is_identifier_char(ch: char) -> bool {
    is_lower(ch) || 'A' <= ch && ch <= 'Z' || is_digit(ch) || ch == '-' || ch == '.'
}

/// The text is made of identifiers and the dots between them.
pub open spec fn is_identifiers(text: Seq<char>) -> bool {
    forall|i: int| 0 <= i < text.len() ==> is_identifier_char(#[trigger] text[i])
}

/// A text that writes a semantic version.
pub open spec fn writes_version(text: Seq<char>, version: Release) -> bool {
    &&& text == version_text(version)
    &&& is_identifiers(version.pre)
    &&& is_identifiers(version.build)
}

/// What `semver::Version::parse` reads a text as; nothing where it refuses.
pub uninterp spec fn semver_reading(text: Seq<char>) -> Option<Release>;

/// `semver::Version::parse`, with the parts of the version taken apart. A text
/// that it accepts is exactly the way in which the version is written, and its
/// pre-release and build metadata hold identifiers and dots only.
#[verifier::external_body]
pub(crate) fn parse_version(text: &str) -> (result: Result<SemVersion, semver::Error>)
    ensures
        match result {
            Ok(version) => {
                &&& semver_reading(text@) == Some(version@)
                &&& writes_version(text@, version@)
            },
            Err(_) => semver_reading(text@) is None,
        },
{
    let version = semver::Version::parse(text)?;
    Ok(
        SemVersion {
            major: version.major,
            minor: version.minor,
            patch: version.patch,
            pre: version.pre.as_str().to_owned(),
            build: version.build.as_str().to_owned(),
        },
    )
}

/// Appends a number in decimal notation.
fn push_decimal(text: &mut String, n: u64)
    ensures
        final(text)@ == old(text)@ + decimal(n as nat),
    decreases n,
{
    if n >= 10 {
        push_decimal(text, n / 10);
    }
    let value: u8 = (n % 10) as u8;
    text.push((48 + value) as char);
}

impl SemVersion {
    /// The key that no two published versions of a crate share: the version as it
    /// is written, without build metadata.
    pub fn key(&self) -> (key: String)
        ensures
            key@ == version_text(without_build(self@)),
    {
        let mut key = String::new();
        push_decimal(&mut key, self.major);
        key.push('.');
        push_decimal(&mut key, self.minor);
        key.push('.');
        push_decimal(&mut key, self.patch);
        if !self.pre.as_str().is_empty() {
            key.push('-');
            key.append(self.pre.as_str());
        }
        key
    }
}

/// Decimal notation is made of digits, one at least.
proof fn lemma_decimal_digits(n: nat)
    ensures
        decimal(n).len() > 0,
        forall|i: int| 0 <= i < decimal(n).len() ==> is_digit(#[trigger] decimal(n)[i]),
    decreases n,
{
    if n >= 10 {
        lemma_decimal_digits(n / 10);
    }
}

/// Decimal notation tells numbers apart.
proof fn lemma_decimal_injective(a: nat, b: nat)
    requires
        decimal(a) == decimal(b),
    ensures
        a == b,
    decreases a,
{
    lemma_decimal_digits(a / 10);
    lemma_decimal_digits(b / 10);
    assert(decimal(a).last() == digit(a % 10));
    assert(decimal(b).last() == digit(b % 10));
    assert(digit(a % 10) as nat == a % 10 + 48);
    assert(digit(b % 10) as nat == b % 10 + 48);
    if a >= 10 && b >= 10 {
        assert(decimal(a).drop_last() == decimal(a / 10));
        assert(decimal(b).drop_last() == decimal(b / 10));
        lemma_decimal_injective(a / 10, b / 10);
    }
}

/// The digits before something that is no digit, and what follows them, are
/// determined by the whole text.
proof fn lemma_number_front(a: nat, x: Seq<char>, b: nat, y: Seq<char>)
    requires
        decimal(a) + x == decimal(b) + y,
        x.len() > 0 ==> !is_digit(x[0]),
        y.len() > 0 ==> !is_digit(y[0]),
    ensures
        a == b,
        x == y,
{
    let left = decimal(a) + x;
    let right = decimal(b) + y;
    lemma_decimal_digits(a);
    lemma_decimal_digits(b);
    if decimal(a).len() < decimal(b).len() {
        assert(right[decimal(a).len() as int] == decimal(b)[decimal(a).len() as int]);
        assert(left[decimal(a).len() as int] == x[0]);
    }
    if decimal(b).len() < decimal(a).len() {
        assert(left[decimal(b).len() as int] == decimal(a)[decimal(b).len() as int]);
        assert(right[decimal(b).len() as int] == y[0]);
    }
    assert(decimal(a) == left.take(decimal(a).len() as int));
    assert(decimal(b) == right.take(decimal(a).len() as int));
    lemma_decimal_injective(a, b);
    assert(x == left.skip(decimal(a).len() as int));
    assert(y == right.skip(decimal(a).len() as int));
}

/// Two versions share a key exactly when they differ at most in their build
/// metadata.
pub proof fn law_version_keys(a: Release, b: Release)
    ensures
        version_text(without_build(a)) == version_text(without_build(b)) <==> without_build(a)
            == without_build(b),
{
    if version_text(without_build(a)) == version_text(without_build(b)) {
        let pre_a = marked('-', a.pre);
        let pre_b = marked('-', b.pre);
        let patch_a = seq!['.'] + (decimal(a.patch) + pre_a);
        let patch_b = seq!['.'] + (decimal(b.patch) + pre_b);
        let minor_a = seq!['.'] + (decimal(a.minor) + patch_a);
        let minor_b = seq!['.'] + (decimal(b.minor) + patch_b);
        assert(version_text(without_build(a)) == decimal(a.major) + minor_a);
        assert(version_text(without_build(b)) == decimal(b.major) + minor_b);
        lemma_number_front(a.major, minor_a, b.major, minor_b);
        assert(minor_a.skip(1) == decimal(a.minor) + patch_a);
        assert(minor_b.skip(1) == decimal(b.minor) + patch_b);
        lemma_number_front(a.minor, patch_a, b.minor, patch_b);
        assert(patch_a.skip(1) == decimal(a.patch) + pre_a);
        assert(patch_b.skip(1) == decimal(b.patch) + pre_b);
        lemma_number_front(a.patch, pre_a, b.patch, pre_b);
        if a.pre.len() > 0 {
            assert(pre_a.skip(1) == a.pre);
        }
        if b.pre.len() > 0 {
            assert(pre_b.skip(1) == b.pre);
        }
        assert(a.pre =~= b.pre);
    }
}

/// A version is written in ASCII without slashes or control characters.
pub proof fn lemma_version_chars(text: Seq<char>, version: Release)
    requires
        writes_version(text, version),
    ensures
        text.len() > 0,
        forall|i: int|
            0 <= i < text.len() ==> #[trigger] is_identifier_char(text[i]) || text[i] == '+',
{
    lemma_decimal_digits(version.major);
    lemma_decimal_digits(version.minor);
    lemma_decimal_digits(version.patch);
    let numbers = decimal(version.major) + seq!['.'] + decimal(version.minor) + seq!['.'] + decimal(
        version.patch,
    );
    assert forall|i: int| 0 <= i < numbers.len() implies #[trigger] is_identifier_char(
        numbers[i],
    ) by {
        let one = decimal(version.major).len() as int;
        let two = one + 1 + decimal(version.minor).len();
        if i < one {
            assert(is_digit(decimal(version.major)[i]));
        } else if one < i < two {
            assert(is_digit(decimal(version.minor)[i - one - 1]));
        } else if i > two {
            assert(is_digit(decimal(version.patch)[i - two - 1]));
        }
    }
    let pre = marked('-', version.pre);
    let build = marked('+', version.build);
    assert(text == numbers + pre + build);
    assert forall|i: int| 0 <= i < text.len() implies #[trigger] is_identifier_char(text[i])
        || text[i] == '+' by {
        if i < numbers.len() {
            assert(is_identifier_char(numbers[i]));
        } else if numbers.len() < i < numbers.len() + pre.len() {
            assert(is_identifier_char(version.pre[i - numbers.len() - 1]));
        } else if i > numbers.len() + pre.len() {
            assert(is_identifier_char(version.build[i - numbers.len() - pre.len() - 1]));
        }
    }
}

/// A written version holds a dot.
pub proof fn lemma_version_has_dot(text: Seq<char>, version: Release)
    requires
        writes_version(text, version),
    ensures
        text.contains('.'),
{
    assert(text[decimal(version.major).len() as int] == '.');
}

/// The number that a text of decimal digits writes.
pub open spec fn number_in(text: Seq<char>) -> nat
    decreases text.len(),
{
    if text.len() == 0 {
        0
    } else {
        number_in(text.drop_last()) * 10 + (text.last() as nat - '0' as nat) as nat
    }
}

/// The text writes the number in decimal digits, without zeros in front.
pub open spec fn writes_number(text: Seq<char>, n: nat) -> bool {
    &&& text.len() > 0
    &&& forall|i: int| 0 <= i < text.len() ==> '0' <= #[trigger] text[i] <= '9'
    &&& text.len() > 1 ==> text[0] != '0'
    &&& number_in(text) == n
}

proof fn lemma_decimal_writes(n: nat)
    ensures
        writes_number(decimal(n), n),
        n > 0 ==> decimal(n)[0] != '0',
    decreases n,
{
    let text = decimal(n);
    assert(digit(n % 10) as nat == n % 10 + 48);
    lemma_decimal_digits(n);
    assert forall|i: int| 0 <= i < text.len() implies '0' <= #[trigger] text[i] <= '9' by {
        assert(is_digit(text[i]));
    }
    if n < 10 {
        assert(text.drop_last().len() == 0);
        assert(number_in(text.drop_last()) == 0);
    } else {
        lemma_decimal_writes(n / 10);
        assert(text.drop_last() == decimal(n / 10));
    }
}

/// The text is the three numbers with dots between them, and the pre-release
/// behind a hyphen where there is one.
pub open spec fn writes_key(
    text: Seq<char>,
    version: Release,
    major: Seq<char>,
    minor: Seq<char>,
    patch: Seq<char>,
) -> bool {
    &&& writes_number(major, version.major)
    &&& writes_number(minor, version.minor)
    &&& writes_number(patch, version.patch)
    &&& version.pre.len() == 0 ==> text == major + seq!['.'] + minor + seq!['.'] + patch
    &&& version.pre.len() > 0 ==> text == major + seq!['.'] + minor + seq!['.'] + patch + seq!['-']
        + version.pre
}

proof fn lemma_key(version: Release)
    ensures
        writes_key(
            version_text(without_build(version)),
            version,
            decimal(version.major),
            decimal(version.minor),
            decimal(version.patch),
        ),
{
    lemma_decimal_writes(version.major);
    lemma_decimal_writes(version.minor);
    lemma_decimal_writes(version.patch);
    let numbers = decimal(version.major) + seq!['.'] + decimal(version.minor) + seq!['.'] + decimal(
        version.patch,
    );
    assert(version_text(without_build(version)) =~= numbers + marked('-', version.pre));
    if version.pre.len() > 0 {
        assert(numbers + marked('-', version.pre) =~= numbers + seq!['-'] + version.pre);
    } else {
        assert(numbers + marked('-', version.pre) =~= numbers);
    }
}

/// The key of a version is its three numbers in decimal digits with dots between
/// them, and its pre-release behind a hyphen where it has one.
pub proof fn law_keys_are_written(version: &SemVersion, key: String)
    requires
        call_ensures(SemVersion::key, (version,), key),
    ensures
        exists|major: Seq<char>, minor: Seq<char>, patch: Seq<char>| #[trigger]
            writes_key(key@, version@, major, minor, patch),
        version@.major == version.major && version@.minor == version.minor && version@.patch
            == version.patch && version@.pre == version.pre@,
{
    lemma_key(version@);
}

/// The key is what stands before the first plus sign of the version as it is
/// written, or all of it where there is none.
pub proof fn lemma_key_is_cut(text: Seq<char>, version: Release, key: Seq<char>)
    requires
        writes_version(text, version),
        key == version_text(without_build(version)),
    ensures
        !key.contains('+'),
        key.len() <= text.len() && text.take(key.len() as int) == key,
        key.len() < text.len() ==> text[key.len() as int] == '+',
{
    assert(marked('+', without_build(version).build).len() == 0);
    assert(text =~= key + marked('+', version.build));
    assert(writes_version(key, without_build(version)));
    lemma_version_chars(key, without_build(version));
    let numbers = decimal(version.major) + seq!['.'] + decimal(version.minor) + seq!['.'] + decimal(
        version.patch,
    );
    lemma_decimal_digits(version.major);
    lemma_decimal_digits(version.minor);
    lemma_decimal_digits(version.patch);
    assert(key =~= numbers + marked('-', version.pre));
    assert forall|i: int| 0 <= i < key.len() implies key[i] != '+' by {
        let one = decimal(version.major).len() as int;
        let two = one + 1 + decimal(version.minor).len();
        if i < one {
            assert(is_digit(decimal(version.major)[i]));
        } else if one < i < two {
            assert(is_digit(decimal(version.minor)[i - one - 1]));
        } else if two < i < numbers.len() {
            assert(is_digit(decimal(version.patch)[i - two - 1]));
        } else if i > numbers.len() {
            assert(is_identifier_char(version.pre[i - numbers.len() - 1]));
        }
    }
}

/// Of a version as it is written, the key is all that stands before the first
/// plus sign.
pub proof fn law_keys_drop_build_metadata(text: Seq<char>, version: &SemVersion, key: String)
    requires
        writes_version(text, version@),
        call_ensures(SemVersion::key, (version,), key),
    ensures
        !key@.contains('+'),
        key@.len() <= text.len() && text.take(key@.len() as int) == key@,
        key@.len() < text.len() ==> text[key@.len() as int] == '+',
{
    lemma_key_is_cut(text, version@, key@);
}

} // verus!
