//! What holds of the index entries, the stored metadata and the stored tarballs
//! that are made of publish requests, member by member and byte by byte.

use crate::error::AppError;
use crate::frame::{frame_publish_body, publish_metadata_bytes, read_u32_le, PublishFrame};
use crate::publish::{
    assemble_publish, build_index_entry, crate_name_from_publish_body, declared_name,
    index_dependency, index_dependency_value, metadata_value, name_from_reading,
    normalize_publish, parse_publish_body, Feature, IndexDependency, NormalizedPublish,
    PublishDependency, PublishMetadata,
};
use crate::version::SemVersion;
use serde_json::Value;
use vstd::prelude::*;
use vstd::string::*;

verus! {

use crate::digest::{
    hex_text, leads_to_tarball, lemma_hex_ascii, lemma_hex_writes, lemma_key_leads, sha256_digest,
    writes_bytes,
};
use crate::frame::{frame_fault, le32_at, metadata_end, metadata_of, tarball_end, tarball_of};
use crate::json::{document, json_reading, Json};
use crate::name_laws::{is_release_error, lemma_names, names_a_crate};
use crate::publish::{
    feature_members, index_dependency_json, index_entry_json, metadata_json, normalizes,
    publish_dependency_json, stores,
};
use crate::version::{lemma_key_is_cut, semver_reading, Release};
use vstd::utf8::is_ascii_chars;

/// The document is the list of the texts, in order.
pub open spec fn lists_texts(list: Json, texts: Seq<String>) -> bool {
    &&& list matches Json::Array(items)
    &&& items.len() == texts.len()
    &&& forall|i: int| 0 <= i < texts.len() ==> #[trigger] items[i] == Json::Text(texts[i]@)
}

/// The document is the text, or null where there is none.
pub open spec fn gives_text(member: Json, text: Option<String>) -> bool {
    match text {
        Some(text) => member == Json::Text(text@),
        None => member == Json::Null,
    }
}

/// The document lists the dependency as the index does: each of its properties
/// under the name that cargo gives it, and under its alias where it has one.
pub open spec fn lists_dependency(listed: Json, dep: PublishDependency) -> bool {
    &&& listed matches Json::Object(all)
    &&& all["req"@] == Json::Text(dep.version_req@)
    &&& lists_texts(all["features"@], dep.features@)
    &&& all["optional"@] == Json::Bool(dep.optional)
    &&& all["default_features"@] == Json::Bool(dep.default_features)
    &&& gives_text(all["target"@], dep.target)
    &&& all["kind"@] == Json::Text(dep.kind@)
    &&& gives_text(all["registry"@], dep.registry)
    &&& match dep.explicit_name_in_toml {
        Some(alias) => all["name"@] == Json::Text(alias@) && all["package"@] == Json::Text(
            dep.name@,
        ),
        None => all["name"@] == Json::Text(dep.name@) && all["package"@] == Json::Null,
    }
    &&& forall|key: Seq<char>| #[trigger]
        all.dom().contains(key) <==> key == "name"@ || key == "req"@ || key == "features"@ || key
            == "optional"@ || key == "default_features"@ || key == "target"@ || key == "kind"@
            || key == "registry"@ || key == "package"@
}

/// The document gives the dependency as the request did.
pub open spec fn repeats_dependency(given: Json, dep: PublishDependency) -> bool {
    &&& given matches Json::Object(all)
    &&& all["name"@] == Json::Text(dep.name@)
    &&& all["version_req"@] == Json::Text(dep.version_req@)
    &&& lists_texts(all["features"@], dep.features@)
    &&& all["optional"@] == Json::Bool(dep.optional)
    &&& all["default_features"@] == Json::Bool(dep.default_features)
    &&& gives_text(all["target"@], dep.target)
    &&& all["kind"@] == Json::Text(dep.kind@)
    &&& gives_text(all["registry"@], dep.registry)
    &&& gives_text(all["explicit_name_in_toml"@], dep.explicit_name_in_toml)
    &&& forall|key: Seq<char>| #[trigger]
        all.dom().contains(key) <==> key == "name"@ || key == "version_req"@ || key == "features"@
            || key == "optional"@ || key == "default_features"@ || key == "target"@ || key
            == "kind"@ || key == "registry"@ || key == "explicit_name_in_toml"@
}

/// The document gives each feature with what it enables, by its last entry where
/// it has several, and nothing else.
pub open spec fn gives_features(given: Json, features: Seq<Feature>) -> bool {
    &&& given matches Json::Object(all)
    &&& forall|key: Seq<char>| #[trigger]
        all.dom().contains(key) <==> exists|i: int|
            0 <= i < features.len() && (#[trigger] features[i]).name@ == key
    &&& forall|i: int|
        0 <= i < features.len() && (forall|j: int|
            i < j < features.len() ==> (#[trigger] features[j]).name@ != features[i].name@)
            ==> lists_texts(all[(#[trigger] features[i]).name@], features[i].enables@)
}

/// The document is the index entry of the crate version: its name, version,
/// checksum and properties, and each of its dependencies, in order; not yanked.
pub open spec fn is_entry_of(entry: Json, metadata: PublishMetadata, checksum: Seq<char>) -> bool {
    &&& entry matches Json::Object(all)
    &&& all["name"@] == Json::Text(metadata.name@)
    &&& all["vers"@] == Json::Text(metadata.vers@)
    &&& all["cksum"@] == Json::Text(checksum)
    &&& all["yanked"@] == Json::Bool(false)
    &&& all["v"@] == Json::Integer(2)
    &&& gives_text(all["links"@], metadata.links)
    &&& gives_text(all["rust_version"@], metadata.rust_version)
    &&& gives_features(all["features"@], metadata.features@)
    &&& all["deps"@] matches Json::Array(deps)
    &&& deps.len() == metadata.deps@.len()
    &&& forall|i: int|
        0 <= i < deps.len() ==> lists_dependency(#[trigger] deps[i], metadata.deps@[i])
    &&& forall|key: Seq<char>| #[trigger]
        all.dom().contains(key) <==> key == "name"@ || key == "vers"@ || key == "deps"@ || key
            == "cksum"@ || key == "features"@ || key == "yanked"@ || key == "links"@ || key == "v"@
            || key == "rust_version"@
}

/// The document gives the metadata of the crate version as the request did.
pub open spec fn repeats_metadata(given: Json, metadata: PublishMetadata) -> bool {
    &&& given matches Json::Object(all)
    &&& all["name"@] == Json::Text(metadata.name@)
    &&& all["vers"@] == Json::Text(metadata.vers@)
    &&& gives_text(all["links"@], metadata.links)
    &&& gives_text(all["rust_version"@], metadata.rust_version)
    &&& gives_text(all["description"@], metadata.description)
    &&& gives_features(all["features"@], metadata.features@)
    &&& all["deps"@] matches Json::Array(deps)
    &&& deps.len() == metadata.deps@.len()
    &&& forall|i: int|
        0 <= i < deps.len() ==> repeats_dependency(#[trigger] deps[i], metadata.deps@[i])
    &&& forall|key: Seq<char>| #[trigger]
        all.dom().contains(key) <==> key == "name"@ || key == "vers"@ || key == "deps"@ || key
            == "features"@ || key == "links"@ || key == "rust_version"@ || key == "description"@
}

/// The names of a dependency's members differ.
proof fn lemma_dependency_keys()
    ensures
        "name"@.len() == 4 && "name"@[0] == 'n',
        "req"@.len() == 3 && "req"@[0] == 'r',
        "version_req"@.len() == 11 && "version_req"@[0] == 'v',
        "features"@.len() == 8 && "features"@[0] == 'f',
        "optional"@.len() == 8 && "optional"@[0] == 'o',
        "default_features"@.len() == 16,
        "target"@.len() == 6,
        "kind"@.len() == 4 && "kind"@[0] == 'k',
        "registry"@.len() == 8 && "registry"@[0] == 'r',
        "package"@.len() == 7,
        "explicit_name_in_toml"@.len() == 21,
{
    reveal_strlit("name");
    reveal_strlit("req");
    reveal_strlit("version_req");
    reveal_strlit("features");
    reveal_strlit("optional");
    reveal_strlit("default_features");
    reveal_strlit("target");
    reveal_strlit("kind");
    reveal_strlit("registry");
    reveal_strlit("package");
    reveal_strlit("explicit_name_in_toml");
}

/// The names of an entry's members differ, and those of the metadata's.
proof fn lemma_entry_keys()
    ensures
        "name"@.len() == 4 && "name"@[0] == 'n',
        "vers"@.len() == 4 && "vers"@[0] == 'v',
        "deps"@.len() == 4 && "deps"@[0] == 'd',
        "cksum"@.len() == 5 && "cksum"@[0] == 'c',
        "features"@.len() == 8,
        "yanked"@.len() == 6,
        "links"@.len() == 5 && "links"@[0] == 'l',
        "v"@.len() == 1,
        "rust_version"@.len() == 12,
        "description"@.len() == 11,
{
    reveal_strlit("name");
    reveal_strlit("vers");
    reveal_strlit("deps");
    reveal_strlit("cksum");
    reveal_strlit("features");
    reveal_strlit("yanked");
    reveal_strlit("links");
    reveal_strlit("v");
    reveal_strlit("rust_version");
    reveal_strlit("description");
}

proof fn lemma_listed_dependency(dep: PublishDependency)
    ensures
        lists_dependency(index_dependency_json(dep), dep),
{
    lemma_dependency_keys();
}

proof fn lemma_repeated_dependency(dep: PublishDependency)
    ensures
        repeats_dependency(publish_dependency_json(dep), dep),
{
    lemma_dependency_keys();
}

proof fn lemma_features(features: Seq<Feature>)
    ensures
        gives_features(Json::Object(feature_members(features)), features),
    decreases features.len(),
{
    let all = feature_members(features);
    if features.len() > 0 {
        let rest = features.drop_last();
        let before = feature_members(rest);
        let last = features.len() - 1;
        lemma_features(rest);
        assert forall|key: Seq<char>| #[trigger] all.dom().contains(key) <==> exists|i: int|
            0 <= i < features.len() && (#[trigger] features[i]).name@ == key by {
            if all.dom().contains(key) {
                if key == features.last().name@ {
                    assert(features[last].name@ == key);
                } else {
                    assert(before.dom().contains(key));
                    let i = choose|i: int|
                        0 <= i < rest.len() && (#[trigger] rest[i]).name@ == key;
                    assert(features[i].name@ == key);
                }
            }
            if exists|i: int| 0 <= i < features.len() && (#[trigger] features[i]).name@ == key {
                let i = choose|i: int|
                    0 <= i < features.len() && (#[trigger] features[i]).name@ == key;
                if i < last {
                    assert(rest[i].name@ == key);
                    assert(before.dom().contains(key));
                }
            }
        }
        assert forall|i: int|
            0 <= i < features.len() && (forall|j: int|
                i < j < features.len() ==> (#[trigger] features[j]).name@
                    != features[i].name@) implies lists_texts(
            all[(#[trigger] features[i]).name@],
            features[i].enables@,
        ) by {
            if i < last {
                assert(features[last].name@ != features[i].name@);
                assert(rest[i] == features[i]);
                assert forall|j: int| i < j < rest.len() implies (#[trigger] rest[j]).name@
                    != rest[i].name@ by {
                    assert(features[j].name@ != features[i].name@);
                }
                assert(lists_texts(before[rest[i].name@], rest[i].enables@));
            }
        }
    }
}

proof fn lemma_entry(metadata: PublishMetadata, checksum: Seq<char>)
    ensures
        is_entry_of(index_entry_json(metadata, checksum), metadata, checksum),
{
    lemma_entry_keys();
    lemma_features(metadata.features@);
    assert forall|i: int| 0 <= i < metadata.deps@.len() implies lists_dependency(
        #[trigger] index_dependency_json(metadata.deps@[i]),
        metadata.deps@[i],
    ) by {
        lemma_listed_dependency(metadata.deps@[i]);
    }
}

proof fn lemma_metadata(metadata: PublishMetadata)
    ensures
        repeats_metadata(metadata_json(metadata), metadata),
{
    lemma_entry_keys();
    lemma_features(metadata.features@);
    assert forall|i: int| 0 <= i < metadata.deps@.len() implies repeats_dependency(
        #[trigger] publish_dependency_json(metadata.deps@[i]),
        metadata.deps@[i],
    ) by {
        lemma_repeated_dependency(metadata.deps@[i]);
    }
}

/// The index lists a dependency with the properties that the request gives it,
/// by its alias where it has one, with its real name beside that.
pub proof fn law_dependencies_are_listed(dep: &PublishDependency, listed: IndexDependency, value: Value)
    requires
        call_ensures(index_dependency, (dep,), listed),
        call_ensures(index_dependency_value, (&listed,), value),
    ensures
        lists_dependency(document(value), *dep),
        dep.explicit_name_in_toml matches Some(alias) ==> listed.name@ == alias@ && (
        listed.package matches Some(package) && package@ == dep.name@),
        dep.explicit_name_in_toml is None ==> listed.name@ == dep.name@ && listed.package is None,
        listed.req@ == dep.version_req@,
        listed.features@ == dep.features@,
        listed.optional == dep.optional,
        listed.default_features == dep.default_features,
        listed.target == dep.target,
        listed.kind@ == dep.kind@,
        listed.registry == dep.registry,
{
    lemma_dependency_keys();
    if let Some(package) = listed.package {
        assert(package@ == dep.name@);
    }
}

/// The entry that is built for a crate version holds, member by member, what its
/// metadata say of it, the checksum, and every dependency with its own
/// properties.
pub proof fn law_entries_tell_of_the_version(
    metadata: &PublishMetadata,
    checksum: &str,
    entry: Value,
)
    requires
        call_ensures(build_index_entry, (metadata, checksum), entry),
    ensures
        is_entry_of(document(entry), *metadata, checksum@),
{
    lemma_entry(*metadata, checksum@);
}

/// The metadata that are stored of a crate version hold, member by member, what
/// the request says of it.
pub proof fn law_metadata_are_kept(metadata: &PublishMetadata, value: Value)
    requires
        call_ensures(metadata_value, (metadata,), value),
    ensures
        repeats_metadata(document(value), *metadata),
{
    lemma_metadata(*metadata);
}

/// Four bytes from the place on write the number, the lowest byte first.
pub open spec fn writes_length(body: Seq<u8>, at: int, n: int) -> bool {
    &&& 0 <= at <= body.len() - 4
    &&& body[at] + 256 * body[at + 1] + 65536 * body[at + 2] + 16777216 * body[at + 3] == n
}

/// The body is the metadata and the tarball, each behind its length, and nothing
/// else.
pub open spec fn is_framed(body: Seq<u8>, metadata: Seq<u8>, tarball: Seq<u8>) -> bool {
    &&& body.len() == metadata.len() + tarball.len() + 8
    &&& writes_length(body, 0, metadata.len() as int)
    &&& body.subrange(4, 4 + metadata.len() as int) == metadata
    &&& writes_length(body, 4 + metadata.len() as int, tarball.len() as int)
    &&& body.subrange(8 + metadata.len() as int, body.len() as int) == tarball
}

/// The request is bad, for the reason given.
pub open spec fn is_bad(error: AppError, reason: Seq<char>) -> bool {
    error matches AppError::BadRequest(text) && text@ == reason
}

/// Reading a number takes the four bytes at the cursor, the lowest first, and
/// moves the cursor behind them; where fewer are left it does neither.
pub proof fn law_numbers_are_read(body: &[u8], cursor: &mut usize, result: Result<u32, AppError>)
    requires
        call_ensures(read_u32_le, (body, cursor), result),
    ensures
        *old(cursor) + 4 <= body@.len() ==> (result matches Ok(number) && writes_length(
            body@,
            *old(cursor) as int,
            number as int,
        ) && *final(cursor) == *old(cursor) + 4),
        *old(cursor) + 4 > body@.len() ==> (result matches Err(error) && is_bad(
            error,
            "publish body too short"@,
        ) && *final(cursor) == *old(cursor)),
{
}

/// A request is accepted exactly when it is metadata and a tarball, each behind
/// its length, and neither it nor the tarball is too large. Then it is taken
/// apart into these two.
pub proof fn law_bodies_are_taken_apart<'a>(
    body: &'a [u8],
    max_tarball_bytes: usize,
    result: Result<PublishFrame<'a>, AppError>,
)
    requires
        call_ensures(frame_publish_body, (body, max_tarball_bytes), result),
    ensures
        result matches Ok(frame) ==> is_framed(body@, frame.metadata@, frame.tarball@)
            && frame.tarball@.len() <= max_tarball_bytes && body@.len() <= max_tarball_bytes
            + 1048576,
        forall|metadata: Seq<u8>, tarball: Seq<u8>| #[trigger]
            is_framed(body@, metadata, tarball) && tarball.len() <= max_tarball_bytes && body@.len()
                <= max_tarball_bytes + 1048576 ==> (result matches Ok(frame) && frame.metadata@
                == metadata && frame.tarball@ == tarball),
        result matches Err(error) ==> error is BadRequest,
{
    let bytes = body@;
    if result is Ok {
        lemma_framing(bytes);
    }
    assert forall|metadata: Seq<u8>, tarball: Seq<u8>| #[trigger]
        is_framed(body@, metadata, tarball) && tarball.len() <= max_tarball_bytes && body@.len()
            <= max_tarball_bytes + 1048576 implies (result matches Ok(frame) && frame.metadata@
        == metadata && frame.tarball@ == tarball) by {
        lemma_lengths(bytes, 0);
        lemma_lengths(bytes, 4 + metadata.len() as int);
        assert(metadata_end(bytes) == 4 + metadata.len() as int);
        assert(tarball_end(bytes) == bytes.len());
        assert(body.len() == bytes.len());
    }
}

/// The four bytes at a place write the number that is read from them.
proof fn lemma_lengths(body: Seq<u8>, at: int)
    requires
        0 <= at <= body.len() - 4,
    ensures
        writes_length(body, at, le32_at(body, at) as int),
{
}

/// A body whose parts end where it ends is made of these parts.
proof fn lemma_framing(body: Seq<u8>)
    requires
        body.len() >= 4,
        metadata_end(body) + 4 <= body.len(),
        tarball_end(body) == body.len(),
    ensures
        is_framed(body, metadata_of(body), tarball_of(body)),
{
    lemma_lengths(body, 0);
    lemma_lengths(body, metadata_end(body));
}

/// A request that is not accepted is refused for the first thing that is wrong
/// with it: its size, its metadata's length, its tarball's length, bytes behind
/// the tarball, or the tarball's size.
pub proof fn law_bodies_are_refused<'a>(
    body: &'a [u8],
    max_tarball_bytes: usize,
    metadata_len: int,
    tarball_len: int,
    result: Result<PublishFrame<'a>, AppError>,
)
    requires
        call_ensures(frame_publish_body, (body, max_tarball_bytes), result),
        0 <= metadata_len,
        0 <= tarball_len,
        metadata_len + tarball_len + 8 <= usize::MAX,
    ensures
        ({
            let size = body@.len();
            let fits = size <= max_tarball_bytes + 1048576;
            let first = fits && writes_length(body@, 0, metadata_len);
            let second = first && writes_length(body@, 4 + metadata_len, tarball_len);
            &&& !fits ==> (result matches Err(error) && is_bad(
                error,
                "publish payload too large"@,
            ))
            &&& fits && size < 4 ==> (result matches Err(error) && is_bad(
                error,
                "publish body too short"@,
            ))
            &&& first && size < metadata_len + 4 ==> (result matches Err(error) && is_bad(
                error,
                "publish metadata length mismatch"@,
            ))
            &&& first && metadata_len + 4 <= size < metadata_len + 8 ==> (result matches Err(error)
                && is_bad(error, "publish body too short"@))
            &&& second && size < metadata_len + tarball_len + 8 ==> (result matches Err(error)
                && is_bad(error, "crate tarball length mismatch"@))
            &&& second && size > metadata_len + tarball_len + 8 ==> (result matches Err(error)
                && is_bad(error, "publish body contains trailing data"@))
            &&& second && size == metadata_len + tarball_len + 8 && tarball_len > max_tarball_bytes
                ==> (result matches Err(error) && is_bad(error, "crate tarball too large"@))
        }),
{
    let bytes = body@;
    if writes_length(bytes, 0, metadata_len) {
        lemma_lengths(bytes, 0);
        assert(metadata_end(bytes) == 4 + metadata_len);
        if writes_length(bytes, 4 + metadata_len, tarball_len) {
            lemma_lengths(bytes, 4 + metadata_len);
            assert(tarball_end(bytes) == 8 + metadata_len + tarball_len);
        }
    }
}

/// The metadata of a request are the bytes behind its first four, as many as
/// those say; a request that has fewer bytes is refused.
pub proof fn law_metadata_are_taken_out<'a>(
    body: &'a [u8],
    metadata_len: int,
    result: Result<&'a [u8], AppError>,
)
    requires
        call_ensures(publish_metadata_bytes, (body,), result),
    ensures
        body@.len() < 4 ==> (result matches Err(error) && is_bad(error, "publish body too short"@)),
        writes_length(body@, 0, metadata_len) && metadata_len + 4 > body@.len() ==> (
        result matches Err(error) && is_bad(error, "publish metadata length mismatch"@)),
        writes_length(body@, 0, metadata_len) && metadata_len + 4 <= body@.len() ==> (
        result matches Ok(metadata) && metadata@ == body@.subrange(4, 4 + metadata_len)),
{
    if writes_length(body@, 0, metadata_len) {
        lemma_lengths(body@, 0);
        assert(metadata_end(body@) == 4 + metadata_len);
    }
}

/// All that is stored of a publish request is made of its metadata, its tarball
/// and the tarball's checksum.
pub open spec fn is_made_of(
    publish: NormalizedPublish,
    metadata: PublishMetadata,
    checksum: Seq<char>,
    tarball: Seq<u8>,
) -> bool {
    &&& publish.name@ == metadata.name@
    &&& publish.version@ == metadata.vers@
    &&& repeats_metadata(document(publish.metadata), metadata)
    &&& is_entry_of(document(publish.index_entry), metadata, checksum)
    &&& publish.crate_bytes@ == tarball
    &&& publish.checksum_sha256@ == checksum
    &&& leads_to_tarball(
        publish.object_key@,
        publish.normalized_name@,
        metadata.name@,
        metadata.vers@,
        checksum,
    )
}

/// The key is what stands before the first plus sign of the version.
pub open spec fn is_cut_from(key: Seq<char>, version: Seq<char>) -> bool {
    &&& !key.contains('+')
    &&& key.len() <= version.len() && version.take(key.len() as int) == key
    &&& key.len() < version.len() ==> version[key.len() as int] == '+'
}

proof fn lemma_made_of(
    publish: NormalizedPublish,
    metadata: PublishMetadata,
    version: Release,
    checksum: Seq<char>,
    tarball: Seq<u8>,
)
    requires
        is_ascii_chars(checksum),
        stores(publish, metadata, version, checksum, tarball),
    ensures
        is_made_of(publish, metadata, checksum, tarball),
{
    lemma_metadata(metadata);
    lemma_entry(metadata, checksum);
    lemma_key_leads(metadata.name@, metadata.vers@, checksum);
}

/// A publish request is accepted exactly when its metadata name a crate and its
/// version was read. What is stored is then made of what it was given.
pub proof fn law_publishes_are_put_together(
    metadata: PublishMetadata,
    reading: Result<SemVersion, semver::Error>,
    checksum: String,
    tarball: &[u8],
    result: Result<NormalizedPublish, AppError>,
)
    requires
        is_ascii_chars(checksum@),
        call_ensures(assemble_publish, (metadata, reading, checksum, tarball), result),
    ensures
        result is Ok <==> names_a_crate(metadata.name@) && reading is Ok,
        result matches Ok(publish) ==> is_made_of(publish, metadata, checksum@, tarball@),
        result matches Ok(publish) ==> (reading matches Ok(version) && forall|key: String| #[trigger]
            call_ensures(SemVersion::key, (&version,), key) ==> publish.semver_key@ == key@),
        result matches Err(error) ==> is_release_error(error, metadata.name@),
{
    lemma_names(metadata.name@);
    if let Ok(publish) = result {
        lemma_made_of(publish, metadata, reading->Ok_0@, checksum@, tarball@);
    }
}

/// A request whose metadata were read is published as they say, with the
/// checksum of its own tarball, under the version up to its build metadata. One
/// whose metadata could not be read is refused.
pub proof fn law_publishes_are_as_requested<'a>(
    frame: PublishFrame<'a>,
    decoded: Option<PublishMetadata>,
    result: Result<NormalizedPublish, AppError>,
)
    requires
        call_ensures(normalize_publish, (frame, decoded), result),
    ensures
        match decoded {
            Some(metadata) => {
                &&& result is Ok <==> names_a_crate(metadata.name@) && semver_reading(
                    metadata.vers@,
                ) is Some
                &&& result matches Ok(publish) ==> {
                    &&& writes_bytes(publish.checksum_sha256@, sha256_digest(frame.tarball@))
                    &&& is_made_of(publish, metadata, publish.checksum_sha256@, frame.tarball@)
                    &&& is_cut_from(publish.semver_key@, metadata.vers@)
                }
                &&& result matches Err(error) ==> is_release_error(error, metadata.name@)
            },
            None => result matches Err(error) && is_bad(error, "invalid publish metadata JSON"@),
        },
{
    if let Some(metadata) = decoded {
        lemma_names(metadata.name@);
        lemma_normalized(result, metadata, frame.tarball@);
    }
}

proof fn lemma_normalized(
    result: Result<NormalizedPublish, AppError>,
    metadata: PublishMetadata,
    tarball: Seq<u8>,
)
    requires
        normalizes(result, Some(metadata), tarball),
    ensures
        result matches Ok(publish) ==> {
            &&& writes_bytes(publish.checksum_sha256@, sha256_digest(tarball))
            &&& is_made_of(publish, metadata, publish.checksum_sha256@, tarball)
            &&& is_cut_from(publish.semver_key@, metadata.vers@)
        },
{
    if let Ok(publish) = result {
        let version = semver_reading(metadata.vers@).unwrap();
        let checksum = hex_text(sha256_digest(tarball));
        lemma_hex_ascii(sha256_digest(tarball));
        lemma_hex_writes(sha256_digest(tarball));
        lemma_made_of(publish, metadata, version, checksum, tarball);
        lemma_key_is_cut(metadata.vers@, version, publish.semver_key@);
    }
}

/// A request that is accepted is published with the tarball that it holds and as
/// the metadata say that its metadata bytes were read as. One that is refused is
/// refused as a body that cannot be taken apart, or for these metadata.
pub proof fn law_requests_are_published<F>(
    body: &[u8],
    max_tarball_bytes: usize,
    decode: F,
    result: Result<NormalizedPublish, AppError>,
) where F: Fn(&[u8]) -> Option<PublishMetadata>
    requires
        call_ensures(parse_publish_body::<F>, (body, max_tarball_bytes, decode), result),
    ensures
        result matches Ok(publish) ==> exists|bytes: &[u8], metadata: PublishMetadata| #[trigger]
            decode.ensures((bytes,), Some(metadata)) && is_framed(
                body@,
                bytes@,
                publish.crate_bytes@,
            ) && names_a_crate(metadata.name@) && is_made_of(
                publish,
                metadata,
                publish.checksum_sha256@,
                publish.crate_bytes@,
            ) && writes_bytes(publish.checksum_sha256@, sha256_digest(publish.crate_bytes@))
                && is_cut_from(publish.semver_key@, metadata.vers@),
        result matches Ok(publish) ==> publish.crate_bytes@.len() <= max_tarball_bytes,
        result matches Err(error) ==> error is BadRequest,
        forall|framed: Result<PublishFrame<'_>, AppError>| #[trigger]
            call_ensures(frame_publish_body, (body, max_tarball_bytes), framed) && framed is Err
                ==> (result matches Err(error) && error@ == framed->Err_0@),
        forall|framed: Result<PublishFrame<'_>, AppError>| #[trigger]
            call_ensures(frame_publish_body, (body, max_tarball_bytes), framed) && framed is Ok
                && result is Err ==> exists|bytes: &[u8], decoded: Option<PublishMetadata>|
                #[trigger] decode.ensures((bytes,), decoded) && bytes@ == framed->Ok_0.metadata@
                    && match decoded {
                    None => is_bad(result->Err_0, "invalid publish metadata JSON"@),
                    Some(metadata) => !(names_a_crate(metadata.name@) && semver_reading(
                        metadata.vers@,
                    ) is Some) && is_release_error(result->Err_0, metadata.name@),
                },
{
    if frame_fault(body@, max_tarball_bytes) is None {
        lemma_framing(body@);
        let (bytes, decoded) = choose|bytes: &[u8], decoded: Option<PublishMetadata>| #[trigger]
            decode.ensures((bytes,), decoded) && bytes@ == metadata_of(body@) && normalizes(
                result,
                decoded,
                tarball_of(body@),
            );
        if let Some(metadata) = decoded {
            lemma_names(metadata.name@);
            lemma_normalized(result, metadata, tarball_of(body@));
        }
    }
}

/// The name that metadata give is the text of their member `name`; metadata that
/// are no object, or have no such text, are refused.
pub proof fn law_names_are_declared(metadata: &Value, result: Result<String, AppError>)
    requires
        call_ensures(declared_name, (metadata,), result),
    ensures
        match document(*metadata) {
            Json::Object(all) => all.dom().contains("name"@) && all["name"@] is Text
                <==> result is Ok,
            _ => result is Err,
        },
        result matches Ok(name) ==> (document(*metadata) matches Json::Object(all)
            && all.dom().contains("name"@) && all["name"@] == Json::Text(name@)),
        result matches Err(error) ==> is_bad(error, "publish metadata missing name"@),
{
}

/// The same of metadata that were read, and metadata that could not be read are
/// refused.
pub proof fn law_read_names_are_declared(
    reading: Result<Value, serde_json::Error>,
    result: Result<String, AppError>,
)
    requires
        call_ensures(name_from_reading, (reading,), result),
    ensures
        reading is Err ==> (result matches Err(error) && is_bad(
            error,
            "invalid publish metadata JSON"@,
        )),
        reading matches Ok(metadata) ==> {
            &&& result matches Ok(name) ==> (document(metadata) matches Json::Object(all)
                && all.dom().contains("name"@) && all["name"@] == Json::Text(name@))
            &&& result matches Err(error) ==> is_bad(error, "publish metadata missing name"@)
                && !(document(metadata) matches Json::Object(all) && all.dom().contains("name"@)
                && all["name"@] is Text)
        },
{
}

/// A request is authorized by the text of the member `name` in the JSON that its
/// metadata bytes read as.
pub proof fn law_requests_declare_their_crate(
    body: &[u8],
    metadata_len: int,
    result: Result<String, AppError>,
)
    requires
        call_ensures(crate_name_from_publish_body, (body,), result),
    ensures
        body@.len() < 4 ==> (result matches Err(error) && is_bad(error, "publish body too short"@)),
        writes_length(body@, 0, metadata_len) && metadata_len + 4 > body@.len() ==> (
        result matches Err(error) && is_bad(error, "publish metadata length mismatch"@)),
        writes_length(body@, 0, metadata_len) && metadata_len + 4 <= body@.len() ==> match (
            json_reading(body@.subrange(4, 4 + metadata_len)),
            result,
        ) {
            (Some(Json::Object(all)), Ok(name)) => all.dom().contains("name"@) && all["name"@]
                == Json::Text(name@),
            (Some(Json::Object(all)), Err(error)) => is_bad(
                error,
                "publish metadata missing name"@,
            ) && !(all.dom().contains("name"@) && all["name"@] is Text),
            (Some(_), Ok(_)) => false,
            (Some(_), Err(error)) => is_bad(error, "publish metadata missing name"@),
            (None, Ok(_)) => false,
            (None, Err(error)) => is_bad(error, "invalid publish metadata JSON"@),
        },
{
    if writes_length(body@, 0, metadata_len) {
        lemma_lengths(body@, 0);
        assert(metadata_end(body@) == 4 + metadata_len);
    }
}

} // verus!
