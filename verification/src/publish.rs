//! What a publish request says of a crate version, and what is stored of it.

use crate::crate_name::{check_release, normalized_name};
use crate::digest::{hex_digest_sha256, tarball_key};
use crate::error::{bad_request, AppError};
use crate::frame::{frame_publish_body, publish_metadata_bytes, PublishFrame};
use crate::json::{
    array_value, bool_value, integer_value, member, object_value, optional_text_value,
    read_document, text_list_value, text_value,
};
use crate::version::{parse_version, SemVersion};
use serde_json::Value;
use vstd::prelude::*;
use vstd::slice::slice_to_vec;
use vstd::string::*;

verus! {

use crate::crate_name::{normalized, release_fault};
use crate::digest::{can_be_cut, hex_text, lemma_hex_ascii, sha256_digest, storage_key};
use crate::error::Fault;
use crate::frame::{frame_fault, metadata_fault, metadata_of, tarball_of, METADATA_ALLOWANCE};
use crate::json::{document, json_reading, members, no_members, optional_text, text_list, Json};
use crate::version::{law_version_keys, semver_reading, version_text, without_build, writes_version, Release};

/// A feature of a crate and what it enables.
pub struct Feature {
    pub name: String,
    pub enables: Vec<String>,
}

/// A dependency as a publish request lists it.
pub struct PublishDependency {
    pub name: String,
    pub version_req: String,
    pub features: Vec<String>,
    pub optional: bool,
    pub default_features: bool,
    pub target: Option<String>,
    pub kind: String,
    pub registry: Option<String>,
    pub explicit_name_in_toml: Option<String>,
}

/// What a publish request says of the crate version. Where a feature is listed
/// twice, the later entry counts.
pub struct PublishMetadata {
    pub name: String,
    pub vers: String,
    pub deps: Vec<PublishDependency>,
    pub features: Vec<Feature>,
    pub links: Option<String>,
    pub rust_version: Option<String>,
    pub description: Option<String>,
}

/// A dependency as the index lists it.
pub struct IndexDependency {
    pub name: String,
    pub req: String,
    pub features: Vec<String>,
    pub optional: bool,
    pub default_features: bool,
    pub target: Option<String>,
    pub kind: String,
    pub registry: Option<String>,
    pub package: Option<String>,
}

/// A publish request that has been checked, with all that is stored of it.
pub struct NormalizedPublish {
    pub name: String,
    pub normalized_name: String,
    pub version: String,
    pub semver_key: String,
    pub metadata: Value,
    pub index_entry: Value,
    pub crate_bytes: Vec<u8>,
    pub checksum_sha256: String,
    pub object_key: String,
}

/// The name by which the index lists a dependency: the one that the depending
/// crate gives it, where it gives one.
pub open spec fn listed_name(dep: PublishDependency) -> Seq<char> {
    match dep.explicit_name_in_toml {
        Some(alias) => alias@,
        None => dep.name@,
    }
}

/// The crate that a renamed dependency really is; null where the dependency is
/// not renamed.
pub open spec fn real_name(dep: PublishDependency) -> Json {
    match dep.explicit_name_in_toml {
        Some(_) => Json::Text(dep.name@),
        None => Json::Null,
    }
}

/// The dependency as the index shows it.
pub open spec fn index_dependency_json(dep: PublishDependency) -> Json {
    Json::Object(
        map![
            "name"@ => Json::Text(listed_name(dep)),
            "req"@ => Json::Text(dep.version_req@),
            "features"@ => text_list(dep.features@),
            "optional"@ => Json::Bool(dep.optional),
            "default_features"@ => Json::Bool(dep.default_features),
            "target"@ => optional_text(dep.target),
            "kind"@ => Json::Text(dep.kind@),
            "registry"@ => optional_text(dep.registry),
            "package"@ => real_name(dep),
        ],
    )
}

/// The dependency as it was requested.
pub open spec fn publish_dependency_json(dep: PublishDependency) -> Json {
    Json::Object(
        map![
            "name"@ => Json::Text(dep.name@),
            "version_req"@ => Json::Text(dep.version_req@),
            "features"@ => text_list(dep.features@),
            "optional"@ => Json::Bool(dep.optional),
            "default_features"@ => Json::Bool(dep.default_features),
            "target"@ => optional_text(dep.target),
            "kind"@ => Json::Text(dep.kind@),
            "registry"@ => optional_text(dep.registry),
            "explicit_name_in_toml"@ => optional_text(dep.explicit_name_in_toml),
        ],
    )
}

/// The features, each with what it enables.
pub open spec fn feature_members(features: Seq<Feature>) -> Map<Seq<char>, Json>
    decreases features.len(),
{
    if features.len() == 0 {
        no_members()
    } else {
        feature_members(features.drop_last()).insert(
            features.last().name@,
            text_list(features.last().enables@),
        )
    }
}

/// The entry of the index for a crate version with the given tarball checksum.
pub open spec fn index_entry_json(metadata: PublishMetadata, checksum: Seq<char>) -> Json {
    Json::Object(
        map![
            "name"@ => Json::Text(metadata.name@),
            "vers"@ => Json::Text(metadata.vers@),
            "deps"@ => Json::Array(metadata.deps@.map_values(|dep: PublishDependency| index_dependency_json(dep))),
            "cksum"@ => Json::Text(checksum),
            "features"@ => Json::Object(feature_members(metadata.features@)),
            "yanked"@ => Json::Bool(false),
            "links"@ => optional_text(metadata.links),
            "v"@ => Json::Integer(2),
            "rust_version"@ => optional_text(metadata.rust_version),
        ],
    )
}

/// The metadata as they are stored.
pub open spec fn metadata_json(metadata: PublishMetadata) -> Json {
    Json::Object(
        map![
            "name"@ => Json::Text(metadata.name@),
            "vers"@ => Json::Text(metadata.vers@),
            "deps"@ => Json::Array(metadata.deps@.map_values(|dep: PublishDependency| publish_dependency_json(dep))),
            "features"@ => Json::Object(feature_members(metadata.features@)),
            "links"@ => optional_text(metadata.links),
            "rust_version"@ => optional_text(metadata.rust_version),
            "description"@ => optional_text(metadata.description),
        ],
    )
}

/// A copy of a list of texts.
fn copy_texts(texts: &Vec<String>) -> (copy: Vec<String>)
    ensures
        copy@ == texts@,
{
    let mut copy: Vec<String> = Vec::new();
    let mut i: usize = 0;
    while i < texts.len()
        invariant
            i <= texts.len(),
            copy@ == texts@.take(i as int),
        decreases texts.len() - i,
    {
        copy.push(texts[i].clone());
        i = i + 1;
    }
    copy
}

/// A copy of a text that may be missing.
fn copy_optional(text: &Option<String>) -> (copy: Option<String>)
    ensures
        copy == *text,
{
    match text {
        Some(text) => Some(text.clone()),
        None => None,
    }
}

/// Lists a dependency as the index does: by the name that the depending crate
/// gives it, and with its real name beside it where the two may differ.
pub fn index_dependency(dep: &PublishDependency) -> (listed: IndexDependency)
    ensures
        listed.name@ == listed_name(*dep),
        listed.req == dep.version_req,
        listed.features@ == dep.features@,
        listed.optional == dep.optional,
        listed.default_features == dep.default_features,
        listed.target == dep.target,
        listed.kind == dep.kind,
        listed.registry == dep.registry,
        match dep.explicit_name_in_toml {
            Some(_) => listed.package == Some(dep.name),
            None => listed.package is None,
        },
{
    let name = match &dep.explicit_name_in_toml {
        Some(alias) => alias.clone(),
        None => dep.name.clone(),
    };
    let package = match &dep.explicit_name_in_toml {
        Some(_) => Some(dep.name.clone()),
        None => None,
    };
    IndexDependency {
        name,
        req: dep.version_req.clone(),
        features: copy_texts(&dep.features),
        optional: dep.optional,
        default_features: dep.default_features,
        target: copy_optional(&dep.target),
        kind: dep.kind.clone(),
        registry: copy_optional(&dep.registry),
        package,
    }
}

/// A listed dependency as a document.
pub fn index_dependency_value(listed: &IndexDependency) -> (value: Value)
    ensures
        document(value) == Json::Object(
            map![
                "name"@ => Json::Text(listed.name@),
                "req"@ => Json::Text(listed.req@),
                "features"@ => text_list(listed.features@),
                "optional"@ => Json::Bool(listed.optional),
                "default_features"@ => Json::Bool(listed.default_features),
                "target"@ => optional_text(listed.target),
                "kind"@ => Json::Text(listed.kind@),
                "registry"@ => optional_text(listed.registry),
                "package"@ => optional_text(listed.package),
            ],
        ),
{
    let mut object = serde_json::Map::new();
    object.insert("name".to_owned(), text_value(listed.name.clone()));
    object.insert("req".to_owned(), text_value(listed.req.clone()));
    object.insert("features".to_owned(), text_list_value(&listed.features));
    object.insert("optional".to_owned(), bool_value(listed.optional));
    object.insert("default_features".to_owned(), bool_value(listed.default_features));
    object.insert("target".to_owned(), optional_text_value(&listed.target));
    object.insert("kind".to_owned(), text_value(listed.kind.clone()));
    object.insert("registry".to_owned(), optional_text_value(&listed.registry));
    object.insert("package".to_owned(), optional_text_value(&listed.package));
    object_value(object)
}

/// A requested dependency as a document.
fn publish_dependency_value(dep: &PublishDependency) -> (value: Value)
    ensures
        document(value) == publish_dependency_json(*dep),
{
    let mut object = serde_json::Map::new();
    object.insert("name".to_owned(), text_value(dep.name.clone()));
    object.insert("version_req".to_owned(), text_value(dep.version_req.clone()));
    object.insert("features".to_owned(), text_list_value(&dep.features));
    object.insert("optional".to_owned(), bool_value(dep.optional));
    object.insert("default_features".to_owned(), bool_value(dep.default_features));
    object.insert("target".to_owned(), optional_text_value(&dep.target));
    object.insert("kind".to_owned(), text_value(dep.kind.clone()));
    object.insert("registry".to_owned(), optional_text_value(&dep.registry));
    object.insert(
        "explicit_name_in_toml".to_owned(),
        optional_text_value(&dep.explicit_name_in_toml),
    );
    object_value(object)
}

/// Features as a document.
fn features_value(features: &Vec<Feature>) -> (value: Value)
    ensures
        document(value) == Json::Object(feature_members(features@)),
{
    let mut object = serde_json::Map::new();
    let mut i: usize = 0;
    while i < features.len()
        invariant
            i <= features.len(),
            members(object) == feature_members(features@.take(i as int)),
        decreases features.len() - i,
    {
        object.insert(features[i].name.clone(), text_list_value(&features[i].enables));
        proof {
            assert(features@.take(i + 1).drop_last() == features@.take(i as int));
        }
        i = i + 1;
    }
    proof {
        assert(features@.take(i as int) == features@);
    }
    object_value(object)
}

/// The entry of the index for a crate version with the given tarball checksum.
pub fn build_index_entry(metadata: &PublishMetadata, checksum_sha256: &str) -> (entry: Value)
    ensures
        document(entry) == index_entry_json(*metadata, checksum_sha256@),
{
    let mut deps: Vec<Value> = Vec::new();
    let mut i: usize = 0;
    while i < metadata.deps.len()
        invariant
            i <= metadata.deps.len(),
            deps@.len() == i,
            forall|k: int|
                0 <= k < i ==> document(#[trigger] deps@[k]) == index_dependency_json(
                    metadata.deps@[k],
                ),
        decreases metadata.deps.len() - i,
    {
        deps.push(index_dependency_value(&index_dependency(&metadata.deps[i])));
        i = i + 1;
    }
    proof {
        assert(deps@.map_values(|item: Value| document(item)) =~= metadata.deps@.map_values(
            |dep: PublishDependency| index_dependency_json(dep),
        ));
    }
    let mut object = serde_json::Map::new();
    object.insert("name".to_owned(), text_value(metadata.name.clone()));
    object.insert("vers".to_owned(), text_value(metadata.vers.clone()));
    object.insert("deps".to_owned(), array_value(deps));
    object.insert("cksum".to_owned(), text_value(checksum_sha256.to_owned()));
    object.insert("features".to_owned(), features_value(&metadata.features));
    object.insert("yanked".to_owned(), bool_value(false));
    object.insert("links".to_owned(), optional_text_value(&metadata.links));
    object.insert("v".to_owned(), integer_value(2));
    object.insert("rust_version".to_owned(), optional_text_value(&metadata.rust_version));
    object_value(object)
}

/// The metadata as they are stored.
pub fn metadata_value(metadata: &PublishMetadata) -> (value: Value)
    ensures
        document(value) == metadata_json(*metadata),
{
    let mut deps: Vec<Value> = Vec::new();
    let mut i: usize = 0;
    while i < metadata.deps.len()
        invariant
            i <= metadata.deps.len(),
            deps@.len() == i,
            forall|k: int|
                0 <= k < i ==> document(#[trigger] deps@[k]) == publish_dependency_json(
                    metadata.deps@[k],
                ),
        decreases metadata.deps.len() - i,
    {
        deps.push(publish_dependency_value(&metadata.deps[i]));
        i = i + 1;
    }
    proof {
        assert(deps@.map_values(|item: Value| document(item)) =~= metadata.deps@.map_values(
            |dep: PublishDependency| publish_dependency_json(dep),
        ));
    }
    let mut object = serde_json::Map::new();
    object.insert("name".to_owned(), text_value(metadata.name.clone()));
    object.insert("vers".to_owned(), text_value(metadata.vers.clone()));
    object.insert("deps".to_owned(), array_value(deps));
    object.insert("features".to_owned(), features_value(&metadata.features));
    object.insert("links".to_owned(), optional_text_value(&metadata.links));
    object.insert("rust_version".to_owned(), optional_text_value(&metadata.rust_version));
    object.insert("description".to_owned(), optional_text_value(&metadata.description));
    object_value(object)
}

/// All that is stored of a publish request with the given metadata, version,
/// checksum and tarball.
pub open spec fn stores(
    publish: NormalizedPublish,
    metadata: PublishMetadata,
    version: Release,
    checksum: Seq<char>,
    tarball: Seq<u8>,
) -> bool {
    &&& publish.name@ == metadata.name@
    &&& publish.normalized_name@ == normalized(metadata.name@)
    &&& publish.version@ == metadata.vers@
    &&& publish.semver_key@ == version_text(without_build(version))
    &&& document(publish.metadata) == metadata_json(metadata)
    &&& document(publish.index_entry) == index_entry_json(metadata, checksum)
    &&& publish.crate_bytes@ == tarball
    &&& publish.checksum_sha256@ == checksum
    &&& publish.object_key@ == storage_key(metadata.name@, metadata.vers@, checksum)
}

/// What comes of a publish request whose metadata were read as `decoded`.
pub open spec fn normalizes(
    result: Result<NormalizedPublish, AppError>,
    decoded: Option<PublishMetadata>,
    tarball: Seq<u8>,
) -> bool {
    match decoded {
        None => result matches Err(error) && error@ == Fault::BadRequest(
            "invalid publish metadata JSON"@,
        ),
        Some(metadata) => {
            let reading = semver_reading(metadata.vers@);
            match release_fault(metadata.name@, reading) {
                Some(fault) => result matches Err(error) && error@ == fault,
                None => {
                    &&& result matches Ok(publish)
                    &&& stores(
                        publish,
                        metadata,
                        reading.unwrap(),
                        hex_text(sha256_digest(tarball)),
                        tarball,
                    )
                    &&& writes_version(metadata.vers@, reading.unwrap())
                },
            }
        },
    }
}

/// Puts together what is stored of a publish request, given what its version
/// was read as and the checksum of its tarball.
pub fn assemble_publish(
    metadata: PublishMetadata,
    reading: Result<SemVersion, semver::Error>,
    checksum_sha256: String,
    tarball: &[u8],
) -> (result: Result<NormalizedPublish, AppError>)
    requires
        can_be_cut(checksum_sha256@),
    ensures
        match result {
            Ok(publish) => {
                &&& reading matches Ok(version)
                &&& release_fault(metadata.name@, Some(version@)) is None
                &&& stores(publish, metadata, version@, checksum_sha256@, tarball@)
            },
            Err(error) => release_fault(
                metadata.name@,
                match reading {
                    Ok(version) => Some(version@),
                    Err(_) => None,
                },
            ) == Some(error@),
        },
{
    let version = check_release(metadata.name.as_str(), reading)?;
    let index_entry = build_index_entry(&metadata, checksum_sha256.as_str());
    let object_key = tarball_key(
        metadata.name.as_str(),
        metadata.vers.as_str(),
        checksum_sha256.as_str(),
    );
    Ok(
        NormalizedPublish {
            normalized_name: normalized_name(metadata.name.as_str()),
            semver_key: version.key(),
            metadata: metadata_value(&metadata),
            index_entry,
            crate_bytes: slice_to_vec(tarball),
            checksum_sha256,
            object_key,
            name: metadata.name,
            version: metadata.vers,
        },
    )
}

/// Checks a publish request that was taken apart, given what its metadata were
/// read as: nothing where they are no metadata.
pub fn normalize_publish(frame: PublishFrame<'_>, decoded: Option<PublishMetadata>) -> (result:
    Result<NormalizedPublish, AppError>)
    ensures
        normalizes(result, decoded, frame.tarball@),
{
    let metadata = match decoded {
        Some(metadata) => metadata,
        None => return Err(bad_request("invalid publish metadata JSON")),
    };
    let reading = parse_version(metadata.vers.as_str());
    let checksum = hex_digest_sha256(frame.tarball);
    proof {
        lemma_hex_ascii(sha256_digest(frame.tarball@));
    }
    assemble_publish(metadata, reading, checksum, frame.tarball)
}

/// The publish request is authorized under the name: the one that its metadata
/// give, read as JSON.
pub open spec fn is_authorized_as(body: Seq<u8>, name: Seq<char>) -> bool {
    &&& publish_name_fault(body) is None
    &&& json_reading(metadata_of(body)) matches Some(Json::Object(all))
    &&& all["name"@] == Json::Text(name)
}

/// Metadata were read with the name that their bytes give, read as JSON.
pub open spec fn keeps_name(bytes: Seq<u8>, decoded: Option<PublishMetadata>) -> bool {
    decoded matches Some(metadata) ==> (json_reading(bytes) matches Some(Json::Object(all))
        ==> all["name"@] == Json::Text(metadata.name@))
}

/// Reads a publish request. `decode` turns the bytes of its metadata into
/// metadata, or into nothing where they are none. Which metadata it makes of them
/// is not stated here. Where it keeps the name that the bytes give, a request is
/// published under no other name than the one it is authorized under.
pub fn parse_publish_body<F>(body: &[u8], max_tarball_bytes: usize, decode: F) -> (result: Result<
    NormalizedPublish,
    AppError,
>) where F: Fn(&[u8]) -> Option<PublishMetadata>
    requires
        max_tarball_bytes + METADATA_ALLOWANCE <= usize::MAX,
        forall|bytes: &[u8]| #[trigger] decode.requires((bytes,)),
    ensures
        match frame_fault(body@, max_tarball_bytes) {
            Some(fault) => result matches Err(error) && error@ == fault,
            None => exists|bytes: &[u8], decoded: Option<PublishMetadata>| #[trigger]
                decode.ensures((bytes,), decoded) && bytes@ == metadata_of(body@) && normalizes(
                    result,
                    decoded,
                    tarball_of(body@),
                ),
        },
        result matches Ok(publish) ==> publish.crate_bytes@.len() <= u32::MAX,
        (result matches Ok(publish) && forall|bytes: &[u8], decoded: Option<PublishMetadata>| #[trigger]
            decode.ensures((bytes,), decoded) ==> keeps_name(bytes@, decoded)) ==> forall|name: Seq<char>| #[trigger]
            is_authorized_as(body@, name) ==> result->Ok_0.name@ == name,
{
    let frame = frame_publish_body(body, max_tarball_bytes)?;
    let decoded = decode(frame.metadata);
    normalize_publish(frame, decoded)
}

/// What the registry makes of the name that a publish request's metadata give.
pub open spec fn declared_name_fault(metadata: Json) -> Option<Fault> {
    match metadata {
        Json::Object(all) => if all.dom().contains("name"@) && all["name"@] is Text {
            None
        } else {
            Some(Fault::BadRequest("publish metadata missing name"@))
        },
        _ => Some(Fault::BadRequest("publish metadata missing name"@)),
    }
}

/// The name that metadata give the crate.
pub fn declared_name(metadata: &Value) -> (result: Result<String, AppError>)
    ensures
        match result {
            Ok(name) => document(*metadata) matches Json::Object(all) && all.dom().contains("name"@)
                && all["name"@] == Json::Text(name@),
            Err(error) => declared_name_fault(document(*metadata)) == Some(error@),
        },
{
    let name = match member(metadata, "name") {
        Some(value) => value.as_str(),
        None => None,
    };
    match name {
        Some(name) => Ok(name.to_owned()),
        None => Err(bad_request("publish metadata missing name")),
    }
}

/// What is wrong with metadata of which only the name is wanted, given what
/// their bytes read as.
pub open spec fn reading_fault(reading: Option<Json>) -> Option<Fault> {
    match reading {
        None => Some(Fault::BadRequest("invalid publish metadata JSON"@)),
        Some(metadata) => declared_name_fault(metadata),
    }
}

/// The name that metadata give the crate, given what their bytes were read as.
pub fn name_from_reading(reading: Result<Value, serde_json::Error>) -> (result: Result<
    String,
    AppError,
>)
    ensures
        match reading {
            Ok(metadata) => match result {
                Ok(name) => document(metadata) matches Json::Object(all) && all.dom().contains(
                    "name"@,
                ) && all["name"@] == Json::Text(name@),
                Err(error) => reading_fault(Some(document(metadata))) == Some(error@),
            },
            Err(_) => result matches Err(error) && reading_fault(None) == Some(error@),
        },
{
    match reading {
        Ok(metadata) => declared_name(&metadata),
        Err(_) => Err(bad_request("invalid publish metadata JSON")),
    }
}

/// What is wrong with a publish request of which only the name is wanted.
pub open spec fn publish_name_fault(body: Seq<u8>) -> Option<Fault> {
    if metadata_fault(body) is Some {
        metadata_fault(body)
    } else {
        reading_fault(json_reading(metadata_of(body)))
    }
}

/// The crate that a publish request is about, by which it is authorized before
/// the rest of it is looked at.
pub fn crate_name_from_publish_body(body: &[u8]) -> (result: Result<String, AppError>)
    ensures
        match result {
            Ok(name) => is_authorized_as(body@, name@),
            Err(error) => publish_name_fault(body@) == Some(error@),
        },
{
    let bytes = publish_metadata_bytes(body)?;
    name_from_reading(read_document(bytes))
}

/// The name under which a publish request is authorized is the name that is
/// published, where its metadata are read with the name that their bytes give.
pub proof fn law_authorized_name_is_published(
    body: Seq<u8>,
    name: Seq<char>,
    decoded: Option<PublishMetadata>,
    result: Result<NormalizedPublish, AppError>,
)
    requires
        is_authorized_as(body, name),
        keeps_name(metadata_of(body), decoded),
        normalizes(result, decoded, tarball_of(body)),
    ensures
        result matches Ok(publish) ==> publish.name@ == name,
{
}

/// A publish request that can be taken apart is authorized by the bytes of the
/// metadata that are published, and by nothing else.
pub proof fn law_authorized_by_what_is_published(
    a: Seq<u8>,
    b: Seq<u8>,
    max_tarball_bytes: usize,
)
    requires
        frame_fault(a, max_tarball_bytes) is None,
        frame_fault(b, max_tarball_bytes) is None,
        metadata_of(a) == metadata_of(b),
    ensures
        publish_name_fault(a) == publish_name_fault(b),
        forall|name: Seq<char>| is_authorized_as(a, name) <==> is_authorized_as(b, name),
{
}

/// Two publish requests take the same key exactly when their versions differ at
/// most in their build metadata.
pub proof fn law_versions_collide(
    a: NormalizedPublish,
    metadata_a: PublishMetadata,
    version_a: Release,
    checksum_a: Seq<char>,
    tarball_a: Seq<u8>,
    b: NormalizedPublish,
    metadata_b: PublishMetadata,
    version_b: Release,
    checksum_b: Seq<char>,
    tarball_b: Seq<u8>,
)
    requires
        stores(a, metadata_a, version_a, checksum_a, tarball_a),
        stores(b, metadata_b, version_b, checksum_b, tarball_b),
    ensures
        a.semver_key@ == b.semver_key@ <==> without_build(version_a) == without_build(version_b),
{
    law_version_keys(version_a, version_b);
}

/// A renamed dependency is listed under its new name with the real one beside
/// it; any other is listed under its own name alone.
pub proof fn law_dependency_aliases(dep: PublishDependency)
    ensures
        index_dependency_json(dep) matches Json::Object(listed) && match dep.explicit_name_in_toml {
            Some(alias) => listed["name"@] == Json::Text(alias@) && listed["package"@]
                == Json::Text(dep.name@),
            None => listed["name"@] == Json::Text(dep.name@) && listed["package"@] == Json::Null,
        },
{
    reveal_strlit("name");
    reveal_strlit("req");
    reveal_strlit("features");
    reveal_strlit("optional");
    reveal_strlit("default_features");
    reveal_strlit("target");
    reveal_strlit("kind");
    reveal_strlit("registry");
    reveal_strlit("package");
    assert("name"@[0] == 'n');
    assert("req"@[0] == 'r');
    assert("features"@[0] == 'f');
    assert("optional"@[0] == 'o');
    assert("default_features"@[0] == 'd');
    assert("target"@[0] == 't');
    assert("kind"@[0] == 'k');
    assert("registry"@[0] == 'r');
    assert("package"@[0] == 'p');
}

} // verus!
