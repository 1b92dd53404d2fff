//! What a package's description file says about the versions of the
//! packages it depends on. The file is JSON; `serde_json` parses it and
//! reads its members.

use crate::consume::opt_version;
use crate::consume::ConsumeVersion;
use crate::consume::VersionModel;
use crate::contract::opt_text;
use vstd::prelude::*;
use vstd::string::StringSliceAdditionalSpecFns;

verus! {

#[verifier::external_type_specification]
#[verifier::external_body]
pub struct ExJsonValue(serde_json::Value);

#[verifier::external_type_specification]
#[verifier::external_body]
pub struct ExJsonError(serde_json::Error);

/// What `serde_json::from_slice` makes of a text: the value it stands for,
/// or none where the text is no JSON.
pub uninterp spec fn json_parsed(bytes: Seq<u8>) -> Option<serde_json::Value>;

/// What `serde_json::Value::get` finds under a key: the member of that
/// name, if the value is a table that has one.
pub uninterp spec fn json_member(value: serde_json::Value, key: Seq<char>) -> Option<
    serde_json::Value,
>;

/// What `serde_json::Value::as_str` gives: the text of the value, if the
/// value is a string.
pub uninterp spec fn json_text(value: serde_json::Value) -> Option<Seq<char>>;

/// `serde_json::from_slice` for a `Value`: parses `bytes`. It gives a value
/// or an error, and which of them, and which value, depends on the bytes
/// alone.
#[verifier::external_body]
fn json_from_slice(bytes: &[u8]) -> (r: Result<serde_json::Value, serde_json::Error>)
    ensures
        match r {
            Ok(value) => json_parsed(bytes@) == Some(value),
            Err(_) => json_parsed(bytes@) is None,
        },
{
    serde_json::from_slice::<serde_json::Value>(bytes)
}

/// `serde_json::Value::get` with a string: the member of `value` under
/// `key`, which depends on the value and the key alone.
#[verifier::external_body]
fn json_get<'a>(value: &'a serde_json::Value, key: &str) -> (member: Option<&'a serde_json::Value>)
    ensures
        match member {
            Some(m) => json_member(*value, key@) == Some(*m),
            None => json_member(*value, key@) is None,
        },
{
    value.get(key)
}

/// `serde_json::Value::as_str`: the text of `value`, which depends on the
/// value alone.
#[verifier::external_body]
fn json_as_str<'a>(value: &'a serde_json::Value) -> (text: Option<&'a str>)
    ensures
        match text {
            Some(t) => json_text(*value) == Some(t@),
            None => json_text(*value) is None,
        },
{
    value.as_str()
}

/// The version that the section `section` of the file `data` asks of the
/// package `name`: the text under the package's name in the table under the
/// section's name.
pub open spec fn version_in(data: serde_json::Value, section: Seq<char>, name: Seq<char>) -> Option<
    Seq<char>,
> {
    match json_member(data, section) {
        Some(dependencies) => match json_member(dependencies, name) {
            Some(version) => json_text(version),
            None => None,
        },
        None => None,
    }
}

/// The first of four versions that is there.
pub open spec fn first_of(
    optional: Option<Seq<char>>,
    plain: Option<Seq<char>>,
    peer: Option<Seq<char>>,
    dev: Option<Seq<char>>,
) -> Option<VersionModel> {
    match optional {
        Some(v) => Some(VersionModel::Version(v)),
        None => match plain {
            Some(v) => Some(VersionModel::Version(v)),
            None => match peer {
                Some(v) => Some(VersionModel::Version(v)),
                None => match dev {
                    Some(v) => Some(VersionModel::Version(v)),
                    None => None,
                },
            },
        },
    }
}

/// The version that the file `data` asks of the package `name`: that of the
/// first of the sections for optional, plain, peer and development
/// dependencies that lists the package with a version written as a string.
pub open spec fn required_version(data: serde_json::Value, name: Seq<char>) -> Option<
    VersionModel,
> {
    first_of(
        version_in(data, "optionalDependencies"@, name),
        version_in(data, "dependencies"@, name),
        version_in(data, "peerDependencies"@, name),
        version_in(data, "devDependencies"@, name),
    )
}

/// Whether `text` is JSON.
pub fn is_json(text: &str) -> (b: bool)
    ensures
        b == json_parsed(text.spec_bytes()) is Some,
{
    json_from_slice(text.as_bytes()).is_ok()
}

/// Parses the text of a description file. None where the text is no JSON.
pub fn parse_description_file(bytes: &[u8]) -> (data: Option<serde_json::Value>)
    ensures
        data == json_parsed(bytes@),
{
    match json_from_slice(bytes) {
        Ok(value) => Some(value),
        Err(_) => None,
    }
}

/// The version that the section `section` of `data` asks of `name`.
fn version_from(data: &serde_json::Value, section: &str, name: &str) -> (version: Option<String>)
    ensures
        opt_text(version) == version_in(*data, section@, name@),
{
    match json_get(data, section) {
        Some(dependencies) => match json_get(dependencies, name) {
            Some(entry) => match json_as_str(entry) {
                Some(text) => Some(text.to_owned()),
                None => None,
            },
            None => None,
        },
        None => None,
    }
}

/// The first of the versions that the four sections of a description file
/// ask of a package.
pub fn first_version(
    optional: Option<String>,
    plain: Option<String>,
    peer: Option<String>,
    dev: Option<String>,
) -> (version: Option<ConsumeVersion>)
    ensures
        opt_version(version) == first_of(
            opt_text(optional),
            opt_text(plain),
            opt_text(peer),
            opt_text(dev),
        ),
{
    if let Some(v) = optional {
        Some(ConsumeVersion::Version(v))
    } else if let Some(v) = plain {
        Some(ConsumeVersion::Version(v))
    } else if let Some(v) = peer {
        Some(ConsumeVersion::Version(v))
    } else if let Some(v) = dev {
        Some(ConsumeVersion::Version(v))
    } else {
        None
    }
}

/// The version that the description file `data` asks of the package
/// `package_name`, if one of its sections lists the package.
pub fn get_required_version_from_description_file(
    data: &serde_json::Value,
    package_name: &str,
) -> (version: Option<ConsumeVersion>)
    ensures
        opt_version(version) == required_version(*data, package_name@),
{
    first_version(
        version_from(data, "optionalDependencies", package_name),
        version_from(data, "dependencies", package_name),
        version_from(data, "peerDependencies", package_name),
        version_from(data, "devDependencies", package_name),
    )
}

} // verus!
