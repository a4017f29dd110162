//! Checksums, image tags and short identifiers.

use crate::text::{concat2, concat3, cut, cut_spec, decimal, u64_to_string};
use std::collections::hash_map::DefaultHasher;
use std::collections::BTreeMap;
use std::hash::{Hash, Hasher};
use vstd::prelude::*;
use vstd::std_specs::hash::DefaultHasherAdditionalSpecFns;

verus! {

/// `uuid::Uuid`: an identifier of 128 bits. Nothing of its inside is known
/// here; identifiers are only written out.
#[verifier::external_type_specification]
#[verifier::external_body]
pub struct ExUuid(uuid::Uuid);

/// What a hasher that has been fed `state` has been fed once a text is
/// hashed into it: a function of the two, whatever the hasher.
pub uninterp spec fn written_text(state: Seq<Seq<u8>>, text: Seq<char>) -> Seq<Seq<u8>>;

/// The same for a text that may be absent. What is fed depends on the
/// platform the engine is built for, and on nothing else but the two.
pub uninterp spec fn written_optional_text(state: Seq<Seq<u8>>, text: Option<Seq<char>>) -> Seq<
    Seq<u8>,
>;

/// The same for an ordered map from text to text, with the same
/// dependence on the platform.
pub uninterp spec fn written_entries(state: Seq<Seq<u8>>, entries: Map<String, String>) -> Seq<
    Seq<u8>,
>;

/// The hyphenated lower-case notation of an identifier.
pub uninterp spec fn uuid_hyphenated(id: uuid::Uuid) -> Seq<char>;

/// `Hash::hash` of `str`: what the hasher is fed depends on what it was fed
/// before and on the characters of the text, and on nothing else.
#[verifier::external_body]
fn hash_text(state: &mut DefaultHasher, text: &str)
    ensures
        final(state)@ == written_text(old(state)@, text@),
{
    text.hash(state)
}

/// `Hash::hash` of `Option<String>`.
#[verifier::external_body]
fn hash_optional_text(state: &mut DefaultHasher, text: &Option<String>)
    ensures
        final(state)@ == written_optional_text(
            old(state)@,
            match *text {
                Some(t) => Some(t@),
                None => None,
            },
        ),
{
    text.hash(state)
}

/// `Hash::hash` of `BTreeMap<String, String>`.
#[verifier::external_body]
fn hash_entries(state: &mut DefaultHasher, entries: &BTreeMap<String, String>)
    ensures
        final(state)@ == written_entries(old(state)@, entries@),
{
    entries.hash(state)
}

/// `ToString::to_string` of `uuid::Uuid`: the hyphenated lower-case notation.
#[verifier::external_body]
pub(crate) fn uuid_text(id: &uuid::Uuid) -> (r: String)
    ensures
        r@ == uuid_hyphenated(*id),
{
    id.to_string()
}

/// The checksum of a text: what a fresh default hasher finishes with once
/// the text is hashed into it.
pub open spec fn text_hash(t: Seq<char>) -> u64 {
    DefaultHasher::spec_finish(written_text(Seq::empty(), t))
}

pub fn calculate_hash(t: &str) -> (r: u64)
    ensures
        r == text_hash(t@),
{
    let mut s = DefaultHasher::new();
    hash_text(&mut s, t);
    s.finish()
}

/// What the hasher of an image tag is fed: the root path, then, only where
/// a Dockerfile is used, its path and the environment variables.
pub open spec fn image_tag_input(
    root_path: Seq<char>,
    dockerfile_path: Option<Seq<char>>,
    environment_variables: Map<String, String>,
) -> Seq<Seq<u8>> {
    let rooted = written_text(Seq::empty(), root_path);
    if dockerfile_path is Some {
        written_entries(written_optional_text(rooted, dockerfile_path), environment_variables)
    } else {
        rooted
    }
}

/// The tag of an image: the checksum in decimal, a hyphen and the commit.
pub open spec fn image_tag(
    root_path: Seq<char>,
    dockerfile_path: Option<Seq<char>>,
    environment_variables: Map<String, String>,
    commit_id: Seq<char>,
) -> Seq<char> {
    cut_spec(
        decimal(
            DefaultHasher::spec_finish(
                image_tag_input(root_path, dockerfile_path, environment_variables),
            ) as nat,
        ) + "-"@ + commit_id,
        127,
    )
}

/// The tag under which an image is built and found again, at most 127
/// characters long. Without a Dockerfile the environment variables do not
/// enter the tag.
pub fn compute_image_tag(
    root_path: &str,
    dockerfile_path: &Option<String>,
    environment_variables: &BTreeMap<String, String>,
    commit_id: &str,
) -> (r: String)
    ensures
        r@ == image_tag(
            root_path@,
            match *dockerfile_path {
                Some(t) => Some(t@),
                None => None,
            },
            environment_variables@,
            commit_id@,
        ),
{
    let mut hasher = DefaultHasher::new();
    hash_text(&mut hasher, root_path);
    if dockerfile_path.is_some() {
        hash_optional_text(&mut hasher, dockerfile_path);
        hash_entries(&mut hasher, environment_variables);
    }
    let sum = u64_to_string(hasher.finish());
    let tag = concat3(sum.as_str(), "-", commit_id);
    cut(tag.as_str(), 127)
}

/// The short form of an identifier: `z` and the first eight characters of
/// its hyphenated notation.
pub fn to_short_id(id: &uuid::Uuid) -> (r: String)
    ensures
        r@ == "z"@ + cut_spec(uuid_hyphenated(*id), 8),
{
    let text = uuid_text(id);
    let head = cut(text.as_str(), 8);
    concat2("z", head.as_str())
}

/// The headers of a request that carries a bearer token, as pairs of name
/// and value.
pub fn get_header_with_bearer(token: &str) -> (r: Vec<(String, String)>)
    ensures
        r@.len() == 2,
        r@[0].0@ == "Content-Type"@,
        r@[0].1@ == "application/json"@,
        r@[1].0@ == "Authorization"@,
        r@[1].1@ == "Bearer "@ + token@,
{
    let mut headers: Vec<(String, String)> = Vec::new();
    headers.push((String::from_str("Content-Type"), String::from_str("application/json")));
    headers.push((String::from_str("Authorization"), concat2("Bearer ", token)));
    headers
}

} // verus!
