//! Names and versions of services.

use crate::error::{unsupported_version, unsupported_version_message, CommandError, CommandErrorView};
use crate::text::{concat2, concat3, cut, cut_spec, remove_char, replace_char, replaced, without};
use crate::text_map::TextMap;
use vstd::prelude::*;

verus! {

/// The name `prefix-name` with every underscore turned into a hyphen.
pub open spec fn sanitized(prefix: Seq<char>, name: Seq<char>) -> Seq<char> {
    replaced(prefix + "-"@ + name, '_', "-"@)
}

/// The name of a service as the cluster takes it.
pub fn sanitize_name(prefix: &str, name: &str) -> (r: String)
    ensures
        r@ == sanitized(prefix@, name@),
{
    let joined = concat3(prefix, "-", name);
    replace_char(joined.as_str(), '_', "-")
}

/// The name of a managed database: the prefix, then the name without
/// underscores and hyphens, cut to `max_size` less the length of the prefix.
pub open spec fn managed_db_name(max_size: nat, prefix: Seq<char>, name: Seq<char>) -> Seq<char> {
    cut_spec(prefix + without(without(name, '_'), '-'), (max_size - prefix.len()) as nat)
}

/// The name of a managed database as the cloud provider takes it. The
/// prefix has to fit in `max_size`.
pub fn managed_db_name_sanitizer(max_size: usize, prefix: &str, name: &str) -> (r: String)
    requires
        prefix@.len() <= max_size,
    ensures
        r@ == managed_db_name(max_size as nat, prefix@, name@),
{
    let room: usize = max_size - prefix.unicode_len();
    let plain = remove_char(name, '_');
    let plain = remove_char(plain.as_str(), '-');
    let full = concat2(prefix, plain.as_str());
    cut(full.as_str(), room)
}

/// The line that says which operation of which resource was called.
pub open spec fn action_line(
    cloud_provider_name: Seq<char>,
    struct_name: Seq<char>,
    fn_name: Seq<char>,
    item_name: Seq<char>,
) -> Seq<char> {
    cloud_provider_name + "."@ + struct_name + "."@ + fn_name + " called for "@ + item_name
}

/// The line that is logged when an operation of a resource begins.
pub fn action_message(
    cloud_provider_name: &str,
    struct_name: &str,
    fn_name: &str,
    item_name: &str,
) -> (r: String)
    ensures
        r@ == action_line(cloud_provider_name@, struct_name@, fn_name@, item_name@),
{
    let mut m = concat3(cloud_provider_name, ".", struct_name);
    m.append(".");
    m.append(fn_name);
    m.append(" called for ");
    m.append(item_name);
    m
}

/// The place of the first dot of a text; its length where it has none.
pub open spec fn first_dot(s: Seq<char>) -> int
    decreases s.len(),
{
    if s.len() == 0 || s[0] == '.' {
        0
    } else {
        1 + first_dot(s.drop_first())
    }
}

/// The first dot is where a dot stands and none stands before.
pub proof fn lemma_first_dot(s: Seq<char>, i: int)
    requires
        0 <= i <= s.len(),
        forall|j: int| 0 <= j < i ==> s[j] != '.',
        i < s.len() ==> s[i] == '.',
    ensures
        first_dot(s) == i,
    decreases i,
{
    if i > 0 {
        let tail = s.drop_first();
        assert(s[0] != '.');
        assert forall|j: int| 0 <= j < i - 1 implies tail[j] != '.' by {
            assert(tail[j] == s[j + 1]);
        }
        if i < s.len() {
            assert(tail[i - 1] == s[i]);
        }
        lemma_first_dot(tail, i - 1);
    }
}

/// What stands before the first dot of a text, and what stands behind it
/// where the text has a dot.
pub open spec fn split_at_dot(s: Seq<char>) -> (Seq<char>, Option<Seq<char>>) {
    let d = first_dot(s);
    if d < s.len() {
        (s.take(d), Some(s.skip(d + 1)))
    } else {
        (s, None)
    }
}

fn split_dot(s: &str) -> (r: (String, Option<String>))
    ensures
        r.0@ == split_at_dot(s@).0,
        match r.1 {
            Some(rest) => split_at_dot(s@).1 == Some(rest@),
            None => split_at_dot(s@).1 is None,
        },
{
    let n: usize = s.unicode_len();
    let mut i: usize = 0;
    while i < n
        invariant
            n == s@.len(),
            i <= n,
            forall|j: int| 0 <= j < i ==> s@[j] != '.',
        decreases n - i,
    {
        if s.get_char(i) == '.' {
            proof {
                lemma_first_dot(s@, i as int);
            }
            let head = s.substring_char(0, i);
            let rest = s.substring_char(i + 1, n);
            assert(s@.subrange(0, i as int) =~= s@.take(i as int));
            assert(s@.subrange(i + 1, n as int) =~= s@.skip(i + 1));
            return (String::from_str(head), Some(String::from_str(rest)));
        }
        i = i + 1;
    }
    proof {
        lemma_first_dot(s@, n as int);
    }
    (String::from_str(s), None)
}

/// A version in its parts: `major.minor.patch.suffix`, of which only the
/// first has to be there. The suffix is all that follows the third dot.
#[derive(Debug)]
pub struct VersionsNumber {
    pub major: String,
    pub minor: Option<String>,
    pub patch: Option<String>,
    pub suffix: Option<String>,
}

/// What a [`VersionsNumber`] holds, as mathematical values.
pub struct VersionsNumberView {
    pub major: Seq<char>,
    pub minor: Option<Seq<char>>,
    pub patch: Option<Seq<char>>,
    pub suffix: Option<Seq<char>>,
}

impl View for VersionsNumber {
    type V = VersionsNumberView;

    open spec fn view(&self) -> VersionsNumberView {
        VersionsNumberView {
            major: self.major@,
            minor: match self.minor {
                Some(m) => Some(m@),
                None => None,
            },
            patch: match self.patch {
                Some(p) => Some(p@),
                None => None,
            },
            suffix: match self.suffix {
                Some(x) => Some(x@),
                None => None,
            },
        }
    }
}

/// The parts of a version text.
pub open spec fn version_parts(s: Seq<char>) -> VersionsNumberView {
    let (major, rest) = split_at_dot(s);
    match rest {
        None => VersionsNumberView { major, minor: None, patch: None, suffix: None },
        Some(r1) => {
            let (minor, rest) = split_at_dot(r1);
            match rest {
                None => VersionsNumberView { major, minor: Some(minor), patch: None, suffix: None },
                Some(r2) => {
                    let (patch, rest) = split_at_dot(r2);
                    VersionsNumberView {
                        major,
                        minor: Some(minor),
                        patch: Some(patch),
                        suffix: rest,
                    }
                },
            }
        },
    }
}

impl VersionsNumber {
    /// The parts of a version text; an error for the empty text.
    pub fn from_str(version: &str) -> (r: Result<VersionsNumber, CommandError>)
        ensures
            match r {
                Ok(v) => version@.len() > 0 && v@ == version_parts(version@),
                Err(e) => version@.len() == 0 && e@ == safe_error("version cannot be empty"@),
            },
    {
        if version.unicode_len() == 0 {
            return Err(
                CommandError::new_from_safe_message(String::from_str("version cannot be empty")),
            );
        }
        let (major, rest) = split_dot(version);
        let r1 = match rest {
            None => {
                return Ok(VersionsNumber { major, minor: None, patch: None, suffix: None });
            },
            Some(r1) => r1,
        };
        let (minor, rest) = split_dot(r1.as_str());
        let r2 = match rest {
            None => {
                return Ok(VersionsNumber { major, minor: Some(minor), patch: None, suffix: None });
            },
            Some(r2) => r2,
        };
        let (patch, suffix) = split_dot(r2.as_str());
        Ok(VersionsNumber { major, minor: Some(minor), patch: Some(patch), suffix })
    }
}

/// The key under which a table lists a version: as many of major, minor
/// and patch as the version has, with dots between them.
pub open spec fn version_key(v: VersionsNumberView) -> Seq<char> {
    match (v.minor, v.patch) {
        (Some(minor), Some(patch)) => v.major + "."@ + minor + "."@ + patch,
        (Some(minor), None) => v.major + "."@ + minor,
        _ => v.major,
    }
}

fn key_of(v: &VersionsNumber) -> (r: String)
    ensures
        r@ == version_key(v@),
{
    match (&v.minor, &v.patch) {
        (Some(minor), Some(patch)) => {
            let mut k = concat3(v.major.as_str(), ".", minor.as_str());
            k.append(".");
            k.append(patch.as_str());
            k
        },
        (Some(minor), None) => concat3(v.major.as_str(), ".", minor.as_str()),
        _ => v.major.clone(),
    }
}

/// The error whose only message is safe to show: the message stands as
/// the raw one and as the safe one.
pub open spec fn safe_error(message: Seq<char>) -> CommandErrorView {
    CommandErrorView { message_raw: message, message_safe: Some(message) }
}

/// The version that a table gives for a requested one: the entry under the
/// key of the request, an error where the request is empty or not listed.
/// The message of the error is safe to show.
pub open spec fn supported_version(
    database_name: Seq<char>,
    table: Map<Seq<char>, Seq<char>>,
    requested: Seq<char>,
) -> Result<Seq<char>, CommandErrorView> {
    if requested.len() == 0 {
        Err(safe_error("version cannot be empty"@))
    } else if table.dom().contains(version_key(version_parts(requested))) {
        Ok(table[version_key(version_parts(requested))])
    } else {
        Err(safe_error(unsupported_version_message(database_name, requested)))
    }
}

/// The view of the result of a look-up: the version, or the error with
/// both of its messages.
pub open spec fn lookup_view(r: Result<String, CommandError>) -> Result<Seq<char>, CommandErrorView> {
    match r {
        Ok(v) => Ok(v@),
        Err(e) => Err(e@),
    }
}

/// Looks a requested version up in the table of the supported ones.
pub fn get_supported_version_to_use(
    database_name: &str,
    all_supported_versions: &TextMap,
    version_to_check: String,
) -> (r: Result<String, CommandError>)
    ensures
        lookup_view(r) == supported_version(
            database_name@,
            all_supported_versions@,
            version_to_check@,
        ),
{
    let version = match VersionsNumber::from_str(version_to_check.as_str()) {
        Ok(v) => v,
        Err(e) => {
            return Err(e);
        },
    };
    let key = key_of(&version);
    match all_supported_versions.get(key.as_str()) {
        Some(v) => Ok(v.clone()),
        None => Err(unsupported_version(database_name, version_to_check.as_str())),
    }
}

} // verus!
