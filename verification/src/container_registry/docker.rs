//! The commands of the container tool: what is run, how often it is tried
//! again, and what is reported when it fails.

use crate::cloud_provider::helm::texts;
use crate::container_registry::Kind;
use crate::error::CommandError;
use crate::events::{EngineEvent, EventDetails, EventMessage};
use crate::text::{concat2, concat3};
use vstd::prelude::*;

verus! {

/// The manifest of an image, as the registry gives it.
#[derive(Debug)]
pub struct DockerImageManifest {
    pub schema_version: i64,
    pub media_type: String,
    pub config: Config,
    pub layers: Vec<Layer>,
}

/// The configuration entry of a manifest.
#[derive(Debug)]
pub struct Config {
    pub media_type: String,
    pub size: i64,
    pub digest: String,
}

/// One layer of an image.
#[derive(Debug)]
pub struct Layer {
    pub media_type: String,
    pub size: i64,
    pub digest: String,
}

impl Default for Config {
    fn default() -> (r: Config)
        ensures
            r.media_type@ == Seq::<char>::empty(),
            r.size == 0,
            r.digest@ == Seq::<char>::empty(),
    {
        Config { media_type: String::new(), size: 0, digest: String::new() }
    }
}

impl Default for Layer {
    fn default() -> (r: Layer)
        ensures
            r.media_type@ == Seq::<char>::empty(),
            r.size == 0,
            r.digest@ == Seq::<char>::empty(),
    {
        Layer { media_type: String::new(), size: 0, digest: String::new() }
    }
}

impl Default for DockerImageManifest {
    fn default() -> (r: DockerImageManifest)
        ensures
            r.schema_version == 0,
            r.media_type@ == Seq::<char>::empty(),
            r.config.media_type@ == Seq::<char>::empty(),
            r.config.size == 0,
            r.config.digest@ == Seq::<char>::empty(),
            r.layers@.len() == 0,
    {
        DockerImageManifest {
            schema_version: 0,
            media_type: String::new(),
            config: Config::default(),
            layers: Vec::new(),
        }
    }
}

/// The state of the delays after `n` of them were given: the delay that
/// comes next and the one after it. Each delay is the sum of the two before
/// it, as far as the number can be held.
pub open spec fn fibonacci_state(millis: u64, n: nat) -> (u64, u64)
    decreases n,
{
    if n == 0 {
        (millis, millis)
    } else {
        let (curr, next) = fibonacci_state(millis, (n - 1) as nat);
        if curr + next <= u64::MAX {
            (next, (curr + next) as u64)
        } else {
            (next, u64::MAX)
        }
    }
}

/// The delay with index `i` of the delays that begin with `millis`.
pub open spec fn fibonacci_delay(millis: u64, i: nat) -> u64 {
    fibonacci_state(millis, i).0
}

/// `retry::delay::Fibonacci::from_millis` and `Iterator::next` of it: the
/// first `count` delays, in milliseconds. The first two delays are
/// `millis`; each later one is the sum of the two before it, and
/// `u64::MAX` in place of a sum that cannot be held.
#[verifier::external_body]
fn fibonacci_delays(millis: u64, count: usize) -> (r: Vec<u64>)
    ensures
        r@.len() == count,
        forall|i: int| 0 <= i < count ==> r@[i] == fibonacci_delay(millis, i as nat),
{
    retry::delay::Fibonacci::from_millis(millis).take(count).map(|d| d.as_millis() as u64).collect()
}

/// One command of the container tool.
#[derive(Debug)]
pub struct DockerCommand {
    pub binary: String,
    pub args: Vec<String>,
    pub envs: Vec<(String, String)>,
    /// After how many minutes the command is given up; none for no limit.
    pub timeout_in_minutes: Option<u32>,
    /// The delays in milliseconds after which a failed command is tried
    /// again; once they are used up, the command has failed for good.
    pub retry_delays: Vec<u64>,
}

/// The texts of a list with `sep` between them.
pub open spec fn joined(parts: Seq<Seq<char>>, sep: Seq<char>) -> Seq<char>
    decreases parts.len(),
{
    if parts.len() == 0 {
        Seq::empty()
    } else if parts.len() == 1 {
        parts[0]
    } else {
        joined(parts.drop_last(), sep) + sep + parts.last()
    }
}

/// The environment variables of a list, each as `name=value`.
pub open spec fn env_texts(envs: Seq<(String, String)>) -> Seq<Seq<char>> {
    Seq::new(envs.len(), |i: int| envs[i].0@ + "="@ + envs[i].1@)
}

/// A command as one line: the environment, the binary and the arguments.
pub open spec fn command_line(binary: Seq<char>, args: Seq<Seq<char>>, envs: Seq<(String, String)>) -> Seq<
    char,
> {
    joined(env_texts(envs), " "@) + " "@ + binary + " "@ + joined(args, " "@)
}

fn join_args(args: &Vec<String>) -> (r: String)
    ensures
        r@ == joined(texts(args@), " "@),
{
    let mut r = String::new();
    let n: usize = args.len();
    let mut i: usize = 0;
    assert(texts(args@).take(0) =~= Seq::<Seq<char>>::empty());
    while i < n
        invariant
            n == args@.len(),
            i <= n,
            r@ == joined(texts(args@).take(i as int), " "@),
        decreases n - i,
    {
        let ghost head = texts(args@).take(i + 1);
        assert(head.drop_last() =~= texts(args@).take(i as int));
        assert(head.last() == args@[i as int]@);
        if i > 0 {
            r.append(" ");
        } else {
            assert(Seq::<char>::empty() + args@[i as int]@ =~= args@[i as int]@);
        }
        r.append(args[i].as_str());
        i = i + 1;
    }
    assert(texts(args@).take(n as int) =~= texts(args@));
    r
}

fn join_envs(envs: &Vec<(String, String)>) -> (r: String)
    ensures
        r@ == joined(env_texts(envs@), " "@),
{
    let mut r = String::new();
    let n: usize = envs.len();
    let mut i: usize = 0;
    assert(env_texts(envs@).take(0) =~= Seq::<Seq<char>>::empty());
    while i < n
        invariant
            n == envs@.len(),
            i <= n,
            r@ == joined(env_texts(envs@).take(i as int), " "@),
        decreases n - i,
    {
        let ghost head = env_texts(envs@).take(i + 1);
        assert(head.drop_last() =~= env_texts(envs@).take(i as int));
        assert(head.last() == envs@[i as int].0@ + "="@ + envs@[i as int].1@);
        let one = concat3(envs[i].0.as_str(), "=", envs[i].1.as_str());
        if i > 0 {
            r.append(" ");
        } else {
            assert(Seq::<char>::empty() + one@ =~= one@);
        }
        r.append(one.as_str());
        i = i + 1;
    }
    assert(env_texts(envs@).take(n as int) =~= env_texts(envs@));
    r
}

/// A command as one line.
pub fn command_to_string(binary: &str, args: &Vec<String>, envs: &Vec<(String, String)>) -> (r:
    String)
    ensures
        r@ == command_line(binary@, texts(args@), envs@),
{
    let mut r = join_envs(envs);
    r.append(" ");
    r.append(binary);
    r.append(" ");
    let a = join_args(args);
    r.append(a.as_str());
    r
}

impl DockerCommand {
    /// This command as one line.
    pub fn to_line(&self) -> (r: String)
        ensures
            r@ == command_line(self.binary@, texts(self.args@), self.envs@),
    {
        command_to_string(self.binary.as_str(), &self.args, &self.envs)
    }

    /// What is to be done after the command has failed `failures` times in
    /// a row: wait for the delay with that number and try again, or, once
    /// the delays are used up, give up.
    pub fn after_failure(&self, failures: usize) -> (r: Option<u64>)
        ensures
            r == if 0 < failures <= self.retry_delays@.len() {
                Some(self.retry_delays@[failures - 1])
            } else {
                None
            },
    {
        if 0 < failures && failures <= self.retry_delays.len() {
            Some(self.retry_delays[failures - 1])
        } else {
            None
        }
    }

}

fn docker(
    args: Vec<String>,
    envs: Vec<(String, String)>,
    timeout_in_minutes: Option<u32>,
    retry_delays: Vec<u64>,
) -> (r: DockerCommand)
    ensures
        r.binary@ == "docker"@,
        r.args == args,
        r.envs == envs,
        r.timeout_in_minutes == timeout_in_minutes,
        r.retry_delays == retry_delays,
{
    DockerCommand {
        binary: String::from_str("docker"),
        args,
        envs,
        timeout_in_minutes,
        retry_delays,
    }
}

/// The command that logs in to a registry. It is run once.
pub fn docker_login(
    docker_envs: Vec<(String, String)>,
    registry_login: String,
    registry_pass: String,
    registry_url: String,
) -> (r: DockerCommand)
    ensures
        r.binary@ == "docker"@,
        texts(r.args@) == seq![
            "login"@,
            registry_url@,
            "-u"@,
            registry_login@,
            "-p"@,
            registry_pass@,
        ],
        r.envs == docker_envs,
        r.timeout_in_minutes is None,
        r.retry_delays@.len() == 0,
{
    let mut args: Vec<String> = Vec::new();
    args.push(String::from_str("login"));
    args.push(registry_url);
    args.push(String::from_str("-u"));
    args.push(registry_login);
    args.push(String::from_str("-p"));
    args.push(registry_pass);
    assert(texts(args@) =~= seq![
        "login"@,
        registry_url@,
        "-u"@,
        registry_login@,
        "-p"@,
        registry_pass@,
    ]);
    docker(args, docker_envs, None, Vec::new())
}

/// The raw message of a failed command: the command as one line, and what
/// the caller reported of the failure.
pub open spec fn failed_command_message(line: Seq<char>, failure: Seq<char>) -> Seq<char> {
    "Command `"@ + line + "`: "@ + failure
}

/// The safe message of a failed login.
pub open spec fn login_failed_message(kind: Kind, registry_url: Seq<char>) -> Seq<char> {
    "Error while trying to login to registry "@ + kind.provider() + " "@ + registry_url + "."@
}

/// The error of a failed login, and the warning to log for it.
pub fn docker_login_failed(
    container_registry_kind: Kind,
    command: &DockerCommand,
    registry_url: &str,
    failure: &str,
    event_details: EventDetails,
) -> (r: (CommandError, EngineEvent))
    ensures
        r.0@.message_raw == failed_command_message(
            command_line(command.binary@, texts(command.args@), command.envs@),
            failure@,
        ),
        r.0@.message_safe == Some(login_failed_message(container_registry_kind, registry_url@)),
        is_warning_of(r.1, event_details, r.0@.message_safe->0, Some(r.0@.message_raw)),
{
    let line = command.to_line();
    let mut raw = concat3("Command `", line.as_str(), "`: ");
    raw.append(failure);
    let mut safe = concat2(
        "Error while trying to login to registry ",
        container_registry_kind.provider_name(),
    );
    safe.append(" ");
    safe.append(registry_url);
    safe.append(".");
    let err = CommandError::new(raw, Some(safe));
    let event = warning_of(event_details, &err);
    (err, event)
}

/// Whether an event is a warning with these details and this message.
pub open spec fn is_warning_of(
    event: EngineEvent,
    details: EventDetails,
    safe: Seq<char>,
    full: Option<Seq<char>>,
) -> bool {
    &&& event matches EngineEvent::Warning(d, m)
    &&& d == details
    &&& m.safe_message@ == safe
    &&& match full {
        Some(f) => m.full_details is Some && m.full_details->0@ == f,
        None => m.full_details is None,
    }
}

/// The message of a failed command: its safe message where it has one,
/// else the raw one, and the raw one as the details.
pub fn message_of(error: &CommandError) -> (r: EventMessage)
    ensures
        r.safe_message@ == match error@.message_safe {
            Some(s) => s,
            None => error@.message_raw,
        },
        r.full_details is Some,
        r.full_details->0@ == error@.message_raw,
{
    let safe = match error.message_safe() {
        Some(s) => s,
        None => error.message(),
    };
    EventMessage::new(safe, Some(error.message()))
}

/// The warning to log for a failed command.
pub fn warning_of(event_details: EventDetails, error: &CommandError) -> (r: EngineEvent)
    ensures
        is_warning_of(
            r,
            event_details,
            match error@.message_safe {
                Some(s) => s,
                None => error@.message_raw,
            },
            Some(error@.message_raw),
        ),
{
    EngineEvent::Warning(event_details, message_of(error))
}

/// The image with its tag: `name:tag`.
pub open spec fn image_with_tag(image_name: Seq<char>, image_tag: Seq<char>) -> Seq<char> {
    image_name + ":"@ + image_tag
}

/// The command that reads the manifest of an image. It is run once, for a
/// minute at most, with the experimental commands of the tool switched on.
pub fn docker_manifest_inspect(
    docker_envs: Vec<(String, String)>,
    image_name: String,
    image_tag: String,
    registry_url: String,
) -> (r: DockerCommand)
    ensures
        r.binary@ == "docker"@,
        texts(r.args@) == seq![
            "manifest"@,
            "inspect"@,
            registry_url@ + "/"@ + image_with_tag(image_name@, image_tag@),
        ],
        r.envs@.len() == docker_envs@.len() + 1,
        r.envs@.take(docker_envs@.len() as int) == docker_envs@,
        r.envs@.last().0@ == "DOCKER_CLI_EXPERIMENTAL"@,
        r.envs@.last().1@ == "enabled"@,
        r.timeout_in_minutes == Some(1u32),
        r.retry_delays@.len() == 0,
{
    let image = concat3(image_name.as_str(), ":", image_tag.as_str());
    let full = concat3(registry_url.as_str(), "/", image.as_str());
    let mut envs = docker_envs;
    envs.push((String::from_str("DOCKER_CLI_EXPERIMENTAL"), String::from_str("enabled")));
    let mut args: Vec<String> = Vec::new();
    args.push(String::from_str("manifest"));
    args.push(String::from_str("inspect"));
    args.push(full);
    assert(texts(args@) =~= seq![
        "manifest"@,
        "inspect"@,
        registry_url@ + "/"@ + image_with_tag(image_name@, image_tag@),
    ]);
    assert(envs@.take(docker_envs@.len() as int) =~= docker_envs@);
    docker(args, envs, Some(1), Vec::new())
}

/// Why the manifest of an image could not be had.
#[derive(Clone, Copy, Debug, PartialEq, Eq, Structural)]
pub enum ManifestFailure {
    /// The command failed.
    Inspect,
    /// The output of the command is no manifest.
    Deserialize,
}

/// The safe message of a manifest that could not be had.
pub open spec fn manifest_failed_message(
    failure: ManifestFailure,
    kind: Kind,
    image: Seq<char>,
    registry_url: Seq<char>,
) -> Seq<char> {
    (match failure {
        ManifestFailure::Inspect => "Error while trying to inspect image manifest for image "@,
        ManifestFailure::Deserialize =>
            "Error while trying to deserialize manifest image manifest for image "@,
    }) + image + " in "@ + kind.provider() + " ("@ + registry_url + ")."@
}

/// The error for a manifest that could not be had, and the warning to log
/// for it. Where the command failed, the raw message holds the command
/// and what was reported; where its output could not be read, what was
/// reported alone.
pub fn docker_manifest_inspect_failed(
    container_registry_kind: Kind,
    command: &DockerCommand,
    image_name: &str,
    image_tag: &str,
    registry_url: &str,
    failure: ManifestFailure,
    reported: &str,
    event_details: EventDetails,
) -> (r: (CommandError, EngineEvent))
    ensures
        r.0@.message_raw == match failure {
            ManifestFailure::Inspect => failed_command_message(
                command_line(command.binary@, texts(command.args@), command.envs@),
                reported@,
            ),
            ManifestFailure::Deserialize => reported@,
        },
        r.0@.message_safe == Some(
            manifest_failed_message(
                failure,
                container_registry_kind,
                image_with_tag(image_name@, image_tag@),
                registry_url@,
            ),
        ),
        is_warning_of(r.1, event_details, r.0@.message_safe->0, Some(r.0@.message_raw)),
{
    let raw = match failure {
        ManifestFailure::Inspect => {
            let line = command.to_line();
            let mut raw = concat3("Command `", line.as_str(), "`: ");
            raw.append(reported);
            raw
        },
        ManifestFailure::Deserialize => String::from_str(reported),
    };
    let mut safe = match failure {
        ManifestFailure::Inspect => String::from_str(
            "Error while trying to inspect image manifest for image ",
        ),
        ManifestFailure::Deserialize => String::from_str(
            "Error while trying to deserialize manifest image manifest for image ",
        ),
    };
    safe.append(image_name);
    safe.append(":");
    safe.append(image_tag);
    safe.append(" in ");
    safe.append(container_registry_kind.provider_name());
    safe.append(" (");
    safe.append(registry_url);
    safe.append(").");
    assert(safe@ =~= manifest_failed_message(
        failure,
        container_registry_kind,
        image_with_tag(image_name@, image_tag@),
        registry_url@,
    ));
    let err = CommandError::new(raw, Some(safe));
    let event = warning_of(event_details, &err);
    (err, event)
}

/// Whether a list holds the first delays of those that begin with `millis`.
pub open spec fn is_schedule(delays: Seq<u64>, millis: u64, count: nat) -> bool {
    delays.len() == count && forall|i: int|
        0 <= i < count ==> delays[i] == fibonacci_delay(millis, i as nat)
}

/// The two commands that give an image its name at a registry and push it
/// there. The tag is tried again five times at most, first after three
/// seconds; the push five times at most, first after five seconds, and for
/// ten minutes at most each time. The push is run only after the tag has
/// succeeded.
pub fn docker_tag_and_push_image(
    docker_envs: Vec<(String, String)>,
    image_name: String,
    image_tag: String,
    dest: String,
) -> (r: (DockerCommand, DockerCommand))
    ensures
        r.0.binary@ == "docker"@,
        texts(r.0.args@) == seq!["tag"@, image_with_tag(image_name@, image_tag@), dest@],
        r.0.envs@ == docker_envs@,
        r.0.timeout_in_minutes is None,
        is_schedule(r.0.retry_delays@, 3000, 5),
        r.1.binary@ == "docker"@,
        texts(r.1.args@) == seq!["push"@, dest@],
        r.1.envs == docker_envs,
        r.1.timeout_in_minutes == Some(10u32),
        is_schedule(r.1.retry_delays@, 5000, 5),
{
    let image = concat3(image_name.as_str(), ":", image_tag.as_str());
    let mut tag_args: Vec<String> = Vec::new();
    tag_args.push(String::from_str("tag"));
    tag_args.push(image);
    tag_args.push(dest.clone());
    assert(texts(tag_args@) =~= seq!["tag"@, image_with_tag(image_name@, image_tag@), dest@]);
    let tag_envs = copy_envs(&docker_envs);
    let tag = docker(tag_args, tag_envs, None, fibonacci_delays(3000, 5));
    let mut push_args: Vec<String> = Vec::new();
    push_args.push(String::from_str("push"));
    push_args.push(dest);
    assert(texts(push_args@) =~= seq!["push"@, dest@]);
    let push = docker(push_args, docker_envs, Some(10), fibonacci_delays(5000, 5));
    (tag, push)
}

fn copy_envs(envs: &Vec<(String, String)>) -> (r: Vec<(String, String)>)
    ensures
        r@ == envs@,
{
    let mut r: Vec<(String, String)> = Vec::new();
    let n: usize = envs.len();
    let mut i: usize = 0;
    while i < n
        invariant
            n == envs@.len(),
            i <= n,
            r@ == envs@.take(i as int),
        decreases n - i,
    {
        r.push((envs[i].0.clone(), envs[i].1.clone()));
        assert(r@ =~= envs@.take(i + 1));
        i = i + 1;
    }
    assert(envs@.take(n as int) =~= envs@);
    r
}

/// The command that pulls an image. It is tried again five times at most,
/// first after five seconds, and runs for ten minutes at most each time.
pub fn docker_pull_image(docker_envs: Vec<(String, String)>, dest: String) -> (r: DockerCommand)
    ensures
        r.binary@ == "docker"@,
        texts(r.args@) == seq!["pull"@, dest@],
        r.envs == docker_envs,
        r.timeout_in_minutes == Some(10u32),
        is_schedule(r.retry_delays@, 5000, 5),
{
    let mut args: Vec<String> = Vec::new();
    args.push(String::from_str("pull"));
    args.push(dest);
    assert(texts(args@) =~= seq!["pull"@, dest@]);
    docker(args, docker_envs, Some(10), fibonacci_delays(5000, 5))
}

/// What a command that is tried again is for.
#[derive(Clone, Copy, Debug, PartialEq, Eq, Structural)]
pub enum DockerOperation {
    Tag,
    Push,
    Pull,
}

/// The safe message of the warning for a command that failed and is tried
/// again.
pub open spec fn retrying_message(
    operation: DockerOperation,
    kind: Kind,
    subject: Seq<char>,
) -> Seq<char> {
    match operation {
        DockerOperation::Tag => "Failed to tag image "@ + subject + ", retrying..."@,
        DockerOperation::Push => "Failed to push image "@ + subject + " on "@ + kind.provider()
            + ", retrying..."@,
        DockerOperation::Pull => "failed to pull image from "@ + kind.provider() + " registry "@
            + subject + ", retrying..."@,
    }
}

/// The warning to log for a command that failed and is tried again:
/// `subject` is the image with its tag, for a pull the place it is pulled
/// from; `reported` is what the caller reported of the failure.
pub fn docker_retry_warning(
    operation: DockerOperation,
    container_registry_kind: Kind,
    subject: &str,
    reported: &str,
    event_details: EventDetails,
) -> (r: EngineEvent)
    ensures
        is_warning_of(
            r,
            event_details,
            retrying_message(operation, container_registry_kind, subject@),
            Some(reported@),
        ),
{
    let safe = match operation {
        DockerOperation::Tag => concat3("Failed to tag image ", subject, ", retrying..."),
        DockerOperation::Push => {
            let mut m = concat3("Failed to push image ", subject, " on ");
            m.append(container_registry_kind.provider_name());
            m.append(", retrying...");
            m
        },
        DockerOperation::Pull => {
            let mut m = concat3(
                "failed to pull image from ",
                container_registry_kind.provider_name(),
                " registry ",
            );
            m.append(subject);
            m.append(", retrying...");
            m
        },
    };
    EngineEvent::Warning(
        event_details,
        EventMessage::new(safe, Some(String::from_str(reported))),
    )
}

/// The safe message of the information for an image that was pushed or
/// pulled.
pub open spec fn done_message(operation: DockerOperation, kind: Kind, subject: Seq<char>) -> Seq<
    char,
> {
    match operation {
        DockerOperation::Pull => "Image "@ + subject + " has successfully been pulled from "@
            + kind.provider() + " registry"@,
        _ => "image "@ + subject + " has successfully been pushed"@,
    }
}

/// The information to log once an image was pushed or pulled.
pub fn docker_done_event(
    operation: DockerOperation,
    container_registry_kind: Kind,
    subject: &str,
    event_details: EventDetails,
) -> (r: EngineEvent)
    ensures
        r matches EngineEvent::Info(d, m) && d == event_details && m.safe_message@ == done_message(
            operation,
            container_registry_kind,
            subject@,
        ) && m.full_details is None,
{
    let safe = match operation {
        DockerOperation::Pull => {
            let mut m = concat3("Image ", subject, " has successfully been pulled from ");
            m.append(container_registry_kind.provider_name());
            m.append(" registry");
            m
        },
        _ => concat3("image ", subject, " has successfully been pushed"),
    };
    EngineEvent::Info(event_details, EventMessage::new_from_safe(safe))
}

/// How a command that is tried again came to its end without success.
#[derive(Clone, Copy, Debug, PartialEq, Eq, Structural)]
pub enum RetryEnd {
    /// The command failed each time it was run.
    Exhausted,
    /// The retries themselves went wrong.
    Internal,
}

/// The safe message for retries that went wrong; there is none for a tag.
pub open spec fn unknown_error_message(
    operation: DockerOperation,
    kind: Kind,
    subject: Seq<char>,
) -> Option<Seq<char>> {
    match operation {
        DockerOperation::Tag => None,
        DockerOperation::Push => Some(
            "Unknown error while trying to push image "@ + subject + " to "@ + kind.provider()
                + "."@,
        ),
        DockerOperation::Pull => Some(
            "Unknown error while trying to pull image "@ + subject + " from "@ + kind.provider()
                + " registry."@,
        ),
    }
}

/// The error that a command that is tried again ends with: its raw message
/// is what the caller reported of the last failure; a safe message comes
/// with it only where the retries themselves went wrong.
pub fn docker_retry_failed(
    operation: DockerOperation,
    container_registry_kind: Kind,
    subject: &str,
    end: RetryEnd,
    reported: &str,
) -> (r: CommandError)
    ensures
        r@.message_raw == reported@,
        r@.message_safe == match end {
            RetryEnd::Exhausted => None,
            RetryEnd::Internal => unknown_error_message(operation, container_registry_kind, subject@),
        },
{
    let safe = match end {
        RetryEnd::Exhausted => None,
        RetryEnd::Internal => match operation {
            DockerOperation::Tag => None,
            DockerOperation::Push => {
                let mut m = concat3("Unknown error while trying to push image ", subject, " to ");
                m.append(container_registry_kind.provider_name());
                m.append(".");
                Some(m)
            },
            DockerOperation::Pull => {
                let mut m = concat3("Unknown error while trying to pull image ", subject, " from ");
                m.append(container_registry_kind.provider_name());
                m.append(" registry.");
                Some(m)
            },
        },
    };
    CommandError::new(String::from_str(reported), safe)
}

} // verus!
