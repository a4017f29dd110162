//! The error values that the engine hands to its callers.

use crate::text::concat2;
use vstd::prelude::*;

verus! {

/// What kind of failure a [`SimpleError`] reports.
#[derive(Clone, Copy, Debug, PartialEq, Eq, Structural)]
pub enum SimpleErrorKind {
    Command,
    Other,
}

/// A failure of one step of a chart deployment.
#[derive(Debug)]
pub struct SimpleError {
    pub kind: SimpleErrorKind,
    pub message: Option<String>,
}

/// What a [`SimpleError`] holds, as mathematical values.
pub struct SimpleErrorView {
    pub kind: SimpleErrorKind,
    pub message: Option<Seq<char>>,
}

impl View for SimpleError {
    type V = SimpleErrorView;

    open spec fn view(&self) -> SimpleErrorView {
        SimpleErrorView {
            kind: self.kind,
            message: match self.message {
                Some(m) => Some(m@),
                None => None,
            },
        }
    }
}

/// The view of an error of kind `Other` with the message `message`.
pub open spec fn other_error(message: Seq<char>) -> SimpleErrorView {
    SimpleErrorView { kind: SimpleErrorKind::Other, message: Some(message) }
}

impl SimpleError {
    /// An error of kind `Other` with the given message.
    pub fn other(message: String) -> (r: SimpleError)
        ensures
            r@ == other_error(message@),
    {
        SimpleError { kind: SimpleErrorKind::Other, message: Some(message) }
    }

    /// A copy of this error.
    pub fn duplicate(&self) -> (r: SimpleError)
        ensures
            r@ == self@,
    {
        let message = match &self.message {
            Some(m) => Some(m.clone()),
            None => None,
        };
        SimpleError { kind: self.kind, message }
    }
}

/// A failure of an outside command: the raw message for operators, and a
/// message that is safe to show to end users where there is one.
#[derive(Debug)]
pub struct CommandError {
    pub message_raw: String,
    pub message_safe: Option<String>,
}

/// What a [`CommandError`] holds, as mathematical values.
pub struct CommandErrorView {
    pub message_raw: Seq<char>,
    pub message_safe: Option<Seq<char>>,
}

impl View for CommandError {
    type V = CommandErrorView;

    open spec fn view(&self) -> CommandErrorView {
        CommandErrorView {
            message_raw: self.message_raw@,
            message_safe: match self.message_safe {
                Some(m) => Some(m@),
                None => None,
            },
        }
    }
}

impl CommandError {
    /// An error with a raw message and, optionally, a safe one.
    pub fn new(message_raw: String, message_safe: Option<String>) -> (r: CommandError)
        ensures
            r@.message_raw == message_raw@,
            r@.message_safe == match message_safe {
                Some(m) => Some(m@),
                None => None,
            },
    {
        CommandError { message_raw, message_safe }
    }

    /// An error whose only message is safe to show: it is the raw message too.
    pub fn new_from_safe_message(message: String) -> (r: CommandError)
        ensures
            r@.message_raw == message@,
            r@.message_safe == Some(message@),
    {
        let raw = message.clone();
        CommandError { message_raw: raw, message_safe: Some(message) }
    }

    /// The raw message.
    pub fn as_str(&self) -> (r: &str)
        ensures
            r@ == self@.message_raw,
    {
        self.message_raw.as_str()
    }

    /// The raw message, owned.
    pub fn message(&self) -> (r: String)
        ensures
            r@ == self@.message_raw,
    {
        self.message_raw.clone()
    }

    /// The safe message, where there is one.
    pub fn message_safe(&self) -> (r: Option<String>)
        ensures
            match r {
                Some(m) => self@.message_safe == Some(m@),
                None => self@.message_safe is None,
            },
    {
        match &self.message_safe {
            Some(m) => Some(m.clone()),
            None => None,
        }
    }

    /// A copy of this error.
    pub fn duplicate(&self) -> (r: CommandError)
        ensures
            r@ == self@,
    {
        let safe = match &self.message_safe {
            Some(m) => Some(m.clone()),
            None => None,
        };
        CommandError { message_raw: self.message_raw.clone(), message_safe: safe }
    }

    /// This error as a deployment step's failure: its kind is `Command`, its
    /// message the raw message.
    pub fn to_simple_error(&self) -> (r: SimpleError)
        ensures
            r@.kind == SimpleErrorKind::Command,
            r@.message == Some(self@.message_raw),
    {
        SimpleError { kind: SimpleErrorKind::Command, message: Some(self.message_raw.clone()) }
    }
}

/// The text `"<what> <version> version is not supported"`.
pub open spec fn unsupported_version_message(what: Seq<char>, version: Seq<char>) -> Seq<char> {
    what + " "@ + version + " version is not supported"@
}

/// The error for a version of `what` that no table lists.
pub fn unsupported_version(what: &str, version: &str) -> (r: CommandError)
    ensures
        r@.message_raw == unsupported_version_message(what@, version@),
        r@.message_safe == Some(unsupported_version_message(what@, version@)),
{
    let mut m = concat2(what, " ");
    m.append(version);
    m.append(" version is not supported");
    CommandError::new_from_safe_message(m)
}

} // verus!

verus! {

/// What went wrong, in one word.
#[derive(Clone, Copy, Debug, PartialEq, Eq, Structural)]
pub enum Tag {
    Unknown,
    K8sValidateRequiredCpuAndBurstableError,
    CannotCopyFilesFromDirectoryToDirectory,
    HelmChartsUpgradeError,
    RouterFailedToDeploy,
    UnsupportedVersion,
    DomainNotAvailable,
}

/// A failure of the engine as it is surfaced: where it arose, a short
/// message that is safe to show to end users, and the failure of the outside
/// command behind it, for operators, where there is one.
#[derive(Debug)]
pub struct EngineError {
    pub tag: Tag,
    pub event_details: crate::events::EventDetails,
    pub user_log_message: String,
    pub message: Option<CommandError>,
}

/// The safe message for a domain that does not resolve.
pub open spec fn domain_not_available_message(domain: Seq<char>) -> Seq<char> {
    "Unable to check domain availability for `"@ + domain + "`"@
}

/// The safe message for processor shares that are not valid.
pub open spec fn invalid_cpu_message(total_cpus: Seq<char>, cpu_burst: Seq<char>) -> Seq<char> {
    "Error while trying to validate required CPU ("@ + total_cpus + ") and burstable ("@
        + cpu_burst + ") CPU."@
}

/// The safe message of the failure to copy a directory.
pub open spec fn cannot_copy_message(from: Seq<char>, to: Seq<char>) -> Seq<char> {
    "Error while trying to copy all files from `"@ + from + "` to `"@ + to + "`."@
}

impl EngineError {
    /// The files of one directory could not be copied to another.
    pub fn new_cannot_copy_files_from_one_directory_to_another(
        event_details: crate::events::EventDetails,
        from_dir: String,
        to_dir: String,
        raw_error: CommandError,
    ) -> (r: EngineError)
        ensures
            r.tag == Tag::CannotCopyFilesFromDirectoryToDirectory,
            r.event_details == event_details,
            r.user_log_message@ == cannot_copy_message(from_dir@, to_dir@),
            r.message is Some,
            r.message->0@ == raw_error@,
    {
        let mut m = concat2("Error while trying to copy all files from `", from_dir.as_str());
        m.append("` to `");
        m.append(to_dir.as_str());
        m.append("`.");
        EngineError {
            tag: Tag::CannotCopyFilesFromDirectoryToDirectory,
            event_details,
            user_log_message: m,
            message: Some(raw_error),
        }
    }

    /// The upgrade of a release failed.
    pub fn new_helm_charts_upgrade_error(
        event_details: crate::events::EventDetails,
        raw_error: CommandError,
    ) -> (r: EngineError)
        ensures
            r.tag == Tag::HelmChartsUpgradeError,
            r.event_details == event_details,
            r.user_log_message@ == "Error while trying to upgrade helm charts."@,
            r.message is Some,
            r.message->0@ == raw_error@,
    {
        EngineError {
            tag: Tag::HelmChartsUpgradeError,
            event_details,
            user_log_message: String::from_str("Error while trying to upgrade helm charts."),
            message: Some(raw_error),
        }
    }

    /// A router was upgraded and is not deployed.
    pub fn new_router_failed_to_deploy(event_details: crate::events::EventDetails) -> (r:
        EngineError)
        ensures
            r.tag == Tag::RouterFailedToDeploy,
            r.event_details == event_details,
            r.user_log_message@ == "Router has failed to be deployed."@,
            r.message is None,
    {
        EngineError {
            tag: Tag::RouterFailedToDeploy,
            event_details,
            user_log_message: String::from_str("Router has failed to be deployed."),
            message: None,
        }
    }

    /// The requested version of a service is not supported.
    pub fn new_unsupported_version_error(
        event_details: crate::events::EventDetails,
        raw_error: CommandError,
    ) -> (r: EngineError)
        ensures
            r.tag == Tag::UnsupportedVersion,
            r.event_details == event_details,
            r.user_log_message@ == raw_error@.message_raw,
            r.message is Some,
            r.message->0@ == raw_error@,
    {
        let m = raw_error.message();
        EngineError {
            tag: Tag::UnsupportedVersion,
            event_details,
            user_log_message: m,
            message: Some(raw_error),
        }
    }

    /// The processor shares asked for a resource are not valid.
    pub fn new_k8s_validate_required_cpu_and_burstable_error(
        event_details: crate::events::EventDetails,
        total_cpus: String,
        cpu_burst: String,
        raw_error: CommandError,
    ) -> (r: EngineError)
        ensures
            r.tag == Tag::K8sValidateRequiredCpuAndBurstableError,
            r.event_details == event_details,
            r.user_log_message@ == invalid_cpu_message(total_cpus@, cpu_burst@),
            r.message is Some,
            r.message->0@ == raw_error@,
    {
        let mut m = concat2("Error while trying to validate required CPU (", total_cpus.as_str());
        m.append(") and burstable (");
        m.append(cpu_burst.as_str());
        m.append(") CPU.");
        EngineError {
            tag: Tag::K8sValidateRequiredCpuAndBurstableError,
            event_details,
            user_log_message: m,
            message: Some(raw_error),
        }
    }

    /// A domain of a resource does not resolve.
    pub fn new_domain_not_available(event_details: crate::events::EventDetails, domain: &str) -> (r:
        EngineError)
        ensures
            r.tag == Tag::DomainNotAvailable,
            r.event_details == event_details,
            r.user_log_message@ == domain_not_available_message(domain@),
            r.message is None,
    {
        let mut m = concat2("Unable to check domain availability for `", domain);
        m.append("`");
        EngineError { tag: Tag::DomainNotAvailable, event_details, user_log_message: m, message: None }
    }

    /// The failure of an outside command, surfaced as it is.
    pub fn new_from_command(
        event_details: crate::events::EventDetails,
        raw_error: CommandError,
    ) -> (r: EngineError)
        ensures
            r.tag == Tag::Unknown,
            r.event_details == event_details,
            r.user_log_message@ == raw_error@.message_raw,
            r.message is Some,
            r.message->0@ == raw_error@,
    {
        let m = raw_error.message();
        EngineError { tag: Tag::Unknown, event_details, user_log_message: m, message: Some(raw_error) }
    }

    /// A copy of this failure.
    pub fn duplicate(&self) -> (r: EngineError)
        ensures
            r.tag == self.tag,
            r.event_details == self.event_details,
            r.user_log_message == self.user_log_message,
            match self.message {
                Some(m) => r.message is Some && r.message->0@ == m@,
                None => r.message is None,
            },
    {
        EngineError {
            tag: self.tag,
            event_details: self.event_details.duplicate(),
            user_log_message: self.user_log_message.clone(),
            message: match &self.message {
                Some(m) => Some(m.duplicate()),
                None => None,
            },
        }
    }
}

} // verus!
