//! What can go wrong, by cause.

use vstd::prelude::*;
use vstd::string::StringExecFns;

verus! {

/// A failure of the agent. Each variant carries the detail of its cause.
#[derive(Debug)]
pub enum VmMonitorError {
    /// The configuration is missing or unusable.
    ConfigError(String),
    /// The machine's metadata could not be read.
    CloudDetectionError(String),
    /// The file system refused an operation.
    IoError(String),
    /// A value could not be written as JSON, or JSON could not be read.
    JsonError(String),
    /// The collector rejected a request, or answered what was not expected.
    ApiError(String),
    /// A request could not be signed.
    AuthError(String),
    /// The request did not reach the collector, or no answer came back.
    HttpError(String),
    /// The user gave an unusable value.
    InputError(String),
    /// Sampling failed.
    MonitorError(String),
}

impl VmMonitorError {
    /// The words that introduce the detail in the message of this failure.
    pub open spec fn spec_prefix(self) -> Seq<char> {
        match self {
            VmMonitorError::ConfigError(_) => "Configuration error: "@,
            VmMonitorError::CloudDetectionError(_) =>
                "Failed to read system metadata for cloud detection: "@,
            VmMonitorError::IoError(_) => "Filesystem error: "@,
            VmMonitorError::JsonError(_) => "JSON serialization/deserialization error: "@,
            VmMonitorError::ApiError(_) => "API communication error: "@,
            VmMonitorError::AuthError(_) => "Authentication error: "@,
            VmMonitorError::HttpError(_) => "HTTP request error: "@,
            VmMonitorError::InputError(_) => "Invalid input: "@,
            VmMonitorError::MonitorError(_) => "Monitoring error: "@,
        }
    }

    /// The detail that this failure carries.
    pub open spec fn spec_detail(self) -> Seq<char> {
        match self {
            VmMonitorError::ConfigError(detail) => detail@,
            VmMonitorError::CloudDetectionError(detail) => detail@,
            VmMonitorError::IoError(detail) => detail@,
            VmMonitorError::JsonError(detail) => detail@,
            VmMonitorError::ApiError(detail) => detail@,
            VmMonitorError::AuthError(detail) => detail@,
            VmMonitorError::HttpError(detail) => detail@,
            VmMonitorError::InputError(detail) => detail@,
            VmMonitorError::MonitorError(detail) => detail@,
        }
    }

    /// The message of this failure: its introduction, then its detail.
    pub open spec fn spec_message(self) -> Seq<char> {
        self.spec_prefix() + self.spec_detail()
    }

    /// Whether waiting for the next tick is the answer to this failure. That
    /// holds of a request that did not get through and of one that the
    /// collector rejected; every other failure has a cause that waiting does
    /// not remove.
    pub open spec fn spec_is_transient(self) -> bool {
        self is HttpError || self is ApiError
    }

    /// The detail that this failure carries.
    pub fn detail(&self) -> (detail: &String)
        ensures
            detail@ == self.spec_detail(),
    {
        match self {
            VmMonitorError::ConfigError(detail) => detail,
            VmMonitorError::CloudDetectionError(detail) => detail,
            VmMonitorError::IoError(detail) => detail,
            VmMonitorError::JsonError(detail) => detail,
            VmMonitorError::ApiError(detail) => detail,
            VmMonitorError::AuthError(detail) => detail,
            VmMonitorError::HttpError(detail) => detail,
            VmMonitorError::InputError(detail) => detail,
            VmMonitorError::MonitorError(detail) => detail,
        }
    }

    /// The message of this failure, for a log or a terminal.
    pub fn message(&self) -> (text: String)
        ensures
            text@ == self.spec_message(),
    {
        let prefix: &'static str = match self {
            VmMonitorError::ConfigError(_) => "Configuration error: ",
            VmMonitorError::CloudDetectionError(_) =>
                "Failed to read system metadata for cloud detection: ",
            VmMonitorError::IoError(_) => "Filesystem error: ",
            VmMonitorError::JsonError(_) => "JSON serialization/deserialization error: ",
            VmMonitorError::ApiError(_) => "API communication error: ",
            VmMonitorError::AuthError(_) => "Authentication error: ",
            VmMonitorError::HttpError(_) => "HTTP request error: ",
            VmMonitorError::InputError(_) => "Invalid input: ",
            VmMonitorError::MonitorError(_) => "Monitoring error: ",
        };
        let mut text = String::from_str(prefix);
        text.append(self.detail().as_str());
        text
    }

    /// Whether waiting for the next tick is the answer to this failure.
    pub fn is_transient(&self) -> (transient: bool)
        ensures
            transient == self.spec_is_transient(),
    {
        match self {
            VmMonitorError::HttpError(_) => true,
            VmMonitorError::ApiError(_) => true,
            _ => false,
        }
    }
}

} // verus!
