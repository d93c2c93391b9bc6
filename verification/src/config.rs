//! The agent's identity and policy, and how the cloud it runs in is found.

use vstd::prelude::*;
use vstd::string::StringExecFns;
use vstd::string::StrSliceExecFns;
use vstd::string::StringSliceAdditionalSpecFns;
use vstd::utf8::is_char_boundary;
use crate::errors::VmMonitorError;
use crate::time::Timestamp;

verus! {

/// The name of the file that holds the configuration.
pub const CONFIG_FILE_NAME: &'static str = "vm-monitor.json";

/// The name of the directory, below the user's configuration directory, that
/// holds the configuration file.
pub const APP_NAME: &'static str = "vm-monitor";

/// The cloud that the machine runs in.
#[derive(Clone, Debug)]
pub enum CloudProvider {
    AWS,
    GCP,
    Azure,
    /// None of the known clouds, with the reason for saying so.
    Unknown(String),
}

impl CloudProvider {
    /// The provider as the collector is told: its name, or the reason why it
    /// is unknown.
    pub open spec fn spec_label(self) -> Seq<char> {
        match self {
            CloudProvider::AWS => "AWS"@,
            CloudProvider::GCP => "GCP"@,
            CloudProvider::Azure => "Azure"@,
            CloudProvider::Unknown(reason) => reason@,
        }
    }

    /// The provider as the collector is told.
    pub fn label(&self) -> (label: &str)
        ensures
            label@ == self.spec_label(),
    {
        match self {
            CloudProvider::AWS => "AWS",
            CloudProvider::GCP => "GCP",
            CloudProvider::Azure => "Azure",
            CloudProvider::Unknown(reason) => reason.as_str(),
        }
    }
}

/// How often to sample and how many snapshots make a batch.
#[derive(Clone, Copy, Debug, PartialEq, Eq, Structural)]
pub struct MonitoringSettings {
    /// Seconds between two samples.
    pub interval_seconds: u64,
    /// The number of queued snapshots at which a batch is sent.
    pub batch_size: usize,
}

impl Default for MonitoringSettings {
    /// One sample a minute, ten snapshots to a batch.
    fn default() -> (settings: Self)
        ensures
            settings == (MonitoringSettings { interval_seconds: 60, batch_size: 10 }),
    {
        MonitoringSettings { interval_seconds: 60, batch_size: 10 }
    }
}

impl MonitoringSettings {
    /// The policy of one run: the stored one, with the sampling interval
    /// replaced where the run was started with one of its own.
    pub fn for_run(&self, interval_override: Option<u64>) -> (settings: Self)
        ensures
            settings.batch_size == self.batch_size,
            settings.interval_seconds == match interval_override {
                Some(seconds) => seconds,
                None => self.interval_seconds,
            },
    {
        match interval_override {
            Some(seconds) => MonitoringSettings {
                interval_seconds: seconds,
                batch_size: self.batch_size,
            },
            None => *self,
        }
    }
}

/// Everything the agent knows about itself. It is made once, at
/// initialization, and only ever replaced as a whole.
#[derive(Clone, Debug)]
pub struct Configuration {
    /// The instance identifier, a UUID as a 128-bit number.
    pub instance_id: u128,
    /// The name the user gave this machine.
    pub instance_name: String,
    /// The collector's base URL.
    pub api_url: String,
    /// The credential: bearer token and signing key in one.
    pub api_key: String,
    /// The cloud that the machine runs in.
    pub cloud_provider: CloudProvider,
    /// How often to sample and how many snapshots make a batch.
    pub monitoring_settings: MonitoringSettings,
    /// When the agent was initialized.
    pub initialized_at: Timestamp,
}

/// How many bytes of the credential are shown to the user.
pub const PREVIEW_BYTES: usize = 8;

/// How many bytes of a credential of `len` bytes are shown: all of a short
/// one, and the first `PREVIEW_BYTES` of any other.
pub open spec fn preview_len(len: nat) -> int {
    if len < PREVIEW_BYTES {
        len as int
    } else {
        PREVIEW_BYTES as int
    }
}

/// What the user is told when no configuration file is found at `path`.
pub open spec fn not_found_detail(path: Seq<char>) -> Seq<char> {
    "Configuration file not found at "@ + path + ". Please run 'init' command."@
}

/// What the user is told when the agent cannot start for `error`.
pub open spec fn load_failure_text(error: VmMonitorError) -> Seq<char> {
    "Failed to load configuration: "@ + error.spec_message() + ". Please run 'init' first."@
}

/// The failure of a command that needs a configuration where the file at
/// `path` does not exist.
pub fn config_not_found(path: &str) -> (error: VmMonitorError)
    ensures
        error is ConfigError,
        error.spec_detail() == not_found_detail(path@),
{
    let mut detail = String::from_str("Configuration file not found at ");
    detail.append(path);
    detail.append(". Please run 'init' command.");
    VmMonitorError::ConfigError(detail)
}

/// The failure of a command that needs a configuration where the machine has
/// no configuration directory.
pub fn config_dir_not_found() -> (error: VmMonitorError)
    ensures
        error is ConfigError,
        error.spec_detail() == "Could not find config directory"@,
{
    VmMonitorError::ConfigError(String::from_str("Could not find config directory"))
}

/// What the user is told when the agent cannot start for `error`.
pub fn load_failure_message(error: &VmMonitorError) -> (text: String)
    ensures
        text@ == load_failure_text(*error),
{
    let mut text = String::from_str("Failed to load configuration: ");
    text.append(error.message().as_str());
    text.append(". Please run 'init' first.");
    text
}

/// The part of the credential that is shown to the user: its first
/// `PREVIEW_BYTES` bytes, or all of a shorter one. There is none where that
/// many bytes end inside a character.
pub fn credential_preview(key: &str) -> (preview: Option<&str>)
    ensures
        match preview {
            Some(shown) => {
                &&& is_char_boundary(key.spec_bytes(), preview_len(key.spec_bytes().len()))
                &&& shown.spec_bytes() == key.spec_bytes().subrange(
                    0,
                    preview_len(key.spec_bytes().len()),
                )
            },
            None => !is_char_boundary(key.spec_bytes(), preview_len(key.spec_bytes().len())),
        },
{
    let len: usize = key.as_bytes().len();
    let cut: usize = if len < PREVIEW_BYTES {
        len
    } else {
        PREVIEW_BYTES
    };
    let at_boundary: bool = key.is_char_boundary(cut);
    if at_boundary {
        let parts = key.split_at(cut);
        Some(parts.0)
    } else {
        None
    }
}

/// One way of finding out which cloud the machine runs in.
#[derive(Clone, Copy, Debug, PartialEq, Eq, Structural)]
pub enum Probe {
    /// Read the hypervisor's UUID file.
    HypervisorUuid,
    /// Ask the GCP metadata server.
    GcpMetadata,
    /// Ask the Azure metadata server.
    AzureMetadata,
}

/// What a probe found.
#[derive(Debug)]
pub enum ProbeResult {
    /// The file was read and held this text.
    Contents(String),
    /// The server answered with this HTTP status.
    Status(u16),
    /// The file could not be read, or the server did not answer.
    Failed,
}

/// Where detection stands after a probe.
#[derive(Debug)]
pub enum Detection {
    /// The cloud is known, or known to be none of those looked for.
    Decided(CloudProvider),
    /// Nothing is known yet: this probe is next.
    Ask(Probe),
}

/// Whether `text` begins with `prefix`.
pub open spec fn starts_with(text: Seq<char>, prefix: Seq<char>) -> bool {
    text.len() >= prefix.len() && text.subrange(0, prefix.len() as int) == prefix
}

/// Whether an HTTP status stands for success.
pub open spec fn status_is_success(status: u16) -> bool {
    200 <= status < 300
}

/// Whether `result` shows that the machine runs in the cloud that `probe`
/// looks for: the UUID file begins with `ec2`, or the metadata server
/// answered with success.
pub open spec fn probe_confirms(probe: Probe, result: ProbeResult) -> bool {
    match (probe, result) {
        (Probe::HypervisorUuid, ProbeResult::Contents(text)) => starts_with(text@, "ec2"@),
        (Probe::GcpMetadata, ProbeResult::Status(status)) => status_is_success(status),
        (Probe::AzureMetadata, ProbeResult::Status(status)) => status_is_success(status),
        _ => false,
    }
}

/// The cloud that `probe` looks for.
pub open spec fn probe_target(probe: Probe) -> CloudProvider {
    match probe {
        Probe::HypervisorUuid => CloudProvider::AWS,
        Probe::GcpMetadata => CloudProvider::GCP,
        Probe::AzureMetadata => CloudProvider::Azure,
    }
}

/// The probe that follows `probe`, if one does.
pub open spec fn probe_after(probe: Probe) -> Option<Probe> {
    match probe {
        Probe::HypervisorUuid => Some(Probe::GcpMetadata),
        Probe::GcpMetadata => Some(Probe::AzureMetadata),
        Probe::AzureMetadata => None,
    }
}

/// Why the cloud is said to be unknown when every probe has failed.
pub open spec fn undetected_reason() -> Seq<char> {
    "Not AWS, GCP, or Azure, or metadata services unreachable/unresponsive"@
}

/// Whether `detection` is where detection stands once `probe` has found
/// `result`: decided for the probe's cloud if the probe confirms it, on to the
/// next probe if it does not, and decided for no known cloud after the last.
pub open spec fn follows(probe: Probe, result: ProbeResult, detection: Detection) -> bool {
    if probe_confirms(probe, result) {
        detection == Detection::Decided(probe_target(probe))
    } else {
        match probe_after(probe) {
            Some(following) => detection == Detection::Ask(following),
            None => {
                &&& detection matches Detection::Decided(CloudProvider::Unknown(reason))
                &&& reason@ == undetected_reason()
            },
        }
    }
}

/// Whether a file with this text is the UUID file of an EC2 instance.
pub fn is_ec2_uuid(text: &str) -> (ec2: bool)
    ensures
        ec2 == starts_with(text@, "ec2"@),
{
    proof {
        reveal_strlit("ec2");
    }
    if text.unicode_len() < 3 {
        false
    } else {
        let first: char = text.get_char(0);
        let second: char = text.get_char(1);
        let third: char = text.get_char(2);
        proof {
            let head = text@.subrange(0, 3);
            assert(head[0] == first && head[1] == second && head[2] == third);
            if first == 'e' && second == 'c' && third == '2' {
                assert(head =~= "ec2"@);
            }
        }
        first == 'e' && second == 'c' && third == '2'
    }
}

/// Whether an HTTP status stands for success.
pub fn is_success_status(status: u16) -> (success: bool)
    ensures
        success == status_is_success(status),
{
    200 <= status && status < 300
}

/// The probe that detection begins with.
pub fn first_probe() -> (probe: Probe)
    ensures
        probe == Probe::HypervisorUuid,
{
    Probe::HypervisorUuid
}

/// What the driver reads or asks for `probe`: the path of the UUID file, or
/// the URL of the metadata server.
pub fn probe_location(probe: Probe) -> (location: &'static str)
    ensures
        location@ == match probe {
            Probe::HypervisorUuid => "/sys/hypervisor/uuid"@,
            Probe::GcpMetadata =>
                "http://metadata.google.internal/computeMetadata/v1/?recursive=false&alt=text"@,
            Probe::AzureMetadata =>
                "http://169.254.169.254/metadata/instance?api-version=2021-02-01"@,
        },
{
    match probe {
        Probe::HypervisorUuid => "/sys/hypervisor/uuid",
        Probe::GcpMetadata =>
            "http://metadata.google.internal/computeMetadata/v1/?recursive=false&alt=text",
        Probe::AzureMetadata => "http://169.254.169.254/metadata/instance?api-version=2021-02-01",
    }
}

/// The header that a metadata server wants to see, as name and value. The
/// UUID file is read, not asked, and has none.
pub fn probe_header(probe: Probe) -> (header: Option<(&'static str, &'static str)>)
    ensures
        match probe {
            Probe::HypervisorUuid => header is None,
            Probe::GcpMetadata => {
                &&& header matches Some(pair)
                &&& pair.0@ == "Metadata-Flavor"@
                &&& pair.1@ == "Google"@
            },
            Probe::AzureMetadata => {
                &&& header matches Some(pair)
                &&& pair.0@ == "Metadata"@
                &&& pair.1@ == "true"@
            },
        },
{
    match probe {
        Probe::HypervisorUuid => None,
        Probe::GcpMetadata => Some(("Metadata-Flavor", "Google")),
        Probe::AzureMetadata => Some(("Metadata", "true")),
    }
}

/// Takes what `probe` found and says where detection stands.
///
/// A probe that confirms its cloud decides for it. One that does not hands
/// over to the next probe, and after the last one the cloud is unknown.
pub fn detect_step(probe: Probe, result: &ProbeResult) -> (detection: Detection)
    ensures
        follows(probe, *result, detection),
{
    let confirmed: bool = match (probe, result) {
        (Probe::HypervisorUuid, ProbeResult::Contents(text)) => is_ec2_uuid(text.as_str()),
        (Probe::GcpMetadata, ProbeResult::Status(status)) => is_success_status(*status),
        (Probe::AzureMetadata, ProbeResult::Status(status)) => is_success_status(*status),
        _ => false,
    };
    if confirmed {
        match probe {
            Probe::HypervisorUuid => Detection::Decided(CloudProvider::AWS),
            Probe::GcpMetadata => Detection::Decided(CloudProvider::GCP),
            Probe::AzureMetadata => Detection::Decided(CloudProvider::Azure),
        }
    } else {
        match probe {
            Probe::HypervisorUuid => Detection::Ask(Probe::GcpMetadata),
            Probe::GcpMetadata => Detection::Ask(Probe::AzureMetadata),
            Probe::AzureMetadata => Detection::Decided(
                CloudProvider::Unknown(
                    String::from_str(
                        "Not AWS, GCP, or Azure, or metadata services unreachable/unresponsive",
                    ),
                ),
            ),
        }
    }
}

} // verus!
