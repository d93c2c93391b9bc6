//! Initialization: making an identity and having the collector accept it.
//!
//! An identity is persisted only after the collector has acknowledged its
//! registration. Any failure of that call, in transport or in the collector's
//! answer, ends initialization with nothing saved.

use vstd::prelude::*;
use vstd::string::StringExecFns;
use crate::api::RegistrationResponse;
use crate::auth::{generate_api_key, is_credential};
use crate::config::{CloudProvider, Configuration, MonitoringSettings};
use crate::errors::VmMonitorError;
use crate::time::wall_clock;

verus! {

/// What initialization does once the registration call has ended.
#[derive(Debug)]
pub enum InitStep {
    /// The collector has acknowledged the identity: persist it.
    Persist,
    /// Registration failed: stop with this message and persist nothing.
    Abort(String),
}

/// What the user is told when registration has failed with `error`.
pub open spec fn abort_message(error: VmMonitorError) -> Seq<char> {
    "Failed to register with remote API. Please check API URL and network. Error: "@
        + error.spec_message()
}

/// `Uuid::new_v4` of the crate `uuid`, as a 128-bit number: a random UUID.
/// Nothing is known of it. The call panics where the operating system gives
/// no entropy, which no argument decides.
#[verifier::external_body]
fn fresh_instance_id() -> (id: u128) {
    uuid::Uuid::new_v4().as_u128()
}

/// Makes the identity of a new agent: a fresh instance identifier and a
/// fresh credential, with the given name, collector, cloud and policy, stamped
/// with the wall-clock time of the call.
pub fn new_configuration(
    instance_name: String,
    api_url: String,
    cloud_provider: CloudProvider,
    interval_seconds: u64,
    batch_size: usize,
) -> (config: Configuration)
    ensures
        config.instance_name == instance_name,
        config.api_url == api_url,
        config.cloud_provider == cloud_provider,
        config.monitoring_settings == (MonitoringSettings { interval_seconds, batch_size }),
        is_credential(config.api_key@),
{
    Configuration {
        instance_id: fresh_instance_id(),
        instance_name,
        api_url,
        api_key: generate_api_key(),
        cloud_provider,
        monitoring_settings: MonitoringSettings { interval_seconds, batch_size },
        initialized_at: wall_clock(),
    }
}

/// Decides what initialization does with the outcome of the registration
/// call: persist the identity if and only if the call succeeded.
pub fn after_registration(outcome: &Result<RegistrationResponse, VmMonitorError>) -> (step:
    InitStep)
    ensures
        match *outcome {
            Ok(_) => step is Persist,
            Err(error) => {
                &&& step matches InitStep::Abort(message)
                &&& message@ == abort_message(error)
            },
        },
{
    match outcome {
        Ok(_) => InitStep::Persist,
        Err(error) => {
            let mut message = String::from_str(
                "Failed to register with remote API. Please check API URL and network. Error: ",
            );
            message.append(error.message().as_str());
            InitStep::Abort(message)
        },
    }
}

} // verus!
