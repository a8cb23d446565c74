use subalfred::node::{
    Error, Property, PropertyOutcome, RuntimeCmd, Supervisor, SupervisorState,
};
use subalfred::submetadatan::{metadata, SubmetadatanError, LATEST_METADATA_VERSION};

fn cmd(properties: Vec<Property>) -> RuntimeCmd {
    RuntimeCmd {
        executable: String::from("/usr/local/bin/node"),
        chain: String::from("dev"),
        live: String::from("https://rpc.example"),
        properties,
    }
}

#[test]
fn failed_launch_reports_launch_failure_and_starts_nothing() {
    let mut sup = Supervisor::new(23333);
    let outcomes: Vec<PropertyOutcome> = vec![];
    let r = cmd(vec![]).run(&mut sup, false, &outcomes);
    assert_eq!(r, Err(Error::LaunchFailure));
    assert_eq!(sup.state, SupervisorState::NotStarted);
}

#[test]
fn successful_run_terminates_the_node() {
    let mut sup = Supervisor::new(23333);
    let outcomes = vec![
        PropertyOutcome::StorageChecked(vec![], vec![]),
        PropertyOutcome::VersionChecked(None),
    ];
    let r = cmd(vec![Property::Storage, Property::Version]).run(&mut sup, true, &outcomes);
    assert_eq!(r, Ok(()));
    assert_eq!(sup.state, SupervisorState::Terminated);
    assert_eq!(sup.port, 23333);
}

#[test]
fn first_failed_property_terminates_and_surfaces_its_error() {
    let mut sup = Supervisor::new(23333);
    let outcomes = vec![
        PropertyOutcome::Failed(Error::NetworkFailure),
        PropertyOutcome::Failed(Error::DecodeFailure),
    ];
    let r = cmd(vec![Property::Storage, Property::Version]).run(&mut sup, true, &outcomes);
    assert_eq!(r, Err(Error::NetworkFailure));
    assert_eq!(sup.state, SupervisorState::Terminated);
}

#[test]
fn late_failure_still_terminates() {
    let mut sup = Supervisor::new(9944);
    let outcomes = vec![
        PropertyOutcome::VersionChecked(None),
        PropertyOutcome::Failed(Error::DecodeFailure),
    ];
    let r = cmd(vec![Property::Version, Property::Storage]).run(&mut sup, true, &outcomes);
    assert_eq!(r, Err(Error::DecodeFailure));
    assert_eq!(sup.state, SupervisorState::Terminated);
}

#[test]
fn terminate_is_idempotent() {
    let mut sup = Supervisor::new(23333);
    sup.terminate();
    sup.terminate();
    assert_eq!(sup.state, SupervisorState::Terminated);
}

#[test]
fn supported_metadata_version_passes_the_gate() {
    assert_eq!(metadata(LATEST_METADATA_VERSION), Ok(14));
}

#[test]
fn unsupported_metadata_version_is_rejected_by_number() {
    assert_eq!(metadata(12), Err(SubmetadatanError::UnsupportedVersion(12)));
    assert_eq!(metadata(15), Err(SubmetadatanError::UnsupportedVersion(15)));
}
