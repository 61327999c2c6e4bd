use marktext_ru_patcher::asar::{COMMAND_FAILED, LAUNCH_FAILED};
use marktext_ru_patcher::{
    asar_command, asar_outcome, extract_args, npx_probe_command, npx_runs, pack_args, Error,
};

#[test]
fn probe_command() {
    assert_eq!(npx_probe_command(true), vec!["cmd", "/c", "npx", "--version"]);
    assert_eq!(npx_probe_command(false), vec!["npx", "--version"]);
}

#[test]
fn extract_command() {
    let args = extract_args("C:\\m\\resources\\app.asar", "C:\\tmp\\p");
    assert_eq!(args, vec!["extract", "C:\\m\\resources\\app.asar", "C:\\tmp\\p"]);
    assert_eq!(
        asar_command(true, &args),
        vec!["cmd", "/c", "npx", "--yes", "@electron/asar", "extract", "C:\\m\\resources\\app.asar", "C:\\tmp\\p"]
    );
}

#[test]
fn pack_command() {
    let args = pack_args("/tmp/p", "/opt/m/resources/app.asar");
    assert_eq!(args, vec!["pack", "/tmp/p", "/opt/m/resources/app.asar"]);
    assert_eq!(
        asar_command(false, &args),
        vec!["npx", "--yes", "@electron/asar", "pack", "/tmp/p", "/opt/m/resources/app.asar"]
    );
}

#[test]
fn outcomes() {
    assert!(asar_outcome(Ok(true)).is_ok());
    match asar_outcome(Ok(false)) {
        Err(Error::AsarFailed(m)) => assert_eq!(m, COMMAND_FAILED),
        other => panic!("unexpected {:?}", other),
    }
    match asar_outcome(Err("no such file".to_string())) {
        Err(Error::AsarFailed(m)) => assert_eq!(m, format!("{}no such file", LAUNCH_FAILED)),
        other => panic!("unexpected {:?}", other),
    }
}

#[test]
fn npx_probe_outcomes() {
    assert!(npx_runs(Some(true)));
    assert!(!npx_runs(Some(false)));
    assert!(!npx_runs(None));
}
