use nvim_updater_rs::download::Download;
use nvim_updater_rs::error::UpdaterError;
use nvim_updater_rs::update::{decode_output, Action, UpdateState, Updater};

fn resolved(check_only: bool, remote: &str, local: &str) -> Updater {
    let u = Updater::new(check_only);
    assert_eq!(u.next_action(), Action::FetchRemote);
    let u = u.remote_fetched(Ok(String::from(remote)));
    assert_eq!(u.next_action(), Action::RunLocal);
    let u = u.local_fetched(Ok(String::from(local)));
    assert_eq!(u.next_action(), Action::Compare);
    u.compare()
}

#[test]
fn same_identifier_is_up_to_date() {
    let text = "NVIM v0.9.0-dev-1-gabc123def";
    let u = resolved(false, text, text);
    assert!(matches!(&u.state, UpdateState::UpToDate { version } if version == "abc123def"));
    assert_eq!(u.next_action(), Action::Stop);
    assert_eq!(u.exit_code(), Some(0));
}

#[test]
fn same_identifier_in_different_text_is_up_to_date() {
    let u = resolved(
        true,
        "<p>NVIM v0.9.0-dev-1-gabc123def</p>",
        "NVIM v0.9.0-dev-7-gabc123def\nBuild type: Release",
    );
    assert!(matches!(&u.state, UpdateState::UpToDate { .. }));
}

#[test]
fn mismatch_in_check_only_mode_stops() {
    let u = resolved(true, "NVIM v0.9.0-dev-1-gabc123def", "NVIM v0.9.0-dev-1-gxyz987654");
    assert!(matches!(&u.state,
        UpdateState::CheckOnlyStop { latest, current } if latest == "abc123def" && current == "xyz987654"));
    assert_eq!(u.next_action(), Action::Stop);
    assert_eq!(u.exit_code(), Some(0));
}

fn download_of(declared: u64, body: &[&[u8]]) -> (Result<(), UpdaterError>, Vec<u8>) {
    let mut d = Download::start(Some(declared)).unwrap();
    d.file_opened(true).unwrap();
    let mut file = Vec::new();
    for c in body {
        file.extend_from_slice(c);
        if !d.chunk_written(c.len() as u64, true) {
            break;
        }
    }
    (d.finish(), file)
}

#[test]
fn mismatch_downloads_and_completes() {
    let u = resolved(false, "NVIM v0.9.0-dev-1-gabc123def", "NVIM v0.9.0-dev-1-gxyz987654");
    assert!(matches!(&u.state, UpdateState::Downloading { latest } if latest == "abc123def"));
    assert_eq!(u.next_action(), Action::Download);
    let (outcome, file) = download_of(8, &[b"\x7fELF", b"1234"]);
    let u = u.download_finished(outcome);
    assert!(matches!(&u.state, UpdateState::Done { latest } if latest == "abc123def"));
    assert_eq!(file.len(), 8);
    assert_eq!(u.exit_code(), Some(0));
}

#[test]
fn truncated_download_fails() {
    let u = resolved(false, "NVIM v0.9.0-dev-1-gabc123def", "NVIM v0.9.0-dev-1-gxyz987654");
    let (outcome, file) = download_of(8, &[b"\x7fELF"]);
    let u = u.download_finished(outcome);
    assert!(matches!(&u.state, UpdateState::Failed(UpdaterError::IncompleteDownload)));
    assert!(file.len() < 8);
    assert_eq!(u.exit_code(), Some(1));
}

#[test]
fn transport_failure_fails_before_local_resolution() {
    let u = Updater::new(false).remote_fetched(Err(UpdaterError::ProcessInvocation));
    assert!(matches!(&u.state, UpdateState::Failed(UpdaterError::ProcessInvocation)));
    assert_eq!(u.next_action(), Action::Stop);
    let u = u.local_fetched(Ok(String::from("NVIM v0.9.0-dev-1-gabc123def")));
    assert!(matches!(&u.state, UpdateState::Failed(UpdaterError::ProcessInvocation)));
    assert_eq!(u.exit_code(), Some(1));
}

#[test]
fn missing_pattern_fails_with_its_own_cause() {
    let u = Updater::new(false).remote_fetched(Ok(String::from("<html>maintenance</html>")));
    assert!(matches!(&u.state, UpdateState::Failed(UpdaterError::PatternNotFound)));
    let u = Updater::new(false)
        .remote_fetched(Ok(String::from("NVIM v0.9.0-dev-1-gabc123def")))
        .local_fetched(Ok(String::from("nvim: command output without version")));
    assert!(matches!(&u.state, UpdateState::Failed(UpdaterError::PatternNotFound)));
}

#[test]
fn exit_code_is_open_while_running() {
    let u = Updater::new(false);
    assert_eq!(u.exit_code(), None);
}

#[test]
fn output_is_decoded_as_utf8() {
    let s = decode_output(b"NVIM v0.9.0".to_vec()).unwrap();
    assert_eq!(s, "NVIM v0.9.0");
    assert!(matches!(decode_output(vec![0xff, 0xfe]), Err(UpdaterError::TextDecoding(_))));
}

fn server_error() -> reqwest::Error {
    let response = http::Response::builder().status(500).body(String::new()).unwrap();
    reqwest::Response::from(response).error_for_status().unwrap_err()
}

#[test]
fn server_error_fails_with_transport_error() {
    let u = Updater::new(false).remote_fetched(Err(UpdaterError::from(server_error())));
    assert!(matches!(&u.state, UpdateState::Failed(UpdaterError::Transport(_))));
    assert_eq!(u.next_action(), Action::Stop);
    assert_eq!(u.exit_code(), Some(1));
}
