//! The steps of one update, from the two versions to the download.
use vstd::prelude::*;

use crate::error::UpdaterError;
use crate::version::{get_version, version_of};

verus! {

/// Relies on `String::from_utf8`: the text that `bytes` encode, or an error
/// where they are not valid UTF-8.
#[verifier::external_body]
fn utf8_string(bytes: Vec<u8>) -> (r: Result<String, std::string::FromUtf8Error>)
    ensures
        r is Ok <==> vstd::utf8::valid_utf8(bytes@),
        r matches Ok(s) ==> s@ == vstd::utf8::decode_utf8(bytes@),
{
    String::from_utf8(bytes)
}

/// The text that the local executable printed, decoded from its bytes.
pub fn decode_output(stdout: Vec<u8>) -> (r: Result<String, UpdaterError>)
    ensures
        r is Ok <==> vstd::utf8::valid_utf8(stdout@),
        r matches Ok(s) ==> s@ == vstd::utf8::decode_utf8(stdout@),
        r matches Err(e) ==> e is TextDecoding,
{
    match utf8_string(stdout) {
        Ok(s) => Ok(s),
        Err(e) => Err(UpdaterError::TextDecoding(e)),
    }
}

/// Where an update stands.
pub enum UpdateState {
    /// The release page is awaited.
    ResolvingRemote,
    /// The latest identifier is known; the local executable's output is awaited.
    ResolvingLocal { latest: String },
    /// Both identifiers are known.
    Comparing { latest: String, current: String },
    /// The installed version is the latest: nothing to do.
    UpToDate { version: String },
    /// A newer version exists and was not applied, as asked.
    CheckOnlyStop { latest: String, current: String },
    /// A newer version exists; its download is under way.
    Downloading { latest: String },
    /// The latest version was downloaded.
    Done { latest: String },
    /// The update failed, for the reason given.
    Failed(UpdaterError),
}

/// What the program has to do next for an update.
#[derive(PartialEq, Eq, Structural, Debug, Clone, Copy)]
pub enum Action {
    /// Fetch the release page and hand its text to `remote_fetched`.
    FetchRemote,
    /// Run the local executable and hand its output to `local_fetched`.
    RunLocal,
    /// Call `compare`.
    Compare,
    /// Download the latest version and hand the outcome to `download_finished`.
    Download,
    /// Nothing: the update has ended.
    Stop,
}

pub open spec fn action_of(s: UpdateState) -> Action {
    match s {
        UpdateState::ResolvingRemote => Action::FetchRemote,
        UpdateState::ResolvingLocal { .. } => Action::RunLocal,
        UpdateState::Comparing { .. } => Action::Compare,
        UpdateState::Downloading { .. } => Action::Download,
        _ => Action::Stop,
    }
}

/// The state that resolving an identifier from `fetched` leads to: `found`
/// with the identifier where one is announced, else the failure.
pub open spec fn resolution(
    fetched: Result<String, UpdaterError>,
    found: spec_fn(String) -> UpdateState,
    next: UpdateState,
) -> bool {
    match fetched {
        Err(e) => next == UpdateState::Failed(e),
        Ok(text) => match version_of(text@) {
            None => next == UpdateState::Failed(UpdaterError::PatternNotFound),
            Some(v) => exists|id: String| id@ == v && next == found(id),
        },
    }
}

/// The state that comparing `latest` with `current` leads to.
pub open spec fn comparison(latest: String, current: String, check_only: bool) -> UpdateState {
    if latest@ == current@ {
        UpdateState::UpToDate { version: latest }
    } else if check_only {
        UpdateState::CheckOnlyStop { latest, current }
    } else {
        UpdateState::Downloading { latest }
    }
}

/// Identical identifiers are judged equal whatever text surrounded them: two
/// texts that announce the same identifier lead to `UpToDate`, in either mode.
pub proof fn lemma_same_identifier_up_to_date(
    remote: Seq<char>,
    local: Seq<char>,
    latest: String,
    current: String,
    check_only: bool,
)
    requires
        version_of(remote) == Some(latest@),
        version_of(local) == Some(current@),
        version_of(remote) == version_of(local),
    ensures
        comparison(latest, current, check_only) == (UpdateState::UpToDate { version: latest }),
{
}

/// One update: whether only a check was asked for, and where it stands.
///
/// The program asks `next_action` what to do, does it, and hands the outcome
/// to the matching step; each step moves the update one state forward.
pub struct Updater {
    pub check_only: bool,
    pub state: UpdateState,
}

impl Updater {
    /// An update that starts by resolving the remote version.
    pub fn new(check_only: bool) -> (r: Updater)
        ensures
            r.check_only == check_only,
            r.state == UpdateState::ResolvingRemote,
    {
        Updater { check_only, state: UpdateState::ResolvingRemote }
    }

    /// What the program has to do next.
    pub fn next_action(&self) -> (r: Action)
        ensures
            r == action_of(self.state),
    {
        match &self.state {
            UpdateState::ResolvingRemote => Action::FetchRemote,
            UpdateState::ResolvingLocal { .. } => Action::RunLocal,
            UpdateState::Comparing { .. } => Action::Compare,
            UpdateState::Downloading { .. } => Action::Download,
            _ => Action::Stop,
        }
    }

    /// Takes the release page's text, or the failure to fetch it; in any
    /// other state than `ResolvingRemote` nothing changes.
    pub fn remote_fetched(self, fetched: Result<String, UpdaterError>) -> (r: Updater)
        ensures
            r.check_only == self.check_only,
            self.state is ResolvingRemote ==> resolution(
                fetched,
                |id: String| UpdateState::ResolvingLocal { latest: id },
                r.state,
            ),
            !(self.state is ResolvingRemote) ==> r.state == self.state,
    {
        match self.state {
            UpdateState::ResolvingRemote => {
                let state = match fetched {
                    Err(e) => UpdateState::Failed(e),
                    Ok(text) => match get_version(text) {
                        Some(latest) => UpdateState::ResolvingLocal { latest },
                        None => UpdateState::Failed(UpdaterError::PatternNotFound),
                    },
                };
                Updater { check_only: self.check_only, state }
            },
            state => Updater { check_only: self.check_only, state },
        }
    }

    /// Takes the local executable's output, or the failure to get it; in any
    /// other state than `ResolvingLocal` nothing changes.
    pub fn local_fetched(self, fetched: Result<String, UpdaterError>) -> (r: Updater)
        ensures
            r.check_only == self.check_only,
            self.state matches UpdateState::ResolvingLocal { latest } ==> resolution(
                fetched,
                |id: String| UpdateState::Comparing { latest, current: id },
                r.state,
            ),
            !(self.state is ResolvingLocal) ==> r.state == self.state,
    {
        match self.state {
            UpdateState::ResolvingLocal { latest } => {
                let state = match fetched {
                    Err(e) => UpdateState::Failed(e),
                    Ok(text) => match get_version(text) {
                        Some(current) => UpdateState::Comparing { latest, current },
                        None => UpdateState::Failed(UpdaterError::PatternNotFound),
                    },
                };
                Updater { check_only: self.check_only, state }
            },
            state => Updater { check_only: self.check_only, state },
        }
    }

    /// Compares the two identifiers: equal ones end the update as
    /// `UpToDate`; different ones end it as `CheckOnlyStop` where only a
    /// check was asked for, and start the download otherwise.
    pub fn compare(self) -> (r: Updater)
        ensures
            r.check_only == self.check_only,
            self.state matches UpdateState::Comparing { latest, current } ==> r.state == comparison(
                latest,
                current,
                self.check_only,
            ),
            !(self.state is Comparing) ==> r.state == self.state,
    {
        match self.state {
            UpdateState::Comparing { latest, current } => {
                let state = if latest == current {
                    UpdateState::UpToDate { version: latest }
                } else if self.check_only {
                    UpdateState::CheckOnlyStop { latest, current }
                } else {
                    UpdateState::Downloading { latest }
                };
                Updater { check_only: self.check_only, state }
            },
            state => Updater { check_only: self.check_only, state },
        }
    }

    /// Takes the download's outcome; in any other state than `Downloading`
    /// nothing changes.
    pub fn download_finished(self, outcome: Result<(), UpdaterError>) -> (r: Updater)
        ensures
            r.check_only == self.check_only,
            self.state matches UpdateState::Downloading { latest } ==> r.state == match outcome {
                Ok(()) => UpdateState::Done { latest },
                Err(e) => UpdateState::Failed(e),
            },
            !(self.state is Downloading) ==> r.state == self.state,
    {
        match self.state {
            UpdateState::Downloading { latest } => {
                let state = match outcome {
                    Ok(()) => UpdateState::Done { latest },
                    Err(e) => UpdateState::Failed(e),
                };
                Updater { check_only: self.check_only, state }
            },
            state => Updater { check_only: self.check_only, state },
        }
    }

    /// The process's exit status once the update has ended: 0 where it is up
    /// to date, only checked, or done; 1 where it failed; nothing before.
    pub fn exit_code(&self) -> (r: Option<i32>)
        ensures
            r == match self.state {
                UpdateState::UpToDate { .. } | UpdateState::CheckOnlyStop { .. }
                | UpdateState::Done { .. } => Some(0i32),
                UpdateState::Failed(_) => Some(1i32),
                _ => None,
            },
    {
        match &self.state {
            UpdateState::UpToDate { .. } | UpdateState::CheckOnlyStop { .. }
            | UpdateState::Done { .. } => Some(0),
            UpdateState::Failed(_) => Some(1),
            _ => None,
        }
    }
}

} // verus!
