//! The store: a working directory that is a checkout of a remote git
//! repository. The library composes the git commands and decides what to do
//! next; running a command and touching the directory is the caller's part.

use vstd::prelude::*;
use vstd::string::StringSliceAdditionalSpecFns;
use gitwrap::wrap_command::WrapCommand;
use base64::Engine;
use crate::git::command_args;
use crate::git::command_dir;
use crate::git::git_clone;
use crate::git::git_config;
use crate::git::git_rev_parse;
use crate::git::git_pull;
use crate::git::git_push;
use crate::git::git_commit;
use crate::git::git_reset;
use crate::git::git_checkout;
use crate::git::git_clean;
use crate::git::add_option;
use crate::git::current_dir;
use crate::git::clone_repository;
use crate::git::clone_directory;
use crate::git::clone_branch;
use crate::git::clone_config;
use crate::git::config_entry;
use crate::git::rev_parse_is_inside_work_tree;
use crate::git::pull_rebase;
use crate::git::commit_all;
use crate::git::commit_message;
use crate::git::checkout_pathspec;
use crate::git::clean_force;
use crate::git::clean_recurse_directories;
use crate::git::clean_no_gitignore;
use crate::repo_document::JsonDocument;
use crate::repo_document::RepoDocument;
use crate::text::contains;
use crate::text::occurs_in;

verus! {

/// The phases of the store's life in which something can fail.
#[derive(Clone, Copy, Debug, PartialEq, Eq, Structural)]
pub enum Phase {
    Initialize,
    Clone,
    Pull,
    Push,
    Commit,
    Clean,
}

/// What can go wrong with a store: the phase that failed, with the message of
/// the cause.
pub enum RepoStoreError {
    Initialize(String),
    Clone(String),
    Pull(String),
    Push(String),
    Commit(String),
    Clean(String),
}

impl RepoStoreError {
    /// The phase that failed.
    pub open spec fn phase(&self) -> Phase {
        match self {
            RepoStoreError::Initialize(_) => Phase::Initialize,
            RepoStoreError::Clone(_) => Phase::Clone,
            RepoStoreError::Pull(_) => Phase::Pull,
            RepoStoreError::Push(_) => Phase::Push,
            RepoStoreError::Commit(_) => Phase::Commit,
            RepoStoreError::Clean(_) => Phase::Clean,
        }
    }

    /// The message of the cause that the error carries.
    pub open spec fn cause(&self) -> Seq<char> {
        match self {
            RepoStoreError::Initialize(c) => c@,
            RepoStoreError::Clone(c) => c@,
            RepoStoreError::Pull(c) => c@,
            RepoStoreError::Push(c) => c@,
            RepoStoreError::Commit(c) => c@,
            RepoStoreError::Clean(c) => c@,
        }
    }

    /// The message of the error: which phase failed, then the message of the
    /// cause.
    pub open spec fn text(&self) -> Seq<char> {
        phase_heading(self.phase()) + self.cause()
    }

    /// The error of a phase that failed with the given cause.
    pub fn failed(phase: Phase, cause: String) -> (e: RepoStoreError)
        ensures
            e.phase() == phase,
            e.cause() == cause@,
    {
        match phase {
            Phase::Initialize => RepoStoreError::Initialize(cause),
            Phase::Clone => RepoStoreError::Clone(cause),
            Phase::Pull => RepoStoreError::Pull(cause),
            Phase::Push => RepoStoreError::Push(cause),
            Phase::Commit => RepoStoreError::Commit(cause),
            Phase::Clean => RepoStoreError::Clean(cause),
        }
    }

    /// The message of the error.
    pub fn format(&self) -> (s: String)
        ensures
            s@ == self.text(),
    {
        match self {
            RepoStoreError::Initialize(c) => String::from_str("failed to initialize repo: ").concat(
                c.as_str(),
            ),
            RepoStoreError::Clone(c) => String::from_str("failed to clone repo: ").concat(
                c.as_str(),
            ),
            RepoStoreError::Pull(c) => String::from_str("failed to pull repo: ").concat(c.as_str()),
            RepoStoreError::Push(c) => String::from_str("failed to push repo: ").concat(c.as_str()),
            RepoStoreError::Commit(c) => String::from_str("failed to commit repo: ").concat(
                c.as_str(),
            ),
            RepoStoreError::Clean(c) => String::from_str("failed to clean repo: ").concat(
                c.as_str(),
            ),
        }
    }
}

/// What the message of an error says of its phase, before the cause.
pub open spec fn phase_heading(phase: Phase) -> Seq<char> {
    match phase {
        Phase::Initialize => "failed to initialize repo: "@,
        Phase::Clone => "failed to clone repo: "@,
        Phase::Pull => "failed to pull repo: "@,
        Phase::Push => "failed to push repo: "@,
        Phase::Commit => "failed to commit repo: "@,
        Phase::Clean => "failed to clean repo: "@,
    }
}

/// The result of a phase that ran one command: success where the command
/// succeeded, else the error of that phase with the message of the failure.
pub fn phase_result(phase: Phase, outcome: Result<String, String>) -> (r: Result<
    (),
    RepoStoreError,
>)
    ensures
        match outcome {
            Ok(_) => r is Ok,
            Err(cause) => r matches Err(e) && e.phase() == phase && e.cause() == cause@,
        },
{
    match outcome {
        Ok(_) => Ok(()),
        Err(cause) => Err(RepoStoreError::failed(phase, cause)),
    }
}

/// The view of an optional text.
pub open spec fn text_of(s: Option<String>) -> Option<Seq<char>> {
    match s {
        Some(t) => Some(t@),
        None => None,
    }
}

fn owned(s: Option<&str>) -> (r: Option<String>)
    ensures
        match s {
            Some(t) => text_of(r) == Some(t@),
            None => r is None,
        },
{
    match s {
        Some(t) => Some(String::from_str(t)),
        None => None,
    }
}

fn copied(s: &Option<String>) -> (r: Option<String>)
    ensures
        text_of(r) == text_of(*s),
{
    match s {
        Some(t) => Some(t.clone()),
        None => None,
    }
}

/// How the store presents itself to the remote.
pub struct AuthModel {
    pub user: Option<Seq<char>>,
    pub password: Option<Seq<char>>,
    pub token: Option<Seq<char>>,
    pub insecure: bool,
}

/// The credentials of a store: a user and a password, or a bearer token, or
/// neither; and whether TLS verification is switched off.
#[derive(Debug)]
pub struct GitAuth {
    user: Option<String>,
    password: Option<String>,
    token: Option<String>,
    insecure: bool,
}

impl View for GitAuth {
    type V = AuthModel;

    closed spec fn view(&self) -> AuthModel {
        AuthModel {
            user: text_of(self.user),
            password: text_of(self.password),
            token: text_of(self.token),
            insecure: self.insecure,
        }
    }
}

impl Clone for GitAuth {
    fn clone(&self) -> (r: Self)
        ensures
            r@ == self@,
    {
        GitAuth {
            user: copied(&self.user),
            password: copied(&self.password),
            token: copied(&self.token),
            insecure: self.insecure,
        }
    }
}

impl Default for GitAuth {
    fn default() -> (r: Self)
        ensures
            r@ == (AuthModel { user: None, password: None, token: None, insecure: false }),
    {
        GitAuth { user: None, password: None, token: None, insecure: false }
    }
}

impl GitAuth {
    /// The credentials with the given parts.
    pub fn new(user: Option<&str>, password: Option<&str>, token: Option<&str>, insecure: bool) -> (r:
        Self)
        ensures
            r@.insecure == insecure,
            match user {
                Some(t) => r@.user == Some(t@),
                None => r@.user is None,
            },
            match password {
                Some(t) => r@.password == Some(t@),
                None => r@.password is None,
            },
            match token {
                Some(t) => r@.token == Some(t@),
                None => r@.token is None,
            },
    {
        GitAuth { user: owned(user), password: owned(password), token: owned(token), insecure }
    }
}

/// The standard base64 text, with padding, of a byte string.
pub uninterp spec fn base64_standard(bytes: Seq<u8>) -> Seq<char>;

/// The encoder can hold the base64 text of so many bytes.
pub open spec fn base64_fits(len: nat) -> bool {
    len / 3 <= (usize::MAX - 4) / 4
}

/// `base64::Engine::encode` of `BASE64_STANDARD`: the base64 text of the bytes
/// of `input`, which depends on them alone. The encoder panics where it cannot
/// hold the length of the result; such inputs are left out.
#[verifier::external_body]
fn base64_encode(input: &str) -> (r: String)
    requires
        base64_fits(input.spec_bytes().len()),
    ensures
        r@ == base64_standard(input.spec_bytes()),
{
    base64::prelude::BASE64_STANDARD.encode(input)
}

/// The header that authorizes the store with the remote: a bearer token where
/// one is set; else, where both a user and a password are set, their pair in
/// base64; else none. A pair too long for the encoder gives none.
pub open spec fn auth_header(auth: AuthModel) -> Option<Seq<char>> {
    match auth.token {
        Some(token) => Some("Authorization: Bearer "@ + token),
        None => match (auth.user, auth.password) {
            (Some(user), Some(password)) => {
                let pair = user + ":"@ + password;
                if base64_fits(vstd::utf8::encode_utf8(pair).len()) {
                    Some("Authorization: Basic "@ + base64_standard(vstd::utf8::encode_utf8(pair)))
                } else {
                    None
                }
            },
            _ => None,
        },
    }
}

/// Who commits: a name and an e-mail address.
pub struct CommitModel {
    pub user: Seq<char>,
    pub email: Seq<char>,
}

/// The identity under which the store commits.
#[derive(Debug)]
pub struct GitCommit {
    commit_user: String,
    commit_email: String,
}

impl View for GitCommit {
    type V = CommitModel;

    closed spec fn view(&self) -> CommitModel {
        CommitModel { user: self.commit_user@, email: self.commit_email@ }
    }
}

impl Clone for GitCommit {
    fn clone(&self) -> (r: Self)
        ensures
            r@ == self@,
    {
        GitCommit { commit_user: self.commit_user.clone(), commit_email: self.commit_email.clone() }
    }
}

impl Default for GitCommit {
    fn default() -> (r: Self)
        ensures
            r@.user.len() == 0,
            r@.email.len() == 0,
    {
        GitCommit { commit_user: String::new(), commit_email: String::new() }
    }
}

impl GitCommit {
    /// The identity with the given name and e-mail address.
    pub fn new(commit_user: &str, commit_email: &str) -> (r: Self)
        ensures
            r@ == (CommitModel { user: commit_user@, email: commit_email@ }),
    {
        GitCommit {
            commit_user: String::from_str(commit_user),
            commit_email: String::from_str(commit_email),
        }
    }

    /// The name and the e-mail address.
    pub fn pair(&self) -> (r: (String, String))
        ensures
            r.0@ == self@.user,
            r.1@ == self@.email,
    {
        (self.commit_user.clone(), self.commit_email.clone())
    }
}

/// What a store is made of.
pub struct StoreModel {
    pub name: Seq<char>,
    pub url: Seq<char>,
    pub path: Seq<char>,
    pub branch: Option<Seq<char>>,
    pub auth: AuthModel,
    pub commit: CommitModel,
}

/// A store backed by a remote git repository.
#[derive(Debug)]
pub struct GitStore {
    name: String,
    repo_url: String,
    auth: GitAuth,
    repo_path: String,
    branch: Option<String>,
    commit: GitCommit,
}

impl View for GitStore {
    type V = StoreModel;

    closed spec fn view(&self) -> StoreModel {
        StoreModel {
            name: self.name@,
            url: self.repo_url@,
            path: self.repo_path@,
            branch: text_of(self.branch),
            auth: self.auth@,
            commit: self.commit@,
        }
    }
}

impl Clone for GitStore {
    fn clone(&self) -> (r: Self)
        ensures
            r@ == self@,
    {
        GitStore {
            name: self.name.clone(),
            repo_url: self.repo_url.clone(),
            auth: self.auth.clone(),
            repo_path: self.repo_path.clone(),
            branch: copied(&self.branch),
            commit: self.commit.clone(),
        }
    }
}

impl Default for GitStore {
    fn default() -> (r: Self)
        ensures
            r@.name.len() == 0,
            r@.url.len() == 0,
            r@.path.len() == 0,
            r@.branch is None,
            auth_header(r@.auth) is None,
            !r@.auth.insecure,
    {
        GitStore {
            name: String::new(),
            repo_url: String::new(),
            auth: GitAuth::default(),
            repo_path: String::new(),
            branch: None,
            commit: GitCommit::default(),
        }
    }
}

/// The arguments of the clone: the remote, the target directory, the branch
/// where one is set, the authorization header where there is one, and the
/// switch that turns TLS verification off where the store is insecure.
pub open spec fn clone_args(s: StoreModel) -> Seq<Seq<char>> {
    seq!["clone"@, s.url, s.path] + (match s.branch {
        Some(b) => seq!["--branch"@, b],
        None => Seq::<Seq<char>>::empty(),
    }) + (match auth_header(s.auth) {
        Some(h) => seq!["--config"@, "http.extraHeader"@ + "="@ + h],
        None => Seq::<Seq<char>>::empty(),
    }) + (if s.auth.insecure {
        seq!["--config"@, "http.sslVerify"@ + "="@ + "false"@]
    } else {
        Seq::<Seq<char>>::empty()
    })
}

/// The output of the probe says that the directory is inside a work tree.
pub open spec fn reports_work_tree(output: Seq<char>) -> bool {
    occurs_in("true"@, output)
}

impl GitStore {
    /// The store with the given name, remote URL, working directory, branch,
    /// credentials and committer.
    pub fn new(
        name: &str,
        url: &str,
        path: &str,
        branch: Option<&str>,
        auth: GitAuth,
        commit: GitCommit,
    ) -> (r: Self)
        ensures
            r@.name == name@,
            r@.url == url@,
            r@.path == path@,
            match branch {
                Some(b) => r@.branch == Some(b@),
                None => r@.branch is None,
            },
            r@.auth == auth@,
            r@.commit == commit@,
    {
        GitStore {
            name: String::from_str(name),
            repo_url: String::from_str(url),
            repo_path: String::from_str(path),
            branch: owned(branch),
            auth,
            commit,
        }
    }

    /// The working directory of the store.
    pub fn repo_path(&self) -> (r: &str)
        ensures
            r@ == self@.path,
    {
        self.repo_path.as_str()
    }

    /// The header that authorizes the store with the remote, if it has
    /// credentials.
    pub fn build_auth_header(&self) -> (r: Option<String>)
        ensures
            text_of(r) == auth_header(self@.auth),
    {
        match &self.auth.token {
            Some(token) => Some(String::from_str("Authorization: Bearer ").concat(token.as_str())),
            None => match (&self.auth.user, &self.auth.password) {
                (Some(user), Some(password)) => {
                    let pair = user.clone().concat(":").concat(password.as_str());
                    if pair.as_str().as_bytes().len() / 3 <= (usize::MAX - 4) / 4 {
                        let basic_token = base64_encode(pair.as_str());
                        Some(
                            String::from_str("Authorization: Basic ").concat(basic_token.as_str()),
                        )
                    } else {
                        None
                    }
                },
                _ => None,
            },
        }
    }

    /// The command that clones the remote into the working directory.
    pub fn clone_command(&self) -> (c: WrapCommand)
        ensures
            command_args(c) == clone_args(self@),
            command_dir(c) == Some(self@.path),
    {
        let mut cmd = git_clone();
        cmd = add_option(&cmd, clone_repository(self.repo_url.as_str()));
        cmd = add_option(&cmd, clone_directory(self.repo_path.as_str()));
        assert(command_args(cmd) =~= seq!["clone"@, self@.url, self@.path]);
        if let Some(branch) = &self.branch {
            cmd = add_option(&cmd, clone_branch(branch.as_str()));
        }
        if let Some(header) = self.build_auth_header() {
            cmd = add_option(&cmd, clone_config("http.extraHeader", header.as_str()));
        }
        if self.auth.insecure {
            cmd = add_option(&cmd, clone_config("http.sslVerify", "false"));
        }
        assert(command_args(cmd) =~= clone_args(self@));
        current_dir(&cmd, self.repo_path.as_str())
    }

    /// The command that sets the committer of the working directory.
    pub fn config_command(&self) -> (c: WrapCommand)
        ensures
            command_args(c) == seq![
                "config"@,
                "user.email"@,
                self@.commit.email,
                "user.name"@,
                self@.commit.user,
            ],
            command_dir(c) == Some(self@.path),
    {
        let (user, email) = self.commit.pair();
        let mut cmd = git_config();
        cmd = add_option(&cmd, config_entry("user.email", email.as_str()));
        cmd = add_option(&cmd, config_entry("user.name", user.as_str()));
        assert(command_args(cmd) =~= seq![
            "config"@,
            "user.email"@,
            self@.commit.email,
            "user.name"@,
            self@.commit.user,
        ]);
        current_dir(&cmd, self.repo_path.as_str())
    }

    /// The command that probes whether the working directory is inside a
    /// work tree.
    pub fn probe_command(&self) -> (c: WrapCommand)
        ensures
            command_args(c) == seq!["rev-parse"@, "--is-inside-work-tree"@],
            command_dir(c) == Some(self@.path),
    {
        let cmd = add_option(&git_rev_parse(), rev_parse_is_inside_work_tree());
        assert(command_args(cmd) =~= seq!["rev-parse"@, "--is-inside-work-tree"@]);
        current_dir(&cmd, self.repo_path.as_str())
    }

    /// Whether the probe found a valid checkout: it ran, and its output says
    /// that the directory is inside a work tree. A probe that failed found
    /// none.
    pub fn is_valid_repo(outcome: &Result<String, String>) -> (r: bool)
        ensures
            r == (outcome matches Ok(output) && reports_work_tree(output@)),
    {
        match outcome {
            Ok(output) => contains(output.as_str(), "true"),
            Err(_) => false,
        }
    }

    /// The document at `path` below the working directory.
    pub fn document(&self, path: &str) -> (d: JsonDocument)
        ensures
            d.spec_base_path() == self@.path,
            d.spec_path() == path@,
    {
        JsonDocument::new(self.repo_path.as_str(), path)
    }

    /// The command that pulls from the remote, by rebase where asked.
    pub fn pull_command(&self, rebase: bool) -> (c: WrapCommand)
        ensures
            command_args(c) == (if rebase {
                seq!["pull"@, "--rebase"@]
            } else {
                seq!["pull"@]
            }),
            command_dir(c) == Some(self@.path),
    {
        let mut cmd = git_pull();
        if rebase {
            proof {
                reveal_strlit("");
            }
            cmd = add_option(&cmd, pull_rebase(""));
            assert(command_args(cmd) =~= seq!["pull"@, "--rebase"@]);
        }
        current_dir(&cmd, self.repo_path.as_str())
    }

    /// The command that pushes to the remote.
    pub fn push_command(&self) -> (c: WrapCommand)
        ensures
            command_args(c) == seq!["push"@],
            command_dir(c) == Some(self@.path),
    {
        current_dir(&git_push(), self.repo_path.as_str())
    }

    /// The command that stages every change and commits it with the message.
    pub fn commit_command(&self, msg: &str) -> (c: WrapCommand)
        ensures
            command_args(c) == seq!["commit"@, "--all"@, "--message="@ + msg@],
            command_dir(c) == Some(self@.path),
    {
        let mut cmd = git_commit();
        cmd = add_option(&cmd, commit_all());
        cmd = add_option(&cmd, commit_message(msg));
        assert(command_args(cmd) =~= seq!["commit"@, "--all"@, "--message="@ + msg@]);
        current_dir(&cmd, self.repo_path.as_str())
    }

    /// The commands that discard every change that is not committed, in the
    /// order in which they are to run: reset to the last commit, check every
    /// path out, and remove what is untracked, ignored files too.
    pub fn clean_commands(&self) -> (cs: Vec<WrapCommand>)
        ensures
            cs@.len() == 3,
            command_args(cs@[0]) == seq!["reset"@],
            command_args(cs@[1]) == seq!["checkout"@, "."@],
            command_args(cs@[2]) == seq!["clean"@, "--force"@, "-d"@, "-x"@],
            forall|i: int| 0 <= i < 3 ==> command_dir(#[trigger] cs@[i]) == Some(self@.path),
    {
        let dir = self.repo_path.as_str();
        let reset = current_dir(&git_reset(), dir);
        let checkout = add_option(&git_checkout(), checkout_pathspec("."));
        assert(command_args(checkout) =~= seq!["checkout"@, "."@]);
        let checkout = current_dir(&checkout, dir);
        let mut clean = git_clean();
        clean = add_option(&clean, clean_force());
        clean = add_option(&clean, clean_recurse_directories());
        clean = add_option(&clean, clean_no_gitignore());
        assert(command_args(clean) =~= seq!["clean"@, "--force"@, "-d"@, "-x"@]);
        let clean = current_dir(&clean, dir);
        let mut cs: Vec<WrapCommand> = Vec::new();
        cs.push(reset);
        cs.push(checkout);
        cs.push(clean);
        cs
    }
}

/// One step on the way to a working directory that is a valid checkout: what
/// the caller is to do next, or how it ended.
pub enum InitStep {
    /// Find out whether the working directory exists.
    CheckExists,
    /// Run the probe command in the working directory.
    Probe,
    /// Remove the working directory and all that is in it.
    RemoveDir,
    /// Create the working directory.
    CreateDir,
    /// Run the clone command.
    Clone,
    /// Run the config command.
    Configure,
    /// The working directory is a valid checkout.
    Done,
    /// It could not be made one.
    Failed(RepoStoreError),
}

/// What came of a step.
pub enum StepOutcome {
    /// The working directory exists.
    Present,
    /// The working directory does not exist.
    Absent,
    /// The step was done; a command printed the text.
    Succeeded(String),
    /// The step failed with the message.
    Failed(String),
}

/// What a step holds.
pub enum StepModel {
    CheckExists,
    Probe,
    RemoveDir,
    CreateDir,
    Clone,
    Configure,
    Done,
    Failed(Phase, Seq<char>),
}

/// What an outcome holds.
pub enum OutcomeModel {
    Present,
    Absent,
    Succeeded(Seq<char>),
    Failed(Seq<char>),
}

impl View for InitStep {
    type V = StepModel;

    open spec fn view(&self) -> StepModel {
        match self {
            InitStep::CheckExists => StepModel::CheckExists,
            InitStep::Probe => StepModel::Probe,
            InitStep::RemoveDir => StepModel::RemoveDir,
            InitStep::CreateDir => StepModel::CreateDir,
            InitStep::Clone => StepModel::Clone,
            InitStep::Configure => StepModel::Configure,
            InitStep::Done => StepModel::Done,
            InitStep::Failed(e) => StepModel::Failed(e.phase(), e.cause()),
        }
    }
}

impl View for StepOutcome {
    type V = OutcomeModel;

    open spec fn view(&self) -> OutcomeModel {
        match self {
            StepOutcome::Present => OutcomeModel::Present,
            StepOutcome::Absent => OutcomeModel::Absent,
            StepOutcome::Succeeded(o) => OutcomeModel::Succeeded(o@),
            StepOutcome::Failed(m) => OutcomeModel::Failed(m@),
        }
    }
}

/// The step that follows a step and its outcome.
///
/// A directory that exists is probed, and is left alone where the probe says
/// that it is inside a work tree. Where the probe says otherwise or fails, the
/// directory is removed. A directory that is absent, or was removed, is
/// created; then the remote is cloned into it and the committer is set. The
/// first failure but that of the probe ends the run with an error of the
/// initialize phase, which carries the message of the failure; for a clone
/// that failed, the message of the clone error. An outcome that does not
/// answer the step leaves the step to be done, and a run that has ended stays
/// ended.
pub open spec fn init_next(step: StepModel, outcome: OutcomeModel) -> StepModel {
    match (step, outcome) {
        (StepModel::CheckExists, OutcomeModel::Present) => StepModel::Probe,
        (StepModel::CheckExists, OutcomeModel::Absent) => StepModel::CreateDir,
        (StepModel::CheckExists, OutcomeModel::Failed(m)) => StepModel::Failed(
            Phase::Initialize,
            m,
        ),
        (StepModel::Probe, OutcomeModel::Succeeded(o)) => if reports_work_tree(o) {
            StepModel::Done
        } else {
            StepModel::RemoveDir
        },
        (StepModel::Probe, OutcomeModel::Failed(_)) => StepModel::RemoveDir,
        (StepModel::RemoveDir, OutcomeModel::Succeeded(_)) => StepModel::CreateDir,
        (StepModel::RemoveDir, OutcomeModel::Failed(m)) => StepModel::Failed(Phase::Initialize, m),
        (StepModel::CreateDir, OutcomeModel::Succeeded(_)) => StepModel::Clone,
        (StepModel::CreateDir, OutcomeModel::Failed(m)) => StepModel::Failed(Phase::Initialize, m),
        (StepModel::Clone, OutcomeModel::Succeeded(_)) => StepModel::Configure,
        (StepModel::Clone, OutcomeModel::Failed(m)) => StepModel::Failed(
            Phase::Initialize,
            phase_heading(Phase::Clone) + m,
        ),
        (StepModel::Configure, OutcomeModel::Succeeded(_)) => StepModel::Done,
        (StepModel::Configure, OutcomeModel::Failed(m)) => StepModel::Failed(Phase::Initialize, m),
        _ => step,
    }
}

/// The step that a run has reached after the given outcomes, one for each step
/// in turn.
pub open spec fn init_run(step: StepModel, outcomes: Seq<OutcomeModel>) -> StepModel
    decreases outcomes.len(),
{
    if outcomes.len() == 0 {
        step
    } else {
        init_run(init_next(step, outcomes[0]), outcomes.drop_first())
    }
}

impl GitStore {
    /// The first step of `initialize`.
    pub fn initialize(&self) -> (step: InitStep)
        ensures
            step@ == StepModel::CheckExists,
    {
        InitStep::CheckExists
    }

    /// The step that follows `step` once it has had `outcome`.
    pub fn initialize_next(step: InitStep, outcome: StepOutcome) -> (next: InitStep)
        ensures
            next@ == init_next(step@, outcome@),
    {
        match (step, outcome) {
            (InitStep::CheckExists, StepOutcome::Present) => InitStep::Probe,
            (InitStep::CheckExists, StepOutcome::Absent) => InitStep::CreateDir,
            (InitStep::CheckExists, StepOutcome::Failed(m)) => InitStep::Failed(
                RepoStoreError::Initialize(m),
            ),
            (InitStep::Probe, StepOutcome::Succeeded(o)) => {
                if contains(o.as_str(), "true") {
                    InitStep::Done
                } else {
                    InitStep::RemoveDir
                }
            },
            (InitStep::Probe, StepOutcome::Failed(_)) => InitStep::RemoveDir,
            (InitStep::RemoveDir, StepOutcome::Succeeded(_)) => InitStep::CreateDir,
            (InitStep::RemoveDir, StepOutcome::Failed(m)) => InitStep::Failed(
                RepoStoreError::Initialize(m),
            ),
            (InitStep::CreateDir, StepOutcome::Succeeded(_)) => InitStep::Clone,
            (InitStep::CreateDir, StepOutcome::Failed(m)) => InitStep::Failed(
                RepoStoreError::Initialize(m),
            ),
            (InitStep::Clone, StepOutcome::Succeeded(_)) => InitStep::Configure,
            (InitStep::Clone, StepOutcome::Failed(m)) => InitStep::Failed(
                RepoStoreError::Initialize(RepoStoreError::Clone(m).format()),
            ),
            (InitStep::Configure, StepOutcome::Succeeded(_)) => InitStep::Done,
            (InitStep::Configure, StepOutcome::Failed(m)) => InitStep::Failed(
                RepoStoreError::Initialize(m),
            ),
            (step, _) => step,
        }
    }

    /// The command that a step runs, for the steps that run one.
    pub fn step_command(&self, step: &InitStep) -> (c: Option<WrapCommand>)
        ensures
            match step@ {
                StepModel::Probe => c matches Some(cmd) && command_args(cmd) == seq![
                    "rev-parse"@,
                    "--is-inside-work-tree"@,
                ] && command_dir(cmd) == Some(self@.path),
                StepModel::Clone => c matches Some(cmd) && command_args(cmd) == clone_args(self@)
                    && command_dir(cmd) == Some(self@.path),
                StepModel::Configure => c matches Some(cmd) && command_args(cmd) == seq![
                    "config"@,
                    "user.email"@,
                    self@.commit.email,
                    "user.name"@,
                    self@.commit.user,
                ] && command_dir(cmd) == Some(self@.path),
                _ => c is None,
            },
    {
        match step {
            InitStep::Probe => Some(self.probe_command()),
            InitStep::Clone => Some(self.clone_command()),
            InitStep::Configure => Some(self.config_command()),
            _ => None,
        }
    }
}

/// Initializing over a valid checkout destroys nothing and succeeds, however
/// often it is done: the directory is found and probed, and where the probe
/// reports a work tree the run has ended well, with no step that removes,
/// creates or clones.
pub proof fn law_valid_checkout_is_kept(output: Seq<char>)
    requires
        reports_work_tree(output),
    ensures
        init_next(StepModel::CheckExists, OutcomeModel::Present) == StepModel::Probe,
        init_next(StepModel::Probe, OutcomeModel::Succeeded(output)) == StepModel::Done,
        init_run(StepModel::CheckExists, seq![OutcomeModel::Present, OutcomeModel::Succeeded(output)])
            == StepModel::Done,
{
    let outcomes = seq![OutcomeModel::Present, OutcomeModel::Succeeded(output)];
    let rest = outcomes.drop_first();
    assert(rest.len() == 1);
    assert(rest[0] == OutcomeModel::Succeeded(output));
    assert(rest.drop_first().len() == 0);
    reveal_with_fuel(init_run, 3);
}

/// A directory that exists but is no valid checkout is destroyed and made
/// anew: where the probe fails or reports no work tree, the directory is
/// removed, created, cloned into and configured, in that order, and the run
/// ends well where each of these succeeds.
pub proof fn law_invalid_checkout_is_replaced(
    probe: OutcomeModel,
    removed: Seq<char>,
    created: Seq<char>,
    cloned: Seq<char>,
    configured: Seq<char>,
)
    requires
        probe is Failed || (probe matches OutcomeModel::Succeeded(o) && !reports_work_tree(o)),
    ensures
        init_next(StepModel::CheckExists, OutcomeModel::Present) == StepModel::Probe,
        init_next(StepModel::Probe, probe) == StepModel::RemoveDir,
        init_next(StepModel::RemoveDir, OutcomeModel::Succeeded(removed)) == StepModel::CreateDir,
        init_next(StepModel::CreateDir, OutcomeModel::Succeeded(created)) == StepModel::Clone,
        init_next(StepModel::Clone, OutcomeModel::Succeeded(cloned)) == StepModel::Configure,
        init_next(StepModel::Configure, OutcomeModel::Succeeded(configured)) == StepModel::Done,
{
}

/// A directory that is absent is created, cloned into and configured, and is
/// never removed.
pub proof fn law_absent_directory_is_cloned(created: Seq<char>, cloned: Seq<char>)
    ensures
        init_next(StepModel::CheckExists, OutcomeModel::Absent) == StepModel::CreateDir,
        init_next(StepModel::CreateDir, OutcomeModel::Succeeded(created)) == StepModel::Clone,
        init_next(StepModel::Clone, OutcomeModel::Succeeded(cloned)) == StepModel::Configure,
{
}

/// Every failure that ends a run is an error of the initialize phase, and
/// only a failed probe does not end it.
pub proof fn law_failure_ends_run(step: StepModel, message: Seq<char>)
    requires
        !(step is Done),
        !(step is Failed),
    ensures
        step is Probe ==> init_next(step, OutcomeModel::Failed(message)) == StepModel::RemoveDir,
        !(step is Probe) ==> (init_next(step, OutcomeModel::Failed(message)) matches StepModel::Failed(
            phase,
            _,
        ) && phase == Phase::Initialize),
{
}

/// What a store offers. `T` is the content of its documents and `Q` the
/// operand of the queries that filter them. An implementation runs the
/// commands and touches the working directory.
pub trait RepoStore<T, Q> {
    /// The documents of the store.
    type Document: RepoDocument<T, Q>;

    /// Makes the working directory a valid checkout of the remote.
    fn initialize(&self) -> Result<(), RepoStoreError>;

    /// The document at a path below the working directory.
    fn document(&self, name: &str) -> Self::Document;

    /// Fetches and integrates the changes of the remote, by rebase where
    /// asked.
    fn pull(&self, rebase: bool) -> Result<(), RepoStoreError>;

    /// Publishes the local commits to the remote.
    fn push(&self) -> Result<(), RepoStoreError>;

    /// Stages every change and commits it with the message.
    fn commit(&self, msg: &str) -> Result<(), RepoStoreError>;

    /// Discards every change that is not committed.
    fn clean(&self) -> Result<(), RepoStoreError>;
}

} // verus!
