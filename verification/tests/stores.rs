use repodb::repo_store::GitAuth;
use repodb::repo_store::GitCommit;
use repodb::repo_store::GitStore;
use repodb::repo_store::InitStep;
use repodb::repo_store::Phase;
use repodb::repo_store::RepoStoreError;
use repodb::repo_store::StepOutcome;
use repodb::repo_store::phase_result;
use repodb::text::contains;
use repodb::text::is_text_below;
use repodb::text::split;

fn store(branch: Option<&str>, auth: GitAuth) -> GitStore {
    GitStore::new(
        "docs",
        "https://example.org/repo.git",
        "/tmp/docs",
        branch,
        auth,
        GitCommit::new("Jane", "jane@example.org"),
    )
}

fn plain() -> GitStore {
    store(None, GitAuth::default())
}

fn ok(text: &str) -> StepOutcome {
    StepOutcome::Succeeded(String::from(text))
}

fn failed(text: &str) -> StepOutcome {
    StepOutcome::Failed(String::from(text))
}

#[test]
fn committer_pair() {
    let c = GitCommit::new("Jane", "jane@example.org");
    assert_eq!(c.pair(), (String::from("Jane"), String::from("jane@example.org")));
    assert_eq!(GitCommit::default().pair(), (String::new(), String::new()));
}

#[test]
fn auth_header_prefers_the_token() {
    let s = store(None, GitAuth::new(Some("user"), Some("pass"), Some("t0k3n"), false));
    assert_eq!(s.build_auth_header(), Some(String::from("Authorization: Bearer t0k3n")));
}

#[test]
fn auth_header_of_user_and_password() {
    let s = store(None, GitAuth::new(Some("user"), Some("pass"), None, false));
    assert_eq!(s.build_auth_header(), Some(String::from("Authorization: Basic dXNlcjpwYXNz")));
    let s = store(None, GitAuth::new(Some("a"), Some(""), None, false));
    assert_eq!(s.build_auth_header(), Some(String::from("Authorization: Basic YTo=")));
}

#[test]
fn no_auth_header_without_full_credentials() {
    assert_eq!(plain().build_auth_header(), None);
    let s = store(None, GitAuth::new(Some("user"), None, None, true));
    assert_eq!(s.build_auth_header(), None);
    let s = store(None, GitAuth::new(None, Some("pass"), None, false));
    assert_eq!(s.build_auth_header(), None);
}

#[test]
fn clone_command_of_a_plain_store() {
    let c = plain().clone_command();
    assert_eq!(c.dry_run().unwrap(), "git clone https://example.org/repo.git /tmp/docs");
}

#[test]
fn clone_command_with_every_option() {
    let s = store(Some("main"), GitAuth::new(None, None, Some("abc"), true));
    assert_eq!(
        s.clone_command().dry_run().unwrap(),
        "git clone https://example.org/repo.git /tmp/docs --branch main \
         --config http.extraHeader=Authorization: Bearer abc --config http.sslVerify=false"
    );
    let s = store(None, GitAuth::new(Some("user"), Some("pass"), None, false));
    assert_eq!(
        s.clone_command().dry_run().unwrap(),
        "git clone https://example.org/repo.git /tmp/docs \
         --config http.extraHeader=Authorization: Basic dXNlcjpwYXNz"
    );
    let s = store(Some("dev"), GitAuth::new(None, None, None, true));
    assert_eq!(
        s.clone_command().dry_run().unwrap(),
        "git clone https://example.org/repo.git /tmp/docs --branch dev --config http.sslVerify=false"
    );
}

#[test]
fn the_other_commands() {
    let s = plain();
    assert_eq!(
        s.config_command().dry_run().unwrap(),
        "git config user.email jane@example.org user.name Jane"
    );
    assert_eq!(s.probe_command().dry_run().unwrap(), "git rev-parse --is-inside-work-tree");
    assert_eq!(s.pull_command(false).dry_run().unwrap(), "git pull");
    assert_eq!(s.pull_command(true).dry_run().unwrap(), "git pull --rebase");
    assert_eq!(s.push_command().dry_run().unwrap(), "git push");
    assert_eq!(
        s.commit_command("first").dry_run().unwrap(),
        "git commit --all --message=first"
    );
    let clean: Vec<String> =
        s.clean_commands().iter().map(|c| c.dry_run().unwrap()).collect();
    assert_eq!(clean, vec!["git reset", "git checkout .", "git clean --force -d -x"]);
}

#[test]
fn store_hands_out_documents_below_its_directory() {
    let s = plain();
    assert_eq!(s.repo_path(), "/tmp/docs");
    let d = s.document("a/b.json");
    assert_eq!(d.base_path(), "/tmp/docs");
    assert_eq!(d.path(), "a/b.json");
}

#[test]
fn probe_outcome_decides_validity() {
    assert!(GitStore::is_valid_repo(&Ok(String::from("true\n"))));
    assert!(!GitStore::is_valid_repo(&Ok(String::from("false\n"))));
    assert!(!GitStore::is_valid_repo(&Ok(String::new())));
    assert!(!GitStore::is_valid_repo(&Err(String::from("true"))));
}

#[test]
fn store_errors_have_messages() {
    let c = || String::from("cause");
    assert_eq!(RepoStoreError::Initialize(c()).format(), "failed to initialize repo: cause");
    assert_eq!(RepoStoreError::Clone(c()).format(), "failed to clone repo: cause");
    assert_eq!(RepoStoreError::Pull(c()).format(), "failed to pull repo: cause");
    assert_eq!(RepoStoreError::Push(c()).format(), "failed to push repo: cause");
    assert_eq!(RepoStoreError::Commit(c()).format(), "failed to commit repo: cause");
    assert_eq!(RepoStoreError::Clean(c()).format(), "failed to clean repo: cause");
    assert_eq!(RepoStoreError::failed(Phase::Push, c()).format(), "failed to push repo: cause");
}

#[test]
fn a_phase_ends_as_its_command_did() {
    assert!(matches!(phase_result(Phase::Pull, Ok(String::from("done"))), Ok(())));
    match phase_result(Phase::Pull, Err(String::from("offline"))) {
        Err(RepoStoreError::Pull(m)) => assert_eq!(m, "offline"),
        _ => panic!("expected a pull error"),
    }
    assert!(matches!(phase_result(Phase::Commit, Err(String::new())), Err(RepoStoreError::Commit(_))));
    assert!(matches!(phase_result(Phase::Clean, Err(String::new())), Err(RepoStoreError::Clean(_))));
    assert!(matches!(phase_result(Phase::Push, Err(String::new())), Err(RepoStoreError::Push(_))));
}

#[test]
fn initialize_keeps_a_valid_checkout() {
    for _ in 0..2 {
        let step = plain().initialize();
        assert!(matches!(step, InitStep::CheckExists));
        let step = GitStore::initialize_next(step, StepOutcome::Present);
        assert!(matches!(step, InitStep::Probe));
        let step = GitStore::initialize_next(step, ok("true\n"));
        assert!(matches!(step, InitStep::Done));
        let step = GitStore::initialize_next(step, failed("late"));
        assert!(matches!(step, InitStep::Done));
    }
}

#[test]
fn initialize_replaces_an_invalid_checkout() {
    for probe in [ok("false\n"), ok(""), failed("fatal: not a git repository")] {
        let step = GitStore::initialize_next(InitStep::CheckExists, StepOutcome::Present);
        let step = GitStore::initialize_next(step, probe);
        assert!(matches!(step, InitStep::RemoveDir));
        let step = GitStore::initialize_next(step, ok(""));
        assert!(matches!(step, InitStep::CreateDir));
        let step = GitStore::initialize_next(step, ok(""));
        assert!(matches!(step, InitStep::Clone));
        let step = GitStore::initialize_next(step, ok("Cloning into ..."));
        assert!(matches!(step, InitStep::Configure));
        let step = GitStore::initialize_next(step, ok(""));
        assert!(matches!(step, InitStep::Done));
    }
}

#[test]
fn initialize_clones_into_an_absent_directory() {
    let step = GitStore::initialize_next(InitStep::CheckExists, StepOutcome::Absent);
    assert!(matches!(step, InitStep::CreateDir));
    let step = GitStore::initialize_next(step, ok(""));
    assert!(matches!(step, InitStep::Clone));
}

#[test]
fn initialize_reports_the_first_failure() {
    let message = |step: InitStep| match step {
        InitStep::Failed(e) => e.format(),
        _ => panic!("expected a failure"),
    };
    assert_eq!(
        message(GitStore::initialize_next(InitStep::CheckExists, failed("denied"))),
        "failed to initialize repo: denied"
    );
    assert_eq!(
        message(GitStore::initialize_next(InitStep::RemoveDir, failed("busy"))),
        "failed to initialize repo: busy"
    );
    assert_eq!(
        message(GitStore::initialize_next(InitStep::CreateDir, failed("read-only"))),
        "failed to initialize repo: read-only"
    );
    assert_eq!(
        message(GitStore::initialize_next(InitStep::Clone, failed("no route"))),
        "failed to initialize repo: failed to clone repo: no route"
    );
    assert_eq!(
        message(GitStore::initialize_next(InitStep::Configure, failed("locked"))),
        "failed to initialize repo: locked"
    );
    let ended = GitStore::initialize_next(InitStep::Clone, failed("no route"));
    assert_eq!(
        message(GitStore::initialize_next(ended, ok(""))),
        "failed to initialize repo: failed to clone repo: no route"
    );
}

#[test]
fn an_outcome_that_does_not_answer_leaves_the_step() {
    let step = GitStore::initialize_next(InitStep::CheckExists, ok("true"));
    assert!(matches!(step, InitStep::CheckExists));
    let step = GitStore::initialize_next(InitStep::Probe, StepOutcome::Present);
    assert!(matches!(step, InitStep::Probe));
    let step = GitStore::initialize_next(InitStep::Clone, StepOutcome::Absent);
    assert!(matches!(step, InitStep::Clone));
}

#[test]
fn steps_that_run_git_have_a_command() {
    let s = plain();
    assert!(s.step_command(&InitStep::CheckExists).is_none());
    assert!(s.step_command(&InitStep::RemoveDir).is_none());
    assert!(s.step_command(&InitStep::CreateDir).is_none());
    assert!(s.step_command(&InitStep::Done).is_none());
    assert_eq!(
        s.step_command(&InitStep::Probe).unwrap().dry_run().unwrap(),
        "git rev-parse --is-inside-work-tree"
    );
    assert_eq!(
        s.step_command(&InitStep::Clone).unwrap().dry_run().unwrap(),
        "git clone https://example.org/repo.git /tmp/docs"
    );
    assert_eq!(
        s.step_command(&InitStep::Configure).unwrap().dry_run().unwrap(),
        "git config user.email jane@example.org user.name Jane"
    );
}

#[test]
fn split_on_a_separator() {
    assert_eq!(split("a.b.c", '.'), vec!["a", "b", "c"]);
    assert_eq!(split("abc", '.'), vec!["abc"]);
    assert_eq!(split("", '.'), vec![""]);
    assert_eq!(split(".", '.'), vec!["", ""]);
    assert_eq!(split("a..b", '.'), vec!["a", "", "b"]);
    assert_eq!(split("a.", '.'), vec!["a", ""]);
    assert_eq!(split(".a", '.'), vec!["", "a"]);
    assert_eq!(split("é.ü", '.'), vec!["é", "ü"]);
    let expected: Vec<&str> = "x.yy..z.".split('.').collect();
    assert_eq!(split("x.yy..z.", '.'), expected);
}

#[test]
fn contains_finds_a_text() {
    assert!(contains("true", "true"));
    assert!(contains("it is true\n", "true"));
    assert!(contains("ttrue", "true"));
    assert!(!contains("tru", "true"));
    assert!(!contains("t r u e", "true"));
    assert!(!contains("", "true"));
    assert!(contains("", ""));
    assert!(contains("abc", ""));
    assert!(contains("ébc", "bc"));
}

#[test]
fn text_order_is_that_of_str() {
    let all = ["", "a", "ab", "b", "ba", "é", "z", "A"];
    for a in all {
        for b in all {
            assert_eq!(is_text_below(a, b), a < b);
        }
    }
}
