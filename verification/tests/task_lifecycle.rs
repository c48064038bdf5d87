use galatea::config::Config;
use galatea::engine::{Goal, Reply, Request, Stage, TaskProgress, TaskRun};
use galatea::error::{Failure, Phase};
use galatea::task::{ScriptType, Task};

fn config() -> Config {
    Config {
        tasks_dir: "/srv/tasks".to_string(),
        stacks_dir: "/srv/stacks".to_string(),
        state_dir: "/srv/state".to_string(),
        download_timeout: 30,
        ui_theme: "default".to_string(),
        task_sources: Vec::new(),
        stack_sources: Vec::new(),
        config_file_path: None,
    }
}

fn task(name: &str, kind: ScriptType, url: &str) -> Task {
    Task {
        name: name.to_string(),
        script_type: kind,
        description: String::new(),
        url: url.to_string(),
        cleanup_command: None,
        dependencies: Vec::new(),
        tags: Vec::new(),
        requires_reboot: false,
        local_path: None,
        installed: false,
    }
}

fn asked(progress: TaskProgress) -> (TaskRun, Request) {
    match progress {
        TaskProgress::Ask(run, request) => (run, request),
        TaskProgress::Finished(outcome) => panic!("the run ended with {:?}", outcome),
    }
}

#[test]
fn bash_task_installs_when_the_script_exits_zero() {
    let c = config();
    let mut a = task("A", ScriptType::Bash, "http://x/a.tgz");
    let (run, request) = asked(a.install(&c));
    match request {
        Request::Fetch { url, dest, timeout } => {
            assert_eq!(url, "http://x/a.tgz");
            assert_eq!(dest, "/srv/tasks/A");
            assert_eq!(timeout, 30);
        }
        other => panic!("unexpected request {:?}", other),
    }
    let (run, request) = asked(a.resume(&c, run, Reply::Fetched("/srv/tasks/A".to_string())));
    match request {
        Request::RunScript { entry, phase } => {
            assert_eq!(entry, "/srv/tasks/A");
            assert_eq!(phase, Phase::Install);
        }
        other => panic!("unexpected request {:?}", other),
    }
    assert_eq!(a.local_path.as_deref(), Some("/srv/tasks/A"));
    let (run, request) = asked(a.resume(&c, run, Reply::Done));
    match request {
        Request::WriteState { path, content } => {
            assert_eq!(path, "/srv/state/A.state");
            assert_eq!(content, "installed");
        }
        other => panic!("unexpected request {:?}", other),
    }
    assert!(!a.installed);
    match a.resume(&c, run, Reply::Done) {
        TaskProgress::Finished(Ok(())) => {}
        other => panic!("unexpected progress {:?}", other),
    }
    assert!(a.installed);
}

#[test]
fn ansible_task_stays_uninstalled_when_the_playbook_exits_one() {
    let c = config();
    let mut b = task("B", ScriptType::Ansible, "http://x/b.zip");
    b.local_path = Some("/srv/tasks/B".to_string());
    let (run, request) = asked(b.install(&c));
    match request {
        Request::Exists { path } => assert_eq!(path, "/srv/tasks/B"),
        other => panic!("unexpected request {:?}", other),
    }
    let (run, request) = asked(b.resume(&c, run, Reply::Exists(true)));
    match request {
        Request::RunPlaybook { entry, phase } => {
            assert_eq!(entry, "/srv/tasks/B");
            assert_eq!(phase, Phase::Install);
        }
        other => panic!("unexpected request {:?}", other),
    }
    match b.resume(&c, run, Reply::Failed(Failure::Execution { code: 1 })) {
        TaskProgress::Finished(Err(Failure::Execution { code })) => assert_eq!(code, 1),
        other => panic!("unexpected progress {:?}", other),
    }
    assert!(!b.installed);
}

#[test]
fn a_vanished_payload_is_fetched_again() {
    let c = config();
    let mut t = task("T", ScriptType::Bash, "http://x/t.zip");
    t.local_path = Some("/old/place".to_string());
    let (run, _) = asked(t.install(&c));
    let (run, request) = asked(t.resume(&c, run, Reply::Exists(false)));
    assert!(matches!(request, Request::Fetch { .. }));
    let (_, request) = asked(t.resume(&c, run, Reply::Fetched("/srv/tasks/T".to_string())));
    match request {
        Request::RunScript { entry, .. } => assert_eq!(entry, "/srv/tasks/T"),
        other => panic!("unexpected request {:?}", other),
    }
}

#[test]
fn a_failed_download_fails_the_install() {
    let c = config();
    let mut t = task("T", ScriptType::Bash, "http://x/t.zip");
    let (run, _) = asked(t.install(&c));
    let failure = Failure::Transport { status: Some(404), cause: "HTTP error".to_string() };
    match t.resume(&c, run, Reply::Failed(failure)) {
        TaskProgress::Finished(Err(Failure::Transport { status, .. })) => {
            assert_eq!(status, Some(404))
        }
        other => panic!("unexpected progress {:?}", other),
    }
    assert!(!t.installed);
    assert!(t.local_path.is_none());
}

#[test]
fn a_failed_state_write_leaves_the_task_uninstalled() {
    let c = config();
    let mut t = task("T", ScriptType::Bash, "http://x/t.zip");
    let (run, _) = asked(t.install(&c));
    let (run, _) = asked(t.resume(&c, run, Reply::Fetched("/p".to_string())));
    let (run, request) = asked(t.resume(&c, run, Reply::Done));
    assert!(matches!(request, Request::WriteState { .. }));
    let failure = Failure::StateIo { detail: "read-only".to_string() };
    match t.resume(&c, run, Reply::Failed(failure)) {
        TaskProgress::Finished(Err(Failure::StateIo { detail })) => {
            assert_eq!(detail, "read-only")
        }
        other => panic!("unexpected progress {:?}", other),
    }
    assert!(!t.installed);
}

#[test]
fn mixed_task_runs_the_script_only_after_the_playbook_failed() {
    let c = config();
    let mut m = task("M", ScriptType::Mixed, "http://x/m.tar.gz");
    let (run, _) = asked(m.install(&c));
    let (run, request) = asked(m.resume(&c, run, Reply::Fetched("/srv/tasks/M".to_string())));
    assert!(matches!(request, Request::RunPlaybook { .. }));
    let (run, request) =
        asked(m.resume(&c, run, Reply::Failed(Failure::Execution { code: 2 })));
    match request {
        Request::RunScript { entry, phase } => {
            assert_eq!(entry, "/srv/tasks/M");
            assert_eq!(phase, Phase::Install);
        }
        other => panic!("unexpected request {:?}", other),
    }
    let (run, request) = asked(m.resume(&c, run, Reply::Done));
    assert!(matches!(request, Request::WriteState { .. }));
    assert!(matches!(m.resume(&c, run, Reply::Done), TaskProgress::Finished(Ok(()))));
    assert!(m.installed);
}

#[test]
fn mixed_task_does_not_run_the_script_when_the_playbook_succeeds() {
    let c = config();
    let mut m = task("M", ScriptType::Mixed, "http://x/m.tar.gz");
    let (run, _) = asked(m.install(&c));
    let (run, _) = asked(m.resume(&c, run, Reply::Fetched("/srv/tasks/M".to_string())));
    let (_, request) = asked(m.resume(&c, run, Reply::Done));
    assert!(matches!(request, Request::WriteState { .. }));
}

#[test]
fn mixed_task_fails_with_both_failures_when_both_fail() {
    let c = config();
    let mut m = task("M", ScriptType::Mixed, "http://x/m.tar.gz");
    let (run, _) = asked(m.install(&c));
    let (run, _) = asked(m.resume(&c, run, Reply::Fetched("/srv/tasks/M".to_string())));
    let (run, _) = asked(m.resume(&c, run, Reply::Failed(Failure::Execution { code: 2 })));
    match m.resume(&c, run, Reply::Failed(Failure::Execution { code: 7 })) {
        TaskProgress::Finished(Err(Failure::BothFailed { ansible, bash })) => {
            assert!(matches!(*ansible, Failure::Execution { code: 2 }));
            assert!(matches!(*bash, Failure::Execution { code: 7 }));
        }
        other => panic!("unexpected progress {:?}", other),
    }
    assert!(!m.installed);
}

#[test]
fn uninstall_of_a_task_that_is_not_installed_fails() {
    let c = config();
    let mut t = task("T", ScriptType::Bash, "http://x/t.zip");
    t.installed = true;
    let (run, request) = asked(t.uninstall(&c));
    match request {
        Request::ReadState { path } => assert_eq!(path, "/srv/state/T.state"),
        other => panic!("unexpected request {:?}", other),
    }
    match t.resume(&c, run, Reply::State(None)) {
        TaskProgress::Finished(Err(Failure::NotInstalled { task })) => assert_eq!(task, "T"),
        other => panic!("unexpected progress {:?}", other),
    }
    assert!(!t.installed);
}

#[test]
fn uninstall_removes_the_state_file_and_clears_the_flag() {
    let c = config();
    let mut t = task("T", ScriptType::Ansible, "http://x/t.zip");
    t.installed = true;
    let (run, _) = asked(t.uninstall(&c));
    let (run, request) = asked(t.resume(&c, run, Reply::State(Some("installed\n".to_string()))));
    assert!(matches!(request, Request::Fetch { .. }));
    let (run, request) = asked(t.resume(&c, run, Reply::Fetched("/srv/tasks/T".to_string())));
    match request {
        Request::RunPlaybook { phase, .. } => assert_eq!(phase, Phase::Uninstall),
        other => panic!("unexpected request {:?}", other),
    }
    let (run, request) = asked(t.resume(&c, run, Reply::Done));
    match request {
        Request::RemoveState { path } => assert_eq!(path, "/srv/state/T.state"),
        other => panic!("unexpected request {:?}", other),
    }
    assert!(t.installed);
    assert!(matches!(t.resume(&c, run, Reply::Done), TaskProgress::Finished(Ok(()))));
    assert!(!t.installed);
}

#[test]
fn cleanup_command_uninstalls_whatever_the_kind() {
    let c = config();
    for kind in [ScriptType::Bash, ScriptType::Ansible, ScriptType::Mixed] {
        let mut t = task("T", kind, "http://x/t.zip");
        t.cleanup_command = Some("systemctl stop t".to_string());
        let (run, _) = asked(t.uninstall(&c));
        let (run, _) = asked(t.resume(&c, run, Reply::State(Some("installed".to_string()))));
        let (run, request) = asked(t.resume(&c, run, Reply::Fetched("/p".to_string())));
        match request {
            Request::RunCommand { command } => assert_eq!(command, "systemctl stop t"),
            other => panic!("unexpected request {:?}", other),
        }
        let failure = Failure::Execution { code: 3 };
        match t.resume(&c, run, Reply::Failed(failure)) {
            TaskProgress::Finished(Err(Failure::Execution { code })) => assert_eq!(code, 3),
            other => panic!("unexpected progress {:?}", other),
        }
    }
}

#[test]
fn cleanup_command_is_not_used_to_install() {
    let c = config();
    let mut t = task("T", ScriptType::Bash, "http://x/t.zip");
    t.cleanup_command = Some("rm -rf /opt/t".to_string());
    let (run, _) = asked(t.install(&c));
    let (_, request) = asked(t.resume(&c, run, Reply::Fetched("/p".to_string())));
    assert!(matches!(request, Request::RunScript { .. }));
}

#[test]
fn reset_and_remediate_leave_the_state_file_alone() {
    let c = config();
    for (phase, start) in [
        (Phase::Reset, Task::reset as fn(&Task, &Config) -> TaskProgress),
        (Phase::Remediate, Task::remediate as fn(&Task, &Config) -> TaskProgress),
    ] {
        let mut t = task("T", ScriptType::Bash, "http://x/t.zip");
        let (run, request) = asked(start(&t, &c));
        assert!(matches!(request, Request::ReadState { .. }));
        let (run, _) = asked(t.resume(&c, run, Reply::State(Some(" installed ".to_string()))));
        assert!(t.installed);
        let (run, request) = asked(t.resume(&c, run, Reply::Fetched("/p".to_string())));
        match request {
            Request::RunScript { phase: asked_phase, .. } => assert_eq!(asked_phase, phase),
            other => panic!("unexpected request {:?}", other),
        }
        assert!(matches!(t.resume(&c, run, Reply::Done), TaskProgress::Finished(Ok(()))));
        assert!(t.installed);
    }
}

#[test]
fn reset_of_a_task_that_is_not_installed_fails() {
    let c = config();
    let mut t = task("T", ScriptType::Bash, "http://x/t.zip");
    let (run, _) = asked(t.reset(&c));
    match t.resume(&c, run, Reply::State(Some("pending".to_string()))) {
        TaskProgress::Finished(Err(Failure::NotInstalled { task })) => assert_eq!(task, "T"),
        other => panic!("unexpected progress {:?}", other),
    }
}

#[test]
fn an_unreadable_state_file_fails_the_operation() {
    let c = config();
    let mut t = task("T", ScriptType::Bash, "http://x/t.zip");
    t.installed = true;
    let (run, _) = asked(t.remediate(&c));
    let failure = Failure::StateIo { detail: "permission denied".to_string() };
    match t.resume(&c, run, Reply::Failed(failure)) {
        TaskProgress::Finished(Err(Failure::StateIo { detail })) => {
            assert_eq!(detail, "permission denied")
        }
        other => panic!("unexpected progress {:?}", other),
    }
    assert!(t.installed);
}

#[test]
fn download_alone_ends_when_the_payload_is_local() {
    let c = config();
    let mut t = task("T", ScriptType::Bash, "http://x/t.zip");
    let (run, request) = asked(t.download(&c));
    assert!(matches!(request, Request::Fetch { .. }));
    assert!(matches!(
        t.resume(&c, run, Reply::Fetched("/srv/tasks/T".to_string())),
        TaskProgress::Finished(Ok(()))
    ));
    assert_eq!(t.local_path.as_deref(), Some("/srv/tasks/T"));
    let (run, request) = asked(t.download(&c));
    assert!(matches!(request, Request::Exists { .. }));
    assert!(matches!(t.resume(&c, run, Reply::Exists(true)), TaskProgress::Finished(Ok(()))));
}

#[test]
fn a_reply_that_does_not_answer_the_request_is_a_failure() {
    let c = config();
    let mut t = task("T", ScriptType::Bash, "http://x/t.zip");
    let (run, _) = asked(t.install(&c));
    assert!(matches!(
        t.resume(&c, run, Reply::Done),
        TaskProgress::Finished(Err(Failure::Unexpected))
    ));
    let run = TaskRun { goal: Goal::Operate(Phase::Install), stage: Stage::Running };
    assert!(matches!(
        t.resume(&c, run, Reply::Exists(true)),
        TaskProgress::Finished(Err(Failure::Unexpected))
    ));
}

#[test]
fn check_installed_reads_the_trimmed_word() {
    let mut t = task("T", ScriptType::Bash, "http://x/t.zip");
    assert!(t.check_installed(Some("installed")));
    assert!(t.installed);
    assert!(t.check_installed(Some("  installed\r\n")));
    assert!(t.check_installed(Some("\u{3000}installed\u{a0}")));
    assert!(!t.check_installed(Some("Installed")));
    assert!(!t.installed);
    assert!(!t.check_installed(Some("installed x")));
    assert!(!t.check_installed(Some("")));
    assert!(!t.check_installed(Some("   ")));
    assert!(!t.check_installed(None));
}

#[test]
fn script_type_reads_names_and_letters_in_any_case() {
    assert_eq!(ScriptType::from_str("bash"), Some(ScriptType::Bash));
    assert_eq!(ScriptType::from_str("B"), Some(ScriptType::Bash));
    assert_eq!(ScriptType::from_str("Ansible"), Some(ScriptType::Ansible));
    assert_eq!(ScriptType::from_str("a"), Some(ScriptType::Ansible));
    assert_eq!(ScriptType::from_str("MIXED"), Some(ScriptType::Mixed));
    assert_eq!(ScriptType::from_str("m"), Some(ScriptType::Mixed));
    assert_eq!(ScriptType::from_str("shell"), None);
    assert_eq!(ScriptType::from_str(""), None);
    assert_eq!(ScriptType::from_str("bash "), None);
}

#[test]
fn script_type_names_and_letters() {
    assert_eq!(ScriptType::Bash.to_str(), "bash");
    assert_eq!(ScriptType::Ansible.to_str(), "ansible");
    assert_eq!(ScriptType::Mixed.to_str(), "mixed");
    assert_eq!(ScriptType::Bash.get_letter(), 'B');
    assert_eq!(ScriptType::Ansible.get_letter(), 'A');
    assert_eq!(ScriptType::Mixed.get_letter(), 'M');
}

#[test]
fn applicability_follows_the_installed_flag() {
    let mut t = task("T", ScriptType::Bash, "http://x/t.zip");
    assert!(t.can_install());
    assert!(!t.can_uninstall());
    assert!(!t.can_reset());
    assert!(!t.can_remediate());
    t.installed = true;
    assert!(!t.can_install());
    assert!(t.can_uninstall());
    assert!(t.can_reset());
    assert!(t.can_remediate());
}
