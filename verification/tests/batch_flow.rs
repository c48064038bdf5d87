use galatea::batch::{BatchProgress, BatchResult, Catalog, Unit};
use galatea::config::Config;
use galatea::engine::{Reply, Request};
use galatea::error::{Failure, Phase};
use galatea::stack::Stack;
use galatea::task::{ScriptType, Task};

fn config() -> Config {
    Config {
        tasks_dir: "/srv/tasks".to_string(),
        stacks_dir: "/srv/stacks".to_string(),
        state_dir: "/srv/state".to_string(),
        download_timeout: 30,
        ui_theme: "default".to_string(),
        task_sources: Vec::new(),
        stack_sources: Vec::new(),
        config_file_path: None,
    }
}

fn task(name: &str, installed: bool) -> Task {
    Task {
        name: name.to_string(),
        script_type: ScriptType::Bash,
        description: String::new(),
        url: format!("http://x/{}.tgz", name),
        cleanup_command: None,
        dependencies: Vec::new(),
        tags: Vec::new(),
        requires_reboot: false,
        local_path: Some(format!("/srv/tasks/{}", name)),
        installed,
    }
}

fn stack(name: &str, names: &[&str]) -> Stack {
    Stack {
        name: name.to_string(),
        description: String::new(),
        task_names: names.iter().map(|n| n.to_string()).collect(),
        requires_reboot: false,
        tags: Vec::new(),
        fully_installed: false,
        partially_installed: false,
    }
}

/// Runs a batch on a host on which every script succeeds but those of the
/// tasks in `failing`; returns the scripts run and the tally.
fn run(
    catalog: &mut Catalog,
    units: &Vec<Unit>,
    selected: &Vec<usize>,
    phase: Phase,
    failing: &[&str],
) -> (Vec<String>, BatchResult) {
    let c = config();
    let mut ran = Vec::new();
    let mut progress = catalog.run_batch(&c, units, selected, phase);
    loop {
        let (run, request) = match progress {
            BatchProgress::Ask(run, request) => (run, request),
            BatchProgress::Finished(tally) => return (ran, tally),
        };
        assert_eq!(run.phase(), phase);
        assert!(run.position() < selected.len());
        let reply = match request {
            Request::ReadState { path } => {
                let name = path.trim_start_matches("/srv/state/").trim_end_matches(".state");
                let known = catalog.tasks.iter().find(|t| t.name == name).unwrap();
                if known.installed {
                    Reply::State(Some("installed".to_string()))
                } else {
                    Reply::State(None)
                }
            }
            Request::Exists { .. } => Reply::Exists(true),
            Request::Fetch { dest, .. } => Reply::Fetched(dest),
            Request::RunScript { entry, .. } => {
                ran.push(entry.clone());
                if failing.iter().any(|f| entry.ends_with(f)) {
                    Reply::Failed(Failure::Execution { code: 1 })
                } else {
                    Reply::Done
                }
            }
            Request::WriteState { .. } | Request::RemoveState { .. } => Reply::Done,
            other => panic!("unexpected request {:?}", other),
        };
        progress = catalog.resume_batch(&c, units, selected, run, reply);
    }
}

#[test]
fn batch_over_an_installed_task_and_a_stack_that_fails_in_part() {
    let mut catalog = Catalog {
        tasks: vec![task("A", true), task("B", false), task("C", false)],
        stacks: vec![stack("S", &["B", "C"])],
    };
    let units = vec![Unit::Task(0), Unit::Stack(0)];
    let selected = vec![0, 1];
    let (ran, tally) = run(&mut catalog, &units, &selected, Phase::Install, &["C"]);
    assert_eq!(ran, vec!["/srv/tasks/B", "/srv/tasks/C"]);
    assert_eq!(tally.skipped, 1);
    assert_eq!(tally.errors.len(), 1);
    assert_eq!(tally.errors[0].0, 1);
    match &tally.errors[0].1 {
        Failure::Stack { stack, failed, total, .. } => {
            assert_eq!(stack, "S");
            assert_eq!(failed.len(), 1);
            assert_eq!(failed[0].0, "C");
            assert_eq!(failed[0].1, "Process failed with exit code: 1");
            assert_eq!(*total, 2);
        }
        other => panic!("unexpected failure {:?}", other),
    }
    assert_eq!(tally.success_count, 0);
    assert_eq!(tally.success_count + tally.errors.len() + tally.skipped, selected.len());
    assert!(catalog.tasks[1].installed);
    assert!(!catalog.tasks[2].installed);
    assert!(catalog.stacks[0].partially_installed);
}

#[test]
fn every_selection_is_a_success_a_failure_or_skipped() {
    let mut catalog = Catalog {
        tasks: vec![task("A", true), task("B", false), task("C", false), task("D", false)],
        stacks: vec![stack("S", &["C"]), stack("E", &[])],
    };
    let units = vec![
        Unit::Task(0),
        Unit::Task(1),
        Unit::Task(3),
        Unit::Stack(0),
        Unit::Stack(1),
        Unit::Task(9),
    ];
    let selected = vec![0, 1, 2, 3, 4, 5, 17];
    let (ran, tally) = run(&mut catalog, &units, &selected, Phase::Install, &["D"]);
    assert_eq!(ran, vec!["/srv/tasks/B", "/srv/tasks/D", "/srv/tasks/C"]);
    assert_eq!(tally.success_count, 3);
    assert_eq!(tally.skipped, 1);
    assert_eq!(tally.errors.len(), 3);
    assert_eq!(tally.errors[0].0, 2);
    assert!(matches!(tally.errors[0].1, Failure::Execution { code: 1 }));
    assert_eq!(tally.errors[1].0, 5);
    assert!(matches!(tally.errors[1].1, Failure::NoSuchUnit { index: 5 }));
    assert_eq!(tally.errors[2].0, 17);
    assert!(matches!(tally.errors[2].1, Failure::NoSuchUnit { index: 17 }));
    assert_eq!(tally.success_count + tally.errors.len() + tally.skipped, selected.len());
}

#[test]
fn an_empty_selection_gives_an_empty_tally() {
    let c = config();
    let mut catalog = Catalog { tasks: vec![task("A", false)], stacks: Vec::new() };
    let units = vec![Unit::Task(0)];
    let selected: Vec<usize> = Vec::new();
    match catalog.run_batch(&c, &units, &selected, Phase::Install) {
        BatchProgress::Finished(tally) => {
            assert_eq!(tally.success_count, 0);
            assert_eq!(tally.skipped, 0);
            assert!(tally.errors.is_empty());
        }
        other => panic!("unexpected progress {:?}", other),
    }
}

#[test]
fn batch_uninstall_skips_what_is_not_installed() {
    let mut catalog = Catalog {
        tasks: vec![task("A", true), task("B", false)],
        stacks: vec![stack("S", &["A", "B"])],
    };
    let tasks_before = vec![task("A", true), task("B", false)];
    catalog.stacks[0].check_installation_status(&tasks_before);
    let units = vec![Unit::Task(0), Unit::Task(1), Unit::Stack(0)];
    let selected = vec![1, 0, 2];
    let (ran, tally) = run(&mut catalog, &units, &selected, Phase::Uninstall, &[]);
    assert_eq!(ran, vec!["/srv/tasks/A"]);
    assert_eq!(tally.skipped, 1);
    assert_eq!(tally.success_count, 1);
    assert_eq!(tally.errors.len(), 1);
    assert_eq!(tally.errors[0].0, 2);
    match &tally.errors[0].1 {
        Failure::Stack { phase, failed, .. } => {
            assert_eq!(*phase, Phase::Uninstall);
            let names: Vec<&str> = failed.iter().map(|entry| entry.0.as_str()).collect();
            assert_eq!(names, vec!["B", "A"]);
        }
        other => panic!("unexpected failure {:?}", other),
    }
    assert!(!catalog.tasks[0].installed);
}

#[test]
fn the_selection_is_visited_in_its_order() {
    let mut catalog = Catalog {
        tasks: vec![task("A", false), task("B", false), task("C", false)],
        stacks: Vec::new(),
    };
    let units = vec![Unit::Task(0), Unit::Task(1), Unit::Task(2)];
    let selected = vec![0, 1, 2];
    let (ran, tally) = run(&mut catalog, &units, &selected, Phase::Install, &["A"]);
    assert_eq!(ran, vec!["/srv/tasks/A", "/srv/tasks/B", "/srv/tasks/C"]);
    assert_eq!(tally.success_count, 2);
    assert_eq!(tally.errors.len(), 1);
    assert_eq!(tally.errors[0].0, 0);
}

#[test]
fn catalog_knows_its_units_and_what_applies_to_them() {
    let mut catalog = Catalog {
        tasks: vec![task("A", true)],
        stacks: vec![stack("S", &["A"])],
    };
    catalog.stacks[0].fully_installed = true;
    assert!(catalog.holds(Unit::Task(0)));
    assert!(!catalog.holds(Unit::Task(1)));
    assert!(catalog.holds(Unit::Stack(0)));
    assert!(!catalog.holds(Unit::Stack(1)));
    assert!(!catalog.applies(Unit::Task(0), Phase::Install));
    assert!(catalog.applies(Unit::Task(0), Phase::Uninstall));
    assert!(catalog.applies(Unit::Task(0), Phase::Reset));
    assert!(catalog.applies(Unit::Task(0), Phase::Remediate));
    assert!(!catalog.applies(Unit::Stack(0), Phase::Install));
    assert!(catalog.applies(Unit::Stack(0), Phase::Uninstall));
    assert!(!catalog.applies(Unit::Task(5), Phase::Install));
    assert!(!catalog.applies(Unit::Stack(5), Phase::Uninstall));
}

#[test]
fn a_new_tally_is_empty() {
    let tally = BatchResult::new();
    assert_eq!(tally.success_count, 0);
    assert_eq!(tally.skipped, 0);
    assert!(tally.errors.is_empty());
}
