use galatea::definitions::{load_stacks, load_tasks, stacks_in, tasks_in, DefinitionError};
use galatea::stack::Stack;
use galatea::task::{ScriptType, Task};
use galatea::yaml::Yaml;

fn text(s: &str) -> Yaml {
    Yaml::Text(s.to_string())
}

fn pair(key: &str, value: Yaml) -> (Yaml, Yaml) {
    (text(key), value)
}

fn list(items: &[&str]) -> Yaml {
    Yaml::List(items.iter().map(|s| text(s)).collect())
}

#[test]
fn a_full_task_definition_is_read() {
    let values = vec![
        pair("name", text("web")),
        pair("type", text("Ansible")),
        pair("description", text("A web server")),
        pair("url", text("https://example.com/web.zip")),
        pair("cleanup_command", text("systemctl stop web")),
        pair("dependencies", list(&["base", "net"])),
        pair("tags", list(&["web"])),
        pair("requires_reboot", Yaml::Bool(true)),
    ];
    let t = Task::from_hashmap(&values).unwrap();
    assert_eq!(t.name, "web");
    assert_eq!(t.script_type, ScriptType::Ansible);
    assert_eq!(t.description, "A web server");
    assert_eq!(t.url, "https://example.com/web.zip");
    assert_eq!(t.cleanup_command.as_deref(), Some("systemctl stop web"));
    assert_eq!(t.dependencies, vec!["base", "net"]);
    assert_eq!(t.tags, vec!["web"]);
    assert!(t.requires_reboot);
    assert!(t.local_path.is_none());
    assert!(!t.installed);
}

#[test]
fn optional_fields_of_a_task_have_defaults() {
    let values = vec![
        pair("url", text("http://x/a.tgz")),
        pair("type", text("b")),
        pair("name", text("A")),
    ];
    let t = Task::from_hashmap(&values).unwrap();
    assert_eq!(t.script_type, ScriptType::Bash);
    assert_eq!(t.description, "");
    assert!(t.cleanup_command.is_none());
    assert!(t.dependencies.is_empty());
    assert!(t.tags.is_empty());
    assert!(!t.requires_reboot);
}

#[test]
fn required_fields_of_a_task_are_missed_in_order() {
    let values = vec![pair("type", text("bash")), pair("url", text("u"))];
    assert!(matches!(Task::from_hashmap(&values), Err(DefinitionError::MissingName)));
    let values = vec![pair("name", Yaml::Bool(true)), pair("type", text("bash"))];
    assert!(matches!(Task::from_hashmap(&values), Err(DefinitionError::MissingName)));
    let values = vec![pair("name", text("A")), pair("url", text("u"))];
    match Task::from_hashmap(&values) {
        Err(DefinitionError::MissingType { task }) => assert_eq!(task, "A"),
        other => panic!("unexpected result {:?}", other),
    }
    let values = vec![pair("name", text("A")), pair("type", text("perl"))];
    match Task::from_hashmap(&values) {
        Err(DefinitionError::InvalidType { task, given }) => {
            assert_eq!(task, "A");
            assert_eq!(given, "perl");
        }
        other => panic!("unexpected result {:?}", other),
    }
    let values = vec![pair("name", text("A")), pair("type", text("mixed"))];
    match Task::from_hashmap(&values) {
        Err(DefinitionError::MissingUrl { task }) => assert_eq!(task, "A"),
        other => panic!("unexpected result {:?}", other),
    }
    assert!(matches!(Task::from_hashmap(&Vec::new()), Err(DefinitionError::MissingName)));
}

#[test]
fn values_of_the_wrong_kind_are_passed_over() {
    let values = vec![
        pair("name", text("A")),
        pair("type", text("bash")),
        pair("url", text("u")),
        pair("description", Yaml::Number),
        pair("cleanup_command", Yaml::Null),
        pair("dependencies", text("base")),
        pair("tags", Yaml::List(vec![text("x"), Yaml::Bool(true), Yaml::Number, text("y")])),
        pair("requires_reboot", text("true")),
        (Yaml::Number, text("ignored")),
    ];
    let t = Task::from_hashmap(&values).unwrap();
    assert_eq!(t.description, "");
    assert!(t.cleanup_command.is_none());
    assert!(t.dependencies.is_empty());
    assert_eq!(t.tags, vec!["x", "y"]);
    assert!(!t.requires_reboot);
}

#[test]
fn a_later_key_overrides_an_earlier_one() {
    let values = vec![
        pair("name", text("first")),
        pair("type", text("bash")),
        pair("url", text("u")),
        pair("name", text("second")),
    ];
    assert_eq!(Task::from_hashmap(&values).unwrap().name, "second");
}

#[test]
fn tags_on_values_are_looked_through() {
    let values = vec![
        pair("name", Yaml::Tagged(Box::new(Yaml::Tagged(Box::new(text("A")))))),
        pair("type", text("bash")),
        pair("url", text("u")),
        pair("requires_reboot", Yaml::Tagged(Box::new(Yaml::Bool(true)))),
    ];
    let t = Task::from_hashmap(&values).unwrap();
    assert_eq!(t.name, "A");
    assert!(t.requires_reboot);
}

#[test]
fn a_stack_definition_is_read() {
    let values = vec![
        pair("name", text("web_server")),
        pair("description", text("Web")),
        pair("tasks", list(&["a", "b"])),
        pair("requires_reboot", Yaml::Bool(true)),
        pair("tags", list(&["web", "server"])),
    ];
    let s = Stack::from_hashmap(&values).unwrap();
    assert_eq!(s.name, "web_server");
    assert_eq!(s.description, "Web");
    assert_eq!(s.task_names, vec!["a", "b"]);
    assert!(s.requires_reboot);
    assert_eq!(s.tags, vec!["web", "server"]);
    assert!(!s.fully_installed && !s.partially_installed);
    let s = Stack::from_hashmap(&vec![pair("name", text("bare"))]).unwrap();
    assert_eq!(s.description, "");
    assert!(s.task_names.is_empty());
    assert!(!s.requires_reboot);
    assert!(matches!(
        Stack::from_hashmap(&vec![pair("tasks", list(&["a"]))]),
        Err(DefinitionError::MissingName)
    ));
}

#[test]
fn yaml_accessors_read_what_the_node_holds() {
    let doc = Yaml::Table(vec![
        pair("a", text("x")),
        (Yaml::Tagged(Box::new(text("b"))), text("hidden")),
        pair("b", Yaml::Bool(false)),
        pair("a", text("second")),
    ]);
    assert_eq!(doc.get("a").and_then(|v| v.as_str()), Some("x"));
    assert_eq!(doc.get("b").and_then(|v| v.as_bool()), Some(false));
    assert!(doc.get("c").is_none());
    assert!(text("a").get("a").is_none());
    assert!(doc.as_mapping().is_some());
    assert!(doc.as_sequence().is_none());
    assert!(doc.as_str().is_none());
    let tagged = Yaml::Tagged(Box::new(doc));
    assert_eq!(tagged.get("a").and_then(|v| v.as_str()), Some("x"));
    assert_eq!(list(&["p"]).as_sequence().map(|l| l.len()), Some(1));
    assert!(Yaml::Null.as_bool().is_none());
    assert!(matches!(Yaml::Tagged(Box::new(Yaml::Number)).untag(), Yaml::Number));
}

#[test]
fn tasks_of_a_document_are_read_in_order_and_bad_ones_skipped() {
    let good = |name: &str| {
        Yaml::Table(vec![pair("name", text(name)), pair("type", text("bash")), pair("url", text("u"))])
    };
    let doc = Yaml::Table(vec![pair(
        "tasks",
        Yaml::List(vec![
            good("one"),
            text("not a mapping"),
            Yaml::Table(vec![pair("name", text("no type"))]),
            good("two"),
        ]),
    )]);
    let names: Vec<String> = tasks_in(&doc).into_iter().map(|t| t.name).collect();
    assert_eq!(names, vec!["one", "two"]);
    assert!(tasks_in(&Yaml::Table(vec![pair("tasks", text("none"))])).is_empty());
    assert!(tasks_in(&Yaml::Table(vec![pair("stacks", Yaml::List(vec![good("x")]))])).is_empty());
    assert!(tasks_in(&Yaml::Null).is_empty());
    assert!(stacks_in(&doc).is_empty());
}

const TASKS: &str = r#"# task definitions
tasks:
  - name: example_bash_task
    type: bash
    description: "A bash task"
    url: "https://example.com/tasks/bash_task.tgz"
    requires_reboot: false
    tags:
      - example
      - bash

  - name: example_ansible_task
    type: ansible
    url: "https://example.com/tasks/ansible_task.zip"
    cleanup_command: "systemctl stop example_service"
    requires_reboot: true

  - name: broken
    type: fortran
    url: "https://example.com/x"

  - name: example_mixed_task
    type: M
    url: "https://example.com/tasks/mixed_task.tar.gz"
    dependencies:
      - example_bash_task
"#;

#[test]
fn tasks_are_loaded_from_yaml_text() {
    let tasks = load_tasks(TASKS).unwrap();
    assert_eq!(tasks.len(), 3);
    assert_eq!(tasks[0].name, "example_bash_task");
    assert_eq!(tasks[0].script_type, ScriptType::Bash);
    assert_eq!(tasks[0].description, "A bash task");
    assert_eq!(tasks[0].tags, vec!["example", "bash"]);
    assert!(!tasks[0].requires_reboot);
    assert_eq!(tasks[1].name, "example_ansible_task");
    assert_eq!(tasks[1].script_type, ScriptType::Ansible);
    assert_eq!(tasks[1].cleanup_command.as_deref(), Some("systemctl stop example_service"));
    assert!(tasks[1].requires_reboot);
    assert_eq!(tasks[2].name, "example_mixed_task");
    assert_eq!(tasks[2].script_type, ScriptType::Mixed);
    assert_eq!(tasks[2].dependencies, vec!["example_bash_task"]);
    assert!(tasks.iter().all(|t| !t.installed && t.local_path.is_none()));
}

#[test]
fn text_that_is_no_yaml_is_malformed() {
    assert!(matches!(load_tasks("tasks: [unclosed"), Err(DefinitionError::Malformed)));
    assert!(matches!(load_tasks("a: b: c"), Err(DefinitionError::Malformed)));
    assert!(matches!(load_stacks("stacks: {", &Vec::new()), Err(DefinitionError::Malformed)));
    assert!(load_tasks("").unwrap().is_empty());
    assert!(load_tasks("just a string").unwrap().is_empty());
    assert!(load_tasks("stacks: []").unwrap().is_empty());
}

#[test]
fn stacks_are_loaded_with_their_status() {
    let mut tasks = load_tasks(TASKS).unwrap();
    tasks[0].installed = true;
    let text = r#"
stacks:
  - name: base_system
    description: "Base"
    tasks:
      - example_bash_task
  - name: web_server
    tasks:
      - example_bash_task
      - example_ansible_task
    requires_reboot: true
    tags: [web, server]
  - description: "nameless"
  - name: monitoring
    tasks:
      - example_mixed_task
"#;
    let stacks = load_stacks(text, &tasks).unwrap();
    assert_eq!(stacks.len(), 3);
    assert_eq!(stacks[0].name, "base_system");
    assert!(stacks[0].fully_installed && !stacks[0].partially_installed);
    assert_eq!(stacks[1].name, "web_server");
    assert_eq!(stacks[1].task_names, vec!["example_bash_task", "example_ansible_task"]);
    assert_eq!(stacks[1].tags, vec!["web", "server"]);
    assert!(stacks[1].requires_reboot);
    assert!(!stacks[1].fully_installed && stacks[1].partially_installed);
    assert_eq!(stacks[2].name, "monitoring");
    assert!(!stacks[2].fully_installed && !stacks[2].partially_installed);
}

#[test]
fn definition_errors_say_what_is_wrong() {
    assert_eq!(DefinitionError::MissingName.message(), "Definition missing 'name' field");
    assert_eq!(
        DefinitionError::MissingType { task: "A".to_string() }.message(),
        "Task missing 'type' field: A"
    );
    assert_eq!(
        DefinitionError::InvalidType { task: "A".to_string(), given: "perl".to_string() }.message(),
        "Invalid script type for task A: perl"
    );
    assert_eq!(
        DefinitionError::MissingUrl { task: "A".to_string() }.message(),
        "Task missing 'url' field: A"
    );
    assert_eq!(DefinitionError::Malformed.message(), "Failed to parse YAML");
}
