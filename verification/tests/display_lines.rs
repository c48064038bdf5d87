use galatea::display::{
    get_available_themes, get_recent_logs, get_statistics, get_theme, SelectableItem, ThemeKind,
};
use galatea::stack::Stack;
use galatea::task::{ScriptType, Task};

fn task(name: &str, kind: ScriptType, installed: bool) -> Task {
    Task {
        name: name.to_string(),
        script_type: kind,
        description: format!("about {}", name),
        url: format!("http://x/{}.tgz", name),
        cleanup_command: None,
        dependencies: Vec::new(),
        tags: Vec::new(),
        requires_reboot: false,
        local_path: None,
        installed,
    }
}

fn stack(name: &str, names: &[&str]) -> Stack {
    Stack {
        name: name.to_string(),
        description: format!("about {}", name),
        task_names: names.iter().map(|n| n.to_string()).collect(),
        requires_reboot: false,
        tags: Vec::new(),
        fully_installed: false,
        partially_installed: false,
    }
}

#[test]
fn a_task_shows_its_state_and_kind() {
    let t = task("A", ScriptType::Bash, false);
    assert_eq!(t.get_status_marker(), "[ ]");
    assert_eq!(t.format_for_list(), "[ ] [B] A - about A");
    let t = task("P", ScriptType::Ansible, true);
    assert_eq!(t.get_status_marker(), "[✓]");
    assert_eq!(t.format_for_list(), "[✓] [A] P - about P");
    assert_eq!(task("M", ScriptType::Mixed, false).format_for_list(), "[ ] [M] M - about M");
}

#[test]
fn task_details_list_what_is_there() {
    let t = task("A", ScriptType::Bash, false);
    assert_eq!(
        t.format_details(),
        "Nome: A\nTipo: bash (B)\nDescrizione: about A\nURL: http://x/A.tgz\n\
         Stato: Non installato\nRichiede riavvio: No\n"
    );
    let mut t = task("P", ScriptType::Mixed, true);
    t.dependencies = vec!["A".to_string(), "B".to_string()];
    t.tags = vec!["web".to_string()];
    t.requires_reboot = true;
    t.cleanup_command = Some("stop p".to_string());
    t.local_path = Some("/srv/tasks/P".to_string());
    assert_eq!(
        t.format_details(),
        "Nome: P\nTipo: mixed (M)\nDescrizione: about P\nURL: http://x/P.tgz\n\
         Stato: Installato\nDipendenze: A, B\nTag: web\nRichiede riavvio: Sì\n\
         Comando di pulizia: stop p\nPercorso locale: /srv/tasks/P\n"
    );
}

#[test]
fn a_stack_shows_its_state() {
    let mut s = stack("S", &["A", "B"]);
    assert_eq!(s.get_status_marker(), "[ ]");
    assert_eq!(s.format_for_list(), "[ ] S - about S");
    s.partially_installed = true;
    assert_eq!(s.get_status_marker(), "[!]");
    assert_eq!(s.format_for_list(), "[!] S - about S");
    s.partially_installed = false;
    s.fully_installed = true;
    assert_eq!(s.get_status_marker(), "[✓]");
    assert_eq!(s.format_for_list(), "[✓] S - about S");
}

#[test]
fn stack_details_list_the_tasks() {
    let mut s = stack("S", &["A", "B"]);
    s.tags = vec!["web".to_string(), "server".to_string()];
    s.partially_installed = true;
    assert_eq!(
        s.format_details(),
        "Nome: S\nDescrizione: about S\nStato: Parzialmente installato\nTag: web, server\n\
         Richiede riavvio: No\n\nTask inclusi:\n  - A\n  - B\n"
    );
    let e = stack("E", &[]);
    assert_eq!(
        e.format_details(),
        "Nome: E\nDescrizione: about E\nStato: Non installato\nRichiede riavvio: No\n\n\
         Task inclusi:\n"
    );
    let tasks = vec![task("A", ScriptType::Bash, true), task("C", ScriptType::Bash, false)];
    let s = stack("S", &["A", "B", "C"]);
    assert_eq!(
        s.format_details_with_tasks(&tasks),
        "Nome: S\nDescrizione: about S\nStato: Non installato\nRichiede riavvio: No\n\n\
         Task inclusi:\n  - A\n  - B\n  - C\n\nDettagli task:\n  [✓] A\n  [?] B (non trovato)\n  [ ] C\n"
    );
}

#[test]
fn items_say_what_can_be_done_with_them() {
    let t = task("A", ScriptType::Bash, true);
    assert!(!SelectableItem::can_install(&t));
    assert!(SelectableItem::can_uninstall(&t));
    assert!(SelectableItem::can_reset(&t));
    assert!(SelectableItem::can_remediate(&t));
    let s = stack("S", &["A"]);
    assert!(SelectableItem::can_install(&s));
    assert!(!SelectableItem::can_uninstall(&s));
    assert!(!SelectableItem::can_reset(&s));
    assert!(!SelectableItem::can_remediate(&s));
}

#[test]
fn statistics_count_by_state_and_kind() {
    let tasks = vec![
        task("A", ScriptType::Bash, true),
        task("B", ScriptType::Bash, false),
        task("C", ScriptType::Ansible, true),
        task("D", ScriptType::Mixed, false),
        task("E", ScriptType::Mixed, true),
        task("F", ScriptType::Mixed, true),
    ];
    let mut full = stack("full", &["A"]);
    full.fully_installed = true;
    let mut part = stack("part", &["A", "B"]);
    part.partially_installed = true;
    let stacks = vec![full, part, stack("none", &["B"])];
    let stats = get_statistics(&tasks, &stacks);
    assert_eq!(stats.total_tasks, 6);
    assert_eq!(stats.installed_tasks, 4);
    assert_eq!(stats.total_stacks, 3);
    assert_eq!(stats.fully_installed_stacks, 1);
    assert_eq!(stats.partially_installed_stacks, 1);
    assert_eq!(stats.bash_tasks, 2);
    assert_eq!(stats.ansible_tasks, 1);
    assert_eq!(stats.mixed_tasks, 3);
    assert_eq!(
        stats.format(),
        "Task totali: 6 (installati: 4)\nStack totali: 3 (installati: 1, parziali: 1)\n\
         Task per tipo: Bash: 2, Ansible: 1, Misti: 3\n"
    );
    let empty = get_statistics(&Vec::new(), &Vec::new());
    assert_eq!(empty.total_tasks, 0);
    assert_eq!(empty.installed_tasks, 0);
}

#[test]
fn themes_go_by_name() {
    assert_eq!(get_available_themes(), vec!["default", "dark", "high_contrast"]);
    assert_eq!(get_theme("dark"), ThemeKind::Dark);
    assert_eq!(get_theme("DARK"), ThemeKind::Dark);
    assert_eq!(get_theme("High_Contrast"), ThemeKind::HighContrast);
    assert_eq!(get_theme("default"), ThemeKind::Default);
    assert_eq!(get_theme("solarized"), ThemeKind::Default);
    assert_eq!(get_theme(""), ThemeKind::Default);
}

#[test]
fn recent_logs_are_the_last_lines() {
    let all: Vec<String> = (1..=5).map(|i| format!("line {}", i)).collect();
    assert_eq!(get_recent_logs(&all, 2), vec!["line 4", "line 5"]);
    assert_eq!(get_recent_logs(&all, 5), all);
    assert_eq!(get_recent_logs(&all, 50), all);
    assert!(get_recent_logs(&all, 0).is_empty());
    assert!(get_recent_logs(&Vec::new(), 3).is_empty());
}
