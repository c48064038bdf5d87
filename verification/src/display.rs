//! What tasks and stacks show of themselves in a list, and the figures of
//! the overview.

use crate::stack::{Stack, StackView, lookup, find_task};
use crate::task::{ScriptType, Task, TaskView};
use crate::text::{decimal, decimal_text, join, joined, matches_ignoring_ascii_case, lowered};
use vstd::prelude::*;

verus! {

/// An item of a selectable list.
pub trait SelectableItem {
    /// The marker of the item's state.
    fn get_status_marker(&self) -> &'static str;

    /// The item's line in the list.
    fn format_for_list(&self) -> String;

    /// The item's details.
    fn format_details(&self) -> String;

    /// Whether the item can be installed.
    fn can_install(&self) -> bool;

    /// Whether the item can be uninstalled.
    fn can_uninstall(&self) -> bool;

    /// Whether the item can be reset.
    fn can_reset(&self) -> bool;

    /// Whether the item can be remediated.
    fn can_remediate(&self) -> bool;
}

/// The marker of a task's state.
pub open spec fn task_marker(t: TaskView) -> Seq<char> {
    if t.installed {
        "[✓]"@
    } else {
        "[ ]"@
    }
}

/// The tag of a task's kind.
pub open spec fn kind_tag(k: ScriptType) -> Seq<char> {
    match k {
        ScriptType::Bash => "[B]"@,
        ScriptType::Ansible => "[A]"@,
        ScriptType::Mixed => "[M]"@,
    }
}

/// The letter of a task's kind.
pub open spec fn kind_letter(k: ScriptType) -> Seq<char> {
    match k {
        ScriptType::Bash => "B"@,
        ScriptType::Ansible => "A"@,
        ScriptType::Mixed => "M"@,
    }
}

/// A task's line in a list.
pub open spec fn task_line(t: TaskView) -> Seq<char> {
    task_marker(t) + " "@ + kind_tag(t.script_type) + " "@ + t.name + " - "@ + t.description
}

/// The word for a flag.
pub open spec fn yes_no(b: bool) -> Seq<char> {
    if b {
        "Sì"@
    } else {
        "No"@
    }
}

/// `text` with a line added that holds `label` and `value`.
pub open spec fn with_line(text: Seq<char>, label: Seq<char>, value: Seq<char>) -> Seq<char> {
    text + label + value + "\n"@
}

/// `text` with a line added for the list `items`, unless the list is empty.
pub open spec fn with_list(text: Seq<char>, label: Seq<char>, items: Seq<Seq<char>>) -> Seq<char> {
    if items.len() > 0 {
        with_line(text, label, joined(items, ", "@))
    } else {
        text
    }
}

/// `text` with a line added for `value`, where there is one.
pub open spec fn with_optional(text: Seq<char>, label: Seq<char>, value: Option<Seq<char>>) -> Seq<
    char,
> {
    match value {
        Some(v) => with_line(text, label, v),
        None => text,
    }
}

/// A task's details.
pub open spec fn task_details(t: TaskView) -> Seq<char> {
    let a = with_line(Seq::empty(), "Nome: "@, t.name);
    let b = with_line(a, "Tipo: "@, t.script_type.word() + " ("@ + kind_letter(t.script_type) + ")"@);
    let c = with_line(b, "Descrizione: "@, t.description);
    let d = with_line(c, "URL: "@, t.url);
    let e = with_line(
        d,
        "Stato: "@,
        if t.installed {
            "Installato"@
        } else {
            "Non installato"@
        },
    );
    let f = with_list(e, "Dipendenze: "@, t.dependencies);
    let g = with_list(f, "Tag: "@, t.tags);
    let h = with_line(g, "Richiede riavvio: "@, yes_no(t.requires_reboot));
    let i = with_optional(h, "Comando di pulizia: "@, t.cleanup_command);
    with_optional(i, "Percorso locale: "@, t.local_path)
}

/// Adds a line that holds `label` and `value`.
fn add_line(text: String, label: &str, value: &str) -> (r: String)
    ensures
        r@ == with_line(text@, label@, value@),
{
    text.concat(label).concat(value).concat("\n")
}

/// Adds a line for the list `items`, unless the list is empty.
fn add_list(text: String, label: &str, items: &Vec<String>) -> (r: String)
    ensures
        r@ == with_list(text@, label@, items.deep_view()),
{
    if items.len() > 0 {
        let all = join(items, ", ");
        add_line(text, label, all.as_str())
    } else {
        text
    }
}

/// Adds a line for `value`, where there is one.
fn add_optional(text: String, label: &str, value: &Option<String>) -> (r: String)
    ensures
        r@ == with_optional(
            text@,
            label@,
            match *value {
                Some(v) => Some(v@),
                None => None,
            },
        ),
{
    match value {
        Some(v) => add_line(text, label, v.as_str()),
        None => text,
    }
}

/// The word for a flag.
fn yes_no_text(b: bool) -> (r: &'static str)
    ensures
        r@ == yes_no(b),
{
    if b {
        "Sì"
    } else {
        "No"
    }
}

impl SelectableItem for Task {
    fn get_status_marker(&self) -> (r: &'static str)
        ensures
            r@ == task_marker(self@),
    {
        if self.installed {
            "[✓]"
        } else {
            "[ ]"
        }
    }

    fn format_for_list(&self) -> (r: String)
        ensures
            r@ == task_line(self@),
    {
        let tag = match self.script_type {
            ScriptType::Bash => "[B]",
            ScriptType::Ansible => "[A]",
            ScriptType::Mixed => "[M]",
        };
        self.get_status_marker().to_string().concat(" ").concat(tag).concat(" ").concat(
            self.name.as_str(),
        ).concat(" - ").concat(self.description.as_str())
    }

    fn format_details(&self) -> (r: String)
        ensures
            r@ == task_details(self@),
    {
        let letter = match self.script_type {
            ScriptType::Bash => "B",
            ScriptType::Ansible => "A",
            ScriptType::Mixed => "M",
        };
        let kind = self.script_type.to_str().to_string().concat(" (").concat(letter).concat(")");
        let text = String::new();
        let text = add_line(text, "Nome: ", self.name.as_str());
        let text = add_line(text, "Tipo: ", kind.as_str());
        let text = add_line(text, "Descrizione: ", self.description.as_str());
        let text = add_line(text, "URL: ", self.url.as_str());
        let text = add_line(
            text,
            "Stato: ",
            if self.installed {
                "Installato"
            } else {
                "Non installato"
            },
        );
        let text = add_list(text, "Dipendenze: ", &self.dependencies);
        let text = add_list(text, "Tag: ", &self.tags);
        let text = add_line(text, "Richiede riavvio: ", yes_no_text(self.requires_reboot));
        let text = add_optional(text, "Comando di pulizia: ", &self.cleanup_command);
        add_optional(text, "Percorso locale: ", &self.local_path)
    }

    fn can_install(&self) -> (r: bool)
        ensures
            r == !self@.installed,
    {
        !self.installed
    }

    fn can_uninstall(&self) -> (r: bool)
        ensures
            r == self@.installed,
    {
        self.installed
    }

    fn can_reset(&self) -> (r: bool)
        ensures
            r == self@.installed,
    {
        self.installed
    }

    fn can_remediate(&self) -> (r: bool)
        ensures
            r == self@.installed,
    {
        self.installed
    }
}

/// The marker of a stack's state.
pub open spec fn stack_marker(s: StackView) -> Seq<char> {
    if s.fully_installed {
        "[✓]"@
    } else if s.partially_installed {
        "[!]"@
    } else {
        "[ ]"@
    }
}

/// A stack's line in a list.
pub open spec fn stack_line(s: StackView) -> Seq<char> {
    stack_marker(s) + " "@ + s.name + " - "@ + s.description
}

/// `text` with a line added for each of the first `n` names.
pub open spec fn with_names(text: Seq<char>, names: Seq<Seq<char>>, n: nat) -> Seq<char>
    decreases n,
{
    if n == 0 || n > names.len() {
        text
    } else {
        with_line(with_names(text, names, (n - 1) as nat), "  - "@, names[n - 1])
    }
}

/// A stack's details.
pub open spec fn stack_details(s: StackView) -> Seq<char> {
    let a = with_line(Seq::empty(), "Nome: "@, s.name);
    let b = with_line(a, "Descrizione: "@, s.description);
    let c = with_line(
        b,
        "Stato: "@,
        if s.fully_installed {
            "Completamente installato"@
        } else if s.partially_installed {
            "Parzialmente installato"@
        } else {
            "Non installato"@
        },
    );
    let d = with_list(c, "Tag: "@, s.tags);
    let e = with_line(d, "Richiede riavvio: "@, yes_no(s.requires_reboot));
    with_names(e + "\nTask inclusi:\n"@, s.task_names, s.task_names.len())
}

/// The line that says of the task called `name` whether it is installed,
/// or that there is none.
pub open spec fn member_line(tasks: Seq<TaskView>, name: Seq<char>) -> Seq<char> {
    match lookup(tasks, name) {
        Some(i) => "  "@ + task_marker(tasks[i]) + " "@ + name + "\n"@,
        None => "  [?] "@ + name + " (non trovato)\n"@,
    }
}

/// `text` with a member line added for each of the first `n` names.
pub open spec fn with_members(text: Seq<char>, tasks: Seq<TaskView>, names: Seq<Seq<char>>, n: nat) -> Seq<
    char,
>
    decreases n,
{
    if n == 0 || n > names.len() {
        text
    } else {
        with_members(text, tasks, names, (n - 1) as nat) + member_line(tasks, names[n - 1])
    }
}

/// A stack's details with the state of each of its tasks.
pub open spec fn stack_details_with_tasks(s: StackView, tasks: Seq<TaskView>) -> Seq<char> {
    with_members(
        stack_details(s) + "\nDettagli task:\n"@,
        tasks,
        s.task_names,
        s.task_names.len(),
    )
}

impl SelectableItem for Stack {
    fn get_status_marker(&self) -> (r: &'static str)
        ensures
            r@ == stack_marker(self@),
    {
        if self.fully_installed {
            "[✓]"
        } else if self.partially_installed {
            "[!]"
        } else {
            "[ ]"
        }
    }

    fn format_for_list(&self) -> (r: String)
        ensures
            r@ == stack_line(self@),
    {
        self.get_status_marker().to_string().concat(" ").concat(self.name.as_str()).concat(
            " - ",
        ).concat(self.description.as_str())
    }

    fn format_details(&self) -> (r: String)
        ensures
            r@ == stack_details(self@),
    {
        let text = String::new();
        let text = add_line(text, "Nome: ", self.name.as_str());
        let text = add_line(text, "Descrizione: ", self.description.as_str());
        let text = add_line(
            text,
            "Stato: ",
            if self.fully_installed {
                "Completamente installato"
            } else if self.partially_installed {
                "Parzialmente installato"
            } else {
                "Non installato"
            },
        );
        let text = add_list(text, "Tag: ", &self.tags);
        let text = add_line(text, "Richiede riavvio: ", yes_no_text(self.requires_reboot));
        let mut text = text.concat("\nTask inclusi:\n");
        let ghost start = text@;
        let mut i: usize = 0;
        while i < self.task_names.len()
            invariant
                i <= self.task_names.len(),
                text@ == with_names(start, self@.task_names, i as nat),
            decreases self.task_names.len() - i,
        {
            assert(self@.task_names[i as int] == self.task_names[i as int]@);
            text = add_line(text, "  - ", self.task_names[i].as_str());
            i = i + 1;
        }
        text
    }

    fn can_install(&self) -> (r: bool)
        ensures
            r == !self@.fully_installed,
    {
        !self.fully_installed
    }

    fn can_uninstall(&self) -> (r: bool)
        ensures
            r == (self@.fully_installed || self@.partially_installed),
    {
        self.fully_installed || self.partially_installed
    }

    fn can_reset(&self) -> (r: bool)
        ensures
            r == (self@.fully_installed || self@.partially_installed),
    {
        self.fully_installed || self.partially_installed
    }

    fn can_remediate(&self) -> (r: bool)
        ensures
            r == (self@.fully_installed || self@.partially_installed),
    {
        self.fully_installed || self.partially_installed
    }
}

impl Stack {
    /// The stack's details, followed by the state of each of its tasks.
    pub fn format_details_with_tasks(&self, tasks: &Vec<Task>) -> (r: String)
        ensures
            r@ == stack_details_with_tasks(self@, tasks.deep_view()),
    {
        let mut text = self.format_details().concat("\nDettagli task:\n");
        let ghost start = text@;
        let mut i: usize = 0;
        while i < self.task_names.len()
            invariant
                i <= self.task_names.len(),
                text@ == with_members(start, tasks.deep_view(), self@.task_names, i as nat),
            decreases self.task_names.len() - i,
        {
            assert(self@.task_names[i as int] == self.task_names[i as int]@);
            let name = self.task_names[i].as_str();
            let line = match find_task(tasks, name) {
                Some(k) => {
                    assert(tasks.deep_view()[k as int] == tasks[k as int]@);
                    "  ".to_string().concat(tasks[k].get_status_marker()).concat(" ").concat(
                        name,
                    ).concat("\n")
                },
                None => "  [?] ".to_string().concat(name).concat(" (non trovato)\n"),
            };
            text = text.concat(line.as_str());
            i = i + 1;
        }
        text
    }
}

/// The figures of the overview.
#[derive(Debug, Clone, Copy, PartialEq, Eq, Structural)]
pub struct Statistics {
    pub total_tasks: usize,
    pub installed_tasks: usize,
    pub total_stacks: usize,
    pub fully_installed_stacks: usize,
    pub partially_installed_stacks: usize,
    pub bash_tasks: usize,
    pub ansible_tasks: usize,
    pub mixed_tasks: usize,
}

/// How many of the first `n` tasks are installed.
pub open spec fn installed_upto(tasks: Seq<TaskView>, n: nat) -> nat
    decreases n,
{
    if n == 0 || n > tasks.len() {
        0
    } else {
        installed_upto(tasks, (n - 1) as nat) + if tasks[n - 1].installed {
            1nat
        } else {
            0nat
        }
    }
}

/// How many of the first `n` tasks are of the kind `k`.
pub open spec fn kind_upto(tasks: Seq<TaskView>, k: ScriptType, n: nat) -> nat
    decreases n,
{
    if n == 0 || n > tasks.len() {
        0
    } else {
        kind_upto(tasks, k, (n - 1) as nat) + if tasks[n - 1].script_type == k {
            1nat
        } else {
            0nat
        }
    }
}

/// How many of the first `n` stacks are fully installed.
pub open spec fn fully_upto(stacks: Seq<StackView>, n: nat) -> nat
    decreases n,
{
    if n == 0 || n > stacks.len() {
        0
    } else {
        fully_upto(stacks, (n - 1) as nat) + if stacks[n - 1].fully_installed {
            1nat
        } else {
            0nat
        }
    }
}

/// How many of the first `n` stacks are partially installed.
pub open spec fn partially_upto(stacks: Seq<StackView>, n: nat) -> nat
    decreases n,
{
    if n == 0 || n > stacks.len() {
        0
    } else {
        partially_upto(stacks, (n - 1) as nat) + if stacks[n - 1].partially_installed {
            1nat
        } else {
            0nat
        }
    }
}

/// Counts the tasks and stacks by state and by kind.
pub fn get_statistics(tasks: &Vec<Task>, stacks: &Vec<Stack>) -> (r: Statistics)
    ensures
        r.total_tasks == tasks.len(),
        r.installed_tasks == installed_upto(tasks.deep_view(), tasks.len() as nat),
        r.total_stacks == stacks.len(),
        r.fully_installed_stacks == fully_upto(stacks.deep_view(), stacks.len() as nat),
        r.partially_installed_stacks == partially_upto(stacks.deep_view(), stacks.len() as nat),
        r.bash_tasks == kind_upto(tasks.deep_view(), ScriptType::Bash, tasks.len() as nat),
        r.ansible_tasks == kind_upto(tasks.deep_view(), ScriptType::Ansible, tasks.len() as nat),
        r.mixed_tasks == kind_upto(tasks.deep_view(), ScriptType::Mixed, tasks.len() as nat),
{
    let mut installed: usize = 0;
    let mut bash: usize = 0;
    let mut ansible: usize = 0;
    let mut mixed: usize = 0;
    let mut i: usize = 0;
    while i < tasks.len()
        invariant
            i <= tasks.len(),
            installed <= i,
            bash <= i,
            ansible <= i,
            mixed <= i,
            installed == installed_upto(tasks.deep_view(), i as nat),
            bash == kind_upto(tasks.deep_view(), ScriptType::Bash, i as nat),
            ansible == kind_upto(tasks.deep_view(), ScriptType::Ansible, i as nat),
            mixed == kind_upto(tasks.deep_view(), ScriptType::Mixed, i as nat),
        decreases tasks.len() - i,
    {
        assert(tasks.deep_view()[i as int] == tasks[i as int]@);
        if tasks[i].installed {
            installed = installed + 1;
        }
        match tasks[i].script_type {
            ScriptType::Bash => {
                bash = bash + 1;
            },
            ScriptType::Ansible => {
                ansible = ansible + 1;
            },
            ScriptType::Mixed => {
                mixed = mixed + 1;
            },
        }
        i = i + 1;
    }
    let mut fully: usize = 0;
    let mut partially: usize = 0;
    let mut j: usize = 0;
    while j < stacks.len()
        invariant
            j <= stacks.len(),
            fully <= j,
            partially <= j,
            fully == fully_upto(stacks.deep_view(), j as nat),
            partially == partially_upto(stacks.deep_view(), j as nat),
        decreases stacks.len() - j,
    {
        assert(stacks.deep_view()[j as int] == stacks[j as int]@);
        if stacks[j].fully_installed {
            fully = fully + 1;
        }
        if stacks[j].partially_installed {
            partially = partially + 1;
        }
        j = j + 1;
    }
    Statistics {
        total_tasks: tasks.len(),
        installed_tasks: installed,
        total_stacks: stacks.len(),
        fully_installed_stacks: fully,
        partially_installed_stacks: partially,
        bash_tasks: bash,
        ansible_tasks: ansible,
        mixed_tasks: mixed,
    }
}

/// The text of the overview's figures.
pub open spec fn statistics_text(s: Statistics) -> Seq<char> {
    "Task totali: "@ + decimal(s.total_tasks as nat) + " (installati: "@ + decimal(
        s.installed_tasks as nat,
    ) + ")\nStack totali: "@ + decimal(s.total_stacks as nat) + " (installati: "@ + decimal(
        s.fully_installed_stacks as nat,
    ) + ", parziali: "@ + decimal(s.partially_installed_stacks as nat)
        + ")\nTask per tipo: Bash: "@ + decimal(s.bash_tasks as nat) + ", Ansible: "@ + decimal(
        s.ansible_tasks as nat,
    ) + ", Misti: "@ + decimal(s.mixed_tasks as nat) + "\n"@
}

impl Statistics {
    /// The figures as text, one line for the tasks, one for the stacks and
    /// one for the kinds.
    pub fn format(&self) -> (r: String)
        ensures
            r@ == statistics_text(*self),
    {
        "Task totali: ".to_string().concat(decimal_text(self.total_tasks as u64).as_str()).concat(
            " (installati: ",
        ).concat(decimal_text(self.installed_tasks as u64).as_str()).concat(
            ")\nStack totali: ",
        ).concat(decimal_text(self.total_stacks as u64).as_str()).concat(" (installati: ").concat(
            decimal_text(self.fully_installed_stacks as u64).as_str(),
        ).concat(", parziali: ").concat(
            decimal_text(self.partially_installed_stacks as u64).as_str(),
        ).concat(")\nTask per tipo: Bash: ").concat(
            decimal_text(self.bash_tasks as u64).as_str(),
        ).concat(", Ansible: ").concat(decimal_text(self.ansible_tasks as u64).as_str()).concat(
            ", Misti: ",
        ).concat(decimal_text(self.mixed_tasks as u64).as_str()).concat("\n")
    }
}

/// A theme of the interface.
#[derive(Debug, Clone, Copy, PartialEq, Eq, Structural)]
pub enum ThemeKind {
    Default,
    Dark,
    HighContrast,
}

/// The theme that a name stands for, whatever the case of its letters;
/// the default theme for any other name.
pub open spec fn theme_of(name: Seq<char>) -> ThemeKind {
    if lowered(name) == "dark"@ {
        ThemeKind::Dark
    } else if lowered(name) == "high_contrast"@ {
        ThemeKind::HighContrast
    } else {
        ThemeKind::Default
    }
}

/// The theme that `name` stands for.
pub fn get_theme(name: &str) -> (r: ThemeKind)
    ensures
        r == theme_of(name@),
{
    if matches_ignoring_ascii_case(name, "dark") {
        ThemeKind::Dark
    } else if matches_ignoring_ascii_case(name, "high_contrast") {
        ThemeKind::HighContrast
    } else {
        ThemeKind::Default
    }
}

/// The names of the themes.
pub fn get_available_themes() -> (r: Vec<String>)
    ensures
        r.deep_view() == seq!["default"@, "dark"@, "high_contrast"@],
{
    let mut r: Vec<String> = Vec::new();
    r.push("default".to_string());
    r.push("dark".to_string());
    r.push("high_contrast".to_string());
    assert(r.deep_view() =~= seq!["default"@, "dark"@, "high_contrast"@]);
    r
}

/// The last `lines` of a log, or all of it where it is shorter.
pub fn get_recent_logs(all_lines: &Vec<String>, lines: usize) -> (r: Vec<String>)
    ensures
        r.deep_view() == if all_lines.len() > lines {
            all_lines.deep_view().subrange(all_lines.len() - lines, all_lines.len() as int)
        } else {
            all_lines.deep_view()
        },
{
    let start: usize = if all_lines.len() > lines {
        all_lines.len() - lines
    } else {
        0
    };
    let mut r: Vec<String> = Vec::new();
    let mut i: usize = start;
    while i < all_lines.len()
        invariant
            start <= i <= all_lines.len(),
            r.deep_view() == all_lines.deep_view().subrange(start as int, i as int),
        decreases all_lines.len() - i,
    {
        let ghost before = r.deep_view();
        r.push(all_lines[i].clone());
        assert(r.deep_view() =~= before.push(all_lines[i as int]@));
        assert(all_lines.deep_view().subrange(start as int, i + 1) =~= before.push(
            all_lines[i as int]@,
        ));
        i = i + 1;
    }
    assert(all_lines.deep_view().subrange(0, all_lines.len() as int) =~= all_lines.deep_view());
    r
}

} // verus!
