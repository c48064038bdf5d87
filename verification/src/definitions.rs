//! The definitions of tasks and stacks, read from YAML documents.

use crate::stack::{Stack, StackView};
use crate::task::{ScriptType, Task, TaskView, script_type_of};
use crate::text::same_text;
use crate::yaml::{
    Yaml, YamlView, entries_view, flag_of, items_view, list_of, member, parse_yaml,
    table_of, text_of, yaml_document,
};
use vstd::prelude::*;

verus! {

/// Why a definition is not accepted.
#[derive(Debug)]
pub enum DefinitionError {
    /// The entry has no string under `name`.
    MissingName,
    /// The task has no string under `type`.
    MissingType { task: String },
    /// The task's type is none of the known kinds.
    InvalidType { task: String, given: String },
    /// The task has no string under `url`.
    MissingUrl { task: String },
    /// The text is no YAML document.
    Malformed,
}

/// A definition error as plain values.
pub enum DefinitionErrorView {
    MissingName,
    MissingType { task: Seq<char> },
    InvalidType { task: Seq<char>, given: Seq<char> },
    MissingUrl { task: Seq<char> },
    Malformed,
}

impl View for DefinitionError {
    type V = DefinitionErrorView;

    open spec fn view(&self) -> DefinitionErrorView {
        match self {
            DefinitionError::MissingName => DefinitionErrorView::MissingName,
            DefinitionError::MissingType { task } => DefinitionErrorView::MissingType {
                task: task@,
            },
            DefinitionError::InvalidType { task, given } => DefinitionErrorView::InvalidType {
                task: task@,
                given: given@,
            },
            DefinitionError::MissingUrl { task } => DefinitionErrorView::MissingUrl { task: task@ },
            DefinitionError::Malformed => DefinitionErrorView::Malformed,
        }
    }
}

impl DefinitionError {
    /// What the error says of itself, for display.
    pub fn message(&self) -> (r: String)
        ensures
            r@ == match self@ {
                DefinitionErrorView::MissingName => "Definition missing 'name' field"@,
                DefinitionErrorView::MissingType { task } => "Task missing 'type' field: "@ + task,
                DefinitionErrorView::InvalidType { task, given } => "Invalid script type for task "@
                    + task + ": "@ + given,
                DefinitionErrorView::MissingUrl { task } => "Task missing 'url' field: "@ + task,
                DefinitionErrorView::Malformed => "Failed to parse YAML"@,
            },
    {
        match self {
            DefinitionError::MissingName => "Definition missing 'name' field".to_string(),
            DefinitionError::MissingType { task } => "Task missing 'type' field: ".to_string().concat(
                task.as_str(),
            ),
            DefinitionError::InvalidType { task, given } => "Invalid script type for task ".to_string().concat(
            task.as_str()).concat(": ").concat(given.as_str()),
            DefinitionError::MissingUrl { task } => "Task missing 'url' field: ".to_string().concat(
                task.as_str(),
            ),
            DefinitionError::Malformed => "Failed to parse YAML".to_string(),
        }
    }
}

/// The value under the last of the first `n` keys that holds the string
/// `key`: a later entry overrides an earlier one of the same key.
pub open spec fn field_upto(entries: Seq<(YamlView, YamlView)>, key: Seq<char>, n: nat) -> Option<
    YamlView,
>
    decreases n,
{
    if n == 0 || n > entries.len() {
        None
    } else if text_of(entries[n - 1].0) == Some(key) {
        Some(entries[n - 1].1)
    } else {
        field_upto(entries, key, (n - 1) as nat)
    }
}

/// The value of the field `key`.
pub open spec fn field(entries: Seq<(YamlView, YamlView)>, key: Seq<char>) -> Option<YamlView> {
    field_upto(entries, key, entries.len())
}

/// The string in the field `key`.
pub open spec fn text_field(entries: Seq<(YamlView, YamlView)>, key: Seq<char>) -> Option<
    Seq<char>,
> {
    match field(entries, key) {
        Some(v) => text_of(v),
        None => None,
    }
}

/// The strings among the first `n` of `items`, in their order.
pub open spec fn texts_upto(items: Seq<YamlView>, n: nat) -> Seq<Seq<char>>
    decreases n,
{
    if n == 0 || n > items.len() {
        Seq::empty()
    } else {
        match text_of(items[n - 1]) {
            Some(s) => texts_upto(items, (n - 1) as nat).push(s),
            None => texts_upto(items, (n - 1) as nat),
        }
    }
}

/// The strings in the sequence in the field `key`; none where the field is
/// missing or no sequence.
pub open spec fn list_field(entries: Seq<(YamlView, YamlView)>, key: Seq<char>) -> Seq<Seq<char>> {
    match field(entries, key) {
        Some(v) => match list_of(v) {
            Some(items) => texts_upto(items, items.len()),
            None => Seq::empty(),
        },
        None => Seq::empty(),
    }
}

/// The boolean in the field `key`; false where the field is missing or no
/// boolean.
pub open spec fn flag_field(entries: Seq<(YamlView, YamlView)>, key: Seq<char>) -> bool {
    match field(entries, key) {
        Some(v) => match flag_of(v) {
            Some(b) => b,
            None => false,
        },
        None => false,
    }
}

/// The task that an entry defines: `name`, `type` and `url` are required;
/// the description defaults to the empty text, the lists to none, the
/// reboot flag to false. A new task has no local path and is not installed.
pub open spec fn task_definition(entries: Seq<(YamlView, YamlView)>) -> Result<
    TaskView,
    DefinitionErrorView,
> {
    match text_field(entries, "name"@) {
        None => Err(DefinitionErrorView::MissingName),
        Some(name) => match text_field(entries, "type"@) {
            None => Err(DefinitionErrorView::MissingType { task: name }),
            Some(kind) => match script_type_of(kind) {
                None => Err(DefinitionErrorView::InvalidType { task: name, given: kind }),
                Some(script_type) => match text_field(entries, "url"@) {
                    None => Err(DefinitionErrorView::MissingUrl { task: name }),
                    Some(url) => Ok(
                        TaskView {
                            name,
                            script_type,
                            description: match text_field(entries, "description"@) {
                                Some(d) => d,
                                None => Seq::empty(),
                            },
                            url,
                            cleanup_command: text_field(entries, "cleanup_command"@),
                            dependencies: list_field(entries, "dependencies"@),
                            tags: list_field(entries, "tags"@),
                            requires_reboot: flag_field(entries, "requires_reboot"@),
                            local_path: None,
                            installed: false,
                        },
                    ),
                },
            },
        },
    }
}

/// The stack that an entry defines: `name` is required; the description
/// defaults to the empty text, the lists to none, the reboot flag to
/// false. A new stack is neither fully nor partially installed.
pub open spec fn stack_definition(entries: Seq<(YamlView, YamlView)>) -> Result<
    StackView,
    DefinitionErrorView,
> {
    match text_field(entries, "name"@) {
        None => Err(DefinitionErrorView::MissingName),
        Some(name) => Ok(
            StackView {
                name,
                description: match text_field(entries, "description"@) {
                    Some(d) => d,
                    None => Seq::empty(),
                },
                task_names: list_field(entries, "tasks"@),
                requires_reboot: flag_field(entries, "requires_reboot"@),
                tags: list_field(entries, "tags"@),
                fully_installed: false,
                partially_installed: false,
            },
        ),
    }
}

/// The value of the field `key`.
fn get_field<'a>(values: &'a Vec<(Yaml, Yaml)>, key: &str) -> (r: Option<&'a Yaml>)
    ensures
        match r {
            Some(v) => field(entries_view(*values), key@) == Some(v@),
            None => field(entries_view(*values), key@) is None,
        },
{
    let ghost all = entries_view(*values);
    let mut n: usize = values.len();
    while n > 0
        invariant
            n <= values.len(),
            all == entries_view(*values),
            field(all, key@) == field_upto(all, key@, n as nat),
        decreases n,
    {
        assert(all[n - 1] == (values[n - 1].0@, values[n - 1].1@));
        match values[n - 1].0.as_str() {
            Some(k) => {
                if same_text(k, key) {
                    return Some(&values[n - 1].1);
                }
            },
            None => {},
        }
        n = n - 1;
    }
    None
}

/// The string in the field `key`.
fn get_text<'a>(values: &'a Vec<(Yaml, Yaml)>, key: &str) -> (r: Option<&'a str>)
    ensures
        match r {
            Some(s) => text_field(entries_view(*values), key@) == Some(s@),
            None => text_field(entries_view(*values), key@) is None,
        },
{
    match get_field(values, key) {
        Some(v) => v.as_str(),
        None => None,
    }
}

/// The strings in the sequence in the field `key`.
fn get_list(values: &Vec<(Yaml, Yaml)>, key: &str) -> (r: Vec<String>)
    ensures
        r.deep_view() == list_field(entries_view(*values), key@),
{
    let mut out: Vec<String> = Vec::new();
    assert(out.deep_view() =~= Seq::<Seq<char>>::empty());
    match get_field(values, key) {
        Some(v) => match v.as_sequence() {
            Some(items) => {
                let ghost all = items_view(*items);
                let mut i: usize = 0;
                while i < items.len()
                    invariant
                        i <= items.len(),
                        all == items_view(*items),
                        out.deep_view() == texts_upto(all, i as nat),
                    decreases items.len() - i,
                {
                    assert(all[i as int] == items[i as int]@);
                    match items[i].as_str() {
                        Some(s) => {
                            let ghost before = out.deep_view();
                            out.push(s.to_string());
                            assert(out.deep_view() =~= before.push(s@));
                        },
                        None => {},
                    }
                    i = i + 1;
                }
                out
            },
            None => out,
        },
        None => out,
    }
}

/// The boolean in the field `key`.
fn get_flag(values: &Vec<(Yaml, Yaml)>, key: &str) -> (r: bool)
    ensures
        r == flag_field(entries_view(*values), key@),
{
    match get_field(values, key) {
        Some(v) => match v.as_bool() {
            Some(b) => b,
            None => false,
        },
        None => false,
    }
}

/// The view of a task or an error.
pub open spec fn task_result_view(r: Result<Task, DefinitionError>) -> Result<
    TaskView,
    DefinitionErrorView,
> {
    match r {
        Ok(t) => Ok(t@),
        Err(e) => Err(e@),
    }
}

/// The view of a stack or an error.
pub open spec fn stack_result_view(r: Result<Stack, DefinitionError>) -> Result<
    StackView,
    DefinitionErrorView,
> {
    match r {
        Ok(s) => Ok(s@),
        Err(e) => Err(e@),
    }
}

impl Task {
    /// Reads a task from the keys and values of its definition.
    pub fn from_hashmap(values: &Vec<(Yaml, Yaml)>) -> (r: Result<Task, DefinitionError>)
        ensures
            task_result_view(r) == task_definition(entries_view(*values)),
    {
        let name = match get_text(values, "name") {
            Some(s) => s,
            None => {
                return Err(DefinitionError::MissingName);
            },
        };
        let kind = match get_text(values, "type") {
            Some(s) => s,
            None => {
                return Err(DefinitionError::MissingType { task: name.to_string() });
            },
        };
        let script_type = match ScriptType::from_str(kind) {
            Some(t) => t,
            None => {
                return Err(
                    DefinitionError::InvalidType { task: name.to_string(), given: kind.to_string() },
                );
            },
        };
        let url = match get_text(values, "url") {
            Some(s) => s,
            None => {
                return Err(DefinitionError::MissingUrl { task: name.to_string() });
            },
        };
        let description = match get_text(values, "description") {
            Some(s) => s.to_string(),
            None => String::new(),
        };
        let cleanup_command = match get_text(values, "cleanup_command") {
            Some(s) => Some(s.to_string()),
            None => None,
        };
        Ok(
            Task {
                name: name.to_string(),
                script_type,
                description,
                url: url.to_string(),
                cleanup_command,
                dependencies: get_list(values, "dependencies"),
                tags: get_list(values, "tags"),
                requires_reboot: get_flag(values, "requires_reboot"),
                local_path: None,
                installed: false,
            },
        )
    }
}

impl Stack {
    /// Reads a stack from the keys and values of its definition.
    pub fn from_hashmap(values: &Vec<(Yaml, Yaml)>) -> (r: Result<Stack, DefinitionError>)
        ensures
            stack_result_view(r) == stack_definition(entries_view(*values)),
    {
        let name = match get_text(values, "name") {
            Some(s) => s,
            None => {
                return Err(DefinitionError::MissingName);
            },
        };
        let description = match get_text(values, "description") {
            Some(s) => s.to_string(),
            None => String::new(),
        };
        Ok(
            Stack {
                name: name.to_string(),
                description,
                task_names: get_list(values, "tasks"),
                requires_reboot: get_flag(values, "requires_reboot"),
                tags: get_list(values, "tags"),
                fully_installed: false,
                partially_installed: false,
            },
        )
    }
}

/// The tasks that the first `n` of `items` define: an item that is no
/// mapping, or whose definition is not accepted, is passed over.
pub open spec fn tasks_upto(items: Seq<YamlView>, n: nat) -> Seq<TaskView>
    decreases n,
{
    if n == 0 || n > items.len() {
        Seq::empty()
    } else {
        let before = tasks_upto(items, (n - 1) as nat);
        match table_of(items[n - 1]) {
            Some(entries) => match task_definition(entries) {
                Ok(t) => before.push(t),
                Err(_) => before,
            },
            None => before,
        }
    }
}

/// The tasks that a document defines: those of the sequence under its key
/// `tasks`, in their order.
pub open spec fn defined_tasks(doc: YamlView) -> Seq<TaskView> {
    match member(doc, "tasks"@) {
        Some(list) => match list_of(list) {
            Some(items) => tasks_upto(items, items.len()),
            None => Seq::empty(),
        },
        None => Seq::empty(),
    }
}

/// The stacks that the first `n` of `items` define.
pub open spec fn stacks_upto(items: Seq<YamlView>, n: nat) -> Seq<StackView>
    decreases n,
{
    if n == 0 || n > items.len() {
        Seq::empty()
    } else {
        let before = stacks_upto(items, (n - 1) as nat);
        match table_of(items[n - 1]) {
            Some(entries) => match stack_definition(entries) {
                Ok(s) => before.push(s),
                Err(_) => before,
            },
            None => before,
        }
    }
}

/// The stacks that a document defines: those of the sequence under its key
/// `stacks`, in their order.
pub open spec fn defined_stacks(doc: YamlView) -> Seq<StackView> {
    match member(doc, "stacks"@) {
        Some(list) => match list_of(list) {
            Some(items) => stacks_upto(items, items.len()),
            None => Seq::empty(),
        },
        None => Seq::empty(),
    }
}

/// The tasks that a document defines.
pub fn tasks_in(doc: &Yaml) -> (r: Vec<Task>)
    ensures
        r.deep_view() == defined_tasks(doc@),
{
    let mut out: Vec<Task> = Vec::new();
    assert(out.deep_view() =~= Seq::<TaskView>::empty());
    match doc.get("tasks") {
        Some(list) => match list.as_sequence() {
            Some(items) => {
                let ghost all = items_view(*items);
                let mut i: usize = 0;
                while i < items.len()
                    invariant
                        i <= items.len(),
                        all == items_view(*items),
                        out.deep_view() == tasks_upto(all, i as nat),
                    decreases items.len() - i,
                {
                    assert(all[i as int] == items[i as int]@);
                    match items[i].as_mapping() {
                        Some(entries) => match Task::from_hashmap(entries) {
                            Ok(task) => {
                                let ghost before = out.deep_view();
                                let ghost t = task@;
                                out.push(task);
                                assert(out.deep_view() =~= before.push(t));
                            },
                            Err(_) => {},
                        },
                        None => {},
                    }
                    i = i + 1;
                }
                out
            },
            None => out,
        },
        None => out,
    }
}

/// The stacks that a document defines.
pub fn stacks_in(doc: &Yaml) -> (r: Vec<Stack>)
    ensures
        r.deep_view() == defined_stacks(doc@),
{
    let mut out: Vec<Stack> = Vec::new();
    assert(out.deep_view() =~= Seq::<StackView>::empty());
    match doc.get("stacks") {
        Some(list) => match list.as_sequence() {
            Some(items) => {
                let ghost all = items_view(*items);
                let mut i: usize = 0;
                while i < items.len()
                    invariant
                        i <= items.len(),
                        all == items_view(*items),
                        out.deep_view() == stacks_upto(all, i as nat),
                    decreases items.len() - i,
                {
                    assert(all[i as int] == items[i as int]@);
                    match items[i].as_mapping() {
                        Some(entries) => match Stack::from_hashmap(entries) {
                            Ok(stack) => {
                                let ghost before = out.deep_view();
                                let ghost s = stack@;
                                out.push(stack);
                                assert(out.deep_view() =~= before.push(s));
                            },
                            Err(_) => {},
                        },
                        None => {},
                    }
                    i = i + 1;
                }
                out
            },
            None => out,
        },
        None => out,
    }
}

/// Reads the tasks that the text of a definition file defines. The text
/// must be a YAML document; an entry that defines no task is passed over.
pub fn load_tasks(content: &str) -> (r: Result<Vec<Task>, DefinitionError>)
    ensures
        match r {
            Ok(tasks) => yaml_document(content@) matches Some(doc) && tasks.deep_view()
                == defined_tasks(doc),
            Err(e) => yaml_document(content@) is None && e@ == DefinitionErrorView::Malformed,
        },
{
    match parse_yaml(content) {
        Some(doc) => Ok(tasks_in(&doc)),
        None => Err(DefinitionError::Malformed),
    }
}

/// Reads the stacks that the text of a definition file defines, and sets
/// their status from `tasks`.
pub fn load_stacks(content: &str, tasks: &Vec<Task>) -> (r: Result<Vec<Stack>, DefinitionError>)
    ensures
        match r {
            Ok(stacks) => yaml_document(content@) matches Some(doc) && stacks.deep_view()
                == Seq::new(
                defined_stacks(doc).len(),
                |i: int| crate::stack::with_status(defined_stacks(doc)[i], tasks.deep_view()),
            ),
            Err(e) => yaml_document(content@) is None && e@ == DefinitionErrorView::Malformed,
        },
{
    match parse_yaml(content) {
        Some(doc) => {
            let mut stacks = stacks_in(&doc);
            let ghost defined = stacks.deep_view();
            let mut i: usize = 0;
            while i < stacks.len()
                invariant
                    i <= stacks.len(),
                    stacks.len() == defined.len(),
                    forall|k: int|
                        0 <= k < i ==> (#[trigger] stacks.deep_view()[k])
                            == crate::stack::with_status(defined[k], tasks.deep_view()),
                    forall|k: int| i <= k < stacks.len() ==> (#[trigger] stacks.deep_view()[k])
                        == defined[k],
                decreases stacks.len() - i,
            {
                let ghost before = stacks.deep_view();
                assert(before[i as int] == defined[i as int]);
                assert(before[i as int] == stacks[i as int]@);
                stacks[i].check_installation_status(tasks);
                assert(stacks.deep_view() =~= before.update(i as int, stacks[i as int]@));
                assert forall|k: int| 0 <= k < i + 1 implies (#[trigger] stacks.deep_view()[k])
                    == crate::stack::with_status(defined[k], tasks.deep_view()) by {
                    if k < i {
                        assert(stacks.deep_view()[k] == before[k]);
                    }
                }
                assert forall|k: int| i + 1 <= k < stacks.len() implies (
                #[trigger] stacks.deep_view()[k]) == defined[k] by {
                    assert(stacks.deep_view()[k] == before[k]);
                }
                i = i + 1;
            }
            assert(stacks.deep_view() =~= Seq::new(
                defined.len(),
                |i: int| crate::stack::with_status(defined[i], tasks.deep_view()),
            ));
            Ok(stacks)
        },
        None => Err(DefinitionError::Malformed),
    }
}

} // verus!
