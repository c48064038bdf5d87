//! Configuration: the base directories, the download timeout and the lists
//! of source URLs.

use crate::text::same_text;
use vstd::prelude::*;

verus! {

/// The application's settings.
#[derive(Debug)]
pub struct Config {
    /// Directory that holds the tasks.
    pub tasks_dir: String,
    /// Directory that holds the stacks.
    pub stacks_dir: String,
    /// Directory that holds the state files.
    pub state_dir: String,
    /// Download timeout in seconds.
    pub download_timeout: u64,
    /// Name of the interface theme.
    pub ui_theme: String,
    /// URLs that task definitions come from.
    pub task_sources: Vec<String>,
    /// URLs that stack definitions come from.
    pub stack_sources: Vec<String>,
    /// The file this configuration was read from.
    pub config_file_path: Option<String>,
}

/// A configuration as plain values.
pub struct ConfigView {
    pub tasks_dir: Seq<char>,
    pub stacks_dir: Seq<char>,
    pub state_dir: Seq<char>,
    pub download_timeout: u64,
    pub ui_theme: Seq<char>,
    pub task_sources: Seq<Seq<char>>,
    pub stack_sources: Seq<Seq<char>>,
    pub config_file_path: Option<Seq<char>>,
}

impl View for Config {
    type V = ConfigView;

    open spec fn view(&self) -> ConfigView {
        ConfigView {
            tasks_dir: self.tasks_dir@,
            stacks_dir: self.stacks_dir@,
            state_dir: self.state_dir@,
            download_timeout: self.download_timeout,
            ui_theme: self.ui_theme@,
            task_sources: self.task_sources.deep_view(),
            stack_sources: self.stack_sources.deep_view(),
            config_file_path: match self.config_file_path {
                Some(p) => Some(p@),
                None => None,
            },
        }
    }
}

/// `rel` adjoined to `base`: a `rel` that starts at the root stands for
/// itself; any other follows `base`, after a slash unless `base` is empty
/// or ends in one.
pub open spec fn path_join(base: Seq<char>, rel: Seq<char>) -> Seq<char> {
    if rel.len() > 0 && rel[0] == '/' {
        rel
    } else if base.len() == 0 || base.last() == '/' {
        base + rel
    } else {
        base + seq!['/'] + rel
    }
}

/// Adjoins `rel` to `base`.
pub fn join_path(base: &str, rel: &str) -> (r: String)
    ensures
        r@ == path_join(base@, rel@),
{
    let rel_len = rel.unicode_len();
    let base_len = base.unicode_len();
    if rel_len > 0 && rel.get_char(0) == '/' {
        rel.to_string()
    } else if base_len == 0 || base.get_char(base_len - 1) == '/' {
        base.to_string().concat(rel)
    } else {
        proof {
            reveal_strlit("/");
        }
        let r = base.to_string().concat("/").concat(rel);
        assert("/"@ =~= seq!['/']);
        r
    }
}

/// The directory that a category names: one of the three configured
/// directories, or the category itself taken as a directory.
pub open spec fn base_dir_of(c: ConfigView, category: Seq<char>) -> Seq<char> {
    if category == "tasks"@ {
        c.tasks_dir
    } else if category == "stacks"@ {
        c.stacks_dir
    } else if category == "state"@ {
        c.state_dir
    } else {
        category
    }
}

/// `path` resolved against the directory that `category` names.
pub open spec fn resolved(c: ConfigView, path: Seq<char>, category: Seq<char>) -> Seq<char> {
    path_join(base_dir_of(c, category), path)
}

/// The state file of the task `name`.
pub open spec fn state_file_of(c: ConfigView, name: Seq<char>) -> Seq<char> {
    resolved(c, name + ".state"@, "state"@)
}

/// `items` without every occurrence of `x`, in the same order.
pub open spec fn without(items: Seq<Seq<char>>, x: Seq<char>) -> Seq<Seq<char>>
    decreases items.len(),
{
    if items.len() == 0 {
        items
    } else if items.last() == x {
        without(items.drop_last(), x)
    } else {
        without(items.drop_last(), x).push(items.last())
    }
}

/// Whether `items` holds the text `x`.
pub fn contains_text(items: &Vec<String>, x: &str) -> (r: bool)
    ensures
        r == items.deep_view().contains(x@),
{
    let mut i: usize = 0;
    while i < items.len()
        invariant
            i <= items.len(),
            forall|k: int| 0 <= k < i ==> items.deep_view()[k] != x@,
        decreases items.len() - i,
    {
        if same_text(items[i].as_str(), x) {
            assert(items.deep_view()[i as int] == x@);
            return true;
        }
        i = i + 1;
    }
    false
}

/// Takes every occurrence of `x` out of `items` and says whether there was one.
pub fn remove_text(items: &mut Vec<String>, x: &str) -> (r: bool)
    ensures
        final(items).deep_view() == without(old(items).deep_view(), x@),
        r == old(items).deep_view().contains(x@),
{
    let mut kept: Vec<String> = Vec::new();
    let mut found = false;
    let mut i: usize = 0;
    while i < items.len()
        invariant
            i <= items.len(),
            kept.deep_view() == without(items.deep_view().take(i as int), x@),
            found == items.deep_view().take(i as int).contains(x@),
        decreases items.len() - i,
    {
        proof {
            let before = items.deep_view().take(i as int);
            let after = items.deep_view().take(i + 1);
            assert(after.drop_last() =~= before);
            assert(after.last() == items[i as int]@);
            assert(after.contains(x@) <==> before.contains(x@) || items[i as int]@ == x@) by {
                if before.contains(x@) {
                    let k = choose|k: int| 0 <= k < before.len() && before[k] == x@;
                    assert(after[k] == x@);
                }
                if items[i as int]@ == x@ {
                    assert(after[i as int] == x@);
                }
            }
        }
        if same_text(items[i].as_str(), x) {
            found = true;
        } else {
            let ghost prev = kept.deep_view();
            kept.push(items[i].clone());
            assert(kept.deep_view() =~= prev.push(items[i as int]@));
        }
        i = i + 1;
    }
    assert(items.deep_view().take(items.len() as int) =~= items.deep_view());
    *items = kept;
    found
}

/// Appends `x` to `items` unless they hold it already, and says whether it
/// was appended.
pub fn add_text(items: &mut Vec<String>, x: &str) -> (r: bool)
    ensures
        r == !old(items).deep_view().contains(x@),
        final(items).deep_view() == if r {
            old(items).deep_view().push(x@)
        } else {
            old(items).deep_view()
        },
{
    if contains_text(items, x) {
        false
    } else {
        let ghost prev = items.deep_view();
        items.push(x.to_string());
        assert(items.deep_view() =~= prev.push(x@));
        true
    }
}

impl Config {
    /// The settings used where no configuration file is found: the three
    /// directories below `base_dir`, a timeout of one minute and no sources.
    pub fn default(base_dir: &str) -> (c: Config)
        ensures
            c@ == (ConfigView {
                tasks_dir: path_join(base_dir@, "tasks"@),
                stacks_dir: path_join(base_dir@, "stacks"@),
                state_dir: path_join(base_dir@, "state"@),
                download_timeout: 60,
                ui_theme: "default"@,
                task_sources: Seq::empty(),
                stack_sources: Seq::empty(),
                config_file_path: None,
            }),
    {
        let c = Config {
            tasks_dir: join_path(base_dir, "tasks"),
            stacks_dir: join_path(base_dir, "stacks"),
            state_dir: join_path(base_dir, "state"),
            download_timeout: 60,
            ui_theme: "default".to_string(),
            task_sources: Vec::new(),
            stack_sources: Vec::new(),
            config_file_path: None,
        };
        assert(c.task_sources.deep_view() =~= Seq::empty());
        assert(c.stack_sources.deep_view() =~= Seq::empty());
        c
    }

    /// The directories that the configuration needs, in the order in which
    /// they are created: tasks, stacks, state.
    pub fn directories(&self) -> (r: Vec<String>)
        ensures
            r.deep_view() == seq![self@.tasks_dir, self@.stacks_dir, self@.state_dir],
    {
        let mut r: Vec<String> = Vec::new();
        r.push(self.tasks_dir.clone());
        r.push(self.stacks_dir.clone());
        r.push(self.state_dir.clone());
        assert(r.deep_view() =~= seq![self@.tasks_dir, self@.stacks_dir, self@.state_dir]);
        r
    }

    /// Whether any source of tasks or of stacks is configured.
    pub fn has_sources(&self) -> (r: bool)
        ensures
            r == (self@.task_sources.len() > 0 || self@.stack_sources.len() > 0),
    {
        self.task_sources.len() > 0 || self.stack_sources.len() > 0
    }

    /// Resolves `path` against the directory that `base_dir` names: `"tasks"`,
    /// `"stacks"` and `"state"` stand for the configured directories, anything
    /// else is taken as a directory itself.
    pub fn resolve_path(&self, path: &str, base_dir: &str) -> (r: String)
        ensures
            r@ == resolved(self@, path@, base_dir@),
    {
        if same_text(base_dir, "tasks") {
            join_path(self.tasks_dir.as_str(), path)
        } else if same_text(base_dir, "stacks") {
            join_path(self.stacks_dir.as_str(), path)
        } else if same_text(base_dir, "state") {
            join_path(self.state_dir.as_str(), path)
        } else {
            join_path(base_dir, path)
        }
    }

    /// The path of the state file of the task `name`.
    pub fn state_file(&self, name: &str) -> (r: String)
        ensures
            r@ == state_file_of(self@, name@),
    {
        let file = name.to_string().concat(".state");
        self.resolve_path(file.as_str(), "state")
    }

    /// Adds a source of tasks unless it is there already; says whether it was
    /// added.
    pub fn add_task_source(&mut self, url: &str) -> (r: bool)
        ensures
            r == !old(self)@.task_sources.contains(url@),
            final(self)@ == (ConfigView {
                task_sources: if r {
                    old(self)@.task_sources.push(url@)
                } else {
                    old(self)@.task_sources
                },
                ..old(self)@
            }),
    {
        add_text(&mut self.task_sources, url)
    }

    /// Adds a source of stacks unless it is there already; says whether it
    /// was added.
    pub fn add_stack_source(&mut self, url: &str) -> (r: bool)
        ensures
            r == !old(self)@.stack_sources.contains(url@),
            final(self)@ == (ConfigView {
                stack_sources: if r {
                    old(self)@.stack_sources.push(url@)
                } else {
                    old(self)@.stack_sources
                },
                ..old(self)@
            }),
    {
        add_text(&mut self.stack_sources, url)
    }

    /// Removes a source of tasks; says whether it was there.
    pub fn remove_task_source(&mut self, url: &str) -> (r: bool)
        ensures
            r == old(self)@.task_sources.contains(url@),
            final(self)@ == (ConfigView {
                task_sources: without(old(self)@.task_sources, url@),
                ..old(self)@
            }),
    {
        remove_text(&mut self.task_sources, url)
    }

    /// Removes a source of stacks; says whether it was there.
    pub fn remove_stack_source(&mut self, url: &str) -> (r: bool)
        ensures
            r == old(self)@.stack_sources.contains(url@),
            final(self)@ == (ConfigView {
                stack_sources: without(old(self)@.stack_sources, url@),
                ..old(self)@
            }),
    {
        remove_text(&mut self.stack_sources, url)
    }
}

/// Where a configuration is looked for, in the order of the search: at
/// the given path alone where there is one, else at the system-wide path
/// and then beside the executable.
pub open spec fn config_search(explicit: Option<Seq<char>>, base_dir: Seq<char>) -> Seq<Seq<char>> {
    match explicit {
        Some(path) => seq![path],
        None => seq!["/etc/galatea/galatea.yaml"@, path_join(base_dir, "galatea.yaml"@)],
    }
}

/// Where a configuration is looked for, in the order of the search.
pub fn config_candidates(explicit: Option<&str>, base_dir: &str) -> (r: Vec<String>)
    ensures
        r.deep_view() == config_search(
            match explicit {
                Some(p) => Some(p@),
                None => None,
            },
            base_dir@,
        ),
{
    let mut r: Vec<String> = Vec::new();
    match explicit {
        Some(path) => {
            r.push(path.to_string());
            assert(r.deep_view() =~= seq![path@]);
        },
        None => {
            r.push(get_system_config_path());
            r.push(get_binary_config_path(base_dir));
            assert(r.deep_view() =~= seq![
                "/etc/galatea/galatea.yaml"@,
                path_join(base_dir@, "galatea.yaml"@),
            ]);
        },
    }
    r
}

/// The path of the system-wide configuration file.
pub fn get_system_config_path() -> (r: String)
    ensures
        r@ == "/etc/galatea/galatea.yaml"@,
{
    "/etc/galatea/galatea.yaml".to_string()
}

/// The path of the configuration file beside the executable, whose
/// directory is `base_dir`.
pub fn get_binary_config_path(base_dir: &str) -> (r: String)
    ensures
        r@ == path_join(base_dir@, "galatea.yaml"@),
{
    join_path(base_dir, "galatea.yaml")
}

} // verus!
