//! YAML documents as the definitions of tasks and stacks read them.

use crate::text::same_text;
use vstd::prelude::*;

verus! {

/// A node of a YAML document.
#[derive(Debug)]
pub enum Yaml {
    /// The null value.
    Null,
    /// A boolean.
    Bool(bool),
    /// A number; the definitions read none.
    Number,
    /// A string.
    Text(String),
    /// A sequence of nodes.
    List(Vec<Yaml>),
    /// A mapping, as its keys and values in the order of the document.
    Table(Vec<(Yaml, Yaml)>),
    /// A node under a tag.
    Tagged(Box<Yaml>),
}

/// A node as plain values.
pub enum YamlView {
    Null,
    Bool(bool),
    Number,
    Text(Seq<char>),
    List(Seq<YamlView>),
    Table(Seq<(YamlView, YamlView)>),
    Tagged(Box<YamlView>),
}

/// The nodes of a sequence as plain values.
pub open spec fn items_view(items: Vec<Yaml>) -> Seq<YamlView>
    decreases items,
{
    Seq::new(
        items.len() as nat,
        |i: int|
            if 0 <= i < items.len() {
                items[i]@
            } else {
                arbitrary()
            },
    )
}

/// The keys and values of a mapping as plain values.
pub open spec fn entries_view(entries: Vec<(Yaml, Yaml)>) -> Seq<(YamlView, YamlView)>
    decreases entries,
{
    Seq::new(
        entries.len() as nat,
        |i: int|
            if 0 <= i < entries.len() {
                (entries[i].0@, entries[i].1@)
            } else {
                arbitrary()
            },
    )
}

impl View for Yaml {
    type V = YamlView;

    open spec fn view(&self) -> YamlView
        decreases self,
    {
        match self {
            Yaml::Null => YamlView::Null,
            Yaml::Bool(b) => YamlView::Bool(*b),
            Yaml::Number => YamlView::Number,
            Yaml::Text(s) => YamlView::Text(s@),
            Yaml::List(items) => YamlView::List(items_view(*items)),
            Yaml::Table(entries) => YamlView::Table(entries_view(*entries)),
            Yaml::Tagged(inner) => YamlView::Tagged(Box::new((**inner)@)),
        }
    }
}

/// The node below every tag.
pub open spec fn untagged(v: YamlView) -> YamlView
    decreases v,
{
    match v {
        YamlView::Tagged(inner) => untagged(*inner),
        _ => v,
    }
}

/// The string that a node holds below its tags.
pub open spec fn text_of(v: YamlView) -> Option<Seq<char>> {
    match untagged(v) {
        YamlView::Text(s) => Some(s),
        _ => None,
    }
}

/// The boolean that a node holds below its tags.
pub open spec fn flag_of(v: YamlView) -> Option<bool> {
    match untagged(v) {
        YamlView::Bool(b) => Some(b),
        _ => None,
    }
}

/// The sequence that a node holds below its tags.
pub open spec fn list_of(v: YamlView) -> Option<Seq<YamlView>> {
    match untagged(v) {
        YamlView::List(items) => Some(items),
        _ => None,
    }
}

/// The mapping that a node holds below its tags.
pub open spec fn table_of(v: YamlView) -> Option<Seq<(YamlView, YamlView)>> {
    match untagged(v) {
        YamlView::Table(entries) => Some(entries),
        _ => None,
    }
}

/// The value under the first key that is the plain string `key`, from the
/// entry at `from` on.
pub open spec fn entry_under(entries: Seq<(YamlView, YamlView)>, key: Seq<char>, from: nat) -> Option<
    YamlView,
>
    decreases entries.len() - from,
{
    if from >= entries.len() {
        None
    } else if entries[from as int].0 == YamlView::Text(key) {
        Some(entries[from as int].1)
    } else {
        entry_under(entries, key, from + 1)
    }
}

/// The value that a mapping holds under the string `key`.
pub open spec fn member(v: YamlView, key: Seq<char>) -> Option<YamlView> {
    match table_of(v) {
        Some(entries) => entry_under(entries, key, 0),
        None => None,
    }
}

impl Yaml {
    /// The node below every tag.
    pub fn untag(&self) -> (r: &Yaml)
        ensures
            r@ == untagged(self@),
            !(r is Tagged),
        decreases self,
    {
        match self {
            Yaml::Tagged(inner) => inner.untag(),
            _ => self,
        }
    }

    /// The string that the node holds.
    pub fn as_str(&self) -> (r: Option<&str>)
        ensures
            match r {
                Some(s) => text_of(self@) == Some(s@),
                None => text_of(self@) is None,
            },
    {
        match self.untag() {
            Yaml::Text(s) => Some(s.as_str()),
            _ => None,
        }
    }

    /// The boolean that the node holds.
    pub fn as_bool(&self) -> (r: Option<bool>)
        ensures
            r == flag_of(self@),
    {
        match self.untag() {
            Yaml::Bool(b) => Some(*b),
            _ => None,
        }
    }

    /// The sequence that the node holds.
    pub fn as_sequence(&self) -> (r: Option<&Vec<Yaml>>)
        ensures
            match r {
                Some(items) => list_of(self@) == Some(items_view(*items)),
                None => list_of(self@) is None,
            },
    {
        match self.untag() {
            Yaml::List(items) => Some(items),
            _ => None,
        }
    }

    /// The mapping that the node holds.
    pub fn as_mapping(&self) -> (r: Option<&Vec<(Yaml, Yaml)>>)
        ensures
            match r {
                Some(entries) => table_of(self@) == Some(entries_view(*entries)),
                None => table_of(self@) is None,
            },
    {
        match self.untag() {
            Yaml::Table(entries) => Some(entries),
            _ => None,
        }
    }

    /// The value that the node, a mapping, holds under the string `key`.
    pub fn get(&self, key: &str) -> (r: Option<&Yaml>)
        ensures
            match r {
                Some(v) => member(self@, key@) == Some(v@),
                None => member(self@, key@) is None,
            },
    {
        match self.as_mapping() {
            Some(entries) => {
                let ghost all = entries_view(*entries);
                let mut i: usize = 0;
                while i < entries.len()
                    invariant
                        i <= entries.len(),
                        all == entries_view(*entries),
                        table_of(self@) == Some(all),
                        entry_under(all, key@, 0) == entry_under(all, key@, i as nat),
                    decreases entries.len() - i,
                {
                    assert(all[i as int] == (entries[i as int].0@, entries[i as int].1@));
                    match &entries[i].0 {
                        Yaml::Text(s) => {
                            if same_text(s.as_str(), key) {
                                return Some(&entries[i].1);
                            }
                        },
                        _ => {},
                    }
                    i = i + 1;
                }
                None
            },
            None => None,
        }
    }
}

/// The view of a document that may have failed to parse.
pub open spec fn document_view(d: Option<Yaml>) -> Option<YamlView> {
    match d {
        Some(v) => Some(v@),
        None => None,
    }
}

/// The document that `serde_yaml::from_str` reads from `text`, in the
/// nodes of this library; `None` where it reports an error.
pub uninterp spec fn yaml_document(text: Seq<char>) -> Option<YamlView>;

/// `serde_yaml::Value`, a node of a document as `serde_yaml` reads it.
/// Nothing is said of what it holds.
#[verifier::external_type_specification]
#[verifier::external_body]
pub struct ExYamlValue(serde_yaml::Value);

/// Turns a node of `serde_yaml` into a node of this library, variant by
/// variant; of a number and of a tag only the presence is kept.
#[verifier::external_body]
fn node_of(v: &serde_yaml::Value) -> Yaml {
    match v {
        serde_yaml::Value::Null => Yaml::Null,
        serde_yaml::Value::Bool(b) => Yaml::Bool(*b),
        serde_yaml::Value::Number(_) => Yaml::Number,
        serde_yaml::Value::String(s) => Yaml::Text(s.clone()),
        serde_yaml::Value::Sequence(items) => Yaml::List(items.iter().map(node_of).collect()),
        serde_yaml::Value::Mapping(m) => Yaml::Table(
            m.iter().map(|(k, x)| (node_of(k), node_of(x))).collect(),
        ),
        serde_yaml::Value::Tagged(t) => Yaml::Tagged(Box::new(node_of(&t.value))),
    }
}

/// Calls `serde_yaml::from_str` for a `serde_yaml::Value` on `text` and
/// turns what it reads into the nodes of this library. The result is
/// `yaml_document` of the text: the same text always reads as the same
/// document, or fails to. Nothing else is claimed of it.
#[verifier::external_body]
pub(crate) fn parse_yaml(text: &str) -> (r: Option<Yaml>)
    ensures
        document_view(r) == yaml_document(text@),
{
    match serde_yaml::from_str::<serde_yaml::Value>(text) {
        Ok(v) => Some(node_of(&v)),
        Err(_) => None,
    }
}

} // verus!
