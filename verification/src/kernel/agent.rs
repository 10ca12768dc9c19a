//! Agents and the directory entries that configure them.
use crate::duplicate::{duplicate_all, duplicate_opt, Duplicate};
use crate::text::{same, view_opt, views};
use vstd::prelude::*;

verus! {

/// Per-agent limits that replace the defaults where they are given.
#[derive(Clone, Copy)]
pub struct GuardrailOverrides {
    pub turn_limit: Option<u32>,
    pub time_limit_seconds: Option<u64>,
    pub hitl_after_turns: Option<u32>,
}

/// An agent as its definition file describes it.
pub struct AgentDefinition {
    pub id: String,
    pub description: Option<String>,
    pub prompt: String,
    pub scope: String,
    pub additional_scopes: Vec<String>,
    pub tools: Vec<String>,
    pub subscribe: Vec<String>,
    pub enabled: bool,
    pub guardrails: Option<GuardrailOverrides>,
}

/// The mathematical content of a [`AgentDefinition`].
pub struct AgentDefinitionView {
    pub id: Seq<char>,
    pub description: Option<Seq<char>>,
    pub prompt: Seq<char>,
    pub scope: Seq<char>,
    pub additional_scopes: Seq<Seq<char>>,
    pub tools: Seq<Seq<char>>,
    pub subscribe: Seq<Seq<char>>,
    pub enabled: bool,
    pub guardrails: Option<GuardrailOverrides>,
}

impl View for AgentDefinition {
    type V = AgentDefinitionView;

    open spec fn view(&self) -> AgentDefinitionView {
        AgentDefinitionView {
            id: self.id@,
            description: view_opt(self.description),
            prompt: self.prompt@,
            scope: self.scope@,
            additional_scopes: views(self.additional_scopes@),
            tools: views(self.tools@),
            subscribe: views(self.subscribe@),
            enabled: self.enabled,
            guardrails: self.guardrails,
        }
    }
}

impl Duplicate for AgentDefinition {
    fn copy(&self) -> (r: AgentDefinition) {
        AgentDefinition {
            id: self.id.clone(),
            description: duplicate_opt(&self.description),
            prompt: self.prompt.clone(),
            scope: self.scope.clone(),
            additional_scopes: duplicate_all(&self.additional_scopes),
            tools: duplicate_all(&self.tools),
            subscribe: duplicate_all(&self.subscribe),
            enabled: self.enabled,
            guardrails: self.guardrails,
        }
    }
}

/// An entry of a configuration directory: whether it is a file, its extension
/// (empty where it has none), and what the file holds where it could be read.
pub struct DirEntry<T> {
    pub is_file: bool,
    pub extension: String,
    pub content: Option<T>,
}

/// The extension of a YAML file.
pub open spec fn yaml_extension(extension: Seq<char>) -> bool {
    extension == "yaml"@ || extension == "yml"@
}

/// Whether an extension is that of a YAML file.
pub fn is_yaml(extension: &str) -> (r: bool)
    ensures
        r == yaml_extension(extension@),
{
    same(extension, "yaml") || same(extension, "yml")
}

/// What an entry contributes: the content of a readable YAML file.
pub open spec fn contribution<T: View>(e: DirEntry<T>) -> Option<T::V> {
    if e.is_file && yaml_extension(e.extension@) {
        view_opt(e.content)
    } else {
        None
    }
}

/// What the entries of a directory contribute, in order.
pub open spec fn contributions<T: View>(entries: Seq<DirEntry<T>>) -> Seq<T::V>
    decreases entries.len(),
{
    if entries.len() == 0 {
        Seq::empty()
    } else {
        match contribution(entries.last()) {
            Some(x) => contributions(entries.drop_last()).push(x),
            None => contributions(entries.drop_last()),
        }
    }
}

impl<T: View> DirEntry<T> {
    /// The content of a readable YAML file.
    pub fn readable(&self) -> (r: Option<&T>)
        ensures
            match r {
                Some(x) => contribution(*self) == Some(x@),
                None => contribution(*self) is None,
            },
    {
        if self.is_file && is_yaml(&self.extension) {
            match &self.content {
                Some(x) => Some(x),
                None => None,
            }
        } else {
            None
        }
    }
}

/// What a directory contributes is what its readable YAML files hold, in their order, and
/// nothing else.
pub proof fn yaml_files_contribute<T: View>(entries: Seq<DirEntry<T>>, e: DirEntry<T>)
    ensures
        e.is_file && (e.extension@ == "yaml"@ || e.extension@ == "yml"@) && e.content is Some
            ==> contributions(entries.push(e)) == contributions(entries).push((e.content->0)@),
        !e.is_file || !(e.extension@ == "yaml"@ || e.extension@ == "yml"@) || e.content is None
            ==> contributions(entries.push(e)) == contributions(entries),
        contributions(Seq::<DirEntry<T>>::empty()).len() == 0,
{
    assert(entries.push(e).drop_last() =~= entries);
}

} // verus!
