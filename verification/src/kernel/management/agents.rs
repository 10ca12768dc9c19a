//! The agents of an installation: listed, shown, switched on and off.
use crate::duplicate::{duplicate_all, duplicate_opt, Duplicate};
use crate::kernel::agent::{
    contribution, contributions, AgentDefinition, AgentDefinitionView, DirEntry,
};
use crate::kernel::management::{HttpError, HttpErrorView};
use crate::order::{
    sort, sorted, text_le, text_le_total, text_le_transitive, text_precedes, Ranked,
};
use crate::text::{cat3, contains, part_stands_in_whole, same, view_opt, views};
use vstd::prelude::*;

verus! {

/// An agent in a list.
pub struct AgentListItem {
    pub id: String,
    pub name: Option<String>,
    pub enabled: bool,
    pub scope: String,
    pub additional_scopes: Vec<String>,
    pub description: Option<String>,
    pub tools: Vec<String>,
    pub subscribe: Vec<String>,
}

/// The mathematical content of a [`AgentListItem`].
pub struct AgentListItemView {
    pub id: Seq<char>,
    pub name: Option<Seq<char>>,
    pub enabled: bool,
    pub scope: Seq<char>,
    pub additional_scopes: Seq<Seq<char>>,
    pub description: Option<Seq<char>>,
    pub tools: Seq<Seq<char>>,
    pub subscribe: Seq<Seq<char>>,
}

impl View for AgentListItem {
    type V = AgentListItemView;

    open spec fn view(&self) -> AgentListItemView {
        AgentListItemView {
            id: self.id@,
            name: view_opt(self.name),
            enabled: self.enabled,
            scope: self.scope@,
            additional_scopes: views(self.additional_scopes@),
            description: view_opt(self.description),
            tools: views(self.tools@),
            subscribe: views(self.subscribe@),
        }
    }
}

/// All that is known of an agent.
pub struct AgentDetailResponse {
    pub id: String,
    pub prompt: String,
    pub tools: Vec<String>,
    pub scope: String,
    pub additional_scopes: Vec<String>,
    pub description: Option<String>,
    pub enabled: bool,
    pub subscribe: Vec<String>,
}

/// The mathematical content of a [`AgentDetailResponse`].
pub struct AgentDetailResponseView {
    pub id: Seq<char>,
    pub prompt: Seq<char>,
    pub tools: Seq<Seq<char>>,
    pub scope: Seq<char>,
    pub additional_scopes: Seq<Seq<char>>,
    pub description: Option<Seq<char>>,
    pub enabled: bool,
    pub subscribe: Seq<Seq<char>>,
}

impl View for AgentDetailResponse {
    type V = AgentDetailResponseView;

    open spec fn view(&self) -> AgentDetailResponseView {
        AgentDetailResponseView {
            id: self.id@,
            prompt: self.prompt@,
            tools: views(self.tools@),
            scope: self.scope@,
            additional_scopes: views(self.additional_scopes@),
            description: view_opt(self.description),
            enabled: self.enabled,
            subscribe: views(self.subscribe@),
        }
    }
}

/// Agents are listed by id.
impl Ranked for AgentListItem {
    open spec fn le(a: AgentListItemView, b: AgentListItemView) -> bool {
        text_le(a.id, b.id)
    }

    proof fn total(a: AgentListItemView, b: AgentListItemView) {
        text_le_total(a.id, b.id);
    }

    proof fn transitive(a: AgentListItemView, b: AgentListItemView, c: AgentListItemView) {
        text_le_transitive(a.id, b.id, c.id);
    }

    fn may_precede(&self, other: &AgentListItem) -> (r: bool) {
        text_precedes(&self.id, &other.id)
    }
}

/// The list item of an agent. Agents have no names.
pub open spec fn list_item(a: AgentDefinitionView) -> AgentListItemView {
    AgentListItemView {
        id: a.id,
        name: None,
        enabled: a.enabled,
        scope: a.scope,
        additional_scopes: a.additional_scopes,
        description: a.description,
        tools: a.tools,
        subscribe: a.subscribe,
    }
}

/// All that is known of an agent.
pub open spec fn detail(a: AgentDefinitionView) -> AgentDetailResponseView {
    AgentDetailResponseView {
        id: a.id,
        prompt: a.prompt,
        tools: a.tools,
        scope: a.scope,
        additional_scopes: a.additional_scopes,
        description: a.description,
        enabled: a.enabled,
        subscribe: a.subscribe,
    }
}

/// The agents of a directory, sorted by id.
pub fn list_agents(entries: &Vec<DirEntry<AgentDefinition>>) -> (r: Vec<AgentListItem>)
    ensures
        views(r@) == sorted::<AgentListItem>(
            Seq::new(
                contributions(entries@).len(),
                |i: int| list_item(contributions(entries@)[i]),
            ),
        ),
{
    let mut out: Vec<AgentListItem> = Vec::new();
    let mut i: usize = 0;
    let ghost mut seen: Seq<AgentDefinitionView> = Seq::empty();
    assert(seen =~= contributions(entries@.subrange(0, 0)));
    while i < entries.len()
        invariant
            i <= entries@.len(),
            seen == contributions(entries@.subrange(0, i as int)),
            out@.len() == seen.len(),
            forall|k: int| 0 <= k < seen.len() ==> (#[trigger] out@[k])@ == list_item(seen[k]),
        decreases entries@.len() - i,
    {
        proof {
            let t = entries@.subrange(0, i + 1);
            assert(t.drop_last() =~= entries@.subrange(0, i as int));
            assert(t.last() == entries@[i as int]);
        }
        match entries[i].readable() {
            Some(a) => {
                out.push(
                    AgentListItem {
                        id: a.id.clone(),
                        name: None,
                        enabled: a.enabled,
                        scope: a.scope.clone(),
                        additional_scopes: duplicate_all(&a.additional_scopes),
                        description: duplicate_opt(&a.description),
                        tools: duplicate_all(&a.tools),
                        subscribe: duplicate_all(&a.subscribe),
                    },
                );
                proof {
                    seen = seen.push(a@);
                }
            },
            None => {},
        }
        i = i + 1;
    }
    assert(entries@.subrange(0, i as int) =~= entries@);
    assert(views(out@) =~= Seq::new(
        contributions(entries@).len(),
        |i: int| list_item(contributions(entries@)[i]),
    ));
    sort(out)
}

/// The entry defines the agent.
pub open spec fn defines(e: DirEntry<AgentDefinition>, id: Seq<char>) -> bool {
    contribution(e) matches Some(a) && a.id == id
}

/// The first entry that defines an agent, or the number of entries.
pub open spec fn agent_index(entries: Seq<DirEntry<AgentDefinition>>, id: Seq<char>) -> int
    decreases entries.len(),
{
    if entries.len() == 0 || defines(entries[0], id) {
        0
    } else {
        1 + agent_index(entries.drop_first(), id)
    }
}

/// The definition of an agent: that in the first entry that has one.
pub open spec fn agent_of(entries: Seq<DirEntry<AgentDefinition>>, id: Seq<char>) -> Option<
    AgentDefinitionView,
> {
    let i = agent_index(entries, id);
    if 0 <= i < entries.len() {
        contribution(entries[i])
    } else {
        None
    }
}

/// The first entry that defines an agent.
pub fn find_agent_file(entries: &Vec<DirEntry<AgentDefinition>>, id: &str) -> (r: Option<usize>)
    ensures
        match r {
            Some(i) => i == agent_index(entries@, id@) && i < entries@.len() && defines(
                entries@[i as int],
                id@,
            ),
            None => agent_index(entries@, id@) == entries@.len(),
        },
{
    let mut i: usize = 0;
    assert(entries@.subrange(0, entries@.len() as int) =~= entries@);
    while i < entries.len()
        invariant
            i <= entries@.len(),
            agent_index(entries@, id@) == i + agent_index(
                entries@.subrange(i as int, entries@.len() as int),
                id@,
            ),
        decreases entries@.len() - i,
    {
        proof {
            let t = entries@.subrange(i as int, entries@.len() as int);
            assert(t[0] == entries@[i as int]);
            assert(t.drop_first() =~= entries@.subrange(i + 1, entries@.len() as int));
        }
        match entries[i].readable() {
            Some(a) => {
                if same(&a.id, id) {
                    return Some(i);
                }
            },
            None => {},
        }
        i = i + 1;
    }
    None
}

/// What is said of an agent that is not there.
pub open spec fn agent_missing(id: Seq<char>) -> Seq<char> {
    "Agent '"@ + id + "' not found"@
}

/// All that is known of an agent.
pub fn get_agent(entries: &Vec<DirEntry<AgentDefinition>>, id: &str) -> (r: Result<
    AgentDetailResponse,
    HttpError,
>)
    ensures
        match (r, agent_of(entries@, id@)) {
            (Ok(d), Some(a)) => d@ == detail(a),
            (Err(e), None) => e@ == (HttpErrorView { status: 404, message: agent_missing(id@) }),
            _ => false,
        },
{
    match find_agent_file(entries, id) {
        Some(i) => {
            match entries[i].readable() {
                Some(a) => {
                    return Ok(
                        AgentDetailResponse {
                            id: a.id.clone(),
                            prompt: a.prompt.clone(),
                            tools: duplicate_all(&a.tools),
                            scope: a.scope.clone(),
                            additional_scopes: duplicate_all(&a.additional_scopes),
                            description: duplicate_opt(&a.description),
                            enabled: a.enabled,
                            subscribe: duplicate_all(&a.subscribe),
                        },
                    );
                },
                None => {},
            }
        },
        None => {},
    }
    Err(HttpError { status: 404, message: cat3("Agent '", id, "' not found") })
}

/// Switches an agent on or off: gives the entry that holds it and the definition
/// to write there.
pub fn set_agent_enabled(
    entries: &Vec<DirEntry<AgentDefinition>>,
    id: &str,
    enabled: bool,
) -> (r: Result<(usize, AgentDefinition), String>)
    ensures
        match (r, agent_of(entries@, id@)) {
            (Ok(x), Some(a)) => x.0 == agent_index(entries@, id@) && x.1@ == (AgentDefinitionView {
                enabled,
                ..a
            }),
            (Err(e), None) => e@ == agent_missing(id@),
            _ => false,
        },
{
    match find_agent_file(entries, id) {
        Some(i) => {
            match entries[i].readable() {
                Some(a) => {
                    let mut next = a.copy();
                    next.enabled = enabled;
                    return Ok((i, next));
                },
                None => {},
            }
        },
        None => {},
    }
    Err(cat3("Agent '", id, "' not found"))
}

/// A listed agent says what its definition says.
pub proof fn agents_are_listed(a: AgentDefinitionView)
    ensures
        list_item(a).id == a.id,
        list_item(a).enabled == a.enabled,
        list_item(a).scope == a.scope,
        list_item(a).additional_scopes == a.additional_scopes,
        list_item(a).description == a.description,
        list_item(a).tools == a.tools,
        list_item(a).subscribe == a.subscribe,
        detail(a).id == a.id,
        detail(a).prompt == a.prompt,
        detail(a).tools == a.tools,
        detail(a).scope == a.scope,
        detail(a).additional_scopes == a.additional_scopes,
        detail(a).description == a.description,
        detail(a).enabled == a.enabled,
        detail(a).subscribe == a.subscribe,
{
}

/// The file of an agent is the first that defines it.
pub proof fn first_definition_counts(entries: Seq<DirEntry<AgentDefinition>>, id: Seq<char>)
    ensures
        0 <= agent_index(entries, id) <= entries.len(),
        agent_index(entries, id) < entries.len() ==> defines(entries[agent_index(entries, id)], id),
        forall|k: int|
            0 <= k < agent_index(entries, id) ==> !defines(#[trigger] entries[k], id),
    decreases entries.len(),
{
    if entries.len() > 0 && !defines(entries[0], id) {
        let rest = entries.drop_first();
        first_definition_counts(rest, id);
        assert forall|k: int| 0 <= k < agent_index(entries, id) implies !defines(
            #[trigger] entries[k],
            id,
        ) by {
            if k > 0 {
                assert(rest[k - 1] == entries[k]);
            }
        }
    }
}

/// An agent is found if and only if a readable file defines it, and then under its id.
pub proof fn defined_agent_is_found(
    entries: Seq<DirEntry<AgentDefinition>>,
    id: Seq<char>,
    i: int,
)
    ensures
        agent_of(entries, id) is Some ==> agent_of(entries, id)->0.id == id,
        0 <= i < entries.len() && entries[i].is_file && (entries[i].extension@ == "yaml"@
            || entries[i].extension@ == "yml"@) && entries[i].content is Some && (
        entries[i].content->0)@.id == id ==> agent_of(entries, id) is Some,
        contains(agent_missing(id), id),
{
    first_definition_counts(entries, id);
    part_stands_in_whole("Agent '"@, id, "' not found"@);
    if 0 <= i < entries.len() && agent_index(entries, id) == entries.len() {
        assert(!defines(entries[i], id));
    }
}

} // verus!
