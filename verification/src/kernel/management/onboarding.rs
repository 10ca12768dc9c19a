//! First-run state of an installation.
use crate::kernel::agent::{contributions, AgentDefinition, AgentDefinitionView, DirEntry};
use crate::kernel::management::plugins::{PluginEntryView, PluginsConfig};
use crate::table::rows_view;
use crate::text::same;
use vstd::prelude::*;

verus! {

/// How far an installation has been set up.
#[derive(Clone, Copy)]
pub struct OnboardingStatusResponse {
    pub first_run: bool,
    pub plugins_enabled: usize,
    pub agents_enabled: usize,
    pub channels_active: usize,
}

/// The answer when the first run is declared complete.
#[derive(Clone, Copy)]
pub struct OnboardingCompleteResponse {
    pub completed: bool,
}

/// The plugins that are channels.
pub open spec fn is_channel(name: Seq<char>) -> bool {
    name == "telegram"@ || name == "cli"@ || name == "email"@ || name == "calendar"@
}

/// Whether a plugin is a channel.
fn channel(name: &str) -> (r: bool)
    ensures
        r == is_channel(name@),
{
    same(name, "telegram") || same(name, "cli") || same(name, "email") || same(name, "calendar")
}

/// How many plugins are enabled; with `channels`, how many of the channels.
pub open spec fn enabled_count(s: Seq<(Seq<char>, PluginEntryView)>, channels: bool) -> nat
    decreases s.len(),
{
    if s.len() == 0 {
        0
    } else {
        enabled_count(s.drop_last(), channels) + if s.last().1.enabled && (!channels || is_channel(
            s.last().0,
        )) {
            1nat
        } else {
            0
        }
    }
}

/// Counts the enabled plugins, or the enabled channels.
fn count_enabled(config: &PluginsConfig, channels: bool) -> (r: usize)
    ensures
        r == enabled_count(config@, channels),
{
    let ghost s = config@;
    let mut n: usize = 0;
    let mut i: usize = 0;
    while i < config.plugins.len()
        invariant
            i <= s.len(),
            s == config@,
            s.len() == config.plugins@.len(),
            n <= i,
            n == enabled_count(s.subrange(0, i as int), channels),
        decreases s.len() - i,
    {
        proof {
            let t = s.subrange(0, i + 1);
            assert(t.drop_last() =~= s.subrange(0, i as int));
            assert(t.last() == s[i as int]);
            assert(s[i as int] == rows_view(config.plugins@)[i as int]);
        }
        if config.plugins.at(i).enabled && (!channels || channel(config.plugins.key(i))) {
            n = n + 1;
        }
        i = i + 1;
    }
    assert(s.subrange(0, i as int) =~= s);
    n
}

/// How many of the agents are enabled.
pub open spec fn enabled_agents(s: Seq<AgentDefinitionView>) -> nat
    decreases s.len(),
{
    if s.len() == 0 {
        0
    } else {
        enabled_agents(s.drop_last()) + if s.last().enabled {
            1nat
        } else {
            0
        }
    }
}

/// Counts the enabled agents of a directory.
fn count_enabled_agents(entries: &Vec<DirEntry<AgentDefinition>>) -> (r: usize)
    ensures
        r == enabled_agents(contributions(entries@)),
{
    let mut n: usize = 0;
    let mut i: usize = 0;
    assert(entries@.subrange(0, 0) =~= Seq::empty());
    while i < entries.len()
        invariant
            i <= entries@.len(),
            n <= i,
            n == enabled_agents(contributions(entries@.subrange(0, i as int))),
        decreases entries@.len() - i,
    {
        let ghost done = contributions(entries@.subrange(0, i as int));
        proof {
            let t = entries@.subrange(0, i + 1);
            assert(t.drop_last() =~= entries@.subrange(0, i as int));
            assert(t.last() == entries@[i as int]);
        }
        match entries[i].readable() {
            Some(a) => {
                assert(done.push(a@).drop_last() =~= done);
                if a.enabled {
                    n = n + 1;
                }
            },
            None => {},
        }
        i = i + 1;
    }
    assert(entries@.subrange(0, i as int) =~= entries@);
    n
}

/// How far an installation has been set up. `marker` says whether the first run
/// was declared complete. What could not be read counts as empty.
pub fn onboarding_status(
    marker: bool,
    config: &Option<PluginsConfig>,
    agents: &Option<Vec<DirEntry<AgentDefinition>>>,
) -> (r: OnboardingStatusResponse)
    ensures
        r.first_run == !marker,
        r.plugins_enabled == match *config {
            Some(c) => enabled_count(c@, false),
            None => 0,
        },
        r.channels_active == match *config {
            Some(c) => enabled_count(c@, true),
            None => 0,
        },
        r.agents_enabled == match *agents {
            Some(a) => enabled_agents(contributions(a@)),
            None => 0,
        },
{
    let (plugins_enabled, channels_active) = match config {
        Some(c) => (count_enabled(c, false), count_enabled(c, true)),
        None => (0, 0),
    };
    let agents_enabled: usize = match agents {
        Some(a) => count_enabled_agents(a),
        None => 0,
    };
    OnboardingStatusResponse {
        first_run: !marker,
        plugins_enabled,
        agents_enabled,
        channels_active,
    }
}

/// The answer when the first run is declared complete.
pub fn onboarding_complete() -> (r: OnboardingCompleteResponse)
    ensures
        r.completed,
{
    OnboardingCompleteResponse { completed: true }
}

/// No more channels are active than plugins are enabled.
pub proof fn channels_are_plugins(s: Seq<(Seq<char>, PluginEntryView)>)
    ensures
        enabled_count(s, true) <= enabled_count(s, false) <= s.len(),
    decreases s.len(),
{
    if s.len() > 0 {
        channels_are_plugins(s.drop_last());
    }
}

/// The enabled agents are counted, one by one.
pub proof fn agents_are_counted(s: Seq<AgentDefinitionView>, a: AgentDefinitionView)
    ensures
        a.enabled ==> enabled_agents(s.push(a)) == enabled_agents(s) + 1,
        !a.enabled ==> enabled_agents(s.push(a)) == enabled_agents(s),
        enabled_agents(s) <= s.len(),
        (forall|i: int| 0 <= i < s.len() ==> (#[trigger] s[i]).enabled) ==> enabled_agents(s)
            == s.len(),
    decreases s.len(),
{
    assert(s.push(a).drop_last() =~= s);
    if s.len() > 0 {
        let init = s.drop_last();
        agents_are_counted(init, a);
        if forall|i: int| 0 <= i < s.len() ==> (#[trigger] s[i]).enabled {
            assert forall|i: int| 0 <= i < init.len() implies (#[trigger] init[i]).enabled by {
                assert(s[i].enabled);
            }
            assert(s[s.len() - 1].enabled);
        }
    }
}

/// An enabled plugin counts; among the channels it counts if it is one.
pub proof fn plugins_are_counted(
    s: Seq<(Seq<char>, PluginEntryView)>,
    row: (Seq<char>, PluginEntryView),
)
    ensures
        enabled_count(s.push(row), false) == enabled_count(s, false) + (if row.1.enabled {
            1int
        } else {
            0
        }),
        row.0 == "telegram"@ || row.0 == "cli"@ || row.0 == "email"@ || row.0 == "calendar"@
            ==> enabled_count(s.push(row), true) == enabled_count(s, true) + (if row.1.enabled {
            1int
        } else {
            0
        }),
        row.0 != "telegram"@ && row.0 != "cli"@ && row.0 != "email"@ && row.0 != "calendar"@
            ==> enabled_count(s.push(row), true) == enabled_count(s, true),
{
    assert(s.push(row).drop_last() =~= s);
}

} // verus!
