//! Agent cards: how an agent presents itself to external systems.

use crate::agent::AgentManifest;
use crate::text::{replace_char, replaced, texts};
use vstd::prelude::*;

verus! {

/// A2A Agent Card: describes an agent's capabilities to external systems.
///
/// Served at `/.well-known/agent.json`.
#[derive(Debug)]
pub struct AgentCard {
    /// Agent display name.
    pub name: String,
    /// Human-readable description.
    pub description: String,
    /// Agent endpoint URL.
    pub url: String,
    /// Protocol version.
    pub version: String,
    /// Agent capabilities.
    pub capabilities: AgentCapabilities,
    /// Skills this agent can perform (A2A skill descriptors, not OpenFang skills).
    pub skills: Vec<AgentSkill>,
    /// Supported input content types.
    pub default_input_modes: Vec<String>,
    /// Supported output content types.
    pub default_output_modes: Vec<String>,
}

/// A2A agent capabilities.
#[derive(Debug, Clone, Copy, PartialEq, Eq, Structural)]
pub struct AgentCapabilities {
    /// Whether this agent supports streaming responses.
    pub streaming: bool,
    /// Whether this agent supports push notifications.
    pub push_notifications: bool,
    /// Whether task status history is available.
    pub state_transition_history: bool,
}

impl Default for AgentCapabilities {
    fn default() -> (r: Self)
        ensures
            !r.streaming,
            !r.push_notifications,
            !r.state_transition_history,
    {
        AgentCapabilities {
            streaming: false,
            push_notifications: false,
            state_transition_history: false,
        }
    }
}

/// A2A skill descriptor (not an OpenFang skill: describes a capability).
#[derive(Debug)]
pub struct AgentSkill {
    /// Unique skill identifier.
    pub id: String,
    /// Display name.
    pub name: String,
    /// Description of what this skill does.
    pub description: String,
    /// Tags for discovery.
    pub tags: Vec<String>,
    /// Example prompts that trigger this skill.
    pub examples: Vec<String>,
}

/// What a skill descriptor holds.
pub struct SkillView {
    pub id: Seq<char>,
    pub name: Seq<char>,
    pub description: Seq<char>,
    pub tags: Seq<Seq<char>>,
    pub examples: Seq<Seq<char>>,
}

impl View for AgentSkill {
    type V = SkillView;

    open spec fn view(&self) -> SkillView {
        SkillView {
            id: self.id@,
            name: self.name@,
            description: self.description@,
            tags: texts(self.tags@),
            examples: texts(self.examples@),
        }
    }
}

/// What a list of skill descriptors holds.
pub open spec fn skill_views(skills: Seq<AgentSkill>) -> Seq<SkillView> {
    skills.map_values(|s: AgentSkill| s@)
}

/// What an agent card holds.
pub struct CardView {
    pub name: Seq<char>,
    pub description: Seq<char>,
    pub url: Seq<char>,
    pub version: Seq<char>,
    pub capabilities: AgentCapabilities,
    pub skills: Seq<SkillView>,
    pub default_input_modes: Seq<Seq<char>>,
    pub default_output_modes: Seq<Seq<char>>,
}

impl View for AgentCard {
    type V = CardView;

    open spec fn view(&self) -> CardView {
        CardView {
            name: self.name@,
            description: self.description@,
            url: self.url@,
            version: self.version@,
            capabilities: self.capabilities,
            skills: skill_views(self.skills@),
            default_input_modes: texts(self.default_input_modes@),
            default_output_modes: texts(self.default_output_modes@),
        }
    }
}

/// The descriptor of the skill to use a tool.
pub open spec fn tool_skill(tool: Seq<char>) -> SkillView {
    SkillView {
        id: tool,
        name: replaced(tool, '_', ' '),
        description: "Can use the "@ + tool + " tool"@,
        tags: seq!["tool"@],
        examples: Seq::empty(),
    }
}

/// The card of an agent that is served under `base_url`.
pub open spec fn card_of(
    name: Seq<char>,
    description: Seq<char>,
    tools: Seq<Seq<char>>,
    base_url: Seq<char>,
) -> CardView {
    CardView {
        name,
        description,
        url: base_url + "/a2a"@,
        version: "0.1.0"@,
        capabilities: AgentCapabilities {
            streaming: true,
            push_notifications: false,
            state_transition_history: true,
        },
        skills: tools.map_values(|tool: Seq<char>| tool_skill(tool)),
        default_input_modes: seq!["text"@],
        default_output_modes: seq!["text"@],
    }
}

/// A list with one string.
fn one_text(text: &str) -> (r: Vec<String>)
    ensures
        texts(r@) == seq![text@],
{
    let mut r: Vec<String> = Vec::new();
    r.push(text.to_string());
    assert(texts(r@) =~= seq![text@]);
    r
}

/// The descriptor of the skill to use a tool.
fn skill_for(tool: &String) -> (r: AgentSkill)
    ensures
        r@ == tool_skill(tool@),
{
    let mut description: String = "Can use the ".to_string();
    description.append(tool.as_str());
    description.append(" tool");
    let r = AgentSkill {
        id: tool.clone(),
        name: replace_char(tool.as_str(), '_', ' '),
        description,
        tags: one_text("tool"),
        examples: Vec::new(),
    };
    assert(r@.examples =~= Seq::empty());
    r
}

/// Build an A2A Agent Card from an OpenFang agent manifest.
pub fn build_agent_card(manifest: &AgentManifest, base_url: &str) -> (r: AgentCard)
    ensures
        r@ == card_of(
            manifest.name@,
            manifest.description@,
            texts(manifest.capabilities.tools@),
            base_url@,
        ),
{
    let tools: &Vec<String> = &manifest.capabilities.tools;
    let mut skills: Vec<AgentSkill> = Vec::new();
    let mut i: usize = 0;
    while i < tools.len()
        invariant
            i <= tools.len(),
            skills@.len() == i,
            forall|j: int| 0 <= j < i ==> (#[trigger] skills@[j])@ == tool_skill(tools@[j]@),
        decreases tools.len() - i,
    {
        skills.push(skill_for(&tools[i]));
        i = i + 1;
    }
    assert(skill_views(skills@) =~= texts(tools@).map_values(|tool: Seq<char>| tool_skill(tool)));
    let mut url: String = base_url.to_string();
    url.append("/a2a");
    AgentCard {
        name: manifest.name.clone(),
        description: manifest.description.clone(),
        url,
        version: "0.1.0".to_string(),
        capabilities: AgentCapabilities {
            streaming: true,
            push_notifications: false,
            state_transition_history: true,
        },
        skills,
        default_input_modes: one_text("text"),
        default_output_modes: one_text("text"),
    }
}

} // verus!
