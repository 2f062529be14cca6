//! Agent manifests.

use vstd::prelude::*;

verus! {

/// Which memory system an agent uses.
#[derive(Debug, Clone, Copy, PartialEq, Eq, Structural)]
pub enum MemorySystem {
    /// Older turns are summarized.
    Summarization,
    /// Facts are extracted and consolidated into topics.
    Structured,
}

/// The memory settings of an agent.
#[derive(Debug, Clone, Copy, PartialEq, Eq, Structural)]
pub struct MemoryConfig {
    /// Which memory system the agent uses.
    pub system: MemorySystem,
}

impl MemoryConfig {
    /// Whether the agent opted in to structured memory: only then are facts extracted from its
    /// conversations.
    pub fn is_structured(&self) -> (r: bool)
        ensures
            r == (self.system is Structured),
    {
        self.system == MemorySystem::Structured
    }
}

impl Default for MemoryConfig {
    fn default() -> (r: Self)
        ensures
            r.system is Summarization,
    {
        MemoryConfig { system: MemorySystem::Summarization }
    }
}

/// What an agent can do.
#[derive(Debug)]
pub struct ManifestCapabilities {
    /// The tools that the agent may use.
    pub tools: Vec<String>,
}

/// The description of an agent.
#[derive(Debug)]
pub struct AgentManifest {
    /// Agent name.
    pub name: String,
    /// Human-readable description.
    pub description: String,
    /// What the agent can do.
    pub capabilities: ManifestCapabilities,
    /// The memory settings of the agent.
    pub memory: MemoryConfig,
}

impl Default for AgentManifest {
    fn default() -> (r: Self)
        ensures
            r.name@.len() == 0,
            r.description@.len() == 0,
            r.capabilities.tools@.len() == 0,
            r.memory.system is Summarization,
    {
        AgentManifest {
            name: String::new(),
            description: String::new(),
            capabilities: ManifestCapabilities { tools: Vec::new() },
            memory: MemoryConfig::default(),
        }
    }
}

/// An agent whose settings nobody changed has not opted in to structured memory, and has no name,
/// no description and no tools.
pub proof fn structured_memory_is_opted_in_to(
    manifest: AgentManifest,
    config: &MemoryConfig,
    structured: bool,
)
    requires
        call_ensures(AgentManifest::default, (), manifest),
        call_ensures(MemoryConfig::is_structured, (config,), structured),
    ensures
        config.system is Structured <==> structured,
        config.system == manifest.memory.system ==> !structured,
        manifest.name@.len() == 0,
        manifest.description@.len() == 0,
        manifest.capabilities.tools@.len() == 0,
{
}

} // verus!
