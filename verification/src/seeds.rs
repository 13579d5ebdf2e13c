//! What a new workspace is seeded with, by preset: skills, slash commands,
//! agents, and the enterprise creator skills.

use vstd::prelude::*;
use crate::seed_texts::{
    WORKSPACE_GUIDE_SKILL, GET_STARTED_SKILL, MARP_EXPORTER_SKILL, MARP_EXPORTER_RUN_SH,
    ORCHESTRATOR_AGENT, CONTEXTUALISATION_AAV_AGENT, QUESTION_GENERATOR_AGENT, SLIDE_DESIGNER_AGENT,
};
use crate::text::same_text;

verus! {

/// Where the enterprise creator skills are downloaded from.
pub const ENTERPRISE_ARCHIVE_URL: &'static str =
    "https://github.com/different-ai/openwork-enterprise/archive/refs/heads/main.zip";

/// The file, below `.opencode`, whose presence records that the enterprise
/// creator skills were installed.
pub const ENTERPRISE_SEED_MARKER: &'static str = ".openwork-enterprise-creators";

/// What the marker file holds.
pub const ENTERPRISE_SEED_MARKER_TEXT: &'static str = "seeded\n";

/// Whether a preset is the starter preset.
pub open spec fn is_starter(preset: Seq<char>) -> bool {
    preset == "starter"@
}

/// Whether a preset is the starter preset.
pub fn starter_preset(preset: &str) -> (r: bool)
    ensures
        r == is_starter(preset@),
{
    same_text(preset, "starter")
}

/// A file of a seeded skill: its path below the skill's directory, and its
/// content.
pub struct SeedFile {
    pub path: Vec<&'static str>,
    pub content: &'static str,
}

/// A skill to seed: the name of its directory below `.opencode/skills`, and
/// its files. A skill whose directory exists already is left alone.
pub struct SkillSeed {
    pub name: &'static str,
    pub files: Vec<SeedFile>,
}

/// Whether a skill seed has the given name and files, in order.
pub open spec fn skill_is(s: SkillSeed, name: &str, files: Seq<(Seq<&str>, &str)>) -> bool {
    &&& s.name == name
    &&& s.files@.len() == files.len()
    &&& forall|i: int| 0 <= i < files.len() ==> (#[trigger] s.files@[i]).path@ == files[i].0
        && s.files@[i].content == files[i].1
}

fn seed_file(path: Vec<&'static str>, content: &'static str) -> (f: SeedFile)
    ensures
        f.path == path,
        f.content == content,
{
    SeedFile { path, content }
}

/// The skills a preset seeds, in the order they are seeded: the workspace
/// guide and the Marp exporter, then, for the starter preset, the
/// get-started skill.
pub fn skill_seeds(preset: &str) -> (r: Vec<SkillSeed>)
    ensures
        r@.len() == if is_starter(preset@) { 3int } else { 2int },
        skill_is(r@[0], "workspace-guide", seq![(seq!["SKILL.md"], WORKSPACE_GUIDE_SKILL)]),
        skill_is(r@[1], "marp-exporter", seq![
            (seq!["SKILL.md"], MARP_EXPORTER_SKILL),
            (seq!["scripts", "run.sh"], MARP_EXPORTER_RUN_SH),
        ]),
        is_starter(preset@) ==> skill_is(r@[2], "get-started", seq![(seq!["SKILL.md"], GET_STARTED_SKILL)]),
{
    let guide = SkillSeed { name: "workspace-guide", files: vec![seed_file(vec!["SKILL.md"], WORKSPACE_GUIDE_SKILL)] };
    let marp = SkillSeed {
        name: "marp-exporter",
        files: vec![
            seed_file(vec!["SKILL.md"], MARP_EXPORTER_SKILL),
            seed_file(vec!["scripts", "run.sh"], MARP_EXPORTER_RUN_SH),
        ],
    };
    assert(guide.files@[0].path@ =~= seq!["SKILL.md"]);
    assert(marp.files@[0].path@ =~= seq!["SKILL.md"]);
    assert(marp.files@[1].path@ =~= seq!["scripts", "run.sh"]);
    let mut r = vec![guide, marp];
    if starter_preset(preset) {
        let started = SkillSeed { name: "get-started", files: vec![seed_file(vec!["SKILL.md"], GET_STARTED_SKILL)] };
        assert(started.files@[0].path@ =~= seq!["SKILL.md"]);
        r.push(started);
    }
    r
}

/// Whether a preset installs the enterprise creator skills.
pub fn seeds_enterprise_skills(preset: &str) -> (r: bool)
    ensures
        r == is_starter(preset@),
{
    starter_preset(preset)
}

/// An agent to seed in `.opencode/agents`: its file name and content. An
/// agent file that exists already is left alone.
pub struct AgentSeed {
    pub file_name: &'static str,
    pub content: &'static str,
}

/// The agents a preset seeds, in order: for the starter preset the
/// orchestrator and the three agents it calls; none for any other preset.
pub fn agent_seeds(preset: &str) -> (r: Vec<AgentSeed>)
    ensures
        !is_starter(preset@) ==> r@.len() == 0,
        is_starter(preset@) ==> r@ == seq![
            AgentSeed { file_name: "orchestrator.md", content: ORCHESTRATOR_AGENT },
            AgentSeed { file_name: "contextualisation-aav.md", content: CONTEXTUALISATION_AAV_AGENT },
            AgentSeed { file_name: "question-generator.md", content: QUESTION_GENERATOR_AGENT },
            AgentSeed { file_name: "slide-designer.md", content: SLIDE_DESIGNER_AGENT },
        ],
{
    if !starter_preset(preset) {
        return Vec::new();
    }
    let r = vec![
        AgentSeed { file_name: "orchestrator.md", content: ORCHESTRATOR_AGENT },
        AgentSeed { file_name: "contextualisation-aav.md", content: CONTEXTUALISATION_AAV_AGENT },
        AgentSeed { file_name: "question-generator.md", content: QUESTION_GENERATOR_AGENT },
        AgentSeed { file_name: "slide-designer.md", content: SLIDE_DESIGNER_AGENT },
    ];
    assert(r@ =~= seq![
        AgentSeed { file_name: "orchestrator.md", content: ORCHESTRATOR_AGENT },
        AgentSeed { file_name: "contextualisation-aav.md", content: CONTEXTUALISATION_AAV_AGENT },
        AgentSeed { file_name: "question-generator.md", content: QUESTION_GENERATOR_AGENT },
        AgentSeed { file_name: "slide-designer.md", content: SLIDE_DESIGNER_AGENT },
    ]);
    r
}

/// A slash command to seed in `.opencode/commands`; its model and subtask
/// are left unset. The commands are seeded only into an empty directory.
pub struct CommandSeed {
    pub name: &'static str,
    pub description: Option<&'static str>,
    pub template: &'static str,
    pub agent: Option<&'static str>,
}

/// The default commands of a preset, in order; the starter preset adds
/// `Get Started`.
pub open spec fn default_commands_for(preset: Seq<char>) -> Seq<CommandSeed> {
    let base = seq![
        CommandSeed {
            name: "learn-files",
            description: Some("Safe, practical file workflows"),
            template: "Show me how to interact with files in this workspace. Include safe examples for reading, summarizing, and editing.",
            agent: None,
        },
        CommandSeed {
            name: "learn-skills",
            description: Some("How skills work and how to create your own"),
            template: "Explain what skills are, how to use them, and how to create a new skill for this workspace.",
            agent: None,
        },
        CommandSeed {
            name: "learn-plugins",
            description: Some("What plugins are and how to install them"),
            template: "Explain what plugins are and how to install them in this workspace.",
            agent: None,
        },
        CommandSeed {
            name: "analyse-opportunite",
            description: Some("Analyse opportunité IPPON"),
            template: "Expliqué l'opportunité IPPON",
            agent: Some("orchestrator"),
        },
    ];
    if is_starter(preset) {
        base.push(CommandSeed { name: "Get Started", description: Some("Get started"), template: "get started", agent: None })
    } else {
        base
    }
}

/// The default commands of a preset, in order.
pub fn default_commands(preset: &str) -> (r: Vec<CommandSeed>)
    ensures
        r@ == default_commands_for(preset@),
{
    let mut r = vec![
        CommandSeed {
            name: "learn-files",
            description: Some("Safe, practical file workflows"),
            template: "Show me how to interact with files in this workspace. Include safe examples for reading, summarizing, and editing.",
            agent: None,
        },
        CommandSeed {
            name: "learn-skills",
            description: Some("How skills work and how to create your own"),
            template: "Explain what skills are, how to use them, and how to create a new skill for this workspace.",
            agent: None,
        },
        CommandSeed {
            name: "learn-plugins",
            description: Some("What plugins are and how to install them"),
            template: "Explain what plugins are and how to install them in this workspace.",
            agent: None,
        },
        CommandSeed {
            name: "analyse-opportunite",
            description: Some("Analyse opportunité IPPON"),
            template: "Expliqué l'opportunité IPPON",
            agent: Some("orchestrator"),
        },
    ];
    if starter_preset(preset) {
        r.push(CommandSeed { name: "Get Started", description: Some("Get started"), template: "get started", agent: None });
    }
    assert(r@ =~= default_commands_for(preset@));
    r
}

/// `Get Started` is seeded for the starter preset alone: every other preset
/// gets the same four commands (`learn-files`, `learn-skills`,
/// `learn-plugins`, `analyse-opportunite`, in that order), and the starter
/// preset gets those four followed by `Get Started`.
pub proof fn law_get_started_only_for_starter(p: Seq<char>, q: Seq<char>)
    requires
        !is_starter(p),
        !is_starter(q),
    ensures
        default_commands_for(p) == default_commands_for(q),
        default_commands_for(p).len() == 4,
        default_commands_for(p)[0].name == "learn-files",
        default_commands_for(p)[1].name == "learn-skills",
        default_commands_for(p)[2].name == "learn-plugins",
        default_commands_for(p)[3].name == "analyse-opportunite",
        default_commands_for("starter"@) == default_commands_for(p).push(
            CommandSeed { name: "Get Started", description: Some("Get started"), template: "get started", agent: None },
        ),
{
}

} // verus!
