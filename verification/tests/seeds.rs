use openwork_workspace::seed_texts::{
    CONTEXTUALISATION_AAV_AGENT, GET_STARTED_SKILL, MARP_EXPORTER_RUN_SH, MARP_EXPORTER_SKILL,
    ORCHESTRATOR_AGENT, QUESTION_GENERATOR_AGENT, SLIDE_DESIGNER_AGENT, WORKSPACE_GUIDE_SKILL,
};
use openwork_workspace::seeds::{
    agent_seeds, default_commands, seeds_enterprise_skills, skill_seeds, starter_preset,
};

#[test]
fn starter_skills() {
    let s = skill_seeds("starter");
    let names: Vec<&str> = s.iter().map(|x| x.name).collect();
    assert_eq!(names, vec!["workspace-guide", "marp-exporter", "get-started"]);
    assert_eq!(s[0].files.len(), 1);
    assert_eq!(s[0].files[0].path, vec!["SKILL.md"]);
    assert_eq!(s[0].files[0].content, WORKSPACE_GUIDE_SKILL);
    assert_eq!(s[1].files[0].content, MARP_EXPORTER_SKILL);
    assert_eq!(s[1].files[1].path, vec!["scripts", "run.sh"]);
    assert_eq!(s[1].files[1].content, MARP_EXPORTER_RUN_SH);
    assert_eq!(s[2].files[0].content, GET_STARTED_SKILL);
}

#[test]
fn other_presets_skip_get_started() {
    let names: Vec<&str> = skill_seeds("automation").iter().map(|x| x.name).collect();
    assert_eq!(names, vec!["workspace-guide", "marp-exporter"]);
}

#[test]
fn seeded_documents_begin_with_front_matter() {
    assert!(WORKSPACE_GUIDE_SKILL.starts_with("---\nname: workspace-guide\n"));
    assert!(GET_STARTED_SKILL.starts_with("---\nname: get-started\n"));
    assert!(MARP_EXPORTER_RUN_SH.starts_with("#!/bin/bash\n"));
    assert!(SLIDE_DESIGNER_AGENT.starts_with("---\nname: slide-designer\n"));
}

#[test]
fn starter_agents() {
    let a = agent_seeds("starter");
    let files: Vec<(&str, &str)> = a.iter().map(|x| (x.file_name, x.content)).collect();
    assert_eq!(
        files,
        vec![
            ("orchestrator.md", ORCHESTRATOR_AGENT),
            ("contextualisation-aav.md", CONTEXTUALISATION_AAV_AGENT),
            ("question-generator.md", QUESTION_GENERATOR_AGENT),
            ("slide-designer.md", SLIDE_DESIGNER_AGENT),
        ]
    );
}

#[test]
fn no_agents_for_other_presets() {
    assert!(agent_seeds("automation").is_empty());
    assert!(agent_seeds("").is_empty());
}

#[test]
fn commands_by_preset() {
    let names: Vec<&str> = default_commands("minimal").iter().map(|c| c.name).collect();
    assert_eq!(names, vec!["learn-files", "learn-skills", "learn-plugins", "analyse-opportunite"]);
    let starter = default_commands("starter");
    assert_eq!(starter.len(), 5);
    assert_eq!(starter[4].name, "Get Started");
    assert_eq!(starter[4].template, "get started");
    assert_eq!(starter[4].description, Some("Get started"));
    assert_eq!(starter[3].agent, Some("orchestrator"));
    assert_eq!(starter[0].agent, None);
}

#[test]
fn enterprise_skills_only_for_starter() {
    assert!(seeds_enterprise_skills("starter"));
    assert!(!seeds_enterprise_skills("automation"));
    assert!(starter_preset("starter"));
    assert!(!starter_preset("start"));
}
