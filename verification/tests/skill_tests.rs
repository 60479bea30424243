use mi::skill::{format_skills, manually_invoke_skill, split_skill_str, Skill, SkillFormatError, SkillParsed, SkillYaml};

fn skill(name: &str, full: &str, hidden: bool) -> Skill {
    Skill {
        base_path: format!("/skills/{name}"),
        full: full.to_string(),
        name: name.to_string(),
        description: format!("does {name}"),
        disable_model_invocation: hidden,
        body: String::new(),
    }
}

#[test]
fn test_parse_skill_str() {
    let skill_str = "---
name: name
description: desc
---
FULL BODY";

    let parts = split_skill_str(skill_str).unwrap();
    let yaml: serde_yaml::Value = serde_yaml::from_str(&parts.yaml).unwrap();
    assert_eq!(yaml["name"].as_str(), Some("name"));
    assert_eq!(yaml["description"].as_str(), Some("desc"));
    assert_eq!(parts.body, "FULL BODY");
}

#[test]
fn split_skill_str_errors() {
    assert_eq!(split_skill_str("name: x").err(), Some(SkillFormatError::NoOpening));
    assert_eq!(split_skill_str("---\nname: x\n").err(), Some(SkillFormatError::NoClosing));
    assert_eq!(SkillFormatError::NoOpening.message(), "wrong md format: first!");
    assert_eq!(SkillFormatError::NoClosing.message(), "wrong md format: second!");
}

#[test]
fn split_skill_str_trims_body_and_keeps_front_matter() {
    let parts = split_skill_str("---\na: 1\n---\n\n  body text  \n").unwrap();
    assert_eq!(parts.yaml, "\na: 1");
    assert_eq!(parts.body, "body text");
}

#[test]
fn skill_new_takes_parsed_parts() {
    let parsed = SkillParsed::new(
        "FULL".to_string(),
        SkillYaml { name: "n".to_string(), description: "d".to_string(), disable_model_invocation: true },
        "B".to_string(),
    );
    let s = Skill::new(parsed, "/p".to_string());
    assert_eq!(s.base_path, "/p");
    assert_eq!(s.full, "FULL");
    assert_eq!(s.name, "n");
    assert_eq!(s.description, "d");
    assert!(s.disable_model_invocation);
    assert_eq!(s.body, "B");
    assert_eq!(s.format(), "- [/p] n: d");
}

#[test]
fn skills_are_listed_in_order() {
    let skills = vec![skill("a", "A", false), skill("b", "B", false)];
    assert_eq!(
        format_skills(&skills),
        "Available skills:\n\n- [/skills/a] a: does a\n- [/skills/b] b: does b\n\nIf a user request matches any skill descriptions, load it first using `<base_path>/SKILL.md`."
    );
}

#[test]
fn manual_invocation_inserts_skill_text() {
    let skills = vec![skill("a", "  TEXT A \n", false), skill("b", "TEXT B", true), skill("a", "second", false)];
    assert_eq!(manually_invoke_skill(&skills, "b", "").as_deref(), Some("TEXT B"));
    assert_eq!(
        manually_invoke_skill(&skills, "a", "  do it ").as_deref(),
        Some("[Manual skill invocation]\nAuto-inserting SKILL.md text:\nTEXT A\nARGUMENTS: do it")
    );
    assert_eq!(manually_invoke_skill(&skills, "c", "x"), None);
}
