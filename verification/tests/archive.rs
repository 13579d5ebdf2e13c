use std::io::{Read, Write};

use openwork_workspace::archive::{creator_skill_writes, plan_entry, ArchiveError, PathPart, SkillWrite};

fn parts(v: &[&str]) -> Vec<PathPart> {
    v.iter()
        .map(|s| match *s {
            "/" => PathPart::RootDir,
            "." => PathPart::CurDir,
            ".." => PathPart::ParentDir,
            other => PathPart::Normal(other.to_string()),
        })
        .collect()
}

fn present(v: &[&str]) -> Vec<String> {
    v.iter().map(|s| s.to_string()).collect()
}

#[test]
fn plan_file_of_creator_skill() {
    let t = plan_entry(
        "repo-main/.opencode/skills/doc-creator/scripts/run.sh",
        &parts(&["repo-main", ".opencode", "skills", "doc-creator", "scripts", "run.sh"]),
        &present(&["other"]),
    )
    .unwrap();
    assert_eq!(t.skill, "doc-creator");
    assert_eq!(t.rest, vec!["scripts".to_string(), "run.sh".to_string()]);
    assert!(!t.is_dir);
}

#[test]
fn plan_directory_entry() {
    let t = plan_entry(
        "repo-main/.opencode/skills/doc-creator/assets/",
        &parts(&["repo-main", ".opencode", "skills", "doc-creator", "assets"]),
        &present(&[]),
    )
    .unwrap();
    assert!(t.is_dir);
    assert_eq!(t.rest, vec!["assets".to_string()]);
}

#[test]
fn plan_skips_short_paths() {
    assert!(plan_entry("a/.opencode/skills/x-creator", &parts(&["a", ".opencode", "skills", "x-creator"]), &present(&[])).is_none());
}

#[test]
fn plan_skips_other_directories() {
    assert!(plan_entry("", &parts(&["a", ".github", "skills", "x-creator", "f"]), &present(&[])).is_none());
    assert!(plan_entry("", &parts(&["a", ".opencode", "agents", "x-creator", "f"]), &present(&[])).is_none());
}

#[test]
fn plan_skips_non_creator_skills() {
    assert!(plan_entry("", &parts(&["a", ".opencode", "skills", "creator-x", "f"]), &present(&[])).is_none());
    assert!(plan_entry("", &parts(&["a", ".opencode", "skills", "-creato", "f"]), &present(&[])).is_none());
}

#[test]
fn plan_skips_present_skills() {
    assert!(plan_entry("", &parts(&["a", ".opencode", "skills", "x-creator", "f"]), &present(&["x-creator"])).is_none());
}

#[test]
fn plan_skips_escaping_paths() {
    assert!(plan_entry("", &parts(&["a", ".opencode", "skills", "x-creator", "..", "f"]), &present(&[])).is_none());
    assert!(plan_entry("", &parts(&["/", "a", ".opencode", "skills", "x-creator", "f"]), &present(&[])).is_none());
    let mut with_prefix = parts(&["a", ".opencode", "skills", "x-creator", "f"]);
    with_prefix.insert(0, PathPart::Prefix);
    assert!(plan_entry("", &with_prefix, &present(&[])).is_none());
}

#[test]
fn plan_keeps_current_dir_components() {
    let t = plan_entry("", &parts(&[".", ".opencode", "skills", "x-creator", "f"]), &present(&[])).unwrap();
    assert_eq!(t.skill, "x-creator");
}

fn build_zip(entries: &[(&str, Option<&[u8]>)]) -> Vec<u8> {
    let mut w = zip::ZipWriter::new(std::io::Cursor::new(Vec::new()));
    let opts = zip::write::SimpleFileOptions::default().compression_method(zip::CompressionMethod::Stored);
    for (name, content) in entries {
        match content {
            None => w.add_directory(*name, opts).unwrap(),
            Some(bytes) => {
                w.start_file(*name, opts).unwrap();
                w.write_all(bytes).unwrap();
            }
        }
    }
    w.finish().unwrap().into_inner()
}

#[test]
fn extract_creator_skills_from_archive() {
    let bytes = build_zip(&[
        ("repo-main/", None),
        ("repo-main/README.md", Some(b"readme")),
        ("repo-main/.opencode/skills/doc-creator/", None),
        ("repo-main/.opencode/skills/doc-creator/SKILL.md", Some(b"doc skill")),
        ("repo-main/.opencode/skills/old-creator/SKILL.md", Some(b"old")),
        ("repo-main/.opencode/skills/plain/SKILL.md", Some(b"plain")),
        ("repo-main/.opencode/skills/doc-creator/../../evil.md", Some(b"evil")),
    ]);
    let r = creator_skill_writes(bytes, &present(&["old-creator"]));
    assert!(r.error.is_none());
    assert_eq!(r.writes.len(), 1);
    match &r.writes[0] {
        SkillWrite::File { skill, rest, bytes } => {
            assert_eq!(skill, "doc-creator");
            assert_eq!(rest, &vec!["SKILL.md".to_string()]);
            assert_eq!(bytes, b"doc skill");
        }
        SkillWrite::Dir { .. } => panic!("expected a file"),
    }
}

#[test]
fn extract_directory_entries() {
    let bytes = build_zip(&[
        ("r/.opencode/skills/a-creator/sub/", None),
        ("r/.opencode/skills/a-creator/sub/x.txt", Some(b"x")),
    ]);
    let r = creator_skill_writes(bytes, &present(&[]));
    assert!(r.error.is_none());
    assert_eq!(r.writes.len(), 2);
    match &r.writes[0] {
        SkillWrite::Dir { skill, rest } => {
            assert_eq!(skill, "a-creator");
            assert_eq!(rest, &vec!["sub".to_string()]);
        }
        SkillWrite::File { .. } => panic!("expected a directory"),
    }
    match &r.writes[1] {
        SkillWrite::File { rest, bytes, .. } => {
            assert_eq!(rest, &vec!["sub".to_string(), "x.txt".to_string()]);
            assert_eq!(bytes, b"x");
        }
        SkillWrite::Dir { .. } => panic!("expected a file"),
    }
}

#[test]
fn extract_skips_the_skill_directory_entry_itself() {
    let r = creator_skill_writes(build_zip(&[("r/.opencode/skills/a-creator/", None)]), &present(&[]));
    assert!(r.error.is_none());
    assert!(r.writes.is_empty());
}

#[test]
fn extract_from_garbage_fails_to_open() {
    let r = creator_skill_writes(b"not a zip archive".to_vec(), &present(&[]));
    assert!(r.writes.is_empty());
    assert!(matches!(r.error, Some(ArchiveError::Open(_))));
}

#[test]
fn extract_from_empty_archive() {
    let r = creator_skill_writes(build_zip(&[]), &present(&[]));
    assert!(r.writes.is_empty());
    assert!(r.error.is_none());
}

#[test]
fn extract_stops_at_unreadable_content() {
    let mut bytes = build_zip(&[
        ("r/.opencode/skills/a-creator/", None),
        ("r/.opencode/skills/a-creator/sub/", None),
        ("r/.opencode/skills/a-creator/f.txt", Some(b"hello creator")),
        ("r/.opencode/skills/b-creator/g.txt", Some(b"g")),
    ]);
    let at = bytes.windows(13).position(|w| w == b"hello creator").unwrap();
    bytes[at] = b'j';
    let r = creator_skill_writes(bytes, &present(&[]));
    assert!(matches!(r.error, Some(ArchiveError::EntryContent(_))));
    assert_eq!(r.writes.len(), 2);
    assert!(matches!(&r.writes[0], SkillWrite::Dir { .. }));
    match &r.writes[1] {
        SkillWrite::Dir { skill, rest } => {
            assert_eq!(skill, "a-creator");
            assert!(rest.is_empty());
        }
        SkillWrite::File { .. } => panic!("expected the parent directory"),
    }
}

#[test]
fn unreadable_nested_file_leaves_its_parent_directory() {
    let mut bytes = build_zip(&[("r/.opencode/skills/a-creator/x/y/f.txt", Some(b"hello creator"))]);
    let at = bytes.windows(13).position(|w| w == b"hello creator").unwrap();
    bytes[at] = b'j';
    let r = creator_skill_writes(bytes, &present(&[]));
    assert!(matches!(r.error, Some(ArchiveError::EntryContent(_))));
    assert_eq!(r.writes.len(), 1);
    match &r.writes[0] {
        SkillWrite::Dir { rest, .. } => assert_eq!(rest, &vec!["x".to_string(), "y".to_string()]),
        SkillWrite::File { .. } => panic!("expected the parent directory"),
    }
}

#[test]
fn planned_pieces_hold_no_separator() {
    let bytes = build_zip(&[("r/.opencode/skills/a-creator//deep//x.txt", Some(b"x"))]);
    let r = creator_skill_writes(bytes, &present(&[]));
    assert!(r.error.is_none());
    match &r.writes[0] {
        SkillWrite::File { rest, .. } => {
            assert_eq!(rest, &vec!["deep".to_string(), "x.txt".to_string()]);
            assert!(rest.iter().all(|p| !p.is_empty() && !p.contains('/') && p != ".."));
        }
        SkillWrite::Dir { .. } => panic!("expected a file"),
    }
}

#[test]
fn extract_stops_at_entry_that_cannot_be_found() {
    let mut bytes = build_zip(&[
        ("r/README.md", Some(b"readme")),
        ("r/.opencode/skills/a-creator/f.txt", Some(b"f")),
    ]);
    assert_eq!(&bytes[0..4], b"PK\x03\x04");
    bytes[2] = 0;
    let r = creator_skill_writes(bytes, &present(&[]));
    assert!(matches!(r.error, Some(ArchiveError::EntryName(_))));
    assert!(r.writes.is_empty());
}

#[test]
fn open_error_carries_the_zip_error_text() {
    let bytes = b"not a zip archive".to_vec();
    let expected = zip::ZipArchive::new(std::io::Cursor::new(bytes.clone())).err().unwrap().to_string();
    let r = creator_skill_writes(bytes, &present(&[]));
    match r.error {
        Some(ArchiveError::Open(text)) => assert_eq!(text, expected),
        _ => panic!("expected an open error"),
    }
}

#[test]
fn content_error_carries_the_read_error_text() {
    let mut bytes = build_zip(&[("r/.opencode/skills/a-creator/f.txt", Some(b"hello creator"))]);
    let at = bytes.windows(13).position(|w| w == b"hello creator").unwrap();
    bytes[at] = b'j';
    let mut archive = zip::ZipArchive::new(std::io::Cursor::new(bytes.clone())).unwrap();
    let mut buf = Vec::new();
    let expected = archive.by_index(0).unwrap().read_to_end(&mut buf).err().unwrap().to_string();
    let r = creator_skill_writes(bytes, &present(&[]));
    match r.error {
        Some(ArchiveError::EntryContent(text)) => assert_eq!(text, expected),
        _ => panic!("expected a content error"),
    }
}
