use gospin::models::{generate_project_structure, import_path, ProjectDir, ProjectFile};
use gospin::plan::{build_plan, Action};
use gospin::resolver::Injectables;

fn inj(db: bool, ws: bool, secrets: bool) -> Injectables {
    Injectables {
        project_name: "demo".to_string(),
        username: "alice".to_string(),
        port: 9000,
        db,
        ws,
        secrets,
    }
}

fn paths_of(actions: &Vec<Action>) -> Vec<Vec<String>> {
    let mut out = Vec::new();
    for a in actions {
        match a {
            Action::MkDir { path } => out.push(path.clone()),
            Action::WriteFile { path, .. } => out.push(path.clone()),
            Action::Install { path } => out.push(path.clone()),
        }
    }
    out
}

// The exclusion scenario: with the database flag off, a tree holding a
// `database` subdirectory yields a plan that never creates it nor anything
// below it.
#[test]
fn database_subtree_is_never_created_when_disabled() {
    let tree = ProjectDir {
        dirname: "root".to_string(),
        files: None,
        dirs: Some(vec![
            ProjectDir {
                dirname: "database".to_string(),
                files: Some(vec![ProjectFile {
                    filename: "init.sql".to_string(),
                    content: "select 1;".to_string(),
                }]),
                dirs: Some(vec![ProjectDir {
                    dirname: "deep".to_string(),
                    files: None,
                    dirs: None,
                }]),
            },
            ProjectDir {
                dirname: "kept".to_string(),
                files: None,
                dirs: None,
            },
        ]),
    };
    let plan = build_plan(&tree, &vec!["root".to_string()], &inj(false, false, false));
    for p in paths_of(&plan.actions) {
        for seg in &p[1..] {
            assert_ne!(seg, "database");
            assert_ne!(seg, "deep");
        }
    }
    assert!(paths_of(&plan.actions).contains(&vec!["root".to_string(), "kept".to_string()]));
    // With the flag on, the same subtree is materialized.
    let plan_on = build_plan(&tree, &vec!["root".to_string()], &inj(true, false, false));
    assert!(paths_of(&plan_on.actions)
        .contains(&vec!["root".to_string(), "database".to_string()]));
}

// The end-to-end scaffold scenario: project `demo`, port `9000`, all
// flags off. The plan writes `demo/.env` holding the port (hidden-file
// rewrite and port substitution applied) and touches no directory named
// after a disabled feature.
#[test]
fn end_to_end_scaffold_plan() {
    let imp = import_path("alice", "demo");
    assert_eq!(imp, "github.com/alice/demo");
    let corpus = generate_project_structure("demo", 9000, imp.as_str());
    let flags = inj(false, false, false);
    let plan = build_plan(&corpus, &vec!["demo".to_string()], &flags);
    let mut saw_env = false;
    for a in &plan.actions {
        if let Action::WriteFile { path, content } = a {
            if path == &vec!["demo".to_string(), ".env".to_string()] {
                saw_env = true;
                assert_eq!(content, "PORT=\"9000\"");
            }
        }
    }
    assert!(saw_env);
    for p in paths_of(&plan.actions) {
        for seg in &p {
            assert_ne!(seg, "database");
            assert_ne!(seg, "sql");
            assert_ne!(seg, "repository");
            assert_ne!(seg, "connections");
        }
        for seg in &p {
            assert!(!seg.starts_with("_."), "unrewritten segment in {:?}", p);
        }
    }
    // The client subtree triggers its package install, after the client's
    // own files and before its subdirectories.
    let client = vec!["demo".to_string(), "client".to_string()];
    let installs: Vec<&Action> = plan
        .actions
        .iter()
        .filter(|a| matches!(a, Action::Install { .. }))
        .collect();
    assert_eq!(installs.len(), 1);
    match installs[0] {
        Action::Install { path } => assert_eq!(path, &client),
        _ => unreachable!(),
    }
}

#[test]
fn dependency_set_is_deduplicated_and_excludes_self() {
    let imp = import_path("alice", "demo");
    let corpus = generate_project_structure("demo", 9000, imp.as_str());
    let flags = inj(true, true, false);
    let plan = build_plan(&corpus, &vec!["demo".to_string()], &flags);
    let imports = &plan.imports;
    // Deduplicated: echo is imported by several files but listed once.
    let echo = "github.com/labstack/echo/v4".to_string();
    assert_eq!(imports.iter().filter(|s| **s == echo).count(), 1);
    assert!(imports.contains(&"github.com/joho/godotenv".to_string()));
    assert!(imports.contains(&"github.com/jmoiron/sqlx".to_string()));
    assert!(imports.contains(&"github.com/a-h/templ".to_string()));
    // A blank-identifier import line does not start with a quote, so the
    // heuristic scan passes it over.
    assert!(!imports.contains(&"github.com/lib/pq".to_string()));
    // Self-imports are never requested.
    for s in imports {
        assert!(!s.contains("alice"), "self-import {} leaked", s);
    }
    let mut sorted = imports.clone();
    sorted.sort();
    sorted.dedup();
    assert_eq!(sorted.len(), imports.len());
}

#[test]
fn database_model_file_follows_the_flag() {
    let imp = import_path("alice", "demo");
    let corpus = generate_project_structure("demo", 9000, imp.as_str());
    let off = build_plan(&corpus, &vec!["demo".to_string()], &inj(false, false, false));
    let on = build_plan(&corpus, &vec!["demo".to_string()], &inj(true, false, false));
    let db_file = vec![
        "demo".to_string(),
        "internal".to_string(),
        "models".to_string(),
        "database.go".to_string(),
    ];
    assert!(!paths_of(&off.actions).contains(&db_file));
    assert!(paths_of(&on.actions).contains(&db_file));
    // The sqlx dependency is requested only when the database exists.
    assert!(!off.imports.contains(&"github.com/jmoiron/sqlx".to_string()));
    assert!(on.imports.contains(&"github.com/jmoiron/sqlx".to_string()));
}

#[test]
fn env_files_are_skipped_when_secrets_enabled() {
    let imp = import_path("alice", "demo");
    let corpus = generate_project_structure("demo", 9000, imp.as_str());
    let plan = build_plan(&corpus, &vec!["demo".to_string()], &inj(false, false, true));
    for p in paths_of(&plan.actions) {
        let last = p.last().unwrap();
        assert!(!last.ends_with(".env"), "env file written: {:?}", p);
    }
}
