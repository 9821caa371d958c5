use gospin::errors::ScaffError;
use gospin::models::{
    dockercompose, dockerfile, dotenvf, generate_project_structure, gitignore, import_path,
    prodenv, readme,
};

#[test]
fn dotfiles_are_stored_under_the_hidden_prefix() {
    assert_eq!(dotenvf(8080).filename, "_.env");
    assert_eq!(dotenvf(8080).content, "PORT=\"8080\"");
    assert_eq!(prodenv(1).filename, "_.prod.env");
    assert_eq!(prodenv(1).content, "PORT=\"1\"");
    assert_eq!(gitignore().filename, "_.gitignore");
    assert_eq!(readme().content, "");
}

#[test]
fn compose_and_dockerfile_are_parameterized() {
    let c = dockercompose("shop", 4242);
    assert_eq!(c.filename, "docker-compose.yml");
    assert!(c.content.contains("container_name: shop"));
    assert!(c.content.contains("- 4242:4242"));
    assert!(!c.content.contains("go_boilerplate"));
    assert!(!c.content.contains("__port__"));
    let d = dockerfile("shop", 4242);
    assert_eq!(d.filename, "Dockerfile");
    assert!(d.content.contains("EXPOSE 4242"));
    assert!(d.content.contains("./bin/shop"));
}

#[test]
fn corpus_is_rooted_at_the_project_name() {
    let imp = import_path("bob", "shop");
    let root = generate_project_structure("shop", 4242, imp.as_str());
    assert_eq!(root.dirname, "shop");
    let files = root.files.as_ref().unwrap();
    assert_eq!(files.len(), 8);
    let dirs = root.dirs.as_ref().unwrap();
    assert_eq!(dirs.len(), 7);
    assert_eq!(dirs[3].dirname, "client");
    // Go sources import through the concrete module path.
    let cmd = &dirs[4];
    let server = &cmd.dirs.as_ref().unwrap()[1];
    let main_go = &server.files.as_ref().unwrap()[0];
    assert!(main_go.content.contains("\"github.com/bob/shop/cmd/boot\""));
    assert!(!main_go.content.contains("__username__"));
}

#[test]
fn scaffold_errors_render_their_message() {
    let e = ScaffError::new("npm error -> missing".to_string());
    assert_eq!(
        e.to_text(),
        "Scaffold did not work properly - Error: npm error -> missing"
    );
}
