use gospin::resolver::{resolve_content, Injectables};

fn inj(db: bool, ws: bool, secrets: bool) -> Injectables {
    Injectables {
        project_name: "myapp".to_string(),
        username: "alice".to_string(),
        port: 9000,
        db,
        ws,
        secrets,
    }
}

#[test]
fn substitutes_all_three_tokens() {
    let s = "name=go_boilerplate user=__username__ port=__port__";
    let out = resolve_content(s, &inj(false, false, false));
    assert_eq!(out, "name=myapp user=alice port=9000");
}

#[test]
fn websocket_lines_stripped_when_enabled() {
    let s = "a\n//--ws code\nplain\n#--more ws\nb";
    let out = resolve_content(s, &inj(false, true, false));
    assert_eq!(out, "a\nws code\nplain\nmore ws\nb");
}

#[test]
fn websocket_lines_deleted_when_disabled() {
    let s = "a\n//--ws code\nplain\n#--more ws\nb";
    let out = resolve_content(s, &inj(false, false, false));
    assert_eq!(out, "a\nplain\nb");
}

#[test]
fn database_line_markers_follow_flag() {
    let s = "x\n//==db.Connect()\n#==db: yes\ny";
    assert_eq!(
        resolve_content(s, &inj(true, false, false)),
        "x\ndb.Connect()\ndb: yes\ny"
    );
    assert_eq!(resolve_content(s, &inj(false, false, false)), "x\ny");
}

// The scenario of the block-marker flag symmetry: a file holding both
// branches of the database block marker, resolved with the flag on and
// with it off.
#[test]
fn database_blocks_follow_flag() {
    let s = "before\n//===\ninner slash\n===//\nmid\n#==\ninner hash\n==#\nafter";
    assert_eq!(
        resolve_content(s, &inj(true, false, false)),
        "before\ninner slash\nmid\ninner hash\nafter"
    );
    let disabled = resolve_content(s, &inj(false, false, false));
    assert_eq!(disabled, "before\nmid\nafter");
    assert!(!disabled.contains("inner slash"));
    assert!(!disabled.contains("inner hash"));
}

#[test]
fn secrets_markers_swap_with_flag() {
    let s = "k\n//%%from manager\n#%-from file\nm";
    assert_eq!(resolve_content(s, &inj(false, false, true)), "k\nfrom manager\nm");
    assert_eq!(resolve_content(s, &inj(false, false, false)), "k\nfrom file\nm");
}

// The scenario of idempotence: resolving already-resolved content again,
// with the same flag set, changes nothing.
#[test]
fn resolving_twice_is_a_no_op() {
    let flags = inj(true, false, true);
    let s = "go_boilerplate on __port__\n//--ws\n//===\nblock\n===//\n//%%secret\n#%-file\nend";
    let once = resolve_content(s, &flags);
    let twice = resolve_content(once.as_str(), &flags);
    assert_eq!(once, twice);
}

// The scenario of marker closure: well-formed markers of all three
// families, under several flag sets, leave no marker text behind.
#[test]
fn no_marker_survives_resolution() {
    let s = "start go_boilerplate\n//--a\n#--b\n//==c\n#==d e\n//===\nf\n===//\n//%%g\n#%%h\n//%-i\n#%-j\nend";
    let markers = [
        "//--", "#--", "//==", "#==", "//%%", "#%%", "//%-", "#%-", "//===", "===//", "==#",
    ];
    for &db in &[true, false] {
        for &ws in &[true, false] {
            for &secrets in &[true, false] {
                let out = resolve_content(s, &inj(db, ws, secrets));
                for m in markers.iter() {
                    assert!(!out.contains(m), "marker {} left in {:?}", m, out);
                }
            }
        }
    }
}

#[test]
fn unterminated_block_overstrips_when_disabled() {
    let s = "a\n//===\nlost\nmore";
    assert_eq!(resolve_content(s, &inj(false, false, false)), "a");
    assert_eq!(resolve_content(s, &inj(true, false, false)), "a\nlost\nmore");
}
