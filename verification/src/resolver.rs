//! The conditional-content resolver: token substitution plus three
//! independent families of flag-gated marker regions, each written in a
//! slash dialect and a hash dialect so the same mini-language works across
//! template files of different source languages.
//!
//! Resolution always substitutes the project-name, namespace and port
//! tokens, in that fixed order, and then runs the marker passes in a fixed
//! order, each on the output of the previous one: database block markers,
//! websocket line markers, database line markers, secrets line markers.
//!
//! Line markers gate a single line: with the flag enabled the marker text
//! is stripped and the rest of the line kept; disabled, the whole line is
//! deleted. (The secrets family also has a negative form with the two
//! behaviours swapped.) Block markers gate the run of lines between an
//! opening and a closing delimiter line; a delimiter is a line holding
//! exactly the delimiter text and nothing else.

use vstd::prelude::*;

use crate::chars::{
    contains_sub, copy_chars, eq_chars, has_sub, join_lines, lines_of, remove_all,
    replace_all, replace_all_vec, split_lines, str_to_chars, u32_to_chars,
    unlines, dec_digits, chars_to_string,
};

verus! {

/// The per-run configuration: scalar substitution values and the three
/// boolean feature flags.
pub struct Injectables {
    pub project_name: String,
    pub username: String,
    pub port: u32,
    pub db: bool,
    pub ws: bool,
    pub secrets: bool,
}

// ---------------------------------------------------------------------------
// The marker vocabulary
// ---------------------------------------------------------------------------

/// Placeholder for the project name.
pub open spec fn token_project() -> Seq<char> {
    "go_boilerplate"@
}

/// Placeholder for the account/namespace identifier.
pub open spec fn token_username() -> Seq<char> {
    "__username__"@
}

/// Placeholder for the network port.
pub open spec fn token_port() -> Seq<char> {
    "__port__"@
}

pub open spec fn ws_slash() -> Seq<char> {
    "//--"@
}

pub open spec fn ws_hash() -> Seq<char> {
    "#--"@
}

pub open spec fn db_slash() -> Seq<char> {
    "//=="@
}

pub open spec fn db_hash() -> Seq<char> {
    "#=="@
}

pub open spec fn sec_pos_slash() -> Seq<char> {
    "//%%"@
}

pub open spec fn sec_pos_hash() -> Seq<char> {
    "#%%"@
}

pub open spec fn sec_neg_slash() -> Seq<char> {
    "//%-"@
}

pub open spec fn sec_neg_hash() -> Seq<char> {
    "#%-"@
}

pub open spec fn block_open_slash() -> Seq<char> {
    "//==="@
}

pub open spec fn block_close_slash() -> Seq<char> {
    "===//"@
}

pub open spec fn block_open_hash() -> Seq<char> {
    "#=="@
}

pub open spec fn block_close_hash() -> Seq<char> {
    "==#"@
}

/// A line consisting of exactly a block-opening delimiter.
pub open spec fn is_block_open(l: Seq<char>) -> bool {
    l == block_open_slash() || l == block_open_hash()
}

/// A line consisting of exactly a block-closing delimiter.
pub open spec fn is_block_close(l: Seq<char>) -> bool {
    l == block_close_slash() || l == block_close_hash()
}

// ---------------------------------------------------------------------------
// Token substitution
// ---------------------------------------------------------------------------

/// The unconditional substitution stage: project name, then namespace,
/// then port, in that fixed order, so overlapping tokens cannot interfere.
pub open spec fn subst_tokens(
    s: Seq<char>,
    project: Seq<char>,
    username: Seq<char>,
    port: int,
) -> Seq<char> {
    replace_all(
        replace_all(replace_all(s, token_project(), project), token_username(), username),
        token_port(),
        dec_digits(port),
    )
}

// ---------------------------------------------------------------------------
// Line-marker passes
// ---------------------------------------------------------------------------

/// One line under a plain line-marker family (two dialect tokens, one
/// flag): enabled strips the marker text, disabled deletes marked lines.
pub open spec fn gate_line(
    l: Seq<char>,
    t1: Seq<char>,
    t2: Seq<char>,
    enabled: bool,
) -> Option<Seq<char>> {
    if enabled {
        Some(remove_all(remove_all(l, t1), t2))
    } else if has_sub(l, t1) || has_sub(l, t2) {
        None
    } else {
        Some(l)
    }
}

/// A plain line-marker pass over a sequence of lines.
pub open spec fn pass_gate(
    ls: Seq<Seq<char>>,
    t1: Seq<char>,
    t2: Seq<char>,
    enabled: bool,
) -> Seq<Seq<char>>
    decreases ls.len(),
{
    if ls.len() == 0 {
        Seq::empty()
    } else {
        let rest = pass_gate(ls.skip(1), t1, t2, enabled);
        match gate_line(ls[0], t1, t2, enabled) {
            Some(l) => seq![l] + rest,
            None => rest,
        }
    }
}

/// One line under the secrets family, which has a positive and a negative
/// marker: the flag keeps positive-marked lines (stripping the marker) and
/// deletes negative-marked ones, and the other way around when off.
pub open spec fn secrets_line(l: Seq<char>, enabled: bool) -> Option<Seq<char>> {
    if enabled {
        if has_sub(l, sec_neg_slash()) || has_sub(l, sec_neg_hash()) {
            None
        } else {
            Some(remove_all(remove_all(l, sec_pos_slash()), sec_pos_hash()))
        }
    } else {
        if has_sub(l, sec_pos_slash()) || has_sub(l, sec_pos_hash()) {
            None
        } else {
            Some(remove_all(remove_all(l, sec_neg_slash()), sec_neg_hash()))
        }
    }
}

/// The secrets pass over a sequence of lines.
pub open spec fn pass_secrets(ls: Seq<Seq<char>>, enabled: bool) -> Seq<Seq<char>>
    decreases ls.len(),
{
    if ls.len() == 0 {
        Seq::empty()
    } else {
        let rest = pass_secrets(ls.skip(1), enabled);
        match secrets_line(ls[0], enabled) {
            Some(l) => seq![l] + rest,
            None => rest,
        }
    }
}

// ---------------------------------------------------------------------------
// Block-marker pass
// ---------------------------------------------------------------------------

/// The database block pass, a line state machine: outside a block, an
/// opening delimiter enters it; inside, a closing delimiter leaves it.
/// Delimiter lines are never kept. Content inside a block is kept only
/// when the flag is enabled. A block left open runs to the end of the
/// file; a closing delimiter outside any block is ordinary content.
pub open spec fn pass_blocks(ls: Seq<Seq<char>>, enabled: bool, inside: bool) -> Seq<Seq<char>>
    decreases ls.len(),
{
    if ls.len() == 0 {
        Seq::empty()
    } else if !inside {
        if is_block_open(ls[0]) {
            pass_blocks(ls.skip(1), enabled, true)
        } else {
            seq![ls[0]] + pass_blocks(ls.skip(1), enabled, false)
        }
    } else {
        if is_block_close(ls[0]) {
            pass_blocks(ls.skip(1), enabled, false)
        } else if enabled {
            seq![ls[0]] + pass_blocks(ls.skip(1), enabled, true)
        } else {
            pass_blocks(ls.skip(1), enabled, true)
        }
    }
}

// ---------------------------------------------------------------------------
// The full resolution pipeline
// ---------------------------------------------------------------------------

/// All four marker passes, in their fixed order: the database block pass,
/// then the line passes family by family, each against the output of the
/// previous one. The block pass must run before the line passes, because
/// both block delimiters contain the database line token.
pub open spec fn apply_markers(
    ls: Seq<Seq<char>>,
    ws: bool,
    db: bool,
    secrets: bool,
) -> Seq<Seq<char>> {
    pass_secrets(
        pass_gate(
            pass_gate(pass_blocks(ls, db, false), ws_slash(), ws_hash(), ws),
            db_slash(),
            db_hash(),
            db,
        ),
        secrets,
    )
}

/// What resolution returns: substitute the three tokens, then run the
/// marker passes over the lines of the text.
pub open spec fn resolve_spec(s: Seq<char>, inj: Injectables) -> Seq<char> {
    unlines(
        apply_markers(
            lines_of(subst_tokens(s, inj.project_name@, inj.username@, inj.port as int)),
            inj.ws,
            inj.db,
            inj.secrets,
        ),
    )
}

// ---------------------------------------------------------------------------
// Executable resolution
// ---------------------------------------------------------------------------

fn gate_line_vec(l: &Vec<char>, t1: &Vec<char>, t2: &Vec<char>, enabled: bool) -> (r: Option<
    Vec<char>,
>)
    ensures
        (match r {
            Some(v) => gate_line(l@, t1@, t2@, enabled) == Some(v@),
            None => gate_line(l@, t1@, t2@, enabled) is None,
        }),
{
    if enabled {
        let empty: Vec<char> = Vec::new();
        let a = replace_all_vec(l, t1, &empty);
        let b = replace_all_vec(&a, t2, &empty);
        Some(b)
    } else if contains_sub(l, t1) || contains_sub(l, t2) {
        None
    } else {
        Some(copy_chars(l))
    }
}

fn pass_gate_vec(ls: &Vec<Vec<char>>, t1: &Vec<char>, t2: &Vec<char>, enabled: bool) -> (r:
    Vec<Vec<char>>)
    ensures
        r.deep_view() == pass_gate(ls.deep_view(), t1@, t2@, enabled),
{
    let ghost dv = ls.deep_view();
    let mut out: Vec<Vec<char>> = Vec::new();
    let mut i: usize = 0;
    proof {
        assert(dv.skip(0) =~= dv);
        assert(Seq::<Seq<char>>::empty() + pass_gate(dv, t1@, t2@, enabled) =~= pass_gate(
            dv,
            t1@,
            t2@,
            enabled,
        ));
    }
    while i < ls.len()
        invariant
            i <= ls@.len(),
            dv == ls.deep_view(),
            dv.len() == ls@.len(),
            pass_gate(dv, t1@, t2@, enabled) == out.deep_view() + pass_gate(
                dv.skip(i as int),
                t1@,
                t2@,
                enabled,
            ),
        decreases ls@.len() - i,
    {
        proof {
            assert(dv.skip(i as int).len() > 0);
            assert(dv.skip(i as int)[0] == dv[i as int]);
            assert(dv.skip(i as int).skip(1) =~= dv.skip(i + 1));
            assert(dv[i as int] == ls@[i as int].deep_view());
        }
        let line = &ls[i];
        proof {
            assert(line@ =~= dv[i as int]);
        }
        match gate_line_vec(line, t1, t2, enabled) {
            Some(v) => {
                let ghost prev = out.deep_view();
                let ghost vv = v@;
                out.push(v);
                proof {
                    assert(out.deep_view() =~~= prev.push(vv));
                    assert(prev + (seq![vv] + pass_gate(dv.skip(i + 1), t1@, t2@, enabled))
                        =~= prev.push(vv) + pass_gate(dv.skip(i + 1), t1@, t2@, enabled));
                }
            },
            None => {},
        }
        i += 1;
    }
    proof {
        assert(dv.skip(dv.len() as int) =~= Seq::<Seq<char>>::empty());
        assert(out.deep_view() + Seq::<Seq<char>>::empty() =~= out.deep_view());
    }
    out
}

fn secrets_line_vec(l: &Vec<char>, pos1: &Vec<char>, pos2: &Vec<char>, neg1: &Vec<char>, neg2: &Vec<char>, enabled: bool) -> (r: Option<Vec<char>>)
    requires
        pos1@ == sec_pos_slash(),
        pos2@ == sec_pos_hash(),
        neg1@ == sec_neg_slash(),
        neg2@ == sec_neg_hash(),
    ensures
        (match r {
            Some(v) => secrets_line(l@, enabled) == Some(v@),
            None => secrets_line(l@, enabled) is None,
        }),
{
    let empty: Vec<char> = Vec::new();
    if enabled {
        if contains_sub(l, neg1) || contains_sub(l, neg2) {
            None
        } else {
            let a = replace_all_vec(l, pos1, &empty);
            let b = replace_all_vec(&a, pos2, &empty);
            Some(b)
        }
    } else {
        if contains_sub(l, pos1) || contains_sub(l, pos2) {
            None
        } else {
            let a = replace_all_vec(l, neg1, &empty);
            let b = replace_all_vec(&a, neg2, &empty);
            Some(b)
        }
    }
}

fn pass_secrets_vec(ls: &Vec<Vec<char>>, enabled: bool) -> (r: Vec<Vec<char>>)
    ensures
        r.deep_view() == pass_secrets(ls.deep_view(), enabled),
{
    let pos1 = str_to_chars("//%%");
    let pos2 = str_to_chars("#%%");
    let neg1 = str_to_chars("//%-");
    let neg2 = str_to_chars("#%-");
    let ghost dv = ls.deep_view();
    let mut out: Vec<Vec<char>> = Vec::new();
    let mut i: usize = 0;
    proof {
        assert(dv.skip(0) =~= dv);
        assert(Seq::<Seq<char>>::empty() + pass_secrets(dv, enabled) =~= pass_secrets(
            dv,
            enabled,
        ));
    }
    while i < ls.len()
        invariant
            i <= ls@.len(),
            dv == ls.deep_view(),
            dv.len() == ls@.len(),
            pos1@ == sec_pos_slash(),
            pos2@ == sec_pos_hash(),
            neg1@ == sec_neg_slash(),
            neg2@ == sec_neg_hash(),
            pass_secrets(dv, enabled) == out.deep_view() + pass_secrets(
                dv.skip(i as int),
                enabled,
            ),
        decreases ls@.len() - i,
    {
        proof {
            assert(dv.skip(i as int).len() > 0);
            assert(dv.skip(i as int)[0] == dv[i as int]);
            assert(dv.skip(i as int).skip(1) =~= dv.skip(i + 1));
            assert(dv[i as int] == ls@[i as int].deep_view());
        }
        let line = &ls[i];
        proof {
            assert(line@ =~= dv[i as int]);
        }
        match secrets_line_vec(line, &pos1, &pos2, &neg1, &neg2, enabled) {
            Some(v) => {
                let ghost prev = out.deep_view();
                let ghost vv = v@;
                out.push(v);
                proof {
                    assert(out.deep_view() =~~= prev.push(vv));
                    assert(prev + (seq![vv] + pass_secrets(dv.skip(i + 1), enabled))
                        =~= prev.push(vv) + pass_secrets(dv.skip(i + 1), enabled));
                }
            },
            None => {},
        }
        i += 1;
    }
    proof {
        assert(dv.skip(dv.len() as int) =~= Seq::<Seq<char>>::empty());
        assert(out.deep_view() + Seq::<Seq<char>>::empty() =~= out.deep_view());
    }
    out
}

fn block_open_line(l: &Vec<char>, open1: &Vec<char>, open2: &Vec<char>) -> (r: bool)
    requires
        open1@ == block_open_slash(),
        open2@ == block_open_hash(),
    ensures
        r == is_block_open(l@),
{
    eq_chars(l, open1) || eq_chars(l, open2)
}

fn block_close_line(l: &Vec<char>, close1: &Vec<char>, close2: &Vec<char>) -> (r: bool)
    requires
        close1@ == block_close_slash(),
        close2@ == block_close_hash(),
    ensures
        r == is_block_close(l@),
{
    eq_chars(l, close1) || eq_chars(l, close2)
}

fn pass_blocks_vec(ls: &Vec<Vec<char>>, enabled: bool) -> (r: Vec<Vec<char>>)
    ensures
        r.deep_view() == pass_blocks(ls.deep_view(), enabled, false),
{
    let open1 = str_to_chars("//===");
    let open2 = str_to_chars("#==");
    let close1 = str_to_chars("===//");
    let close2 = str_to_chars("==#");
    let ghost dv = ls.deep_view();
    let mut out: Vec<Vec<char>> = Vec::new();
    let mut inside: bool = false;
    let mut i: usize = 0;
    proof {
        assert(dv.skip(0) =~= dv);
        assert(Seq::<Seq<char>>::empty() + pass_blocks(dv, enabled, false) =~= pass_blocks(
            dv,
            enabled,
            false,
        ));
    }
    while i < ls.len()
        invariant
            i <= ls@.len(),
            dv == ls.deep_view(),
            dv.len() == ls@.len(),
            open1@ == block_open_slash(),
            open2@ == block_open_hash(),
            close1@ == block_close_slash(),
            close2@ == block_close_hash(),
            pass_blocks(dv, enabled, false) == out.deep_view() + pass_blocks(
                dv.skip(i as int),
                enabled,
                inside,
            ),
        decreases ls@.len() - i,
    {
        proof {
            assert(dv.skip(i as int).len() > 0);
            assert(dv.skip(i as int)[0] == dv[i as int]);
            assert(dv.skip(i as int).skip(1) =~= dv.skip(i + 1));
            assert(dv[i as int] == ls@[i as int].deep_view());
        }
        let line = &ls[i];
        proof {
            assert(line@ =~= dv[i as int]);
        }
        if !inside {
            if block_open_line(line, &open1, &open2) {
                inside = true;
            } else {
                let ghost prev = out.deep_view();
                let ghost vv = line@;
                let kept = copy_chars(line);
                out.push(kept);
                proof {
                    assert(out.deep_view() =~~= prev.push(vv));
                    assert(prev + (seq![vv] + pass_blocks(dv.skip(i + 1), enabled, false))
                        =~= prev.push(vv) + pass_blocks(dv.skip(i + 1), enabled, false));
                }
            }
        } else {
            if block_close_line(line, &close1, &close2) {
                inside = false;
            } else if enabled {
                let ghost prev = out.deep_view();
                let ghost vv = line@;
                let kept = copy_chars(line);
                out.push(kept);
                proof {
                    assert(out.deep_view() =~~= prev.push(vv));
                    assert(prev + (seq![vv] + pass_blocks(dv.skip(i + 1), enabled, true))
                        =~= prev.push(vv) + pass_blocks(dv.skip(i + 1), enabled, true));
                }
            }
        }
        i += 1;
    }
    proof {
        assert(dv.skip(dv.len() as int) =~= Seq::<Seq<char>>::empty());
        assert(out.deep_view() + Seq::<Seq<char>>::empty() =~= out.deep_view());
    }
    out
}

/// Resolves one template file's text against the flag set: substitutes the
/// three placeholder tokens and applies the three marker families, leaving
/// no template syntax behind on well-marked input.
pub fn resolve_content(content: &str, inj: &Injectables) -> (r: String)
    ensures
        r@ == resolve_spec(content@, *inj),
{
    let cv = str_to_chars(content);
    let tp = str_to_chars("go_boilerplate");
    let tu = str_to_chars("__username__");
    let tport = str_to_chars("__port__");
    let pv = str_to_chars(inj.project_name.as_str());
    let uv = str_to_chars(inj.username.as_str());
    let portv = u32_to_chars(inj.port);
    let s1 = replace_all_vec(&cv, &tp, &pv);
    let s2 = replace_all_vec(&s1, &tu, &uv);
    let s3 = replace_all_vec(&s2, &tport, &portv);
    let ls = split_lines(&s3);
    let w1 = str_to_chars("//--");
    let w2 = str_to_chars("#--");
    let d1 = str_to_chars("//==");
    let d2 = str_to_chars("#==");
    let a = pass_blocks_vec(&ls, inj.db);
    let b = pass_gate_vec(&a, &w1, &w2, inj.ws);
    let c = pass_gate_vec(&b, &d1, &d2, inj.db);
    let d = pass_secrets_vec(&c, inj.secrets);
    let j = join_lines(&d);
    chars_to_string(&j)
}

} // verus!
