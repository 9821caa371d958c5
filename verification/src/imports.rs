//! The import extractor: a best-effort static scan of one resolved file's
//! text for foreign package references. It walks the lines of the text,
//! enters an import block at a line containing the block opener, and while
//! inside keeps every quoted path that looks external: the path must
//! contain a dot (standard-library paths have none) and must reference
//! neither the namespace placeholder token nor the resolved namespace
//! identifier itself (self-imports are not external dependencies).
//!
//! Malformed input — an unterminated block, a stray quote — yields a
//! partial result, never an error: this is a heuristic scan, not a parser.

use vstd::prelude::*;

use crate::chars::{
    contains_sub, has_sub, is_match_at, lines_of, match_at, remove_all, replace_all_vec,
    split_lines, str_to_chars, subrange_chars, trim, trim_vec, chars_to_string,
};
use crate::resolver::token_username;

verus! {

/// A trimmed line that names an import to keep: quoted, not a comment,
/// holding a dot but neither the namespace token nor `username`.
pub open spec fn import_candidate(t: Seq<char>, username: Seq<char>) -> bool {
    &&& t.len() >= 2
    &&& !is_match_at(t, "//"@, 0)
    &&& t[0] == '"'
    &&& t[t.len() - 1] == '"'
    &&& has_sub(t.subrange(1, t.len() - 1), "."@)
    &&& !has_sub(t.subrange(1, t.len() - 1), token_username())
    &&& !has_sub(t.subrange(1, t.len() - 1), username)
}

/// The kept path: the text between the quotes, with spaces removed.
pub open spec fn import_path_of(t: Seq<char>) -> Seq<char>
    recommends
        t.len() >= 2,
{
    remove_all(t.subrange(1, t.len() - 1), " "@)
}

/// The scan itself, one line at a time, with `inside` saying whether the
/// scan is inside an import block.
pub open spec fn extract_from(ls: Seq<Seq<char>>, username: Seq<char>, inside: bool) -> Seq<
    Seq<char>,
>
    decreases ls.len(),
{
    if ls.len() == 0 {
        Seq::empty()
    } else {
        let t = trim(ls[0]);
        if has_sub(t, "import ("@) {
            extract_from(ls.skip(1), username, true)
        } else if inside && has_sub(t, ")"@) {
            extract_from(ls.skip(1), username, false)
        } else if inside && import_candidate(t, username) {
            seq![import_path_of(t)] + extract_from(ls.skip(1), username, true)
        } else {
            extract_from(ls.skip(1), username, inside)
        }
    }
}

/// The import paths of `s`, in order of appearance, duplicates kept.
pub open spec fn imports_spec(s: Seq<char>, username: Seq<char>) -> Seq<Seq<char>> {
    extract_from(lines_of(s), username, false)
}

fn line_import(
    t: &Vec<char>,
    tok_user: &Vec<char>,
    username: &Vec<char>,
    dot: &Vec<char>,
    comment: &Vec<char>,
    space: &Vec<char>,
) -> (r: Option<Vec<char>>)
    requires
        tok_user@ == token_username(),
        dot@ == "."@,
        comment@ == "//"@,
        space@ == " "@,
    ensures
        r is Some <==> import_candidate(t@, username@),
        (match r {
            Some(v) => v@ == import_path_of(t@),
            None => true,
        }),
{
    if t.len() < 2 {
        return None;
    }
    if match_at(t, comment, 0) {
        return None;
    }
    if t[0] != '"' || t[t.len() - 1] != '"' {
        return None;
    }
    let inner = subrange_chars(t, 1, t.len() - 1);
    if !contains_sub(&inner, dot) {
        return None;
    }
    if contains_sub(&inner, tok_user) {
        return None;
    }
    if contains_sub(&inner, username) {
        return None;
    }
    let empty: Vec<char> = Vec::new();
    Some(replace_all_vec(&inner, space, &empty))
}

/// Scans `input` for foreign import paths, excluding paths that reference
/// `username`. Returns them in order of appearance, duplicates kept; the
/// caller deduplicates.
pub fn extract_imports(input: &str, username: &str) -> (r: Vec<String>)
    ensures
        r.deep_view() == imports_spec(input@, username@),
{
    let iv = str_to_chars(input);
    let ls = split_lines(&iv);
    let uv = str_to_chars(username);
    let tok_user = str_to_chars("__username__");
    let dot = str_to_chars(".");
    let comment = str_to_chars("//");
    let space = str_to_chars(" ");
    let opener = str_to_chars("import (");
    let closer = str_to_chars(")");
    let ghost dv = ls.deep_view();
    let mut out: Vec<String> = Vec::new();
    let mut inside: bool = false;
    let mut i: usize = 0;
    proof {
        assert(dv.skip(0) =~= dv);
        assert(Seq::<Seq<char>>::empty() + extract_from(dv, username@, false) =~= extract_from(
            dv,
            username@,
            false,
        ));
    }
    while i < ls.len()
        invariant
            i <= ls@.len(),
            dv == ls.deep_view(),
            dv.len() == ls@.len(),
            uv@ == username@,
            tok_user@ == token_username(),
            dot@ == "."@,
            comment@ == "//"@,
            space@ == " "@,
            opener@ == "import ("@,
            closer@ == ")"@,
            extract_from(dv, username@, false) == out.deep_view() + extract_from(
                dv.skip(i as int),
                username@,
                inside,
            ),
        decreases ls@.len() - i,
    {
        proof {
            assert(dv.skip(i as int).len() > 0);
            assert(dv.skip(i as int)[0] == dv[i as int]);
            assert(dv.skip(i as int).skip(1) =~= dv.skip(i + 1));
            assert(dv[i as int] == ls@[i as int].deep_view());
        }
        let line = &ls[i];
        proof {
            assert(line@ =~= dv[i as int]);
        }
        let t = trim_vec(line);
        if contains_sub(&t, &opener) {
            inside = true;
        } else if inside && contains_sub(&t, &closer) {
            inside = false;
        } else if inside {
            match line_import(&t, &tok_user, &uv, &dot, &comment, &space) {
                Some(v) => {
                    let ghost prev = out.deep_view();
                    let ghost vv = v@;
                    let sv = chars_to_string(&v);
                    out.push(sv);
                    proof {
                        assert(out.deep_view() =~~= prev.push(vv));
                        assert(prev + (seq![vv] + extract_from(dv.skip(i + 1), username@, true))
                            =~= prev.push(vv) + extract_from(dv.skip(i + 1), username@, true));
                    }
                },
                None => {},
            }
        }
        i += 1;
    }
    proof {
        assert(dv.skip(dv.len() as int) =~= Seq::<Seq<char>>::empty());
        assert(out.deep_view() + Seq::<Seq<char>>::empty() =~= out.deep_view());
    }
    out
}

} // verus!
