//! The library's laws: properties that relate the resolver's and the
//! planner's functions to each other, stated and proved once and for all
//! inputs they hold on.

use vstd::prelude::*;

use crate::chars::{
    chars_disjoint, dec_digits, digit_char, has_sub, is_match_at, lines_of, remove_all, replace_all,
    unlines, lemma_remove_single, lemma_replace_closure, lemma_replace_noop,
    lemma_unlines_lines,
};
use crate::models::{dirs_of, files_of, ProjectDir, ProjectFile};
use crate::plan::{
    action_path, dir_excluded, dirs_plan, file_actions, file_excluded, files_plan,
    lemma_plan_of_unfold, plan_of, rewrite_name, ActionModel,
};
use crate::resolver::{
    apply_markers, db_hash, db_slash, gate_line, is_block_close, is_block_open, pass_blocks,
    pass_gate, pass_secrets, resolve_spec, sec_neg_hash, sec_neg_slash, sec_pos_hash,
    sec_pos_slash, secrets_line, subst_tokens, token_port, token_project, token_username,
    ws_hash, ws_slash, Injectables,
};

verus! {

// ---------------------------------------------------------------------------
// The marker vocabulary as a whole
// ---------------------------------------------------------------------------

/// All eight line-marker tokens.
pub open spec fn line_tokens() -> Seq<Seq<char>> {
    seq![
        ws_slash(),
        ws_hash(),
        db_slash(),
        db_hash(),
        sec_pos_slash(),
        sec_pos_hash(),
        sec_neg_slash(),
        sec_neg_hash(),
    ]
}

/// A line with no remaining template syntax: no line-marker token occurs
/// in it and it is not a block delimiter.
pub open spec fn clean_line(l: Seq<char>) -> bool {
    &&& forall|t: Seq<char>| line_tokens().contains(t) ==> !has_sub(l, t)
    &&& !is_block_open(l)
    &&& !is_block_close(l)
}

/// Text with no remaining template syntax at all: no substitution token
/// and only clean lines.
pub open spec fn fully_resolved(s: Seq<char>) -> bool {
    &&& !has_sub(s, token_project())
    &&& !has_sub(s, token_username())
    &&& !has_sub(s, token_port())
    &&& forall|i: int| 0 <= i < lines_of(s).len() ==> clean_line(#[trigger] lines_of(s)[i])
}

proof fn lemma_token_lens()
    ensures
        ws_slash().len() == 4,
        ws_hash().len() == 3,
        db_slash().len() == 4,
        db_hash().len() == 3,
        sec_pos_slash().len() == 4,
        sec_pos_hash().len() == 3,
        sec_neg_slash().len() == 4,
        sec_neg_hash().len() == 3,
        token_project().len() == 14,
        token_username().len() == 12,
        token_port().len() == 8,
{
    reveal_strlit("//--");
    reveal_strlit("#--");
    reveal_strlit("//==");
    reveal_strlit("#==");
    reveal_strlit("//%%");
    reveal_strlit("#%%");
    reveal_strlit("//%-");
    reveal_strlit("#%-");
    reveal_strlit("go_boilerplate");
    reveal_strlit("__username__");
    reveal_strlit("__port__");
}

// ---------------------------------------------------------------------------
// Passes that find nothing to do are identities
// ---------------------------------------------------------------------------

proof fn lemma_pass_gate_noop(ls: Seq<Seq<char>>, t1: Seq<char>, t2: Seq<char>, enabled: bool)
    requires
        t1.len() >= 1,
        t2.len() >= 1,
        forall|i: int| 0 <= i < ls.len() ==> !has_sub(#[trigger] ls[i], t1) && !has_sub(ls[i], t2),
    ensures
        pass_gate(ls, t1, t2, enabled) == ls,
    decreases ls.len(),
{
    if ls.len() == 0 {
        assert(pass_gate(ls, t1, t2, enabled) =~= ls);
    } else {
        assert(forall|i: int|
            0 <= i < ls.skip(1).len() ==> ls.skip(1)[i] == ls[i + 1]);
        lemma_pass_gate_noop(ls.skip(1), t1, t2, enabled);
        if enabled {
            lemma_replace_noop(ls[0], t1, Seq::empty());
            lemma_replace_noop(remove_all(ls[0], t1), t2, Seq::empty());
        }
        assert(gate_line(ls[0], t1, t2, enabled) == Some(ls[0]));
        assert(seq![ls[0]] + ls.skip(1) =~= ls);
    }
}

proof fn lemma_pass_secrets_noop(ls: Seq<Seq<char>>, enabled: bool)
    requires
        forall|i: int|
            0 <= i < ls.len() ==> !has_sub(#[trigger] ls[i], sec_pos_slash()) && !has_sub(
                ls[i],
                sec_pos_hash(),
            ) && !has_sub(ls[i], sec_neg_slash()) && !has_sub(ls[i], sec_neg_hash()),
    ensures
        pass_secrets(ls, enabled) == ls,
    decreases ls.len(),
{
    lemma_token_lens();
    if ls.len() == 0 {
        assert(pass_secrets(ls, enabled) =~= ls);
    } else {
        assert(forall|i: int|
            0 <= i < ls.skip(1).len() ==> ls.skip(1)[i] == ls[i + 1]);
        lemma_pass_secrets_noop(ls.skip(1), enabled);
        if enabled {
            lemma_replace_noop(ls[0], sec_pos_slash(), Seq::empty());
            lemma_replace_noop(remove_all(ls[0], sec_pos_slash()), sec_pos_hash(), Seq::empty());
        } else {
            lemma_replace_noop(ls[0], sec_neg_slash(), Seq::empty());
            lemma_replace_noop(remove_all(ls[0], sec_neg_slash()), sec_neg_hash(), Seq::empty());
        }
        assert(secrets_line(ls[0], enabled) == Some(ls[0]));
        assert(seq![ls[0]] + ls.skip(1) =~= ls);
    }
}

proof fn lemma_pass_blocks_noop(ls: Seq<Seq<char>>, enabled: bool)
    requires
        forall|i: int|
            0 <= i < ls.len() ==> !is_block_open(#[trigger] ls[i]) && !is_block_close(ls[i]),
    ensures
        pass_blocks(ls, enabled, false) == ls,
    decreases ls.len(),
{
    if ls.len() == 0 {
        assert(pass_blocks(ls, enabled, false) =~= ls);
    } else {
        assert(forall|i: int|
            0 <= i < ls.skip(1).len() ==> ls.skip(1)[i] == ls[i + 1]);
        lemma_pass_blocks_noop(ls.skip(1), enabled);
        assert(seq![ls[0]] + ls.skip(1) =~= ls);
    }
}

// ---------------------------------------------------------------------------
// Substitution leaves no port token behind
// ---------------------------------------------------------------------------

proof fn lemma_dec_digits_shape(n: int)
    ensures
        dec_digits(n).len() >= 1,
        forall|k: int|
            0 <= k < dec_digits(n).len() ==> '0' <= #[trigger] dec_digits(n)[k] && dec_digits(
                n,
            )[k] <= '9',
    decreases n,
{
    if n < 10 {
    } else {
        lemma_dec_digits_shape(n / 10);
        let d = dec_digits(n);
        assert forall|k: int| 0 <= k < d.len() implies '0' <= #[trigger] d[k] && d[k]
            <= '9' by {
            if k < dec_digits(n / 10).len() {
                assert(d[k] == dec_digits(n / 10)[k]);
            } else {
                assert(d[k] == digit_char(n % 10));
            }
        }
    }
}

/// The port pass can never reintroduce its own token: the replacement is
/// all digits, and the token holds none. So substituted text carries no
/// port placeholder, whatever the other substitution values were.
pub proof fn lemma_subst_no_port_token(
    s: Seq<char>,
    project: Seq<char>,
    username: Seq<char>,
    port: int,
)
    ensures
        !has_sub(subst_tokens(s, project, username, port), token_port()),
{
    lemma_token_lens();
    reveal_strlit("__port__");
    lemma_dec_digits_shape(port);
    assert(chars_disjoint(dec_digits(port), token_port())) by {
        assert forall|i: int, j: int|
            0 <= i < dec_digits(port).len() && 0 <= j < token_port().len() implies dec_digits(
            port,
        )[i] != token_port()[j] by {
            assert('0' <= dec_digits(port)[i] && dec_digits(port)[i] <= '9');
        }
    }
    lemma_replace_closure(
        replace_all(replace_all(s, token_project(), project), token_username(), username),
        token_port(),
        dec_digits(port),
    );
}

// ---------------------------------------------------------------------------
// Idempotence: resolving fully resolved text changes nothing
// ---------------------------------------------------------------------------

/// Resolving a second time is a no-op: text that came out of resolution
/// with no remaining tokens and no remaining marker lines — which marker
/// closure guarantees for well-marked input, and the substitution stage
/// guarantees whenever the substituted values do not themselves carry
/// placeholder tokens — resolves to itself, under any flag set.
pub proof fn lemma_resolve_idempotent(r: Seq<char>, inj: Injectables)
    requires
        fully_resolved(r),
    ensures
        resolve_spec(r, inj) == r,
{
    lemma_token_lens();
    // The substitution stage finds no token.
    lemma_replace_noop(r, token_project(), inj.project_name@);
    lemma_replace_noop(r, token_username(), inj.username@);
    lemma_replace_noop(r, token_port(), crate::chars::dec_digits(inj.port as int));
    assert(subst_tokens(r, inj.project_name@, inj.username@, inj.port as int) == r);
    // Every marker pass finds no marker.
    let ls = lines_of(r);
    assert forall|i: int| 0 <= i < ls.len() implies !is_block_open(#[trigger] ls[i])
        && !is_block_close(ls[i]) by {
        assert(clean_line(ls[i]));
    }
    lemma_pass_blocks_noop(ls, inj.db);
    assert forall|i: int| 0 <= i < ls.len() implies !has_sub(#[trigger] ls[i], ws_slash())
        && !has_sub(ls[i], ws_hash()) by {
        assert(clean_line(ls[i]));
        assert(line_tokens()[0] == ws_slash());
        assert(line_tokens()[1] == ws_hash());
        assert(line_tokens().contains(ws_slash()));
        assert(line_tokens().contains(ws_hash()));
    }
    lemma_pass_gate_noop(ls, ws_slash(), ws_hash(), inj.ws);
    assert forall|i: int| 0 <= i < ls.len() implies !has_sub(#[trigger] ls[i], db_slash())
        && !has_sub(ls[i], db_hash()) by {
        assert(clean_line(ls[i]));
        assert(line_tokens()[2] == db_slash());
        assert(line_tokens()[3] == db_hash());
        assert(line_tokens().contains(db_slash()));
        assert(line_tokens().contains(db_hash()));
    }
    lemma_pass_gate_noop(ls, db_slash(), db_hash(), inj.db);
    assert forall|i: int| 0 <= i < ls.len() implies !has_sub(#[trigger] ls[i], sec_pos_slash())
        && !has_sub(ls[i], sec_pos_hash()) && !has_sub(ls[i], sec_neg_slash()) && !has_sub(
        ls[i],
        sec_neg_hash(),
    ) by {
        assert(clean_line(ls[i]));
        assert(line_tokens()[4] == sec_pos_slash());
        assert(line_tokens()[5] == sec_pos_hash());
        assert(line_tokens()[6] == sec_neg_slash());
        assert(line_tokens()[7] == sec_neg_hash());
        assert(line_tokens().contains(sec_pos_slash()));
        assert(line_tokens().contains(sec_pos_hash()));
        assert(line_tokens().contains(sec_neg_slash()));
        assert(line_tokens().contains(sec_neg_hash()));
    }
    lemma_pass_secrets_noop(ls, inj.secrets);
    assert(apply_markers(ls, inj.ws, inj.db, inj.secrets) == ls);
    lemma_unlines_lines(r);
}

// ---------------------------------------------------------------------------
// Flag symmetry of the database block marker
// ---------------------------------------------------------------------------

proof fn lemma_blocks_prefix_out(pre: Seq<Seq<char>>, rest: Seq<Seq<char>>, enabled: bool)
    requires
        forall|i: int|
            0 <= i < pre.len() ==> !is_block_open(#[trigger] pre[i]) && !is_block_close(pre[i]),
    ensures
        pass_blocks(pre + rest, enabled, false) == pre + pass_blocks(rest, enabled, false),
    decreases pre.len(),
{
    if pre.len() == 0 {
        assert(pre + rest =~= rest);
        assert(pre + pass_blocks(rest, enabled, false) =~= pass_blocks(rest, enabled, false));
    } else {
        let s = pre + rest;
        assert(s[0] == pre[0]);
        assert(s.skip(1) =~= pre.skip(1) + rest);
        assert(forall|i: int|
            0 <= i < pre.skip(1).len() ==> pre.skip(1)[i] == pre[i + 1]);
        lemma_blocks_prefix_out(pre.skip(1), rest, enabled);
        assert(seq![pre[0]] + (pre.skip(1) + pass_blocks(rest, enabled, false)) =~= pre
            + pass_blocks(rest, enabled, false));
    }
}

proof fn lemma_blocks_inner(inner: Seq<Seq<char>>, rest: Seq<Seq<char>>, enabled: bool)
    requires
        forall|i: int|
            0 <= i < inner.len() ==> !is_block_open(#[trigger] inner[i]) && !is_block_close(
                inner[i],
            ),
    ensures
        pass_blocks(inner + rest, enabled, true) == (if enabled {
            inner
        } else {
            Seq::<Seq<char>>::empty()
        }) + pass_blocks(rest, enabled, true),
    decreases inner.len(),
{
    if inner.len() == 0 {
        assert(inner + rest =~= rest);
        assert((if enabled {
            inner
        } else {
            Seq::<Seq<char>>::empty()
        }) + pass_blocks(rest, enabled, true) =~= pass_blocks(rest, enabled, true));
    } else {
        let s = inner + rest;
        assert(s[0] == inner[0]);
        assert(s.skip(1) =~= inner.skip(1) + rest);
        assert(forall|i: int|
            0 <= i < inner.skip(1).len() ==> inner.skip(1)[i] == inner[i + 1]);
        lemma_blocks_inner(inner.skip(1), rest, enabled);
        if enabled {
            assert(seq![inner[0]] + (inner.skip(1) + pass_blocks(rest, enabled, true)) =~= inner
                + pass_blocks(rest, enabled, true));
        }
    }
}

/// Flag symmetry of the block marker: around one well-delimited block,
/// enabling the flag keeps the block's inner lines without the delimiter
/// lines, and disabling it removes the inner lines altogether; everything
/// before the block is kept either way, and everything after it is
/// processed as if the block were not there.
pub proof fn lemma_block_flag_symmetry(
    pre: Seq<Seq<char>>,
    inner: Seq<Seq<char>>,
    post: Seq<Seq<char>>,
    opener: Seq<char>,
    closer: Seq<char>,
)
    requires
        is_block_open(opener),
        is_block_close(closer),
        forall|i: int|
            0 <= i < pre.len() ==> !is_block_open(#[trigger] pre[i]) && !is_block_close(pre[i]),
        forall|i: int|
            0 <= i < inner.len() ==> !is_block_open(#[trigger] inner[i]) && !is_block_close(
                inner[i],
            ),
    ensures
        pass_blocks(pre + seq![opener] + inner + seq![closer] + post, true, false) == pre + inner
            + pass_blocks(post, true, false),
        pass_blocks(pre + seq![opener] + inner + seq![closer] + post, false, false) == pre
            + pass_blocks(post, false, false),
{
    lemma_block_gate(pre, inner, post, opener, closer, true);
    lemma_block_gate(pre, inner, post, opener, closer, false);
    assert(pre + (Seq::<Seq<char>>::empty() + pass_blocks(post, false, false)) =~= pre
        + pass_blocks(post, false, false));
    assert(pre + (inner + pass_blocks(post, true, false)) =~= pre + inner + pass_blocks(
        post,
        true,
        false,
    ));
}

proof fn lemma_block_gate(
    pre: Seq<Seq<char>>,
    inner: Seq<Seq<char>>,
    post: Seq<Seq<char>>,
    opener: Seq<char>,
    closer: Seq<char>,
    enabled: bool,
)
    requires
        is_block_open(opener),
        is_block_close(closer),
        forall|i: int|
            0 <= i < pre.len() ==> !is_block_open(#[trigger] pre[i]) && !is_block_close(pre[i]),
        forall|i: int|
            0 <= i < inner.len() ==> !is_block_open(#[trigger] inner[i]) && !is_block_close(
                inner[i],
            ),
    ensures
        pass_blocks(pre + seq![opener] + inner + seq![closer] + post, enabled, false) == pre + ((
        if enabled {
            inner
        } else {
            Seq::<Seq<char>>::empty()
        }) + pass_blocks(post, enabled, false)),
{
    let y = inner + (seq![closer] + post);
    let x = seq![opener] + y;
    assert(pre + seq![opener] + inner + seq![closer] + post =~= pre + x);
    lemma_blocks_prefix_out(pre, x, enabled);
    // The opening delimiter enters the block.
    assert(x[0] == opener);
    assert(x.skip(1) =~= y);
    assert(pass_blocks(x, enabled, false) == pass_blocks(y, enabled, true));
    // The inner lines are kept or dropped with the flag.
    lemma_blocks_inner(inner, seq![closer] + post, enabled);
    // The closing delimiter leaves the block.
    let z = seq![closer] + post;
    assert(z[0] == closer);
    assert(z.skip(1) =~= post);
    assert(pass_blocks(z, enabled, true) == pass_blocks(post, enabled, false));
}

// ---------------------------------------------------------------------------
// Marker closure: well-formed markers never survive resolution
// ---------------------------------------------------------------------------

/// A well-formed marked line: one marker token occurs in it, exactly once
/// among all eight tokens, and cutting that occurrence out leaves a clean
/// line.
pub open spec fn single_marked(l: Seq<char>, t: Seq<char>, i: int) -> bool {
    &&& line_tokens().contains(t)
    &&& is_match_at(l, t, i)
    &&& forall|t2: Seq<char>, j: int|
        line_tokens().contains(t2) && #[trigger] is_match_at(l, t2, j) ==> t2 == t && j == i
    &&& clean_line(l.take(i) + l.skip(i + t.len()))
}

/// A well-formed content line: clean, or marked by a single well-placed
/// token.
pub open spec fn wf_line(l: Seq<char>) -> bool {
    clean_line(l) || (exists|t: Seq<char>, i: int| single_marked(l, t, i))
}

/// Well-formed marker structure, outside any block: delimiters pair up
/// properly (no stray closer, no unterminated or nested block), and every
/// content line is well formed.
pub open spec fn wf_marked(ls: Seq<Seq<char>>) -> bool
    decreases ls.len(),
{
    if ls.len() == 0 {
        true
    } else if is_block_open(ls[0]) {
        wf_inside(ls.skip(1))
    } else if is_block_close(ls[0]) {
        false
    } else {
        wf_line(ls[0]) && wf_marked(ls.skip(1))
    }
}

/// The same, inside a block, where the next delimiter must be a closer.
pub open spec fn wf_inside(ls: Seq<Seq<char>>) -> bool
    decreases ls.len(),
{
    if ls.len() == 0 {
        false
    } else if is_block_close(ls[0]) {
        wf_marked(ls.skip(1))
    } else if is_block_open(ls[0]) {
        false
    } else {
        wf_line(ls[0]) && wf_inside(ls.skip(1))
    }
}

/// A line after some passes have run: clean, or still carrying its one
/// marker, whose family's pass has not run yet.
pub open spec fn line_settled(l: Seq<char>, done: Set<Seq<char>>) -> bool {
    clean_line(l) || (exists|t: Seq<char>, i: int| single_marked(l, t, i) && !done.contains(t))
}

pub open spec fn lines_settled(ls: Seq<Seq<char>>, done: Set<Seq<char>>) -> bool {
    forall|i: int| 0 <= i < ls.len() ==> line_settled(#[trigger] ls[i], done)
}

proof fn lemma_token_cases(t: Seq<char>)
    requires
        line_tokens().contains(t),
    ensures
        t == ws_slash() || t == ws_hash() || t == db_slash() || t == db_hash() || t
            == sec_pos_slash() || t == sec_pos_hash() || t == sec_neg_slash() || t
            == sec_neg_hash(),
        1 <= t.len() <= 4,
        forall|j: int| 0 <= j < t.len() ==> t[j] != '\n',
{
    lemma_token_lens();
    reveal_strlit("//--");
    reveal_strlit("#--");
    reveal_strlit("//==");
    reveal_strlit("#==");
    reveal_strlit("//%%");
    reveal_strlit("#%%");
    reveal_strlit("//%-");
    reveal_strlit("#%-");
    let i = choose|i: int| 0 <= i < line_tokens().len() && line_tokens()[i] == t;
    assert(line_tokens()[0] == ws_slash());
    assert(line_tokens()[1] == ws_hash());
    assert(line_tokens()[2] == db_slash());
    assert(line_tokens()[3] == db_hash());
    assert(line_tokens()[4] == sec_pos_slash());
    assert(line_tokens()[5] == sec_pos_hash());
    assert(line_tokens()[6] == sec_neg_slash());
    assert(line_tokens()[7] == sec_neg_hash());
}

/// One line through one plain line-marker pass: deleted, or settled with
/// that pass's tokens done.
proof fn lemma_gate_line_settled(
    l: Seq<char>,
    t1: Seq<char>,
    t2: Seq<char>,
    enabled: bool,
    done: Set<Seq<char>>,
)
    requires
        line_tokens().contains(t1),
        line_tokens().contains(t2),
        t1 != t2,
        line_settled(l, done),
    ensures
        (match gate_line(l, t1, t2, enabled) {
            Some(l2) => line_settled(l2, done.insert(t1).insert(t2)),
            None => true,
        }),
{
    lemma_token_cases(t1);
    lemma_token_cases(t2);
    if clean_line(l) {
        assert(!has_sub(l, t1));
        assert(!has_sub(l, t2));
        if enabled {
            lemma_replace_noop(l, t1, Seq::empty());
            lemma_replace_noop(remove_all(l, t1), t2, Seq::empty());
        }
        assert(gate_line(l, t1, t2, enabled) == Some(l));
    } else {
        let (t, i): (Seq<char>, int) = choose|t: Seq<char>, i: int|
            single_marked(l, t, i) && !done.contains(t);
        if t == t1 || t == t2 {
            if enabled {
                if t == t1 {
                    assert forall|j: int| j != i implies !is_match_at(l, t1, j) by {
                        if is_match_at(l, t1, j) {
                            assert(t1 == t && j == i);
                        }
                    }
                    lemma_remove_single(l, t1, i);
                    let stripped = l.take(i) + l.skip(i + t1.len());
                    assert(!has_sub(stripped, t2));
                    lemma_replace_noop(stripped, t2, Seq::empty());
                    assert(gate_line(l, t1, t2, enabled) == Some(stripped));
                } else {
                    assert(!has_sub(l, t1)) by {
                        if has_sub(l, t1) {
                            let j = choose|j: int| is_match_at(l, t1, j);
                            assert(t1 == t && j == i);
                        }
                    }
                    lemma_replace_noop(l, t1, Seq::empty());
                    assert forall|j: int| j != i implies !is_match_at(l, t2, j) by {
                        if is_match_at(l, t2, j) {
                            assert(t2 == t && j == i);
                        }
                    }
                    lemma_remove_single(l, t2, i);
                    let stripped = l.take(i) + l.skip(i + t2.len());
                    assert(gate_line(l, t1, t2, enabled) == Some(stripped));
                }
            } else {
                assert(has_sub(l, t));
            }
        } else {
            assert(!has_sub(l, t1)) by {
                if has_sub(l, t1) {
                    let j = choose|j: int| is_match_at(l, t1, j);
                    assert(t1 == t && j == i);
                }
            }
            assert(!has_sub(l, t2)) by {
                if has_sub(l, t2) {
                    let j = choose|j: int| is_match_at(l, t2, j);
                    assert(t2 == t && j == i);
                }
            }
            if enabled {
                lemma_replace_noop(l, t1, Seq::empty());
                lemma_replace_noop(remove_all(l, t1), t2, Seq::empty());
            }
            assert(gate_line(l, t1, t2, enabled) == Some(l));
            assert(single_marked(l, t, i) && !done.insert(t1).insert(t2).contains(t));
        }
    }
}

proof fn lemma_pass_gate_settled(
    ls: Seq<Seq<char>>,
    t1: Seq<char>,
    t2: Seq<char>,
    enabled: bool,
    done: Set<Seq<char>>,
)
    requires
        line_tokens().contains(t1),
        line_tokens().contains(t2),
        t1 != t2,
        lines_settled(ls, done),
    ensures
        lines_settled(pass_gate(ls, t1, t2, enabled), done.insert(t1).insert(t2)),
    decreases ls.len(),
{
    if ls.len() == 0 {
    } else {
        assert(forall|i: int|
            0 <= i < ls.skip(1).len() ==> ls.skip(1)[i] == ls[i + 1]);
        lemma_pass_gate_settled(ls.skip(1), t1, t2, enabled, done);
        assert(line_settled(ls[0], done));
        lemma_gate_line_settled(ls[0], t1, t2, enabled, done);
        let rest = pass_gate(ls.skip(1), t1, t2, enabled);
        match gate_line(ls[0], t1, t2, enabled) {
            Some(l2) => {
                assert forall|i: int|
                    0 <= i < (seq![l2] + rest).len() implies line_settled(
                    #[trigger] (seq![l2] + rest)[i],
                    done.insert(t1).insert(t2),
                ) by {
                    if i > 0 {
                        assert((seq![l2] + rest)[i] == rest[i - 1]);
                    }
                }
            },
            None => {},
        }
    }
}

/// One line through the secrets pass.
proof fn lemma_secrets_line_settled(l: Seq<char>, enabled: bool, done: Set<Seq<char>>)
    requires
        line_settled(l, done),
    ensures
        (match secrets_line(l, enabled) {
            Some(l2) => line_settled(
                l2,
                done.insert(sec_pos_slash()).insert(sec_pos_hash()).insert(
                    sec_neg_slash(),
                ).insert(sec_neg_hash()),
            ),
            None => true,
        }),
{
    lemma_token_lens();
    assert(line_tokens()[4] == sec_pos_slash());
    assert(line_tokens()[5] == sec_pos_hash());
    assert(line_tokens()[6] == sec_neg_slash());
    assert(line_tokens()[7] == sec_neg_hash());
    assert(line_tokens().contains(sec_pos_slash()));
    assert(line_tokens().contains(sec_pos_hash()));
    assert(line_tokens().contains(sec_neg_slash()));
    assert(line_tokens().contains(sec_neg_hash()));
    let (k1, k2): (Seq<char>, Seq<char>) = if enabled {
        (sec_pos_slash(), sec_pos_hash())
    } else {
        (sec_neg_slash(), sec_neg_hash())
    };
    let (d1, d2): (Seq<char>, Seq<char>) = if enabled {
        (sec_neg_slash(), sec_neg_hash())
    } else {
        (sec_pos_slash(), sec_pos_hash())
    };
    // `k1`/`k2` are the tokens the pass strips, `d1`/`d2` the ones whose
    // lines it deletes.
    if clean_line(l) {
        assert(!has_sub(l, k1) && !has_sub(l, k2) && !has_sub(l, d1) && !has_sub(l, d2));
        lemma_replace_noop(l, k1, Seq::empty());
        lemma_replace_noop(remove_all(l, k1), k2, Seq::empty());
        assert(secrets_line(l, enabled) == Some(l));
    } else {
        let (t, i): (Seq<char>, int) = choose|t: Seq<char>, i: int|
            single_marked(l, t, i) && !done.contains(t);
        lemma_token_cases(t);
        if t == d1 || t == d2 {
            assert(has_sub(l, t));
            assert(secrets_line(l, enabled) is None);
        } else {
            assert(!has_sub(l, d1)) by {
                if has_sub(l, d1) {
                    let j = choose|j: int| is_match_at(l, d1, j);
                    assert(d1 == t && j == i);
                }
            }
            assert(!has_sub(l, d2)) by {
                if has_sub(l, d2) {
                    let j = choose|j: int| is_match_at(l, d2, j);
                    assert(d2 == t && j == i);
                }
            }
            if t == k1 {
                assert forall|j: int| j != i implies !is_match_at(l, k1, j) by {
                    if is_match_at(l, k1, j) {
                        assert(k1 == t && j == i);
                    }
                }
                lemma_remove_single(l, k1, i);
                let stripped = l.take(i) + l.skip(i + k1.len());
                assert(!has_sub(stripped, k2));
                lemma_replace_noop(stripped, k2, Seq::empty());
                assert(secrets_line(l, enabled) == Some(stripped));
            } else if t == k2 {
                assert(!has_sub(l, k1)) by {
                    if has_sub(l, k1) {
                        let j = choose|j: int| is_match_at(l, k1, j);
                        assert(k1 == t && j == i);
                    }
                }
                lemma_replace_noop(l, k1, Seq::empty());
                assert forall|j: int| j != i implies !is_match_at(l, k2, j) by {
                    if is_match_at(l, k2, j) {
                        assert(k2 == t && j == i);
                    }
                }
                lemma_remove_single(l, k2, i);
                let stripped = l.take(i) + l.skip(i + k2.len());
                assert(secrets_line(l, enabled) == Some(stripped));
            } else {
                assert(!has_sub(l, k1)) by {
                    if has_sub(l, k1) {
                        let j = choose|j: int| is_match_at(l, k1, j);
                        assert(k1 == t && j == i);
                    }
                }
                assert(!has_sub(l, k2)) by {
                    if has_sub(l, k2) {
                        let j = choose|j: int| is_match_at(l, k2, j);
                        assert(k2 == t && j == i);
                    }
                }
                lemma_replace_noop(l, k1, Seq::empty());
                lemma_replace_noop(remove_all(l, k1), k2, Seq::empty());
                assert(secrets_line(l, enabled) == Some(l));
                assert(single_marked(l, t, i) && !done.insert(sec_pos_slash()).insert(
                    sec_pos_hash(),
                ).insert(sec_neg_slash()).insert(sec_neg_hash()).contains(t));
            }
        }
    }
}

proof fn lemma_pass_secrets_settled(ls: Seq<Seq<char>>, enabled: bool, done: Set<Seq<char>>)
    requires
        lines_settled(ls, done),
    ensures
        lines_settled(
            pass_secrets(ls, enabled),
            done.insert(sec_pos_slash()).insert(sec_pos_hash()).insert(sec_neg_slash()).insert(
                sec_neg_hash(),
            ),
        ),
    decreases ls.len(),
{
    if ls.len() == 0 {
    } else {
        assert(forall|i: int|
            0 <= i < ls.skip(1).len() ==> ls.skip(1)[i] == ls[i + 1]);
        lemma_pass_secrets_settled(ls.skip(1), enabled, done);
        assert(line_settled(ls[0], done));
        lemma_secrets_line_settled(ls[0], enabled, done);
        let rest = pass_secrets(ls.skip(1), enabled);
        let done2 = done.insert(sec_pos_slash()).insert(sec_pos_hash()).insert(
            sec_neg_slash(),
        ).insert(sec_neg_hash());
        match secrets_line(ls[0], enabled) {
            Some(l2) => {
                assert forall|i: int|
                    0 <= i < (seq![l2] + rest).len() implies line_settled(
                    #[trigger] (seq![l2] + rest)[i],
                    done2,
                ) by {
                    if i > 0 {
                        assert((seq![l2] + rest)[i] == rest[i - 1]);
                    }
                }
            },
            None => {},
        }
    }
}

/// The block pass on well-formed structure leaves only well-formed
/// content lines, with no pass done yet.
proof fn lemma_blocks_out_settled(ls: Seq<Seq<char>>, enabled: bool)
    requires
        wf_marked(ls),
    ensures
        lines_settled(pass_blocks(ls, enabled, false), Set::empty()),
    decreases ls.len(),
{
    if ls.len() == 0 {
    } else if is_block_open(ls[0]) {
        lemma_blocks_in_settled(ls.skip(1), enabled);
    } else {
        lemma_blocks_out_settled(ls.skip(1), enabled);
        let rest = pass_blocks(ls.skip(1), enabled, false);
        assert forall|i: int|
            0 <= i < (seq![ls[0]] + rest).len() implies line_settled(
            #[trigger] (seq![ls[0]] + rest)[i],
            Set::empty(),
        ) by {
            if i > 0 {
                assert((seq![ls[0]] + rest)[i] == rest[i - 1]);
            } else {
                assert(wf_line(ls[0]));
            }
        }
    }
}

proof fn lemma_blocks_in_settled(ls: Seq<Seq<char>>, enabled: bool)
    requires
        wf_inside(ls),
    ensures
        lines_settled(pass_blocks(ls, enabled, true), Set::empty()),
    decreases ls.len(),
{
    if ls.len() == 0 {
    } else if is_block_close(ls[0]) {
        lemma_blocks_out_settled(ls.skip(1), enabled);
    } else {
        lemma_blocks_in_settled(ls.skip(1), enabled);
        if enabled {
            let rest = pass_blocks(ls.skip(1), enabled, true);
            assert forall|i: int|
                0 <= i < (seq![ls[0]] + rest).len() implies line_settled(
                #[trigger] (seq![ls[0]] + rest)[i],
                Set::empty(),
            ) by {
                if i > 0 {
                    assert((seq![ls[0]] + rest)[i] == rest[i - 1]);
                } else {
                    assert(wf_line(ls[0]));
                }
            }
        }
    }
}

/// Marker closure: under any flag set, the marker stage maps well-formed
/// lines to clean lines — no line-marker token and no delimiter line
/// survives any of the four passes.
pub proof fn lemma_marker_closure(ls: Seq<Seq<char>>, ws: bool, db: bool, secrets: bool)
    requires
        wf_marked(ls),
    ensures
        forall|i: int|
            0 <= i < apply_markers(ls, ws, db, secrets).len() ==> clean_line(
                #[trigger] apply_markers(ls, ws, db, secrets)[i],
            ),
{
    lemma_token_lens();
    assert(line_tokens()[0] == ws_slash());
    assert(line_tokens()[1] == ws_hash());
    assert(line_tokens()[2] == db_slash());
    assert(line_tokens()[3] == db_hash());
    let s0 = Set::<Seq<char>>::empty();
    lemma_blocks_out_settled(ls, db);
    let b = pass_blocks(ls, db, false);
    lemma_pass_gate_settled(b, ws_slash(), ws_hash(), ws, s0);
    let s2 = s0.insert(ws_slash()).insert(ws_hash());
    let g1 = pass_gate(b, ws_slash(), ws_hash(), ws);
    lemma_pass_gate_settled(g1, db_slash(), db_hash(), db, s2);
    let s4 = s2.insert(db_slash()).insert(db_hash());
    let g2 = pass_gate(g1, db_slash(), db_hash(), db);
    lemma_pass_secrets_settled(g2, secrets, s4);
    let s8 = s4.insert(sec_pos_slash()).insert(sec_pos_hash()).insert(sec_neg_slash()).insert(
        sec_neg_hash(),
    );
    let out = apply_markers(ls, ws, db, secrets);
    assert(out == pass_secrets(g2, secrets));
    assert forall|i: int| 0 <= i < out.len() implies clean_line(#[trigger] out[i]) by {
        assert(line_settled(out[i], s8));
        if !clean_line(out[i]) {
            let (t, k): (Seq<char>, int) = choose|t: Seq<char>, k: int|
                single_marked(out[i], t, k) && !s8.contains(t);
            lemma_token_cases(t);
        }
    }
}

/// A token that occurs in no line and contains no newline occurs nowhere
/// in the joined text.
proof fn lemma_unlines_no_sub(xs: Seq<Seq<char>>, t: Seq<char>)
    requires
        t.len() >= 1,
        forall|j: int| 0 <= j < t.len() ==> t[j] != '\n',
        forall|i: int| 0 <= i < xs.len() ==> !has_sub(#[trigger] xs[i], t),
    ensures
        !has_sub(unlines(xs), t),
    decreases xs.len(),
{
    if xs.len() == 0 {
        assert(!has_sub(unlines(xs), t)) by {
            if has_sub(unlines(xs), t) {
                let p = choose|p: int| is_match_at(unlines(xs), t, p);
            }
        }
    } else if xs.len() == 1 {
        assert(unlines(xs) == xs[0]);
    } else {
        assert(forall|i: int|
            0 <= i < xs.skip(1).len() ==> xs.skip(1)[i] == xs[i + 1]);
        lemma_unlines_no_sub(xs.skip(1), t);
        let total = unlines(xs);
        let a = xs[0].len() as int;
        let rest = unlines(xs.skip(1));
        assert(total == xs[0] + seq!['\n'] + rest);
        assert(!has_sub(total, t)) by {
            if has_sub(total, t) {
                let p = choose|p: int| is_match_at(total, t, p);
                if p + t.len() <= a {
                    assert(total.subrange(p, p + t.len()) =~= xs[0].subrange(p, p + t.len()));
                    assert(is_match_at(xs[0], t, p));
                } else if p <= a {
                    assert(total.subrange(p, p + t.len())[a - p] == total[a]);
                    assert(total[a] == '\n');
                    assert(t[a - p] == '\n');
                } else {
                    assert(total.subrange(p, p + t.len()) =~= rest.subrange(
                        p - a - 1,
                        p - a - 1 + t.len(),
                    ));
                    assert(is_match_at(rest, t, p - a - 1));
                }
            }
        }
    }
}

/// Marker closure, read on the resolved text itself: resolving input
/// whose substituted text carries only well-formed markers leaves no
/// marker token anywhere in the output.
pub proof fn lemma_resolve_no_marker_text(s: Seq<char>, inj: Injectables)
    requires
        wf_marked(lines_of(subst_tokens(s, inj.project_name@, inj.username@, inj.port as int))),
    ensures
        forall|t: Seq<char>|
            line_tokens().contains(t) ==> !has_sub(resolve_spec(s, inj), t),
{
    let ls = lines_of(subst_tokens(s, inj.project_name@, inj.username@, inj.port as int));
    lemma_marker_closure(ls, inj.ws, inj.db, inj.secrets);
    let out = apply_markers(ls, inj.ws, inj.db, inj.secrets);
    assert forall|t: Seq<char>|
        line_tokens().contains(t) implies !has_sub(resolve_spec(s, inj), t) by {
        lemma_token_cases(t);
        assert forall|i: int| 0 <= i < out.len() implies !has_sub(#[trigger] out[i], t) by {
            assert(clean_line(out[i]));
        }
        lemma_unlines_no_sub(out, t);
    }
}

// ---------------------------------------------------------------------------
// Exclusion: a plan never reaches into a disabled subtree
// ---------------------------------------------------------------------------

/// `p` extends `root`, and beyond it holds no segment whose name is
/// reserved for a disabled feature.
pub open spec fn path_clean_from(p: Seq<Seq<char>>, root: Seq<Seq<char>>, inj: Injectables) -> bool {
    &&& p.len() >= root.len()
    &&& p.take(root.len() as int) == root
    &&& forall|j: int| root.len() <= j < p.len() ==> !dir_excluded(#[trigger] p[j], inj)
}

proof fn lemma_clean_lift(p: Seq<Seq<char>>, root: Seq<Seq<char>>, name: Seq<char>, inj: Injectables)
    requires
        path_clean_from(p, root.push(name), inj),
        !dir_excluded(name, inj),
    ensures
        path_clean_from(p, root, inj),
{
    assert(p.take(root.len() as int) =~= root) by {
        assert(forall|k: int|
            0 <= k < root.len() ==> p.take(root.push(name).len() as int)[k] == root.push(name)[k]);
    }
    assert forall|j: int| root.len() <= j < p.len() implies !dir_excluded(#[trigger] p[j], inj) by {
        if j == root.len() {
            assert(p.take(root.push(name).len() as int)[j] == root.push(name)[j]);
            assert(p[j] == name);
        }
    }
}

proof fn lemma_files_plan_clean(fs: Seq<ProjectFile>, path: Seq<Seq<char>>, inj: Injectables)
    ensures
        forall|k: int|
            0 <= k < files_plan(fs, path, inj).len() ==> path_clean_from(
                action_path(#[trigger] files_plan(fs, path, inj)[k]),
                path,
                inj,
            ),
    decreases fs.len(),
{
    if fs.len() == 0 {
    } else {
        lemma_files_plan_clean(fs.skip(1), path, inj);
        let head = file_actions(fs[0], path, inj);
        let rest = files_plan(fs.skip(1), path, inj);
        assert forall|k: int|
            0 <= k < files_plan(fs, path, inj).len() implies path_clean_from(
            action_path(#[trigger] files_plan(fs, path, inj)[k]),
            path,
            inj,
        ) by {
            if k < head.len() {
                assert((head + rest)[k] == head[k]);
                let name = rewrite_name(fs[0].filename@);
                assert(!file_excluded(name, inj));
                assert(!dir_excluded(name, inj));
                let p = path.push(name);
                assert(action_path(head[k]) == p);
                assert(p.take(path.len() as int) =~= path);
            } else {
                assert((head + rest)[k] == rest[k - head.len()]);
            }
        }
    }
}

/// No action of a plan ever has, beyond the root it was asked to build
/// under, a path segment named after a disabled feature's reserved names:
/// a disabled subtree is neither created nor descended into, and with the
/// database flag off, in particular, no `database`, `sql` or `repository`
/// directory (nor anything inside one) is ever touched.
pub proof fn lemma_plan_avoids_disabled(d: ProjectDir, path: Seq<Seq<char>>, inj: Injectables)
    ensures
        forall|k: int|
            0 <= k < plan_of(d, path, inj).len() ==> path_clean_from(
                action_path(#[trigger] plan_of(d, path, inj)[k]),
                path,
                inj,
            ),
    decreases d, 0int, 1int,
{
    if dir_excluded(d.dirname@, inj) {
    } else {
        lemma_plan_of_unfold(d, path, inj);
        let mk: Seq<ActionModel> = seq![ActionModel::MkDir { path }];
        let fp = files_plan(files_of(d), path, inj);
        let ip: Seq<ActionModel> = if d.dirname@ == "client"@ {
            seq![ActionModel::Install { path }]
        } else {
            Seq::<ActionModel>::empty()
        };
        let dp = dirs_plan_clean_helper(d, path, inj);
        lemma_files_plan_clean(files_of(d), path, inj);
        assert forall|k: int|
            0 <= k < plan_of(d, path, inj).len() implies path_clean_from(
            action_path(#[trigger] plan_of(d, path, inj)[k]),
            path,
            inj,
        ) by {
            let whole = mk + fp + ip + dirs_plan(dirs_of(d), path, inj);
            assert(plan_of(d, path, inj) == whole);
            assert(path.take(path.len() as int) =~= path);
            if k < mk.len() {
                assert(whole[k] == mk[0]);
            } else if k < mk.len() + fp.len() {
                assert(whole[k] == fp[k - mk.len()]);
            } else if k < mk.len() + fp.len() + ip.len() {
                assert(whole[k] == ip[k - mk.len() - fp.len()]);
            } else {
                assert(whole[k] == dirs_plan(dirs_of(d), path, inj)[k - mk.len() - fp.len()
                    - ip.len()]);
            }
        }
    }
}

/// Proof helper: the subdirectory part of the same claim. Returns nothing
/// of interest; it exists to tie the mutual induction together.
proof fn dirs_plan_clean_helper(d: ProjectDir, path: Seq<Seq<char>>, inj: Injectables) -> (r: int)
    requires
        !dir_excluded(d.dirname@, inj),
    ensures
        forall|k: int|
            0 <= k < dirs_plan(dirs_of(d), path, inj).len() ==> path_clean_from(
                action_path(#[trigger] dirs_plan(dirs_of(d), path, inj)[k]),
                path,
                inj,
            ),
    decreases d, 0int, 0int,
{
    match d.dirs {
        Some(ds) => {
            lemma_dirs_plan_clean(ds@, path, inj);
        },
        None => {
            assert(dirs_of(d) =~= Seq::<ProjectDir>::empty());
        },
    }
    0
}

proof fn lemma_dirs_plan_clean(ds: Seq<ProjectDir>, path: Seq<Seq<char>>, inj: Injectables)
    ensures
        forall|k: int|
            0 <= k < dirs_plan(ds, path, inj).len() ==> path_clean_from(
                action_path(#[trigger] dirs_plan(ds, path, inj)[k]),
                path,
                inj,
            ),
    decreases ds, 1int, ds.len(),
{
    if ds.len() == 0 {
    } else {
        let name = ds[0].dirname@;
        let head = plan_of(ds[0], path.push(name), inj);
        let rest = dirs_plan(ds.skip(1), path, inj);
        lemma_plan_avoids_disabled(ds[0], path.push(name), inj);
        lemma_dirs_plan_clean(ds.skip(1), path, inj);
        if dir_excluded(name, inj) {
            assert(head =~= Seq::<ActionModel>::empty());
        }
        assert forall|k: int|
            0 <= k < dirs_plan(ds, path, inj).len() implies path_clean_from(
            action_path(#[trigger] dirs_plan(ds, path, inj)[k]),
            path,
            inj,
        ) by {
            if k < head.len() {
                assert((head + rest)[k] == head[k]);
                assert(!dir_excluded(name, inj));
                lemma_clean_lift(action_path(head[k]), path, name, inj);
            } else {
                assert((head + rest)[k] == rest[k - head.len()]);
            }
        }
    }
}

} // verus!
