//! The tree materializer, as a planner: walking the template corpus
//! depth-first produces an explicit sequence of filesystem actions — make
//! a directory, write a resolved file, run the client package install —
//! together with the deduplicated set of foreign imports found in the
//! resolved files. Executing the actions in order, against a filesystem,
//! is left to the caller; everything decided here (exclusion of disabled
//! subtrees and files, filename rewriting, content resolution, dependency
//! aggregation) is decided on plain values.
//!
//! Paths are kept as sequences of segments; the caller joins them with its
//! platform's separator when it executes the plan.

use vstd::prelude::*;

use crate::chars::{
    eq_chars, is_match_at, match_at, str_to_chars, subrange_chars, chars_to_string,
};
use crate::imports::{extract_imports, imports_spec};
use crate::models::{dirs_of, files_of, ProjectDir, ProjectFile};
use crate::resolver::{resolve_content, resolve_spec, Injectables};

verus! {

// ---------------------------------------------------------------------------
// Actions
// ---------------------------------------------------------------------------

/// The mathematical model of one filesystem action.
#[verifier::ext_equal]
pub enum ActionModel {
    /// Ensure the directory at `path` exists, creating missing ancestors.
    MkDir { path: Seq<Seq<char>> },
    /// Write `content` to the file at `path`, replacing what is there.
    WriteFile { path: Seq<Seq<char>>, content: Seq<char> },
    /// Run the client package-manager install inside the directory at
    /// `path`.
    Install { path: Seq<Seq<char>> },
}

/// One filesystem action of a scaffold plan.
pub enum Action {
    MkDir { path: Vec<String> },
    WriteFile { path: Vec<String>, content: String },
    Install { path: Vec<String> },
}

impl View for Action {
    type V = ActionModel;

    open spec fn view(&self) -> ActionModel {
        match self {
            Action::MkDir { path } => ActionModel::MkDir { path: path.deep_view() },
            Action::WriteFile { path, content } => ActionModel::WriteFile {
                path: path.deep_view(),
                content: content@,
            },
            Action::Install { path } => ActionModel::Install { path: path.deep_view() },
        }
    }
}

impl DeepView for Action {
    type V = ActionModel;

    open spec fn deep_view(&self) -> ActionModel {
        self.view()
    }
}

/// The path of an action.
pub open spec fn action_path(a: ActionModel) -> Seq<Seq<char>> {
    match a {
        ActionModel::MkDir { path } => path,
        ActionModel::WriteFile { path, .. } => path,
        ActionModel::Install { path } => path,
    }
}

// ---------------------------------------------------------------------------
// Exclusion rules
// ---------------------------------------------------------------------------

/// A directory name reserved for a feature that is switched off: the
/// corpus author signals optionality purely through naming, and a whole
/// subtree under a reserved name is skipped when its feature is off.
pub open spec fn dir_excluded(name: Seq<char>, inj: Injectables) -> bool {
    (!inj.ws && name == "connections"@) || (!inj.db && (name == "database"@ || name == "sql"@
        || name == "repository"@))
}

/// Index of the first `'.'` in `s`, or `s.len()` if there is none.
pub open spec fn first_dot(s: Seq<char>) -> int
    decreases s.len(),
{
    if s.len() == 0 {
        0
    } else if s[0] == '.' {
        0
    } else {
        1 + first_dot(s.skip(1))
    }
}

pub proof fn lemma_first_dot(s: Seq<char>)
    ensures
        0 <= first_dot(s) <= s.len(),
        first_dot(s) < s.len() ==> s[first_dot(s)] == '.',
        forall|k: int| 0 <= k < first_dot(s) ==> s[k] != '.',
    decreases s.len(),
{
    if s.len() == 0 {
    } else if s[0] == '.' {
    } else {
        lemma_first_dot(s.skip(1));
        assert forall|k: int| 1 <= k < first_dot(s) implies s[k] != '.' by {
            assert(s.skip(1)[k - 1] == s[k]);
        }
        if first_dot(s) < s.len() {
            assert(s.skip(1)[first_dot(s) - 1] == s[first_dot(s)]);
        }
    }
}

/// The filename up to its first dot.
pub open spec fn file_stem(name: Seq<char>) -> Seq<char> {
    name.take(first_dot(name))
}

/// `s` ends with `suffix`.
pub open spec fn ends_with(s: Seq<char>, suffix: Seq<char>) -> bool {
    s.len() >= suffix.len() && s.subrange(s.len() - suffix.len(), s.len() as int) == suffix
}

/// A file skipped at materialization: its name (or its stem) is reserved
/// for a disabled feature, or it is an `.env`-suffixed file while the
/// secrets manager is enabled (secrets then come from the manager, not
/// from a committed file).
pub open spec fn file_excluded(name: Seq<char>, inj: Injectables) -> bool {
    dir_excluded(name, inj) || dir_excluded(file_stem(name), inj) || (inj.secrets && ends_with(
        name,
        ".env"@,
    ))
}

/// The hidden-file rewrite: a filename stored with the `_.` prefix gets a
/// literal leading dot instead.
pub open spec fn rewrite_name(name: Seq<char>) -> Seq<char> {
    if is_match_at(name, "_."@, 0) {
        name.skip(1)
    } else {
        name
    }
}

// ---------------------------------------------------------------------------
// The plan of a corpus tree
// ---------------------------------------------------------------------------

/// The actions one file contributes: nothing when it is excluded, else a
/// single write of its resolved content under its rewritten name.
pub open spec fn file_actions(f: ProjectFile, path: Seq<Seq<char>>, inj: Injectables) -> Seq<
    ActionModel,
> {
    let name = rewrite_name(f.filename@);
    if file_excluded(name, inj) {
        Seq::empty()
    } else {
        seq![
            ActionModel::WriteFile {
                path: path.push(name),
                content: resolve_spec(f.content@, inj),
            },
        ]
    }
}

/// The actions of a sequence of files, in order.
pub open spec fn files_plan(fs: Seq<ProjectFile>, path: Seq<Seq<char>>, inj: Injectables) -> Seq<
    ActionModel,
>
    decreases fs.len(),
{
    if fs.len() == 0 {
        Seq::empty()
    } else {
        file_actions(fs[0], path, inj) + files_plan(fs.skip(1), path, inj)
    }
}

/// The plan of one directory node at `path`: nothing when its name is
/// reserved for a disabled feature; otherwise create the directory, write
/// its files, run the package install if it is the client subtree, then
/// recurse into its subdirectories in order.
pub open spec fn plan_of(d: ProjectDir, path: Seq<Seq<char>>, inj: Injectables) -> Seq<ActionModel>
    decreases d, 0int, 0int,
{
    if dir_excluded(d.dirname@, inj) {
        Seq::empty()
    } else {
        let sub = match d.dirs {
            Some(ds) => dirs_plan(ds@, path, inj),
            None => Seq::empty(),
        };
        seq![ActionModel::MkDir { path }] + files_plan(files_of(d), path, inj) + (
        if d.dirname@ == "client"@ {
            seq![ActionModel::Install { path }]
        } else {
            Seq::empty()
        }) + sub
    }
}

/// The concatenated plans of a sequence of subdirectories.
pub open spec fn dirs_plan(ds: Seq<ProjectDir>, path: Seq<Seq<char>>, inj: Injectables) -> Seq<
    ActionModel,
>
    decreases ds, 1int, ds.len(),
{
    if ds.len() == 0 {
        Seq::empty()
    } else {
        plan_of(ds[0], path.push(ds[0].dirname@), inj) + dirs_plan(ds.skip(1), path, inj)
    }
}

// ---------------------------------------------------------------------------
// The dependency set of a plan
// ---------------------------------------------------------------------------

/// The foreign imports of everything the plan writes: the union, over its
/// file writes, of the import paths extracted from the written content.
pub open spec fn plan_deps(p: Seq<ActionModel>, username: Seq<char>) -> Set<Seq<char>>
    decreases p.len(),
{
    if p.len() == 0 {
        Set::empty()
    } else {
        (match p[0] {
            ActionModel::WriteFile { content, .. } => imports_spec(content, username).to_set(),
            _ => Set::empty(),
        }).union(plan_deps(p.skip(1), username))
    }
}

pub proof fn lemma_plan_deps_single(a: ActionModel, username: Seq<char>)
    ensures
        plan_deps(seq![a], username) == (match a {
            ActionModel::WriteFile { content, .. } => imports_spec(content, username).to_set(),
            _ => Set::<Seq<char>>::empty(),
        }),
{
    assert(seq![a].skip(1) =~= Seq::<ActionModel>::empty());
    assert(plan_deps(Seq::<ActionModel>::empty(), username) == Set::<Seq<char>>::empty());
    assert(seq![a][0] == a);
    match a {
        ActionModel::WriteFile { content, .. } => {
            assert(imports_spec(content, username).to_set().union(Set::<Seq<char>>::empty())
                =~= imports_spec(content, username).to_set());
        },
        _ => {
            assert(Set::<Seq<char>>::empty().union(Set::<Seq<char>>::empty()) =~= Set::<
                Seq<char>,
            >::empty());
        },
    }
}

pub proof fn lemma_plan_deps_append(a: Seq<ActionModel>, b: Seq<ActionModel>, username: Seq<char>)
    ensures
        plan_deps(a + b, username) == plan_deps(a, username).union(plan_deps(b, username)),
    decreases a.len(),
{
    if a.len() == 0 {
        assert(a + b =~= b);
        assert(plan_deps(a, username).union(plan_deps(b, username)) =~= plan_deps(b, username));
    } else {
        assert((a + b).len() > 0);
        assert((a + b)[0] == a[0]);
        assert((a + b).skip(1) =~= a.skip(1) + b);
        lemma_plan_deps_append(a.skip(1), b, username);
        assert(plan_deps(a + b, username) =~= plan_deps(a, username).union(
            plan_deps(b, username),
        ));
    }
}

// ---------------------------------------------------------------------------
// Small executable helpers
// ---------------------------------------------------------------------------

pub proof fn lemma_to_set_push<A>(s: Seq<A>, x: A)
    ensures
        s.push(x).to_set() == s.to_set().insert(x),
{
    assert(s.push(x).to_set() =~= s.to_set().insert(x)) by {
        assert forall|a: A| s.push(x).to_set().contains(a) implies s.to_set().insert(x).contains(
            a,
        ) by {
            let i = choose|i: int| 0 <= i < s.push(x).len() && s.push(x)[i] == a;
            if i < s.len() {
                assert(s[i] == a);
            }
        }
        assert forall|a: A| s.to_set().insert(x).contains(a) implies s.push(x).to_set().contains(
            a,
        ) by {
            if s.to_set().contains(a) {
                let i = choose|i: int| 0 <= i < s.len() && s[i] == a;
                assert(s.push(x)[i] == a);
            } else {
                assert(s.push(x)[s.len() as int] == x);
            }
        }
    }
}

/// A copy of a segment path.
fn clone_path(path: &Vec<String>) -> (r: Vec<String>)
    ensures
        r.deep_view() == path.deep_view(),
{
    let mut out: Vec<String> = Vec::new();
    let mut i: usize = 0;
    while i < path.len()
        invariant
            i <= path@.len(),
            out.deep_view() == path.deep_view().take(i as int),
        decreases path@.len() - i,
    {
        let ghost prev = out.deep_view();
        out.push(path[i].clone());
        proof {
            assert(out.deep_view() =~~= prev.push(path@[i as int]@));
            assert(prev.push(path@[i as int]@) =~= path.deep_view().take(i + 1));
        }
        i += 1;
    }
    proof {
        assert(path.deep_view().take(path@.len() as int) =~= path.deep_view());
    }
    out
}

/// `path` with one more segment.
fn push_path(path: &Vec<String>, name: String) -> (r: Vec<String>)
    ensures
        r.deep_view() == path.deep_view().push(name@),
{
    let ghost nv = name@;
    let mut out = clone_path(path);
    let ghost prev = out.deep_view();
    out.push(name);
    proof {
        assert(out.deep_view() =~~= prev.push(nv));
    }
    out
}

fn contains_string(v: &Vec<String>, s: &String) -> (r: bool)
    ensures
        r == v.deep_view().contains(s@),
{
    let sv = str_to_chars(s.as_str());
    let mut i: usize = 0;
    while i < v.len()
        invariant
            sv@ == s@,
            i <= v@.len(),
            forall|k: int| 0 <= k < i ==> v.deep_view()[k] != s@,
        decreases v@.len() - i,
    {
        let el = str_to_chars(v[i].as_str());
        if eq_chars(&el, &sv) {
            assert(v.deep_view()[i as int] == s@);
            return true;
        }
        assert(v.deep_view()[i as int] == v@[i as int]@);
        i += 1;
    }
    assert(!v.deep_view().contains(s@));
    false
}

fn insert_unique(v: &mut Vec<String>, s: String)
    requires
        old(v).deep_view().no_duplicates(),
    ensures
        final(v).deep_view().to_set() == old(v).deep_view().to_set().insert(s@),
        final(v).deep_view().no_duplicates(),
{
    let ghost dv = v.deep_view();
    if contains_string(v, &s) {
        proof {
            assert(dv.to_set().contains(s@));
            assert(dv.to_set() =~= dv.to_set().insert(s@));
        }
    } else {
        let ghost sv = s@;
        v.push(s);
        proof {
            assert(v.deep_view() =~~= dv.push(sv));
            lemma_to_set_push(dv, sv);
            assert(dv.push(sv).no_duplicates()) by {
                assert(forall|k: int| 0 <= k < dv.len() ==> dv.push(sv)[k] == dv[k]);
                assert(dv.push(sv)[dv.len() as int] == sv);
            }
        }
    }
}

/// Folds `src` into `dst`, keeping `dst` free of duplicates.
fn merge_imports(dst: &mut Vec<String>, src: Vec<String>)
    requires
        old(dst).deep_view().no_duplicates(),
    ensures
        final(dst).deep_view().to_set() == old(dst).deep_view().to_set().union(
            src.deep_view().to_set(),
        ),
        final(dst).deep_view().no_duplicates(),
{
    let ghost orig = src.deep_view();
    let ghost base = old(dst).deep_view().to_set();
    let mut src = src;
    let mut k: usize = 0;
    proof {
        assert(orig.take(0) =~= Seq::<Seq<char>>::empty());
        assert(Seq::<Seq<char>>::empty().to_set() =~= Set::<Seq<char>>::empty());
        assert(base.union(Set::<Seq<char>>::empty()) =~= base);
    }
    while k < src.len()
        invariant
            k <= src@.len(),
            src.deep_view() == orig,
            dst.deep_view().to_set() == base.union(orig.take(k as int).to_set()),
            dst.deep_view().no_duplicates(),
        decreases src@.len() - k,
    {
        let ghost dset = dst.deep_view().to_set();
        let s = src[k].clone();
        proof {
            assert(s@ == orig[k as int]);
        }
        insert_unique(dst, s);
        proof {
            assert(orig.take(k + 1) =~= orig.take(k as int).push(orig[k as int]));
            lemma_to_set_push(orig.take(k as int), orig[k as int]);
            assert(base.union(orig.take(k as int).to_set()).insert(orig[k as int]) =~= base.union(
                orig.take(k + 1).to_set(),
            ));
        }
        k += 1;
    }
    proof {
        assert(orig.take(orig.len() as int) =~= orig);
    }
}

/// Moves every action of `src` to the end of `dst`.
fn extend_actions(dst: &mut Vec<Action>, src: Vec<Action>)
    ensures
        final(dst).deep_view() == old(dst).deep_view() + src.deep_view(),
{
    let ghost orig = src.deep_view();
    let ghost base = old(dst).deep_view();
    let mut src = src;
    proof {
        assert(base + orig =~= base + src.deep_view());
    }
    while src.len() > 0
        invariant
            dst.deep_view() + src.deep_view() == base + orig,
        decreases src@.len(),
    {
        let ghost before = src.deep_view();
        let ghost dprev = dst.deep_view();
        let a = src.remove(0);
        let ghost av = a.deep_view();
        proof {
            assert(src.deep_view() =~~= before.skip(1));
            assert(av == before[0]);
        }
        dst.push(a);
        proof {
            assert(dst.deep_view() =~~= dprev.push(av));
            assert(dprev.push(av) + before.skip(1) =~= dprev + before);
        }
    }
    proof {
        assert(src.deep_view() =~= Seq::<ActionModel>::empty());
        assert(dst.deep_view() + Seq::<ActionModel>::empty() =~= dst.deep_view());
    }
}

fn excluded_name(nv: &Vec<char>, inj: &Injectables) -> (r: bool)
    ensures
        r == dir_excluded(nv@, *inj),
{
    let conn = str_to_chars("connections");
    let dbn = str_to_chars("database");
    let sqln = str_to_chars("sql");
    let repo = str_to_chars("repository");
    (!inj.ws && eq_chars(nv, &conn)) || (!inj.db && (eq_chars(nv, &dbn) || eq_chars(nv, &sqln)
        || eq_chars(nv, &repo)))
}

/// Applies the filename rewrite and the file-level skip rules to one file;
/// a kept file comes back as its final name and its resolved content.
fn file_gate(f: &ProjectFile, inj: &Injectables) -> (r: Option<(String, String)>)
    ensures
        (match r {
            Some(nc) => !file_excluded(rewrite_name(f.filename@), *inj) && nc.0@ == rewrite_name(
                f.filename@,
            ) && nc.1@ == resolve_spec(f.content@, *inj),
            None => file_excluded(rewrite_name(f.filename@), *inj),
        }),
{
    let raw = str_to_chars(f.filename.as_str());
    let pre = str_to_chars("_.");
    proof {
        reveal_strlit("_.");
    }
    let rv: Vec<char> = if match_at(&raw, &pre, 0) {
        let t = subrange_chars(&raw, 1, raw.len());
        proof {
            assert(raw@.subrange(1, raw@.len() as int) =~= raw@.skip(1));
        }
        t
    } else {
        crate::chars::copy_chars(&raw)
    };
    proof {
        assert(rv@ == rewrite_name(f.filename@));
    }
    let mut a: usize = 0;
    while a < rv.len() && rv[a] != '.'
        invariant
            a <= rv@.len(),
            forall|k: int| 0 <= k < a ==> rv@[k] != '.',
        decreases rv@.len() - a,
    {
        a += 1;
    }
    proof {
        lemma_first_dot(rv@);
        let fd = first_dot(rv@);
        if fd < a {
            assert(rv@[fd] == '.');
        }
        if a < fd {
            assert(rv@[a as int] != '.');
        }
        assert(fd == a);
    }
    let stem = subrange_chars(&rv, 0, a);
    if excluded_name(&rv, inj) {
        return None;
    }
    if excluded_name(&stem, inj) {
        return None;
    }
    let suf = str_to_chars(".env");
    let suffixed: bool = if rv.len() >= suf.len() {
        let m = match_at(&rv, &suf, rv.len() - suf.len());
        proof {
            assert(rv@.subrange(
                rv@.len() - suf@.len(),
                rv@.len() - suf@.len() + suf@.len(),
            ) =~= rv@.subrange(rv@.len() - suf@.len(), rv@.len() as int));
            assert(m == ends_with(rv@, ".env"@));
        }
        m
    } else {
        false
    };
    if inj.secrets && suffixed {
        return None;
    }
    proof {
        assert(!file_excluded(rv@, *inj));
    }
    let name = chars_to_string(&rv);
    let content = resolve_content(f.content.as_str(), inj);
    Some((name, content))
}

/// The size of a corpus tree, the measure that the planner's recursion
/// descends on.
pub open spec fn dir_size(d: ProjectDir) -> nat
    decreases d, 0int, 0int,
{
    match d.dirs {
        Some(ds) => 1 + dirs_size(ds@),
        None => 1,
    }
}

pub open spec fn dirs_size(ds: Seq<ProjectDir>) -> nat
    decreases ds, 1int, ds.len(),
{
    if ds.len() == 0 {
        0
    } else {
        dir_size(ds[0]) + dirs_size(ds.skip(1))
    }
}

pub proof fn lemma_dirs_size_element(ds: Seq<ProjectDir>, j: int)
    requires
        0 <= j < ds.len(),
    ensures
        dir_size(ds[j]) <= dirs_size(ds),
    decreases j,
{
    if j == 0 {
    } else {
        lemma_dirs_size_element(ds.skip(1), j - 1);
        assert(ds.skip(1)[j - 1] == ds[j]);
    }
}

/// A scaffold plan: the filesystem actions to run in order, and the
/// deduplicated foreign-import set of everything the plan writes.
pub struct ScaffoldPlan {
    pub actions: Vec<Action>,
    pub imports: Vec<String>,
}

pub proof fn lemma_plan_of_unfold(d: ProjectDir, path: Seq<Seq<char>>, inj: Injectables)
    requires
        !dir_excluded(d.dirname@, inj),
    ensures
        plan_of(d, path, inj) == seq![ActionModel::MkDir { path }] + files_plan(
            files_of(d),
            path,
            inj,
        ) + (if d.dirname@ == "client"@ {
            seq![ActionModel::Install { path }]
        } else {
            Seq::<ActionModel>::empty()
        }) + dirs_plan(dirs_of(d), path, inj),
{
    match d.dirs {
        Some(ds) => {
            assert(dirs_of(d) == ds@);
        },
        None => {
            assert(dirs_of(d) =~= Seq::<ProjectDir>::empty());
            assert(dirs_plan(dirs_of(d), path, inj) =~= Seq::<ActionModel>::empty());
        },
    }
}

/// Walks one directory node and everything below it, producing the
/// actions that materialize it at `path` and the import set of the
/// written files. Pure planning: nothing here touches a filesystem.
#[verifier::loop_isolation(false)]
pub fn build_plan(dir: &ProjectDir, path: &Vec<String>, inj: &Injectables) -> (r: ScaffoldPlan)
    ensures
        r.actions.deep_view() == plan_of(*dir, path.deep_view(), *inj),
        r.imports.deep_view().to_set() == plan_deps(
            plan_of(*dir, path.deep_view(), *inj),
            inj.username@,
        ),
        r.imports.deep_view().no_duplicates(),
    decreases dir_size(*dir),
{
    let ghost pd = path.deep_view();
    let ghost u = inj.username@;
    let ghost target = plan_of(*dir, pd, *inj);
    let mut actions: Vec<Action> = Vec::new();
    let mut imports: Vec<String> = Vec::new();
    let dname = str_to_chars(dir.dirname.as_str());
    if excluded_name(&dname, inj) {
        proof {
            assert(target =~= Seq::<ActionModel>::empty());
            assert(actions.deep_view() =~= target);
            assert(imports.deep_view().to_set() =~= plan_deps(target, u));
        }
        return ScaffoldPlan { actions, imports };
    }
    let ghost fsv = files_of(*dir);
    let ghost dsv = dirs_of(*dir);
    let ghost ipart: Seq<ActionModel> = if dir.dirname@ == "client"@ {
        seq![ActionModel::Install { path: pd }]
    } else {
        Seq::<ActionModel>::empty()
    };
    proof {
        lemma_plan_of_unfold(*dir, pd, *inj);
    }
    let p0 = clone_path(path);
    actions.push(Action::MkDir { path: p0 });
    proof {
        assert(actions.deep_view() =~~= seq![ActionModel::MkDir { path: pd }]);
        lemma_plan_deps_single(ActionModel::MkDir { path: pd }, u);
        assert(imports.deep_view().to_set() =~= plan_deps(actions.deep_view(), u));
        assert(fsv.skip(0) =~= fsv);
    }
    match &dir.files {
        Some(fs) => {
            let mut i: usize = 0;
            while i < fs.len()
                invariant
                    i <= fs@.len(),
                    fsv == fs@,
                    target == actions.deep_view() + files_plan(fsv.skip(i as int), pd, *inj)
                        + ipart + dirs_plan(dsv, pd, *inj),
                    imports.deep_view().to_set() == plan_deps(actions.deep_view(), u),
                    imports.deep_view().no_duplicates(),
                decreases fs@.len() - i,
            {
                proof {
                    assert(fsv.skip(i as int)[0] == fsv[i as int]);
                    assert(fsv.skip(i as int).skip(1) =~= fsv.skip(i + 1));
                }
                let f = &fs[i];
                proof {
                    assert(*f == fsv[i as int]);
                }
                match file_gate(f, inj) {
                    Some(nc) => {
                        let (name, content) = nc;
                        proof {
                            assert(name == nc.0 && content == nc.1);
                            assert(name@ == rewrite_name(fsv[i as int].filename@));
                            assert(content@ == resolve_spec(fsv[i as int].content@, *inj));
                        }
                        let ex = extract_imports(content.as_str(), inj.username.as_str());
                        let ghost cv = content@;
                        let ghost nv = name@;
                        let p = push_path(path, name);
                        let ghost pv = p.deep_view();
                        let ghost aprev = actions.deep_view();
                        let ghost wf = ActionModel::WriteFile { path: pv, content: cv };
                        actions.push(Action::WriteFile { path: p, content });
                        proof {
                            assert(actions.deep_view() =~~= aprev.push(wf));
                            assert(pv == pd.push(rewrite_name(fsv[i as int].filename@)));
                            assert(cv == resolve_spec(fsv[i as int].content@, *inj));
                            assert(file_actions(fsv[i as int], pd, *inj) == seq![wf]) by {
                                assert(seq![wf] =~= seq![
                                    ActionModel::WriteFile {
                                        path: pd.push(rewrite_name(fsv[i as int].filename@)),
                                        content: resolve_spec(fsv[i as int].content@, *inj),
                                    },
                                ]);
                            }
                            assert(aprev.push(wf) =~= aprev + seq![wf]);
                            assert((aprev + seq![wf]) + files_plan(fsv.skip(i + 1), pd, *inj)
                                =~= aprev + (seq![wf] + files_plan(fsv.skip(i + 1), pd, *inj)));
                            lemma_plan_deps_append(aprev, seq![wf], u);
                            lemma_plan_deps_single(wf, u);
                        }
                        merge_imports(&mut imports, ex);
                        proof {
                            assert(imports.deep_view().to_set() =~= plan_deps(
                                actions.deep_view(),
                                u,
                            ));
                        }
                    },
                    None => {
                        proof {
                            assert(file_actions(fsv[i as int], pd, *inj) =~= Seq::<
                                ActionModel,
                            >::empty());
                            assert(Seq::<ActionModel>::empty() + files_plan(
                                fsv.skip(i + 1),
                                pd,
                                *inj,
                            ) =~= files_plan(fsv.skip(i + 1), pd, *inj));
                        }
                    },
                }
                i += 1;
            }
            proof {
                assert(fsv.skip(fsv.len() as int) =~= Seq::<ProjectFile>::empty());
            }
        },
        None => {
            proof {
                assert(fsv =~= Seq::<ProjectFile>::empty());
            }
        },
    }
    proof {
        assert(files_plan(Seq::<ProjectFile>::empty(), pd, *inj) =~= Seq::<ActionModel>::empty());
        assert(actions.deep_view() + Seq::<ActionModel>::empty() =~= actions.deep_view());
        assert(target == actions.deep_view() + ipart + dirs_plan(dsv, pd, *inj));
    }
    let cl = str_to_chars("client");
    if eq_chars(&dname, &cl) {
        let p1 = clone_path(path);
        let ghost aprev = actions.deep_view();
        let ghost ins = ActionModel::Install { path: pd };
        actions.push(Action::Install { path: p1 });
        proof {
            assert(ipart == seq![ins]);
            assert(actions.deep_view() =~~= aprev.push(ins));
            assert(aprev.push(ins) =~= aprev + seq![ins]);
            lemma_plan_deps_append(aprev, seq![ins], u);
            lemma_plan_deps_single(ins, u);
            assert(plan_deps(aprev, u).union(Set::<Seq<char>>::empty()) =~= plan_deps(aprev, u));
            assert(imports.deep_view().to_set() =~= plan_deps(actions.deep_view(), u));
        }
    } else {
        proof {
            assert(ipart =~= Seq::<ActionModel>::empty());
            assert(actions.deep_view() + ipart =~= actions.deep_view());
        }
    }
    proof {
        assert(target == actions.deep_view() + dirs_plan(dsv, pd, *inj));
        assert(dsv.skip(0) =~= dsv);
    }
    match &dir.dirs {
        Some(ds) => {
            let mut j: usize = 0;
            while j < ds.len()
                invariant
                    j <= ds@.len(),
                    dsv == ds@,
                    target == actions.deep_view() + dirs_plan(dsv.skip(j as int), pd, *inj),
                    imports.deep_view().to_set() == plan_deps(actions.deep_view(), u),
                    imports.deep_view().no_duplicates(),
                decreases ds@.len() - j,
            {
                proof {
                    assert(dsv.skip(j as int)[0] == dsv[j as int]);
                    assert(dsv.skip(j as int).skip(1) =~= dsv.skip(j + 1));
                }
                let sub = &ds[j];
                proof {
                    assert(*sub == dsv[j as int]);
                    assert(dir_size(*dir) == 1 + dirs_size(ds@));
                    lemma_dirs_size_element(ds@, j as int);
                    assert(dir_size(*sub) < dir_size(*dir));
                }
                let dn = sub.dirname.clone();
                proof {
                    assert(dn@ == dsv[j as int].dirname@);
                }
                let p2 = push_path(path, dn);
                let subplan = build_plan(sub, &p2, inj);
                let ghost aprev = actions.deep_view();
                let ghost subdv = subplan.actions.deep_view();
                let ghost subimp = subplan.imports.deep_view().to_set();
                let ghost merged = imports.deep_view().to_set();
                extend_actions(&mut actions, subplan.actions);
                proof {
                    assert(p2.deep_view() == pd.push(dsv[j as int].dirname@));
                    assert(subdv == plan_of(dsv[j as int], pd.push(dsv[j as int].dirname@), *inj));
                    assert((aprev + subdv) + dirs_plan(dsv.skip(j + 1), pd, *inj) =~= aprev + (
                    subdv + dirs_plan(dsv.skip(j + 1), pd, *inj)));
                    lemma_plan_deps_append(aprev, subdv, u);
                }
                merge_imports(&mut imports, subplan.imports);
                proof {
                    assert(imports.deep_view().to_set() =~= plan_deps(actions.deep_view(), u));
                }
                j += 1;
            }
            proof {
                assert(dsv.skip(dsv.len() as int) =~= Seq::<ProjectDir>::empty());
            }
        },
        None => {
            proof {
                assert(dsv =~= Seq::<ProjectDir>::empty());
            }
        },
    }
    proof {
        assert(dirs_plan(Seq::<ProjectDir>::empty(), pd, *inj) =~= Seq::<ActionModel>::empty());
        assert(actions.deep_view() + Seq::<ActionModel>::empty() =~= actions.deep_view());
        assert(actions.deep_view() == target);
    }
    ScaffoldPlan { actions, imports }
}

} // verus!
