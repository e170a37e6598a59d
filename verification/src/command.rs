//! The process builder: executable path, argument list, environment
//! overrides, and the routing of the three standard streams.

use crate::stdio::Stdio;
use crate::stdio::StdioType;
use crate::stdio::stdio_ty_wf;
use vstd::prelude::*;
use vstd::string::StringExecFns;

verus! {

/// The mathematical content of a `Command`.
#[verifier::ext_equal]
pub ghost struct CommandModel {
    pub path: Seq<char>,
    pub args: Seq<Seq<char>>,
    pub env: Seq<(Seq<char>, Seq<char>)>,
    pub stdin: StdioType,
    pub stdout: StdioType,
    pub stderr: StdioType,
}

/// The environment-override mapping described by a sequence of key/value
/// pairs: a later pair for the same key replaces the earlier one.
pub open spec fn env_map_of(pairs: Seq<(Seq<char>, Seq<char>)>) -> Map<Seq<char>, Seq<char>>
    decreases pairs.len(),
{
    if pairs.len() == 0 {
        Map::empty()
    } else {
        env_map_of(pairs.drop_last()).insert(pairs.last().0, pairs.last().1)
    }
}

/// Whether one of the pairs carries the given key.
pub open spec fn has_env_key(pairs: Seq<(Seq<char>, Seq<char>)>, key: Seq<char>) -> bool {
    exists|i: int| 0 <= i < pairs.len() && pairs[i].0 == key
}

/// The view of a vector of key/value pairs.
pub open spec fn pairs_view(v: Seq<(String, String)>) -> Seq<(Seq<char>, Seq<char>)> {
    v.map_values(|p: (String, String)| (p.0@, p.1@))
}

/// Keep a pair only when no override replaces its key.
pub open spec fn not_overridden(ov: Seq<(Seq<char>, Seq<char>)>) -> spec_fn(
    (Seq<char>, Seq<char>),
) -> bool {
    |p: (Seq<char>, Seq<char>)| !has_env_key(ov, p.0)
}

/// The environment a child is given: the caller's pairs whose keys are
/// not overridden, in their order, followed by every override, in the
/// order recorded.
pub open spec fn spec_merged_env(
    base: Seq<(Seq<char>, Seq<char>)>,
    ov: Seq<(Seq<char>, Seq<char>)>,
) -> Seq<(Seq<char>, Seq<char>)> {
    base.filter(not_overridden(ov)) + ov
}

/// A process to spawn: path (used as the program's zeroth argument),
/// arguments, environment overrides, and three stream routings, all
/// `Inherit` by default.
pub struct Command {
    path: String,
    args: Vec<String>,
    env: Vec<(String, String)>,
    stdin: Stdio,
    stdout: Stdio,
    stderr: Stdio,
}

impl View for Command {
    type V = CommandModel;

    closed spec fn view(&self) -> CommandModel {
        CommandModel {
            path: self.path@,
            args: self.args@.map_values(|s: String| s@),
            env: self.env@.map_values(|p: (String, String)| (p.0@, p.1@)),
            stdin: self.stdin@,
            stdout: self.stdout@,
            stderr: self.stderr@,
        }
    }
}

impl Command {
    /// A new command for the given path, stored verbatim — no resolution
    /// happens until a spawn; no arguments, no overrides, all three
    /// streams inherited.
    pub fn new(path: &str) -> (c: Command)
        ensures
            c@ == (CommandModel {
                path: path@,
                args: Seq::empty(),
                env: Seq::empty(),
                stdin: StdioType::Inherit,
                stdout: StdioType::Inherit,
                stderr: StdioType::Inherit,
            }),
    {
        let c = Command {
            path: path.to_owned(),
            args: Vec::new(),
            env: Vec::new(),
            stdin: Stdio::inherit(),
            stdout: Stdio::inherit(),
            stderr: Stdio::inherit(),
        };
        proof {
            assert(c@ =~= (CommandModel {
                path: path@,
                args: Seq::empty(),
                env: Seq::empty(),
                stdin: StdioType::Inherit,
                stdout: StdioType::Inherit,
                stderr: StdioType::Inherit,
            }));
        }
        c
    }

    /// Append one argument.
    pub fn arg(&mut self, arg: &str) -> (r: &mut Command)
        ensures
            r@ == (CommandModel { args: old(self)@.args.push(arg@), ..old(self)@ }),
            *final(self) == *final(r),
    {
        self.args.push(arg.to_owned());
        proof {
            assert(self@ =~= (CommandModel { args: old(self)@.args.push(arg@), ..old(self)@ }));
        }
        self
    }

    /// Record one environment override; a later override of the same key
    /// replaces the earlier one in the mapping handed to the child.
    pub fn env(&mut self, key: &str, val: &str) -> (r: &mut Command)
        ensures
            r@ == (CommandModel { env: old(self)@.env.push((key@, val@)), ..old(self)@ }),
            env_map_of(r@.env) == env_map_of(old(self)@.env).insert(key@, val@),
            *final(self) == *final(r),
    {
        self.env.push((key.to_owned(), val.to_owned()));
        proof {
            assert(self@ =~= (CommandModel { env: old(self)@.env.push((key@, val@)), ..old(self)@ }));
            assert(self@.env.drop_last() =~= old(self)@.env);
        }
        self
    }

    /// Route the child's standard input.
    pub fn stdin(&mut self, cfg: Stdio) -> (r: &mut Command)
        ensures
            r@ == (CommandModel { stdin: cfg@, ..old(self)@ }),
            *final(self) == *final(r),
    {
        self.stdin = cfg;
        proof {
            assert(self@ =~= (CommandModel { stdin: cfg@, ..old(self)@ }));
        }
        self
    }

    /// Route the child's standard output.
    pub fn stdout(&mut self, cfg: Stdio) -> (r: &mut Command)
        ensures
            r@ == (CommandModel { stdout: cfg@, ..old(self)@ }),
            *final(self) == *final(r),
    {
        self.stdout = cfg;
        proof {
            assert(self@ =~= (CommandModel { stdout: cfg@, ..old(self)@ }));
        }
        self
    }

    /// Route the child's standard error.
    pub fn stderr(&mut self, cfg: Stdio) -> (r: &mut Command)
        ensures
            r@ == (CommandModel { stderr: cfg@, ..old(self)@ }),
            *final(self) == *final(r),
    {
        self.stderr = cfg;
        proof {
            assert(self@ =~= (CommandModel { stderr: cfg@, ..old(self)@ }));
        }
        self
    }

    /// The stored path, verbatim.
    pub fn path(&self) -> (r: &String)
        ensures
            r@ == self@.path,
    {
        &self.path
    }

    /// The stored arguments, in order.
    pub fn args(&self) -> (r: &Vec<String>)
        ensures
            r@.map_values(|s: String| s@) == self@.args,
    {
        &self.args
    }

    /// The recorded environment overrides, in the order given.
    pub fn env_pairs(&self) -> (r: &Vec<(String, String)>)
        ensures
            r@.map_values(|p: (String, String)| (p.0@, p.1@)) == self@.env,
    {
        &self.env
    }

    /// Consume the three stream routings of this spawn attempt: hand
    /// them out once and leave `Inherit` behind, so no descriptor is
    /// offered to a second spawn.
    pub fn take_stdio(&mut self) -> (t: (StdioType, StdioType, StdioType))
        ensures
            t.0 == old(self)@.stdin,
            t.1 == old(self)@.stdout,
            t.2 == old(self)@.stderr,
            stdio_ty_wf(t.0) && stdio_ty_wf(t.1) && stdio_ty_wf(t.2),
            final(self)@ == (CommandModel {
                stdin: StdioType::Inherit,
                stdout: StdioType::Inherit,
                stderr: StdioType::Inherit,
                ..old(self)@
            }),
    {
        let t = (self.stdin.ty(), self.stdout.ty(), self.stderr.ty());
        self.stdin = Stdio::inherit();
        self.stdout = Stdio::inherit();
        self.stderr = Stdio::inherit();
        proof {
            assert(self@ =~= (CommandModel {
                stdin: StdioType::Inherit,
                stdout: StdioType::Inherit,
                stderr: StdioType::Inherit,
                ..old(self)@
            }));
        }
        t
    }
}

/// No two pairs carry the same key.
pub open spec fn unique_env_keys(pairs: Seq<(Seq<char>, Seq<char>)>) -> bool {
    forall|i: int, j: int| 0 <= i < j < pairs.len() ==> pairs[i].0 != pairs[j].0
}

/// Replacing the pair at the last position that carries a key changes the
/// described mapping exactly as inserting that key does.
proof fn lemma_env_map_update(s: Seq<(Seq<char>, Seq<char>)>, i: int, kv: (Seq<char>, Seq<char>))
    requires
        0 <= i < s.len(),
        s[i].0 == kv.0,
        forall|j: int| i < j < s.len() ==> s[j].0 != kv.0,
    ensures
        env_map_of(s.update(i, kv)) == env_map_of(s).insert(kv.0, kv.1),
    decreases s.len(),
{
    let t = s.update(i, kv);
    if i == s.len() - 1 {
        assert(t.drop_last() =~= s.drop_last());
        assert(t.last() == kv);
        assert(env_map_of(t) =~= env_map_of(s).insert(kv.0, kv.1));
    } else {
        assert(t.drop_last() =~= s.drop_last().update(i, kv));
        assert(t.last() == s.last());
        lemma_env_map_update(s.drop_last(), i, kv);
        assert(env_map_of(t) =~= env_map_of(s).insert(kv.0, kv.1));
    }
}

/// The position of the pair that carries the given key, if any.
fn env_find_key(pairs: &Vec<(String, String)>, key: &String) -> (r: Option<usize>)
    ensures
        (match r {
            Some(ix) => ix < pairs@.len() && pairs_view(pairs@)[ix as int].0 == key@,
            None => !has_env_key(pairs_view(pairs@), key@),
        }),
{
    let n = pairs.len();
    let mut i: usize = 0;
    while i < n
        invariant
            n == pairs@.len(),
            i <= n,
            forall|j: int| 0 <= j < i ==> pairs_view(pairs@)[j].0 != key@,
        decreases n - i,
    {
        if pairs[i].0 == *key {
            proof {
                assert(pairs_view(pairs@)[i as int].0 == key@);
            }
            return Some(i);
        }
        proof {
            assert(pairs_view(pairs@)[i as int].0 == pairs@[i as int].0@);
        }
        i = i + 1;
    }
    None
}

/// Collapse recorded overrides to one pair per key — a later override of
/// a key replaces the earlier one's value in place — so that the child's
/// environment carries each key once, with exactly the mapping the
/// recorded sequence describes.
pub fn collapse_env(pairs: &Vec<(String, String)>) -> (r: Vec<(String, String)>)
    ensures
        env_map_of(pairs_view(r@)) == env_map_of(pairs_view(pairs@)),
        unique_env_keys(pairs_view(r@)),
{
    let ghost pv = pairs_view(pairs@);
    let mut out: Vec<(String, String)> = Vec::new();
    proof {
        assert(pv.take(0) =~= Seq::<(Seq<char>, Seq<char>)>::empty());
        assert(pairs_view(out@) =~= Seq::<(Seq<char>, Seq<char>)>::empty());
    }
    let n = pairs.len();
    let mut i: usize = 0;
    while i < n
        invariant
            n == pairs@.len(),
            pv == pairs_view(pairs@),
            i <= n,
            env_map_of(pairs_view(out@)) == env_map_of(pv.take(i as int)),
            unique_env_keys(pairs_view(out@)),
        decreases n - i,
    {
        let ghost pre = pairs_view(out@);
        let kv = (pairs[i].0.clone(), pairs[i].1.clone());
        proof {
            assert(pv[i as int] == (pairs@[i as int].0@, pairs@[i as int].1@));
            assert(pv.take(i as int + 1).drop_last() =~= pv.take(i as int));
            assert(pv.take(i as int + 1).last() == pv[i as int]);
        }
        match env_find_key(&out, &kv.0) {
            Some(ix) => {
                out[ix] = kv;
                proof {
                    assert(pairs_view(out@) =~= pre.update(ix as int, pv[i as int]));
                    lemma_env_map_update(pre, ix as int, pv[i as int]);
                }
            },
            None => {
                out.push(kv);
                proof {
                    assert(pairs_view(out@) =~= pre.push(pv[i as int]));
                    assert(pairs_view(out@).drop_last() =~= pre);
                }
            },
        }
        i = i + 1;
    }
    proof {
        assert(pv.take(n as int) =~= pv);
    }
    out
}

/// The set of keys a sequence of pairs carries.
pub open spec fn env_keys(pairs: Seq<(Seq<char>, Seq<char>)>) -> Set<Seq<char>> {
    Set::new(|k: Seq<char>| has_env_key(pairs, k))
}

/// A mapping's domain is exactly the keys its pairs carry.
proof fn lemma_env_map_dom(s: Seq<(Seq<char>, Seq<char>)>)
    ensures
        forall|k: Seq<char>| #[trigger] env_map_of(s).dom().contains(k) <==> has_env_key(s, k),
    decreases s.len(),
{
    if s.len() == 0 {
    } else {
        lemma_env_map_dom(s.drop_last());
        assert forall|k: Seq<char>| #[trigger]
            env_map_of(s).dom().contains(k) <==> has_env_key(s, k) by {
            assert(env_map_of(s) == env_map_of(s.drop_last()).insert(s.last().0, s.last().1));
            if env_map_of(s).dom().contains(k) {
                if k == s.last().0 {
                    assert(s[s.len() - 1].0 == k);
                } else {
                    assert(env_map_of(s.drop_last()).dom().contains(k));
                    assert(has_env_key(s.drop_last(), k));
                    let i = choose|i: int|
                        0 <= i < s.drop_last().len() && s.drop_last()[i].0 == k;
                    assert(s.drop_last()[i] == s[i]);
                    assert(s[i].0 == k);
                }
            }
            if has_env_key(s, k) {
                let i = choose|i: int| 0 <= i < s.len() && s[i].0 == k;
                if i < s.len() - 1 {
                    assert(s.drop_last()[i].0 == k);
                    assert(has_env_key(s.drop_last(), k));
                }
            }
        }
    }
}

/// Concatenated pair sequences describe the second mapping laid over the
/// first.
proof fn lemma_env_map_concat(a: Seq<(Seq<char>, Seq<char>)>, b: Seq<(Seq<char>, Seq<char>)>)
    ensures
        env_map_of(a + b) == env_map_of(a).union_prefer_right(env_map_of(b)),
    decreases b.len(),
{
    if b.len() == 0 {
        assert(a + b =~= a);
        assert(env_map_of(a).union_prefer_right(env_map_of(b)) =~= env_map_of(a));
    } else {
        lemma_env_map_concat(a, b.drop_last());
        assert((a + b).drop_last() =~= a + b.drop_last());
        assert((a + b).last() == b.last());
        assert(env_map_of(a + b) =~= env_map_of(a).union_prefer_right(env_map_of(b)));
    }
}

/// Filtering out the overridden pairs removes exactly the overridden
/// keys from the described mapping.
proof fn lemma_env_map_filter(b: Seq<(Seq<char>, Seq<char>)>, o: Seq<(Seq<char>, Seq<char>)>)
    ensures
        env_map_of(b.filter(not_overridden(o))) == env_map_of(b).remove_keys(env_keys(o)),
    decreases b.len(),
{
    reveal(Seq::filter);
    if b.len() == 0 {
        assert(env_map_of(b).remove_keys(env_keys(o)) =~= Map::empty());
    } else {
        lemma_env_map_filter(b.drop_last(), o);
        let pred = not_overridden(o);
        let bf = b.filter(pred);
        if pred(b.last()) {
            assert(bf == b.drop_last().filter(pred).push(b.last()));
            assert(bf.drop_last() =~= b.drop_last().filter(pred));
            assert(bf.last() == b.last());
            assert(env_map_of(bf) =~= env_map_of(b).remove_keys(env_keys(o)));
        } else {
            assert(bf == b.drop_last().filter(pred));
            assert(env_keys(o).contains(b.last().0));
            assert(env_map_of(bf) =~= env_map_of(b).remove_keys(env_keys(o)));
        }
    }
}

/// The merged environment means exactly what it should: the base mapping
/// with every override laid over it — an overridden key takes the
/// override's value, every other key keeps the base's, and no other key
/// exists.
pub proof fn lemma_merged_env_map(b: Seq<(Seq<char>, Seq<char>)>, o: Seq<(Seq<char>, Seq<char>)>)
    ensures
        env_map_of(spec_merged_env(b, o)) == env_map_of(b).union_prefer_right(env_map_of(o)),
{
    lemma_env_map_concat(b.filter(not_overridden(o)), o);
    lemma_env_map_filter(b, o);
    lemma_env_map_dom(o);
    assert(env_map_of(spec_merged_env(b, o)) =~= env_map_of(b).union_prefer_right(env_map_of(o)));
}

/// One environment entry in the form the exec call takes: `key=value`.
pub fn env_entry(key: &str, val: &str) -> (r: String)
    ensures
        r@ == key@ + seq!['='] + val@,
{
    let mut s = key.to_owned();
    s.append("=");
    proof {
        reveal_strlit("=");
        assert("="@ =~= seq!['=']);
    }
    s.append(val);
    s
}

/// Whether one of the pairs carries the given key.
fn env_has_key(pairs: &Vec<(String, String)>, key: &String) -> (r: bool)
    ensures
        r == has_env_key(pairs_view(pairs@), key@),
{
    let n = pairs.len();
    let mut i: usize = 0;
    while i < n
        invariant
            n == pairs@.len(),
            i <= n,
            forall|j: int| 0 <= j < i ==> pairs_view(pairs@)[j].0 != key@,
        decreases n - i,
    {
        if pairs[i].0 == *key {
            proof {
                assert(pairs_view(pairs@)[i as int].0 == key@);
            }
            return true;
        }
        proof {
            assert(pairs_view(pairs@)[i as int].0 == pairs@[i as int].0@);
        }
        i = i + 1;
    }
    false
}

/// Merge environment overrides into the environment the caller already
/// has: overridden keys take the override's value, everything else is
/// kept, and the overrides come last, exactly as `spec_merged_env` says.
pub fn merge_env(base: &Vec<(String, String)>, overrides: &Vec<(String, String)>) -> (r: Vec<
    (String, String),
>)
    ensures
        pairs_view(r@) == spec_merged_env(pairs_view(base@), pairs_view(overrides@)),
{
    let ghost ov = pairs_view(overrides@);
    let ghost basev = pairs_view(base@);
    let mut out: Vec<(String, String)> = Vec::new();
    proof {
        reveal(Seq::filter);
        assert(basev.take(0) =~= Seq::<(Seq<char>, Seq<char>)>::empty());
        assert(pairs_view(out@) =~= basev.take(0).filter(not_overridden(ov)));
    }
    let n = base.len();
    let mut i: usize = 0;
    while i < n
        invariant
            n == base@.len(),
            i <= n,
            basev == pairs_view(base@),
            ov == pairs_view(overrides@),
            pairs_view(out@) == basev.take(i as int).filter(not_overridden(ov)),
        decreases n - i,
    {
        let ghost pre = pairs_view(out@);
        let keep = !env_has_key(overrides, &base[i].0);
        if keep {
            out.push((base[i].0.clone(), base[i].1.clone()));
        }
        proof {
            reveal(Seq::filter);
            let step = basev.take(i as int + 1);
            assert(step.drop_last() =~= basev.take(i as int));
            assert(step.last() == basev[i as int]);
            assert(basev[i as int] == (base@[i as int].0@, base@[i as int].1@));
            if keep {
                assert(pairs_view(out@) =~= pre.push(basev[i as int]));
                assert(step.filter(not_overridden(ov)) == basev.take(i as int).filter(
                    not_overridden(ov),
                ).push(basev[i as int]));
            } else {
                assert(step.filter(not_overridden(ov)) == basev.take(i as int).filter(
                    not_overridden(ov),
                ));
            }
        }
        i = i + 1;
    }
    proof {
        assert(basev.take(n as int) =~= basev);
    }
    let m = overrides.len();
    let mut k: usize = 0;
    while k < m
        invariant
            m == overrides@.len(),
            k <= m,
            basev == pairs_view(base@),
            ov == pairs_view(overrides@),
            pairs_view(out@) == basev.filter(not_overridden(ov)) + ov.take(k as int),
        decreases m - k,
    {
        let ghost pre = pairs_view(out@);
        out.push((overrides[k].0.clone(), overrides[k].1.clone()));
        proof {
            assert(ov[k as int] == (overrides@[k as int].0@, overrides@[k as int].1@));
            assert(pairs_view(out@) =~= pre.push(ov[k as int]));
            assert(ov.take(k as int + 1) =~= ov.take(k as int).push(ov[k as int]));
            assert(pairs_view(out@) =~= basev.filter(not_overridden(ov)) + ov.take(k as int + 1));
        }
        k = k + 1;
    }
    proof {
        assert(ov.take(m as int) =~= ov);
        assert(pairs_view(out@) =~= spec_merged_env(basev, ov));
    }
    out
}

} // verus!
