//! The configuration tree: named targets, each with an optional exec
//! specification, guard conditions, hooks and watch paths. Loaded once per
//! invocation and immutable thereafter.

use vstd::prelude::*;

use crate::envvars::{string_eq, EnvVars};
use crate::paths::clone_strings;

verus! {

/// An environment-file field: either a single path or an ordered list of
/// paths. Normalized into a list immediately; the order decides precedence.
#[derive(Debug)]
pub enum FileOrFiles {
    File(String),
    Files(Vec<String>),
}

impl FileOrFiles {
    /// The ordered list of paths this field stands for.
    pub open spec fn spec_paths(&self) -> Seq<Seq<char>> {
        match self {
            FileOrFiles::File(p) => seq![p@],
            FileOrFiles::Files(v) => v.deep_view(),
        }
    }

    /// Normalizes the field into an ordered list of paths.
    pub fn to_paths(&self) -> (r: Vec<String>)
        ensures
            r.deep_view() == self.spec_paths(),
    {
        match self {
            FileOrFiles::File(p) => {
                let mut r: Vec<String> = Vec::new();
                r.push(p.clone());
                proof {
                    assert(r.deep_view() =~~= seq![p@]);
                }
                r
            },
            FileOrFiles::Files(v) => clone_strings(v),
        }
    }
}

/// What to execute: a program, its arguments, literal environment variables,
/// optional environment files and an optional working directory.
#[derive(Debug)]
pub struct ExecConfig {
    pub program: String,
    pub args: Vec<String>,
    pub env: EnvVars,
    pub env_file: Option<FileOrFiles>,
    pub cwd: Option<String>,
}

/// The merged view of a sequence of environment-variable sets: a later set
/// overrides an earlier one wherever both bind a key.
pub open spec fn merged_files(s: Seq<EnvVars>) -> Map<Seq<char>, Seq<char>>
    decreases s.len(),
{
    if s.len() == 0 {
        Map::empty()
    } else {
        merged_files(s.drop_last()).union_prefer_right(s.last()@)
    }
}

/// Merges environment-file variable sets (later files overriding earlier
/// ones) and lets the configuration-literal variables override them all.
pub fn merged_env(literal: &EnvVars, file_maps: &Vec<EnvVars>) -> (r: EnvVars)
    ensures
        r@ == merged_files(file_maps@).union_prefer_right(literal@),
{
    let mut acc = EnvVars::new();
    let n = file_maps.len();
    for i in 0..n
        invariant
            n == file_maps@.len(),
            acc@ == merged_files(file_maps@.take(i as int)),
    {
        acc.extend_over(&file_maps[i]);
        proof {
            assert(file_maps@.take(i as int + 1).drop_last() =~~= file_maps@.take(i as int));
            assert(file_maps@.take(i as int + 1).last() == file_maps@[i as int]);
        }
    }
    proof {
        assert(file_maps@.take(n as int) =~~= file_maps@);
    }
    acc.extend_over(literal);
    acc
}

/// Configuration-literal variables always win: whatever any environment file
/// says about a key the literal set binds, the merged result holds the
/// literal value.
pub proof fn lemma_literal_env_wins(
    file_maps: Seq<EnvVars>,
    literal: Map<Seq<char>, Seq<char>>,
    k: Seq<char>,
)
    requires
        literal.dom().contains(k),
    ensures
        merged_files(file_maps).union_prefer_right(literal).dom().contains(k),
        merged_files(file_maps).union_prefer_right(literal)[k] == literal[k],
{
}

/// Among environment files, the last file that binds a key decides its value,
/// provided the literal variables do not bind it.
pub proof fn lemma_later_file_wins(file_maps: Seq<EnvVars>, j: int, k: Seq<char>)
    requires
        0 <= j < file_maps.len(),
        file_maps[j]@.dom().contains(k),
        forall|l: int| j < l < file_maps.len() ==> !file_maps[l]@.dom().contains(k),
    ensures
        merged_files(file_maps).dom().contains(k),
        merged_files(file_maps)[k] == file_maps[j]@[k],
    decreases file_maps.len(),
{
    if j == file_maps.len() - 1 {
    } else {
        assert(!file_maps.last()@.dom().contains(k));
        assert(file_maps.drop_last()[j] == file_maps[j]);
        lemma_later_file_wins(file_maps.drop_last(), j, k);
    }
}

impl ExecConfig {
    /// The effective environment for this exec specification: the variables
    /// of each listed environment file, later files overriding earlier ones,
    /// with the configuration-literal variables overriding them all. Fails
    /// with the reading or parsing error of the first offending file.
    pub fn all_vars(&self) -> (r: Result<EnvVars, String>)
        ensures
            self.env_file is None ==> r is Ok && r.unwrap()@ == self.env@,
            r is Ok ==> forall|k: Seq<char>|
                self.env@.dom().contains(k) ==> r.unwrap()@.dom().contains(k)
                    && #[trigger] r.unwrap()@[k] == self.env@[k],
            r is Ok ==> exists|file_vars: Seq<EnvVars>|
                r.unwrap()@ == merged_files(file_vars).union_prefer_right(self.env@),
    {
        match &self.env_file {
            None => {
                let copied = self.env.clone_vars();
                proof {
                    let empty = Seq::<EnvVars>::empty();
                    assert(merged_files(empty).union_prefer_right(self.env@) =~~= self.env@);
                    assert(copied@ == merged_files(empty).union_prefer_right(self.env@));
                }
                Ok(copied)
            },
            Some(ff) => {
                let paths = ff.to_paths();
                let mut file_maps: Vec<EnvVars> = Vec::new();
                let n = paths.len();
                for i in 0..n
                    invariant
                        n == paths@.len(),
                        self.env_file is Some,
                {
                    match crate::envvars::read_env_file(&paths[i]) {
                        Ok(entries) => file_maps.push(EnvVars { entries }),
                        Err(e) => {
                            return Err(e);
                        },
                    }
                }
                let merged = merged_env(&self.env, &file_maps);
                proof {
                    assert forall|k: Seq<char>| self.env@.dom().contains(k) implies merged@.dom()
                        .contains(k) && #[trigger] merged@[k] == self.env@[k] by {
                        lemma_literal_env_wins(file_maps@, self.env@, k);
                    }
                    assert(merged@ == merged_files(file_maps@).union_prefer_right(self.env@));
                }
                Ok(merged)
            },
        }
    }
}

/// A guard condition: run a process and look at its exit status, or test a
/// path on the filesystem.
#[derive(Debug)]
pub enum TargetCheck {
    /// Holds when the process exits successfully.
    ExecOk(ExecConfig),
    /// Holds when the process exits with a failure status.
    ExecErr(ExecConfig),
    /// Holds when the path exists.
    PathExists { path: String },
    /// Holds when the path is a regular file.
    PathIsFile { path: String },
    /// Holds when the path is a directory.
    PathIsDir { path: String },
}

/// A guard condition together with its `invert` flag, which flips the result.
#[derive(Debug)]
pub struct TargetCheckConfig {
    pub when: TargetCheck,
    pub invert: bool,
}

/// The set of filesystem paths watch mode observes for this target.
#[derive(Debug)]
pub struct WatchConfig {
    pub paths: Vec<String>,
}

/// One named unit of work: what to execute, when to run it, and which other
/// targets to invoke before and after.
#[derive(Debug)]
pub struct TargetConfig {
    pub description: Option<String>,
    pub exec_spec: Option<ExecConfig>,
    pub run_when: Vec<TargetCheckConfig>,
    pub before_hooks: Vec<String>,
    pub after_hooks: Vec<String>,
    pub watch: WatchConfig,
}

/// The first target with the given name, searching the entries in order.
pub open spec fn lookup_targets(s: Seq<(String, TargetConfig)>, name: Seq<char>) -> Option<
    TargetConfig,
>
    decreases s.len(),
{
    if s.len() == 0 {
        None
    } else if s[0].0@ == name {
        Some(s[0].1)
    } else {
        lookup_targets(s.drop_first(), name)
    }
}

/// A whole configuration: a mapping from target name to target.
#[derive(Debug)]
pub struct Config {
    pub targets: Vec<(String, TargetConfig)>,
}

impl Config {
    /// The target the given name resolves to, if any.
    pub open spec fn spec_target(&self, name: Seq<char>) -> Option<TargetConfig> {
        lookup_targets(self.targets@, name)
    }

    /// Resolves a target name.
    pub fn get_target(&self, name: &String) -> (r: Option<&TargetConfig>)
        ensures
            r is Some <==> self.spec_target(name@) is Some,
            r is Some ==> *r.unwrap() == self.spec_target(name@).unwrap(),
    {
        let n = self.targets.len();
        proof {
            assert(self.targets@.skip(0) =~~= self.targets@);
        }
        for i in 0..n
            invariant
                n == self.targets@.len(),
                lookup_targets(self.targets@, name@) == lookup_targets(
                    self.targets@.skip(i as int),
                    name@,
                ),
        {
            proof {
                assert(self.targets@.skip(i as int)[0] == self.targets@[i as int]);
                assert(self.targets@.skip(i as int).drop_first() =~~= self.targets@.skip(
                    i as int + 1,
                ));
            }
            if string_eq(&self.targets[i].0, name) {
                return Some(&self.targets[i].1);
            }
        }
        None
    }
}

/// A target name, once resolved, stands for exactly one target for the whole
/// invocation: the configuration is immutable, so any two resolutions of the
/// same name — for a check, a hook or the main execution — agree.
pub proof fn lemma_target_resolution_stable(
    c: Config,
    name: Seq<char>,
    first: Option<TargetConfig>,
    second: Option<TargetConfig>,
)
    requires
        first == c.spec_target(name),
        second == c.spec_target(name),
    ensures
        first == second,
{
}

} // verus!
