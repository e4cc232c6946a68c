use vstd::prelude::*;

use crate::global_virtualenvs::{PythonEnv, PythonEnvModel};
use crate::messaging::{
    Dispatcher, DispatcherModel, PythonEnvironment, PythonEnvironmentCategory,
    PythonEnvironmentModel, python_environment_report_json, spec_report_all,
    spec_report_environment, report_all,
};
use crate::strutil::{
    clone_opt_str, lemma_path_parent_of_join, path_base, path_base_exec, path_join, path_join_seq,
    path_parent, path_parent_exec, seq_starts_with, split_on, split_str, str_eq, str_starts_with,
    trim_str, trimmed,
};
use crate::virtualenv::knows_executable;

verus! {

// ---------------------------------------------------------------------------
// The environment root of a PATH interpreter
// ---------------------------------------------------------------------------

/// The environment root of an executable: its parent directory, unless
/// that directory is named `Scripts` (the Windows venv layout), in which
/// case the grandparent.
pub open spec fn spec_env_path(exe: Seq<char>) -> Option<Seq<char>> {
    match path_parent(exe) {
        Some(p) => if path_base(p) == "Scripts"@ {
            path_parent(p)
        } else {
            Some(p)
        },
        None => None,
    }
}

/// Resolves the environment root of an executable path.
pub fn get_env_path(python_executable_path: &str) -> (r: Option<String>)
    ensures
        r.deep_view() == spec_env_path(python_executable_path@),
{
    match path_parent_exec(python_executable_path) {
        Some(parent) => {
            let base = path_base_exec(parent.as_str());
            if str_eq(base.as_str(), "Scripts") {
                path_parent_exec(parent.as_str())
            } else {
                Some(parent)
            }
        },
        None => None,
    }
}

// ---------------------------------------------------------------------------
// The version an interpreter prints
// ---------------------------------------------------------------------------

/// The version in an interpreter's banner: what follows `Python ` once
/// surrounding whitespace is trimmed away on both sides, or nothing when
/// the banner does not open with that word.
pub open spec fn spec_version_from_banner(banner: Seq<char>) -> Option<Seq<char>> {
    let t = trimmed(banner);
    if seq_starts_with(t, "Python "@) {
        Some(trimmed(t.skip("Python "@.len() as int)))
    } else {
        None
    }
}

/// Extracts the version from the banner an interpreter prints when run
/// with `-V`.
pub fn version_from_banner(banner: &str) -> (r: Option<String>)
    ensures
        r.deep_view() == spec_version_from_banner(banner@),
{
    let t = trim_str(banner);
    if str_starts_with(t.as_str(), "Python ") {
        proof {
            reveal_strlit("Python ");
        }
        let n: usize = t.as_str().unicode_len();
        let rest = t.as_str().substring_char(7, n);
        proof {
            assert(rest@ =~= t@.skip("Python "@.len() as int));
        }
        Some(trim_str(rest))
    } else {
        None
    }
}

// ---------------------------------------------------------------------------
// Candidates drawn from the PATH variable
// ---------------------------------------------------------------------------

/// The candidate executables named by a `PATH` value: the canonical
/// interpreter name appended to each ':'-separated segment, in order.
/// Which of them exist is for the caller to probe.
pub fn candidate_paths(path_var: &str) -> (r: Vec<String>)
    ensures
        r@.len() == split_on(path_var@, ':').len(),
        forall|i: int| 0 <= i < r@.len() ==> r@[i]@ == path_join_seq(
            split_on(path_var@, ':')[i],
            "python"@,
        ),
{
    let segments = split_str(path_var, ':');
    let n: usize = segments.len();
    let mut r: Vec<String> = Vec::new();
    let mut i: usize = 0;
    while i < n
        invariant
            0 <= i <= n,
            n == segments@.len(),
            segments@.len() == split_on(path_var@, ':').len(),
            forall|j: int| 0 <= j < segments@.len() ==> segments@[j]@ == split_on(path_var@, ':')[j],
            r@.len() == i,
            forall|j: int| 0 <= j < i ==> r@[j]@ == path_join_seq(
                split_on(path_var@, ':')[j],
                "python"@,
            ),
        decreases n - i,
    {
        r.push(path_join(segments[i].as_str(), "python"));
        i = i + 1;
    }
    r
}

// ---------------------------------------------------------------------------
// The PATH locator
// ---------------------------------------------------------------------------

/// A candidate is a PATH interpreter when its base filename exactly
/// matches the canonical interpreter name.
pub open spec fn is_python_on_path(env: PythonEnvModel) -> bool {
    path_base(env.executable) == "python"@
}

/// The record reported for a PATH interpreter: unnamed, run by calling its
/// executable directly.
pub open spec fn spec_system_env(env: PythonEnvModel) -> PythonEnvironmentModel {
    PythonEnvironmentModel {
        name: None,
        python_executable_path: env.executable,
        category: PythonEnvironmentCategory::System,
        version: env.version,
        activated_run: Some(seq![env.executable]),
        env_path: env.path,
        sys_prefix_path: None,
        project_path: None,
        env_manager: None,
    }
}

/// What tracking a candidate does to the stored records: a new record when
/// the candidate is compatible and its executable is not yet known, else
/// nothing (so tracking the same candidate twice stores it once).
pub open spec fn spec_track_system(
    envs: Seq<PythonEnvironmentModel>,
    env: PythonEnvModel,
) -> Seq<PythonEnvironmentModel> {
    if is_python_on_path(env) && !knows_executable(envs, env.executable) {
        envs.push(spec_system_env(env))
    } else {
        envs
    }
}

/// What one probed PATH candidate adds to the stored records: it is
/// tracked with its environment root resolved from its executable path.
pub open spec fn spec_gather_step(
    envs: Seq<PythonEnvironmentModel>,
    probe: PythonEnvModel,
) -> Seq<PythonEnvironmentModel> {
    spec_track_system(
        envs,
        PythonEnvModel {
            path: spec_env_path(probe.executable),
            executable: probe.executable,
            version: probe.version,
        },
    )
}

/// The probes from index `i` on, tracked in order.
pub open spec fn spec_gather_fold(
    envs: Seq<PythonEnvironmentModel>,
    probes: Seq<PythonEnvModel>,
    i: int,
) -> Seq<PythonEnvironmentModel>
    decreases probes.len() - i,
{
    if 0 <= i && i < probes.len() {
        spec_gather_fold(spec_gather_step(envs, probes[i]), probes, i + 1)
    } else {
        envs
    }
}

/// The locator for plain interpreters on `PATH`.
pub struct PythonOnPath {
    pub environments: Vec<PythonEnvironment>,
}

impl PythonOnPath {
    /// A fresh locator with nothing discovered yet.
    pub fn with() -> (r: PythonOnPath)
        ensures
            r.environments.deep_view() =~= Seq::<PythonEnvironmentModel>::empty(),
    {
        PythonOnPath { environments: Vec::new() }
    }

    /// Whether this locator has already classified `python_executable` as
    /// one of its environments.
    pub fn is_known(&self, python_executable: &str) -> (r: bool)
        ensures
            r == knows_executable(self.environments.deep_view(), python_executable@),
    {
        let n: usize = self.environments.len();
        let mut i: usize = 0;
        while i < n
            invariant
                0 <= i <= n,
                n == self.environments@.len(),
                forall|j: int| 0 <= j < i
                    ==> #[trigger] self.environments.deep_view()[j].python_executable_path
                    != python_executable@,
            decreases n - i,
        {
            if str_eq(self.environments[i].python_executable_path.as_str(), python_executable) {
                proof {
                    assert(self.environments.deep_view()[i as int].python_executable_path
                        == python_executable@);
                }
                return true;
            }
            i = i + 1;
        }
        false
    }

    /// Stores the record for a compatible candidate and says whether it
    /// was compatible; tracking the same executable twice stores it once.
    pub fn track_if_compatible(&mut self, env: &PythonEnv) -> (r: bool)
        ensures
            r == is_python_on_path(env@),
            final(self).environments.deep_view() == spec_track_system(
                old(self).environments.deep_view(),
                env@,
            ),
    {
        let base = path_base_exec(env.executable.as_str());
        if !str_eq(base.as_str(), "python") {
            return false;
        }
        if self.is_known(env.executable.as_str()) {
            return true;
        }
        let mut run: Vec<String> = Vec::new();
        run.push(env.executable.clone());
        proof {
            assert(run.deep_view() =~= seq![env.executable@]);
        }
        let record = PythonEnvironment::new(
            None,
            env.executable.clone(),
            PythonEnvironmentCategory::System,
            clone_opt_str(&env.version),
            Some(run),
            clone_opt_str(&env.path),
            None,
            None,
            None,
        );
        proof {
            assert(record@ == spec_system_env(env@));
        }
        self.environments.push(record);
        proof {
            assert(self.environments.deep_view() =~= old(self).environments.deep_view().push(
                spec_system_env(env@),
            ));
        }
        true
    }

    /// Tracks every probed PATH candidate, resolving each one's
    /// environment root. `path_var` is the value of `PATH` (`None` when
    /// unset: nothing is tracked); `probes` are the candidates that were
    /// found to exist, in `PATH` order, each with its probed version.
    pub fn gather(&mut self, path_var: &Option<String>, probes: &Vec<PythonEnv>) -> (r: Option<()>)
        ensures
            path_var is None ==> final(self).environments == old(self).environments && r is None,
            path_var is Some ==> r is Some && final(self).environments.deep_view()
                == spec_gather_fold(old(self).environments.deep_view(), probes.deep_view(), 0),
    {
        if path_var.is_none() {
            return None;
        }
        let ghost dv = probes.deep_view();
        let ghost envs0 = self.environments.deep_view();
        let n: usize = probes.len();
        let mut i: usize = 0;
        while i < n
            invariant
                0 <= i <= n,
                n == probes@.len(),
                dv == probes.deep_view(),
                dv.len() == n,
                spec_gather_fold(self.environments.deep_view(), dv, i as int) == spec_gather_fold(
                    envs0,
                    dv,
                    0,
                ),
            decreases n - i,
        {
            let ghost prev = self.environments.deep_view();
            let probe = &probes[i];
            proof {
                assert(dv[i as int] == probes@[i as int].deep_view());
            }
            let env_path = get_env_path(probe.executable.as_str());
            let candidate = PythonEnv::new(
                probe.executable.clone(),
                env_path,
                clone_opt_str(&probe.version),
            );
            proof {
                assert(candidate@ == PythonEnvModel {
                    path: spec_env_path(dv[i as int].executable),
                    executable: dv[i as int].executable,
                    version: dv[i as int].version,
                });
            }
            self.track_if_compatible(&candidate);
            proof {
                assert(self.environments.deep_view() == spec_gather_step(prev, dv[i as int]));
                assert(spec_gather_fold(prev, dv, i as int) == spec_gather_fold(
                    self.environments.deep_view(),
                    dv,
                    i + 1,
                ));
            }
            i = i + 1;
        }
        proof {
            assert(spec_gather_fold(self.environments.deep_view(), dv, n as int)
                == self.environments.deep_view());
        }
        Some(())
    }

    /// Flushes every stored record to the dispatcher, in discovery order.
    pub fn report(&self, dispatcher: &mut Dispatcher)
        ensures
            final(dispatcher)@ == spec_report_all(
                old(dispatcher)@,
                self.environments.deep_view(),
                0,
            ),
    {
        report_all(dispatcher, &self.environments);
    }
}

// ---------------------------------------------------------------------------
// The one-directory PATH run
// ---------------------------------------------------------------------------

/// A `PATH` of one directory `d` holding the canonical interpreter yields
/// exactly one report: gathering the single probe tracks one System
/// record for `d`'s interpreter, with the probed version, rooted at `d`,
/// and a dispatcher that has not yet seen that executable sends exactly
/// that record's message. `d` here is a plain directory path: nonempty,
/// no trailing separator, and not the Windows `Scripts` layout.
pub proof fn lemma_single_directory_path_run(
    m: DispatcherModel,
    d: Seq<char>,
    version: Option<Seq<char>>,
    probed_root: Option<Seq<char>>,
)
    requires
        d.len() > 0,
        d[d.len() - 1] != '/',
        path_base(d) != "Scripts"@,
        !m.seen_envs.contains(path_join_seq(d, "python"@)),
    ensures
        ({
            let exe = path_join_seq(d, "python"@);
            let probe = PythonEnvModel { path: probed_root, executable: exe, version };
            let envs = spec_gather_fold(Seq::empty(), seq![probe], 0);
            let record = PythonEnvironmentModel {
                name: None,
                python_executable_path: exe,
                category: PythonEnvironmentCategory::System,
                version,
                activated_run: Some(seq![exe]),
                env_path: Some(d),
                sys_prefix_path: None,
                project_path: None,
                env_manager: None,
            };
            &&& envs =~= seq![record]
            &&& spec_report_all(m, envs, 0).messages =~= m.messages.push(
                python_environment_report_json(record),
            )
        }),
{
    let exe = path_join_seq(d, "python"@);
    let probe = PythonEnvModel { path: probed_root, executable: exe, version };
    let envs = spec_gather_fold(Seq::<PythonEnvironmentModel>::empty(), seq![probe], 0);
    reveal_strlit("python");
    assert forall|i: int| 0 <= i < "python"@.len() implies "python"@[i] != '/' by {
        if i == 0 {
            assert("python"@[0] == 'p');
        } else if i == 1 {
            assert("python"@[1] == 'y');
        } else if i == 2 {
            assert("python"@[2] == 't');
        } else if i == 3 {
            assert("python"@[3] == 'h');
        } else if i == 4 {
            assert("python"@[4] == 'o');
        } else {
            assert("python"@[5] == 'n');
        }
    }
    lemma_path_parent_of_join(d, "python"@);
    let tracked_probe = PythonEnvModel { path: spec_env_path(exe), executable: exe, version };
    assert(spec_env_path(exe) == Some(d));
    assert(is_python_on_path(tracked_probe));
    let envs0 = Seq::<PythonEnvironmentModel>::empty();
    assert(!knows_executable(envs0, exe));
    let record = spec_system_env(tracked_probe);
    assert(spec_gather_step(envs0, probe) =~= envs0.push(record));
    assert(envs == spec_gather_fold(spec_gather_step(envs0, probe), seq![probe], 1));
    assert(envs =~= seq![record]);
    let m1 = spec_report_environment(m, record);
    assert(spec_report_all(m, envs, 0) == spec_report_all(m1, envs, 1));
    assert(spec_report_all(m1, envs, 1) == m1);
    assert(m1.messages =~= m.messages.push(python_environment_report_json(record)));
}

} // verus!
