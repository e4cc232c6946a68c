use vstd::prelude::*;

use crate::global_virtualenvs::{PythonEnv, PythonEnvModel};
use crate::messaging::{
    Dispatcher, PythonEnvironment, PythonEnvironmentCategory, PythonEnvironmentModel,
    spec_report_all, spec_report_environment, report_all,
};
use crate::strutil::{clone_opt_str, path_base, path_base_exec, seq_starts_with, str_eq, str_starts_with};

verus! {

// ---------------------------------------------------------------------------
// The sibling-file test
// ---------------------------------------------------------------------------

/// A candidate is a virtual environment when the directory holding its
/// executable holds some file whose name begins with `activate` (which
/// covers `activate`, `activate.bat`, `activate.fish`, ...). `sibling_files`
/// is that directory's listing; `None`, for an unreadable or missing
/// directory, is never compatible.
pub open spec fn has_activate_sibling(names: Seq<Seq<char>>) -> bool {
    exists|i: int| 0 <= i < names.len() && seq_starts_with(#[trigger] names[i], "activate"@)
}

pub open spec fn is_virtualenv_spec(sibling_files: Option<Seq<Seq<char>>>) -> bool {
    match sibling_files {
        Some(names) => has_activate_sibling(names),
        None => false,
    }
}

/// The sibling-file test on a directory listing.
pub fn is_virtualenv(sibling_files: &Option<Vec<String>>) -> (r: bool)
    ensures
        r == is_virtualenv_spec(sibling_files.deep_view()),
{
    match sibling_files {
        Some(names) => {
            let n: usize = names.len();
            let mut i: usize = 0;
            while i < n
                invariant
                    0 <= i <= n,
                    n == names@.len(),
                    sibling_files.deep_view() == Some(names.deep_view()),
                    forall|j: int| 0 <= j < i ==> !seq_starts_with(
                        #[trigger] names.deep_view()[j],
                        "activate"@,
                    ),
                decreases n - i,
            {
                if str_starts_with(names[i].as_str(), "activate") {
                    proof {
                        assert(names.deep_view()[i as int] == names@[i as int]@);
                        assert(names.deep_view().len() == names@.len());
                        assert((i as int) < names.deep_view().len() && seq_starts_with(
                            names.deep_view()[i as int],
                            "activate"@,
                        ));
                        assert(has_activate_sibling(names.deep_view()));
                        assert(sibling_files.deep_view() == Some(names.deep_view()));
                        assert(is_virtualenv_spec(sibling_files.deep_view()));
                    }
                    return true;
                }
                i = i + 1;
            }
            proof {
                assert(!is_virtualenv_spec(sibling_files.deep_view()));
            }
            false
        },
        None => false,
    }
}

// ---------------------------------------------------------------------------
// The record reported for a virtual environment
// ---------------------------------------------------------------------------

/// The record reported for a compatible candidate: named after its root
/// directory, run by calling its executable directly.
pub open spec fn spec_virtualenv_env(env: PythonEnvModel) -> PythonEnvironmentModel {
    PythonEnvironmentModel {
        name: match env.path {
            Some(p) => Some(path_base(p)),
            None => None,
        },
        python_executable_path: env.executable,
        category: PythonEnvironmentCategory::VirtualEnv,
        version: env.version,
        activated_run: Some(seq![env.executable]),
        env_path: env.path,
        sys_prefix_path: env.path,
        project_path: None,
        env_manager: None,
    }
}

/// Builds the record for a compatible candidate.
pub fn create_virtualenv_env(env: &PythonEnv) -> (r: PythonEnvironment)
    ensures
        r@ == spec_virtualenv_env(env@),
{
    let name: Option<String> = match &env.path {
        Some(p) => Some(path_base_exec(p.as_str())),
        None => None,
    };
    let mut run: Vec<String> = Vec::new();
    run.push(env.executable.clone());
    proof {
        assert(run.deep_view() =~= seq![env.executable@]);
    }
    let r = PythonEnvironment::new(
        name,
        env.executable.clone(),
        PythonEnvironmentCategory::VirtualEnv,
        clone_opt_str(&env.version),
        Some(run),
        clone_opt_str(&env.path),
        clone_opt_str(&env.path),
        None,
        None,
    );
    proof {
        assert(r@ == spec_virtualenv_env(env@));
    }
    r
}

/// Reports the candidate when the sibling-file test passes; no effect and
/// `None` otherwise.
pub fn find_and_report(
    env: &PythonEnv,
    sibling_files: &Option<Vec<String>>,
    dispatcher: &mut Dispatcher,
) -> (r: Option<()>)
    ensures
        is_virtualenv_spec(sibling_files.deep_view()) ==> r is Some && final(dispatcher)@
            == spec_report_environment(old(dispatcher)@, spec_virtualenv_env(env@)),
        !is_virtualenv_spec(sibling_files.deep_view()) ==> r is None && final(dispatcher)@ == old(
            dispatcher,
        )@,
{
    if is_virtualenv(sibling_files) {
        let record = create_virtualenv_env(env);
        dispatcher.report_environment(&record);
        Some(())
    } else {
        None
    }
}

// ---------------------------------------------------------------------------
// The locator
// ---------------------------------------------------------------------------

/// Whether some stored record claims the executable path `exe`.
pub open spec fn knows_executable(envs: Seq<PythonEnvironmentModel>, exe: Seq<char>) -> bool {
    exists|i: int| 0 <= i < envs.len() && #[trigger] envs[i].python_executable_path == exe
}

/// What tracking a candidate does to the stored records: a new record when
/// the candidate is compatible and its executable is not yet known, else
/// nothing (so tracking the same candidate twice stores it once).
pub open spec fn spec_track_virtualenv(
    envs: Seq<PythonEnvironmentModel>,
    env: PythonEnvModel,
    sibling_files: Option<Seq<Seq<char>>>,
) -> Seq<PythonEnvironmentModel> {
    if is_virtualenv_spec(sibling_files) && !knows_executable(envs, env.executable) {
        envs.push(spec_virtualenv_env(env))
    } else {
        envs
    }
}

/// The virtual-environment locator. It has no global search of its own:
/// candidates are handed to it one by one, and `report` flushes what was
/// claimed.
pub struct VirtualEnv {
    pub environments: Vec<PythonEnvironment>,
}

impl VirtualEnv {
    pub fn new() -> (r: VirtualEnv)
        ensures
            r.environments.deep_view() =~= Seq::<PythonEnvironmentModel>::empty(),
    {
        VirtualEnv { environments: Vec::new() }
    }

    /// Whether this locator has already classified `python_executable` as
    /// one of its environments.
    pub fn is_known(&self, python_executable: &str) -> (r: bool)
        ensures
            r == knows_executable(self.environments.deep_view(), python_executable@),
    {
        let n: usize = self.environments.len();
        let mut i: usize = 0;
        while i < n
            invariant
                0 <= i <= n,
                n == self.environments@.len(),
                forall|j: int| 0 <= j < i
                    ==> #[trigger] self.environments.deep_view()[j].python_executable_path
                    != python_executable@,
            decreases n - i,
        {
            if str_eq(self.environments[i].python_executable_path.as_str(), python_executable) {
                proof {
                    assert(self.environments.deep_view()[i as int].python_executable_path
                        == python_executable@);
                }
                return true;
            }
            i = i + 1;
        }
        false
    }

    /// Whether the candidate looks like a virtual environment.
    pub fn is_compatible(&self, sibling_files: &Option<Vec<String>>) -> (r: bool)
        ensures
            r == is_virtualenv_spec(sibling_files.deep_view()),
    {
        is_virtualenv(sibling_files)
    }

    /// Stores the record for a compatible candidate and says whether it
    /// was compatible; tracking the same executable twice stores it once.
    pub fn track_if_compatible(
        &mut self,
        env: &PythonEnv,
        sibling_files: &Option<Vec<String>>,
    ) -> (r: bool)
        ensures
            r == is_virtualenv_spec(sibling_files.deep_view()),
            final(self).environments.deep_view() == spec_track_virtualenv(
                old(self).environments.deep_view(),
                env@,
                sibling_files.deep_view(),
            ),
    {
        if !is_virtualenv(sibling_files) {
            return false;
        }
        if self.is_known(env.executable.as_str()) {
            return true;
        }
        let record = create_virtualenv_env(env);
        self.environments.push(record);
        proof {
            assert(self.environments.deep_view() =~= old(self).environments.deep_view().push(
                spec_virtualenv_env(env@),
            ));
        }
        true
    }

    /// Flushes every stored record to the dispatcher, in discovery order.
    pub fn report(&self, dispatcher: &mut Dispatcher)
        ensures
            final(dispatcher)@ == spec_report_all(
                old(dispatcher)@,
                self.environments.deep_view(),
                0,
            ),
    {
        report_all(dispatcher, &self.environments);
    }
}

} // verus!
