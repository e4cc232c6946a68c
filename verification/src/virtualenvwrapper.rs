use vstd::prelude::*;

use crate::global_virtualenvs::{PythonEnv, PythonEnvModel};
use crate::messaging::{
    Dispatcher, PythonEnvironment, PythonEnvironmentCategory, PythonEnvironmentModel,
    spec_report_environment,
};
use crate::strutil::{
    clone_opt_str, path_base, path_base_exec, path_join, path_join_seq, path_within,
    path_within_exec,
};
use crate::virtualenv::{is_virtualenv, is_virtualenv_spec};

verus! {

// ---------------------------------------------------------------------------
// Root resolution
// ---------------------------------------------------------------------------

/// The default virtualenvwrapper root on a Unix host: `.virtualenvs` under
/// the user home; nothing without a home. Whether it exists is for the
/// caller to probe.
pub open spec fn spec_default_virtualenvwrapper_path(home: Option<Seq<char>>) -> Option<Seq<char>> {
    match home {
        Some(h) => Some(path_join_seq(h, ".virtualenvs"@)),
        None => None,
    }
}

/// The default virtualenvwrapper root under the user home.
pub fn get_default_virtualenvwrapper_path(home: &Option<String>) -> (r: Option<String>)
    ensures
        r.deep_view() == spec_default_virtualenvwrapper_path(home.deep_view()),
{
    match home {
        Some(h) => Some(path_join(h.as_str(), ".virtualenvs")),
        None => None,
    }
}

/// The resolved root of all virtualenvwrapper environments: the
/// canonicalized, existing `WORKON_HOME` when the caller resolved one,
/// else the platform default.
pub open spec fn spec_work_on_home_path(
    work_on_home: Option<Seq<char>>,
    home: Option<Seq<char>>,
) -> Option<Seq<char>> {
    match work_on_home {
        Some(w) => Some(w),
        None => spec_default_virtualenvwrapper_path(home),
    }
}

/// Resolves the virtualenvwrapper root. `work_on_home` is the value of
/// `WORKON_HOME` after canonicalization, `None` when unset or when the
/// directory does not exist.
pub fn get_work_on_home_path(work_on_home: &Option<String>, home: &Option<String>) -> (r: Option<
    String,
>)
    ensures
        r.deep_view() == spec_work_on_home_path(work_on_home.deep_view(), home.deep_view()),
{
    match work_on_home {
        Some(w) => Some(w.clone()),
        None => get_default_virtualenvwrapper_path(home),
    }
}

// ---------------------------------------------------------------------------
// Compatibility
// ---------------------------------------------------------------------------

/// A candidate is a virtualenvwrapper environment exactly when its
/// executable lies under the resolved root and the generic sibling-file
/// test passes. With no resolved root nothing is compatible, wherever the
/// executable lies and whatever files sit beside it.
pub open spec fn is_virtualenvwrapper_spec(
    env: PythonEnvModel,
    work_on_home_dir: Option<Seq<char>>,
    sibling_files: Option<Seq<Seq<char>>>,
) -> bool {
    &&& work_on_home_dir is Some
    &&& path_within(env.executable, work_on_home_dir.unwrap())
    &&& is_virtualenv_spec(sibling_files)
}

/// The compatibility test. `work_on_home_dir` is the resolved root (see
/// `get_work_on_home_path`), `sibling_files` the listing of the directory
/// holding the candidate's executable.
pub fn is_virtualenvwrapper(
    env: &PythonEnv,
    work_on_home_dir: &Option<String>,
    sibling_files: &Option<Vec<String>>,
) -> (r: bool)
    ensures
        r == is_virtualenvwrapper_spec(
            env@,
            work_on_home_dir.deep_view(),
            sibling_files.deep_view(),
        ),
{
    match work_on_home_dir {
        Some(w) => path_within_exec(env.executable.as_str(), w.as_str()) && is_virtualenv(
            sibling_files,
        ),
        None => false,
    }
}

/// An executable outside the resolved root is never classified as a
/// virtualenvwrapper environment, even when the sibling-file test passes.
pub proof fn lemma_virtualenvwrapper_containment(
    env: PythonEnvModel,
    work_on_home_dir: Option<Seq<char>>,
    sibling_files: Option<Seq<Seq<char>>>,
)
    requires
        work_on_home_dir matches Some(w) ==> !path_within(env.executable, w),
    ensures
        !is_virtualenvwrapper_spec(env, work_on_home_dir, sibling_files),
{
}

// ---------------------------------------------------------------------------
// The record and the report
// ---------------------------------------------------------------------------

/// The record reported for a compatible candidate: named after its
/// environment directory, run by calling its executable directly.
pub open spec fn spec_virtualenvwrapper_env(env: PythonEnvModel) -> PythonEnvironmentModel {
    PythonEnvironmentModel {
        name: match env.path {
            Some(p) => Some(path_base(p)),
            None => None,
        },
        python_executable_path: env.executable,
        category: PythonEnvironmentCategory::VirtualEnvWrapper,
        version: env.version,
        activated_run: Some(seq![env.executable]),
        env_path: env.path,
        sys_prefix_path: env.path,
        project_path: None,
        env_manager: None,
    }
}

/// Builds the record for a compatible candidate.
pub fn create_virtualenvwrapper_env(env: &PythonEnv) -> (r: PythonEnvironment)
    ensures
        r@ == spec_virtualenvwrapper_env(env@),
{
    let name: Option<String> = match &env.path {
        Some(p) => Some(path_base_exec(p.as_str())),
        None => None,
    };
    let mut run: Vec<String> = Vec::new();
    run.push(env.executable.clone());
    proof {
        assert(run.deep_view() =~= seq![env.executable@]);
    }
    let r = PythonEnvironment::new(
        name,
        env.executable.clone(),
        PythonEnvironmentCategory::VirtualEnvWrapper,
        clone_opt_str(&env.version),
        Some(run),
        clone_opt_str(&env.path),
        clone_opt_str(&env.path),
        None,
        None,
    );
    proof {
        assert(r@ == spec_virtualenvwrapper_env(env@));
    }
    r
}

/// Reports the candidate when it is a virtualenvwrapper environment; no
/// effect and `None` otherwise.
pub fn find_and_report(
    env: &PythonEnv,
    dispatcher: &mut Dispatcher,
    work_on_home_dir: &Option<String>,
    sibling_files: &Option<Vec<String>>,
) -> (r: Option<()>)
    ensures
        is_virtualenvwrapper_spec(env@, work_on_home_dir.deep_view(), sibling_files.deep_view())
            ==> r is Some && final(dispatcher)@ == spec_report_environment(
            old(dispatcher)@,
            spec_virtualenvwrapper_env(env@),
        ),
        !is_virtualenvwrapper_spec(env@, work_on_home_dir.deep_view(), sibling_files.deep_view())
            ==> r is None && final(dispatcher)@ == old(dispatcher)@,
{
    if is_virtualenvwrapper(env, work_on_home_dir, sibling_files) {
        let record = create_virtualenvwrapper_env(env);
        dispatcher.report_environment(&record);
        Some(())
    } else {
        None
    }
}

} // verus!
