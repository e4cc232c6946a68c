use vstd::prelude::*;

use crate::global_virtualenvs::{PythonEnv, PythonEnvModel};
use crate::messaging::{
    Dispatcher, DispatcherModel, PythonEnvironment, PythonEnvironmentCategory,
    PythonEnvironmentModel, spec_report_environment,
};
use crate::strutil::{clone_opt_str, trim_str, trimmed};

verus! {

// ---------------------------------------------------------------------------
// The project binding
// ---------------------------------------------------------------------------

/// Abstract content of one probed candidate.
pub struct PipenvCandidateModel {
    pub env: PythonEnvModel,
    pub project_file: Option<Seq<char>>,
    pub project_target_exists: bool,
}

/// One globally kept environment, as probing saw it: the candidate
/// interpreter, the contents of the `.project` file at the environment
/// root (`None` when absent or unreadable), and whether the path those
/// contents name, once trimmed, exists.
#[derive(Debug)]
pub struct PipenvCandidate {
    pub env: PythonEnv,
    pub project_file: Option<String>,
    pub project_target_exists: bool,
}

impl View for PipenvCandidate {
    type V = PipenvCandidateModel;

    open spec fn view(&self) -> PipenvCandidateModel {
        PipenvCandidateModel {
            env: self.env@,
            project_file: self.project_file.deep_view(),
            project_target_exists: self.project_target_exists,
        }
    }
}

impl DeepView for PipenvCandidate {
    type V = PipenvCandidateModel;

    open spec fn deep_view(&self) -> PipenvCandidateModel {
        self.view()
    }
}

/// The project directory an environment is bound to: the trimmed contents
/// of its `.project` file, and only when that path exists. An environment
/// without such a binding is not a pipenv environment.
pub open spec fn spec_project_folder(
    project_file: Option<Seq<char>>,
    target_exists: bool,
) -> Option<Seq<char>> {
    match project_file {
        Some(c) => if target_exists {
            Some(trimmed(c))
        } else {
            None
        },
        None => None,
    }
}

/// Resolves the project binding from the probed `.project` contents.
pub fn get_project_folder(project_file: &Option<String>, target_exists: bool) -> (r: Option<
    String,
>)
    ensures
        r.deep_view() == spec_project_folder(project_file.deep_view(), target_exists),
{
    match project_file {
        Some(c) => {
            if target_exists {
                Some(trim_str(c.as_str()))
            } else {
                None
            }
        },
        None => None,
    }
}

// ---------------------------------------------------------------------------
// The record and the report
// ---------------------------------------------------------------------------

/// The record reported for a bound environment.
pub open spec fn spec_pipenv_env(env: PythonEnvModel, project: Seq<char>) -> PythonEnvironmentModel {
    PythonEnvironmentModel {
        name: None,
        python_executable_path: env.executable,
        category: PythonEnvironmentCategory::Pipenv,
        version: env.version,
        activated_run: None,
        env_path: env.path,
        sys_prefix_path: env.path,
        project_path: Some(project),
        env_manager: None,
    }
}

/// What one candidate adds to the dispatcher: a report when it carries a
/// valid project binding, else nothing.
pub open spec fn spec_pipenv_step(m: DispatcherModel, c: PipenvCandidateModel) -> DispatcherModel {
    match spec_project_folder(c.project_file, c.project_target_exists) {
        Some(project) => spec_report_environment(m, spec_pipenv_env(c.env, project)),
        None => m,
    }
}

/// The candidates from index `i` on, reported in order.
pub open spec fn spec_pipenv_fold(
    m: DispatcherModel,
    cs: Seq<PipenvCandidateModel>,
    i: int,
) -> DispatcherModel
    decreases cs.len() - i,
{
    if 0 <= i && i < cs.len() {
        spec_pipenv_fold(spec_pipenv_step(m, cs[i]), cs, i + 1)
    } else {
        m
    }
}

/// A dangling binding is no binding: a candidate whose `.project` file
/// names a path that does not exist yields no pipenv report.
pub proof fn lemma_pipenv_dangling_project(m: DispatcherModel, c: PipenvCandidateModel)
    requires
        !c.project_target_exists,
    ensures
        spec_pipenv_step(m, c) == m,
{
}

/// Reports every candidate that carries a valid project binding, in order.
pub fn find_and_report(dispatcher: &mut Dispatcher, candidates: &Vec<PipenvCandidate>) -> (r:
    Option<()>)
    ensures
        r is Some,
        final(dispatcher)@ == spec_pipenv_fold(old(dispatcher)@, candidates.deep_view(), 0),
{
    let ghost dv = candidates.deep_view();
    let n: usize = candidates.len();
    let mut i: usize = 0;
    while i < n
        invariant
            0 <= i <= n,
            n == candidates@.len(),
            dv == candidates.deep_view(),
            dv.len() == n,
            spec_pipenv_fold(dispatcher@, dv, i as int) == spec_pipenv_fold(old(dispatcher)@, dv, 0),
        decreases n - i,
    {
        let ghost prev = dispatcher@;
        let c = &candidates[i];
        proof {
            assert(dv[i as int] == candidates@[i as int].deep_view());
        }
        match get_project_folder(&c.project_file, c.project_target_exists) {
            Some(project) => {
                let record = PythonEnvironment::new(
                    None,
                    c.env.executable.clone(),
                    PythonEnvironmentCategory::Pipenv,
                    clone_opt_str(&c.env.version),
                    None,
                    clone_opt_str(&c.env.path),
                    clone_opt_str(&c.env.path),
                    Some(project),
                    None,
                );
                proof {
                    assert(record@ == spec_pipenv_env(
                        dv[i as int].env,
                        spec_project_folder(
                            dv[i as int].project_file,
                            dv[i as int].project_target_exists,
                        ).unwrap(),
                    ));
                }
                dispatcher.report_environment(&record);
                proof {
                    assert(dispatcher@ == spec_pipenv_step(prev, dv[i as int]));
                }
            },
            None => {
                proof {
                    assert(dispatcher@ == spec_pipenv_step(prev, dv[i as int]));
                }
            },
        }
        proof {
            assert(spec_pipenv_fold(prev, dv, i as int) == spec_pipenv_fold(
                dispatcher@,
                dv,
                i + 1,
            ));
        }
        i = i + 1;
    }
    proof {
        assert(spec_pipenv_fold(dispatcher@, dv, n as int) == dispatcher@);
    }
    Some(())
}

} // verus!
