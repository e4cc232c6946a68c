use vstd::prelude::*;

use crate::messaging::{
    Dispatcher, DispatcherModel, EnvManager, EnvManagerModel, PythonEnvironment,
    PythonEnvironmentCategory, PythonEnvironmentModel, spec_report_environment,
    spec_report_environment_manager,
};
use crate::strutil::{
    clone_opt_str, path_base, path_base_exec, path_join, path_join_seq, path_parent,
    path_parent_exec, split_on, split_str, trim_str, trimmed,
};

verus! {

// ---------------------------------------------------------------------------
// The environment registry file
// ---------------------------------------------------------------------------

/// The roots named by `environments.txt` from line `i` on: one per line,
/// trimmed, blank lines skipped.
pub open spec fn conda_roots_from(lines: Seq<Seq<char>>, i: int) -> Seq<Seq<char>>
    decreases lines.len() - i,
{
    if 0 <= i && i < lines.len() {
        let t = trimmed(lines[i]);
        if t.len() > 0 {
            seq![t] + conda_roots_from(lines, i + 1)
        } else {
            conda_roots_from(lines, i + 1)
        }
    } else {
        Seq::empty()
    }
}

/// The environment roots named by the contents of an `environments.txt`
/// file: one per line, trimmed, blank lines skipped.
pub open spec fn spec_conda_environment_roots(contents: Seq<char>) -> Seq<Seq<char>> {
    conda_roots_from(split_on(contents, '\n'), 0)
}

/// Parses the contents of `environments.txt` into environment roots.
pub fn conda_environment_roots(contents: &str) -> (r: Vec<String>)
    ensures
        r.deep_view() == spec_conda_environment_roots(contents@),
{
    let lines = split_str(contents, '\n');
    let ghost lv = lines.deep_view();
    proof {
        assert(lv =~= split_on(contents@, '\n'));
    }
    let n: usize = lines.len();
    let mut r: Vec<String> = Vec::new();
    let mut i: usize = 0;
    while i < n
        invariant
            0 <= i <= n,
            n == lines@.len(),
            lv == lines.deep_view(),
            lv.len() == n,
            r.deep_view() + conda_roots_from(lv, i as int) =~= conda_roots_from(lv, 0),
        decreases n - i,
    {
        let ghost prev = r.deep_view();
        proof {
            assert(lv[i as int] == lines@[i as int]@);
        }
        let t = trim_str(lines[i].as_str());
        if t.as_str().unicode_len() != 0 {
            proof {
                assert(t@.len() > 0);
            }
            r.push(t);
            proof {
                assert(r.deep_view() =~= prev.push(trimmed(lv[i as int])));
                assert(conda_roots_from(lv, i as int) =~= seq![trimmed(lv[i as int])]
                    + conda_roots_from(lv, i + 1));
                assert(r.deep_view() + conda_roots_from(lv, i + 1) =~= prev + conda_roots_from(
                    lv,
                    i as int,
                ));
            }
        } else {
            proof {
                assert(t@.len() == 0);
                assert(conda_roots_from(lv, i as int) =~= conda_roots_from(lv, i + 1));
            }
        }
        i = i + 1;
    }
    proof {
        assert(conda_roots_from(lv, n as int) =~= Seq::<Seq<char>>::empty());
        assert(r.deep_view() =~= conda_roots_from(lv, 0));
        assert(r.deep_view() =~= spec_conda_environment_roots(contents@));
    }
    r
}

// ---------------------------------------------------------------------------
// Names of registered environments
// ---------------------------------------------------------------------------

/// The display name of a registered environment: the root path's trailing
/// two components when it has that many, else its trailing component.
pub open spec fn conda_env_name(p: Seq<char>) -> Seq<char> {
    match path_parent(p) {
        Some(parent) => if path_base(parent).len() > 0 {
            path_join_seq(path_base(parent), path_base(p))
        } else {
            path_base(p)
        },
        None => path_base(p),
    }
}

/// Resolves the display name of a registered environment root.
pub fn get_conda_env_name(p: &str) -> (r: String)
    ensures
        r@ == conda_env_name(p@),
{
    let base = path_base_exec(p);
    match path_parent_exec(p) {
        Some(parent) => {
            let parent_base = path_base_exec(parent.as_str());
            if parent_base.unicode_len() > 0 {
                path_join(parent_base.as_str(), base.as_str())
            } else {
                base
            }
        },
        None => base,
    }
}

// ---------------------------------------------------------------------------
// The records and the report
// ---------------------------------------------------------------------------

/// Abstract content of one probed registered environment.
pub struct CondaEnvEntryModel {
    pub path: Seq<char>,
    pub executable: Option<Seq<char>>,
    pub version: Option<Seq<char>>,
}

/// One root named by `environments.txt`, as probing saw it: its path, the
/// interpreter found inside it (`None` when the root is missing or holds
/// none: such a root yields no record), and its best-effort version.
#[derive(Debug)]
pub struct CondaEnvEntry {
    pub path: String,
    pub executable: Option<String>,
    pub version: Option<String>,
}

impl View for CondaEnvEntry {
    type V = CondaEnvEntryModel;

    open spec fn view(&self) -> CondaEnvEntryModel {
        CondaEnvEntryModel {
            path: self.path@,
            executable: self.executable.deep_view(),
            version: self.version.deep_view(),
        }
    }
}

impl DeepView for CondaEnvEntry {
    type V = CondaEnvEntryModel;

    open spec fn deep_view(&self) -> CondaEnvEntryModel {
        self.view()
    }
}

/// The binary named in activation commands: the discovered conda binary,
/// or the bare name `conda` when none was found.
pub open spec fn conda_activation_binary(binary: Option<Seq<char>>) -> Seq<char> {
    match binary {
        Some(b) => b,
        None => "conda"@,
    }
}

/// The record reported for a registered environment.
pub open spec fn spec_conda_env(e: CondaEnvEntryModel, bin: Seq<char>) -> PythonEnvironmentModel {
    PythonEnvironmentModel {
        name: Some(conda_env_name(e.path)),
        python_executable_path: e.executable.unwrap(),
        category: PythonEnvironmentCategory::Conda,
        version: e.version,
        activated_run: Some(seq![bin, "run"@, "-n"@, conda_env_name(e.path), "python"@]),
        env_path: Some(e.path),
        sys_prefix_path: Some(e.path),
        project_path: None,
        env_manager: None,
    }
}

/// What one registered root adds to the dispatcher: a report when it holds
/// an interpreter, else nothing.
pub open spec fn spec_conda_step(
    m: DispatcherModel,
    e: CondaEnvEntryModel,
    bin: Seq<char>,
) -> DispatcherModel {
    if e.executable is Some {
        spec_report_environment(m, spec_conda_env(e, bin))
    } else {
        m
    }
}

/// The registered roots from index `i` on, reported in order.
pub open spec fn spec_conda_fold(
    m: DispatcherModel,
    es: Seq<CondaEnvEntryModel>,
    i: int,
    bin: Seq<char>,
) -> DispatcherModel
    decreases es.len() - i,
{
    if 0 <= i && i < es.len() {
        spec_conda_fold(spec_conda_step(m, es[i], bin), es, i + 1, bin)
    } else {
        m
    }
}

/// The whole conda discovery: the conda binary reported first when one was
/// found, then each registered environment in order.
pub open spec fn spec_conda_discovery(
    m: DispatcherModel,
    binary: Option<Seq<char>>,
    es: Seq<CondaEnvEntryModel>,
) -> DispatcherModel {
    let m1 = match binary {
        Some(b) => spec_report_environment_manager(
            m,
            EnvManagerModel { executable_path: b, version: None },
        ),
        None => m,
    };
    spec_conda_fold(m1, es, 0, conda_activation_binary(binary))
}

/// Reports the conda binary when one was found, then every registered
/// environment that holds an interpreter, in registry order.
pub fn find_and_report(
    dispatcher: &mut Dispatcher,
    conda_binary: &Option<String>,
    envs: &Vec<CondaEnvEntry>,
) -> (r: Option<()>)
    ensures
        r is Some,
        final(dispatcher)@ == spec_conda_discovery(
            old(dispatcher)@,
            conda_binary.deep_view(),
            envs.deep_view(),
        ),
{
    match conda_binary {
        Some(b) => {
            let mgr = EnvManager::new(b.clone(), None);
            proof {
                assert(mgr@ == EnvManagerModel { executable_path: b@, version: None });
            }
            dispatcher.report_environment_manager(&mgr);
        },
        None => (),
    }
    let ghost m1 = dispatcher@;
    let bin: String = match conda_binary {
        Some(b) => b.clone(),
        None => String::from_str("conda"),
    };
    let ghost gbin = conda_activation_binary(conda_binary.deep_view());
    proof {
        assert(bin@ == gbin);
    }
    let ghost dv = envs.deep_view();
    let n: usize = envs.len();
    let mut i: usize = 0;
    while i < n
        invariant
            0 <= i <= n,
            n == envs@.len(),
            dv == envs.deep_view(),
            dv.len() == n,
            gbin == conda_activation_binary(conda_binary.deep_view()),
            bin@ == gbin,
            spec_conda_fold(dispatcher@, dv, i as int, gbin) == spec_conda_fold(m1, dv, 0, gbin),
        decreases n - i,
    {
        let ghost prev = dispatcher@;
        let e = &envs[i];
        proof {
            assert(dv[i as int] == envs@[i as int].deep_view());
        }
        match &e.executable {
            Some(exe) => {
                let name = get_conda_env_name(e.path.as_str());
                let mut run: Vec<String> = Vec::new();
                run.push(bin.clone());
                run.push(String::from_str("run"));
                run.push(String::from_str("-n"));
                run.push(name.clone());
                run.push(String::from_str("python"));
                proof {
                    assert(run.deep_view() =~= seq![
                        gbin,
                        "run"@,
                        "-n"@,
                        conda_env_name(dv[i as int].path),
                        "python"@,
                    ]);
                }
                let record = PythonEnvironment::new(
                    Some(name),
                    exe.clone(),
                    PythonEnvironmentCategory::Conda,
                    clone_opt_str(&e.version),
                    Some(run),
                    Some(e.path.clone()),
                    Some(e.path.clone()),
                    None,
                    None,
                );
                proof {
                    assert(record@ == spec_conda_env(dv[i as int], gbin));
                }
                dispatcher.report_environment(&record);
                proof {
                    assert(dispatcher@ == spec_conda_step(prev, dv[i as int], gbin));
                }
            },
            None => {
                proof {
                    assert(dispatcher@ == spec_conda_step(prev, dv[i as int], gbin));
                }
            },
        }
        proof {
            assert(spec_conda_fold(prev, dv, i as int, gbin) == spec_conda_fold(
                dispatcher@,
                dv,
                i + 1,
                gbin,
            ));
        }
        i = i + 1;
    }
    proof {
        assert(spec_conda_fold(dispatcher@, dv, n as int, gbin) == dispatcher@);
    }
    Some(())
}

} // verus!
