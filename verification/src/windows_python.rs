use vstd::prelude::*;

use crate::global_virtualenvs::{PythonEnv, PythonEnvModel};
use crate::messaging::{
    Dispatcher, DispatcherModel, PythonEnvironment, PythonEnvironmentCategory,
    PythonEnvironmentModel, spec_report_environment,
};
use crate::strutil::{
    clone_opt_str, path_base, path_base_exec, path_join, path_join_seq, seq_ends_with_ci,
    seq_starts_with_ci, str_ends_with_ci, str_starts_with_ci,
};

verus! {

// ---------------------------------------------------------------------------
// The app-store location and its interpreters
// ---------------------------------------------------------------------------

/// The one fixed directory the app-store locator looks at, under the user
/// home.
pub fn get_windows_apps_path(home: &str) -> (r: String)
    ensures
        r@ == path_join_seq(home@, "AppData/Local/Microsoft/WindowsApps"@),
{
    path_join(home, "AppData/Local/Microsoft/WindowsApps")
}

/// A file is an app-store interpreter when its lowercased name starts with
/// `python3.` and ends with `.exe`; the letters are compared
/// case-insensitively.
pub open spec fn is_windows_store_python_name(name: Seq<char>) -> bool {
    seq_starts_with_ci(name, "python3."@) && seq_ends_with_ci(name, ".exe"@)
}

/// The name test on one file name.
pub fn is_windows_store_python(name: &str) -> (r: bool)
    ensures
        r == is_windows_store_python_name(name@),
{
    str_starts_with_ci(name, "python3.") && str_ends_with_ci(name, ".exe")
}

/// The record reported for an app-store interpreter: no environment root
/// and no activation command.
pub open spec fn spec_windows_store_env(f: PythonEnvModel) -> PythonEnvironmentModel {
    PythonEnvironmentModel {
        name: Some("Python"@),
        python_executable_path: f.executable,
        category: PythonEnvironmentCategory::WindowsStore,
        version: f.version,
        activated_run: None,
        env_path: None,
        sys_prefix_path: None,
        project_path: None,
        env_manager: None,
    }
}

/// What one file of the app-store directory adds to the dispatcher: a
/// report when its base name passes the name test, else nothing.
pub open spec fn spec_windows_step(m: DispatcherModel, f: PythonEnvModel) -> DispatcherModel {
    if is_windows_store_python_name(path_base(f.executable)) {
        spec_report_environment(m, spec_windows_store_env(f))
    } else {
        m
    }
}

/// The files from index `i` on, reported in order.
pub open spec fn spec_windows_fold(
    m: DispatcherModel,
    fs: Seq<PythonEnvModel>,
    i: int,
) -> DispatcherModel
    decreases fs.len() - i,
{
    if 0 <= i && i < fs.len() {
        spec_windows_fold(spec_windows_step(m, fs[i]), fs, i + 1)
    } else {
        m
    }
}

/// Reports every file of the app-store directory whose name passes the
/// name test, in directory order. `home` is the user home (`None` when
/// there is none: nothing is reported); `files` are the probed files, each
/// with its full path and best-effort version.
pub fn find_and_report(
    dispatcher: &mut Dispatcher,
    home: &Option<String>,
    files: &Vec<PythonEnv>,
) -> (r: Option<()>)
    ensures
        home is None ==> final(dispatcher)@ == old(dispatcher)@ && r is None,
        home is Some ==> r is Some && final(dispatcher)@ == spec_windows_fold(
            old(dispatcher)@,
            files.deep_view(),
            0,
        ),
{
    if home.is_none() {
        return None;
    }
    let ghost dv = files.deep_view();
    let n: usize = files.len();
    let mut i: usize = 0;
    while i < n
        invariant
            0 <= i <= n,
            n == files@.len(),
            dv == files.deep_view(),
            dv.len() == n,
            spec_windows_fold(dispatcher@, dv, i as int) == spec_windows_fold(
                old(dispatcher)@,
                dv,
                0,
            ),
        decreases n - i,
    {
        let ghost prev = dispatcher@;
        let f = &files[i];
        proof {
            assert(dv[i as int] == files@[i as int].deep_view());
        }
        let base = path_base_exec(f.executable.as_str());
        if is_windows_store_python(base.as_str()) {
            let record = PythonEnvironment::new(
                Some(String::from_str("Python")),
                f.executable.clone(),
                PythonEnvironmentCategory::WindowsStore,
                clone_opt_str(&f.version),
                None,
                None,
                None,
                None,
                None,
            );
            proof {
                assert(record@ == spec_windows_store_env(dv[i as int]));
            }
            dispatcher.report_environment(&record);
            proof {
                assert(dispatcher@ == spec_windows_step(prev, dv[i as int]));
            }
        } else {
            proof {
                assert(dispatcher@ == spec_windows_step(prev, dv[i as int]));
            }
        }
        proof {
            assert(spec_windows_fold(prev, dv, i as int) == spec_windows_fold(
                dispatcher@,
                dv,
                i + 1,
            ));
        }
        i = i + 1;
    }
    proof {
        assert(spec_windows_fold(dispatcher@, dv, n as int) == dispatcher@);
    }
    Some(())
}

} // verus!
