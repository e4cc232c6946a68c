use vstd::prelude::*;

use crate::messaging::{
    Dispatcher, EnvManager, EnvManagerModel, PythonEnvironment, PythonEnvironmentCategory,
    PythonEnvironmentModel, spec_report_environment, spec_report_environment_manager,
};
use crate::strutil::{digit_run_end, digit_run_end_exec, path_join, path_join_seq};

verus! {

// ---------------------------------------------------------------------------
// Classification of version-directory names
// ---------------------------------------------------------------------------

/// A stable release: three dot-separated nonempty runs of digits making up
/// the whole name (`3.10.10`).
pub open spec fn is_stable_version(s: Seq<char>) -> bool {
    let a = digit_run_end(s, 0);
    let b = digit_run_end(s, a + 1);
    let c = digit_run_end(s, b + 1);
    &&& 0 < a < s.len()
    &&& s[a] == '.'
    &&& a + 1 < b < s.len()
    &&& s[b] == '.'
    &&& b + 1 < c
    &&& c == s.len()
}

/// A dev build: two dot-separated nonempty runs of digits followed by
/// `-dev`, making up the whole name (`3.13-dev`).
pub open spec fn is_dev_version(s: Seq<char>) -> bool {
    let a = digit_run_end(s, 0);
    let b = digit_run_end(s, a + 1);
    &&& 0 < a < s.len()
    &&& s[a] == '.'
    &&& a + 1 < b
    &&& b + 4 == s.len()
    &&& s[b] == '-'
    &&& s[b + 1] == 'd'
    &&& s[b + 2] == 'e'
    &&& s[b + 3] == 'v'
}

/// End of an alpha/pre-release prefix: three dot-separated nonempty runs
/// of digits, an `a`, and a nonempty run of digits (`3.12.1a3`); anything
/// may follow. -1 when the name has no such prefix.
pub open spec fn alpha_prefix_end(s: Seq<char>) -> int {
    let a = digit_run_end(s, 0);
    let b = digit_run_end(s, a + 1);
    let c = digit_run_end(s, b + 1);
    let d = digit_run_end(s, c + 1);
    if 0 < a < s.len() && s[a] == '.' && a + 1 < b < s.len() && s[b] == '.' && b + 1 < c < s.len()
        && s[c] == 'a' && c + 1 < d {
        d
    } else {
        -1
    }
}

/// The version a directory name is tagged with, in priority order: a
/// stable release (the whole name), a dev build (the whole name), an
/// alpha prefix (the prefix), or nothing. A directory classified as
/// nothing is not reported.
pub open spec fn classify_version(s: Seq<char>) -> Option<Seq<char>> {
    if is_stable_version(s) {
        Some(s)
    } else if is_dev_version(s) {
        Some(s)
    } else if alpha_prefix_end(s) >= 0 {
        Some(s.take(alpha_prefix_end(s)))
    } else {
        None
    }
}

/// Classifies a pyenv version-directory name.
pub fn get_pyenv_version(folder_name: &str) -> (r: Option<String>)
    ensures
        (r is Some) == (classify_version(folder_name@) is Some),
        r matches Some(v) ==> classify_version(folder_name@) matches Some(w) && v@ == w,
{
    let n: usize = folder_name.unicode_len();
    let a = digit_run_end_exec(folder_name, 0);
    if a == 0 || a == n || folder_name.get_char(a) != '.' {
        return None;
    }
    let b = digit_run_end_exec(folder_name, a + 1);
    if b > a + 1 && b < n && folder_name.get_char(b) == '.' {
        let c = digit_run_end_exec(folder_name, b + 1);
        if c > b + 1 && c == n {
            return Some(String::from_str(folder_name));
        }
        if c > b + 1 && c < n && folder_name.get_char(c) == 'a' {
            let d = digit_run_end_exec(folder_name, c + 1);
            if d > c + 1 {
                let prefix = String::from_str(folder_name.substring_char(0, d));
                proof {
                    assert(prefix@ =~= folder_name@.take(alpha_prefix_end(folder_name@)));
                }
                return Some(prefix);
            }
        }
        return None;
    }
    if b > a + 1 && n - b == 4 && folder_name.get_char(b) == '-' && folder_name.get_char(b + 1)
        == 'd' && folder_name.get_char(b + 2) == 'e' && folder_name.get_char(b + 3) == 'v' {
        return Some(String::from_str(folder_name));
    }
    None
}

// ---------------------------------------------------------------------------
// Resolution of the pyenv installation
// ---------------------------------------------------------------------------

/// The default pyenv directory on a Unix host: `.pyenv` under the user
/// home; nothing without a home.
pub open spec fn spec_home_pyenv_dir(home: Option<Seq<char>>) -> Option<Seq<char>> {
    match home {
        Some(h) => Some(path_join_seq(h, ".pyenv"@)),
        None => None,
    }
}

/// The default pyenv directory under the user home.
pub fn get_home_pyenv_dir(home: &Option<String>) -> (r: Option<String>)
    ensures
        r.deep_view() == spec_home_pyenv_dir(home.deep_view()),
{
    match home {
        Some(h) => Some(path_join(h.as_str(), ".pyenv")),
        None => None,
    }
}

/// The resolved pyenv installation directory: the `PYENV_ROOT` variable,
/// else the `PYENV` variable, else the default under the user home.
pub open spec fn spec_pyenv_dir(
    pyenv_root_var: Option<Seq<char>>,
    pyenv_var: Option<Seq<char>>,
    home: Option<Seq<char>>,
) -> Option<Seq<char>> {
    match pyenv_root_var {
        Some(d) => Some(d),
        None => match pyenv_var {
            Some(d) => Some(d),
            None => spec_home_pyenv_dir(home),
        },
    }
}

/// Resolves the pyenv installation directory from the two environment
/// variables and the user home.
pub fn get_pyenv_dir(
    pyenv_root_var: &Option<String>,
    pyenv_var: &Option<String>,
    home: &Option<String>,
) -> (r: Option<String>)
    ensures
        r.deep_view() == spec_pyenv_dir(
            pyenv_root_var.deep_view(),
            pyenv_var.deep_view(),
            home.deep_view(),
        ),
{
    match pyenv_root_var {
        Some(d) => Some(d.clone()),
        None => match pyenv_var {
            Some(d) => Some(d.clone()),
            None => get_home_pyenv_dir(home),
        },
    }
}

/// Where the pyenv binary sits inside its installation directory; whether
/// it exists there is for the caller to probe.
pub fn get_pyenv_binary_candidate(pyenv_dir: &str) -> (r: String)
    ensures
        r@ == path_join_seq(pyenv_dir@, "bin/pyenv"@),
{
    path_join(pyenv_dir, "bin/pyenv")
}

/// The candidate locations of a `pyenv` binary inside the well-known
/// global binary directories, in search order.
pub fn binary_candidates_from_known_paths(locations: &Vec<String>) -> (r: Vec<String>)
    ensures
        r@.len() == locations@.len(),
        forall|i: int| 0 <= i < r@.len() ==> r@[i]@ == path_join_seq(
            locations.deep_view()[i],
            "pyenv"@,
        ),
{
    let n: usize = locations.len();
    let mut r: Vec<String> = Vec::new();
    let mut i: usize = 0;
    while i < n
        invariant
            0 <= i <= n,
            n == locations@.len(),
            r@.len() == i,
            forall|j: int| 0 <= j < i ==> r@[j]@ == path_join_seq(
                locations.deep_view()[j],
                "pyenv"@,
            ),
        decreases n - i,
    {
        let c = path_join(locations[i].as_str(), "pyenv");
        proof {
            assert(locations.deep_view()[i as int] == locations@[i as int]@);
        }
        r.push(c);
        i = i + 1;
    }
    r
}

/// The directory that holds one version directory per installed
/// interpreter.
pub fn get_versions_dir(pyenv_dir: &str) -> (r: String)
    ensures
        r@ == path_join_seq(pyenv_dir@, "versions"@),
{
    path_join(pyenv_dir, "versions")
}

// ---------------------------------------------------------------------------
// Reporting the discovered versions
// ---------------------------------------------------------------------------

/// Abstract content of one probed version directory.
pub struct PyenvVersionDirModel {
    pub name: Seq<char>,
    pub path: Seq<char>,
    pub executable: Option<Seq<char>>,
}

/// One directory under `versions/`, as probing saw it: its bare name, its
/// full path, and the interpreter binary found inside it, if any.
#[derive(Debug)]
pub struct PyenvVersionDir {
    pub name: String,
    pub path: String,
    pub executable: Option<String>,
}

impl View for PyenvVersionDir {
    type V = PyenvVersionDirModel;

    open spec fn view(&self) -> PyenvVersionDirModel {
        PyenvVersionDirModel {
            name: self.name@,
            path: self.path@,
            executable: self.executable.deep_view(),
        }
    }
}

impl DeepView for PyenvVersionDir {
    type V = PyenvVersionDirModel;

    open spec fn deep_view(&self) -> PyenvVersionDirModel {
        self.view()
    }
}

/// The binary named in activation commands: the discovered pyenv binary,
/// or the bare name `pyenv` when none was found.
pub open spec fn pyenv_activation_binary(binary: Option<Seq<char>>) -> Seq<char> {
    match binary {
        Some(b) => b,
        None => "pyenv"@,
    }
}

/// The record reported for a version directory `v` tagged `ver`.
pub open spec fn spec_pyenv_env(
    v: PyenvVersionDirModel,
    ver: Seq<char>,
    bin: Seq<char>,
) -> PythonEnvironmentModel {
    PythonEnvironmentModel {
        name: Some("Python"@),
        python_executable_path: v.executable.unwrap(),
        category: PythonEnvironmentCategory::Pyenv,
        version: Some(ver),
        activated_run: Some(seq![bin, "local"@, ver]),
        env_path: Some(v.path),
        sys_prefix_path: Some(v.path),
        project_path: None,
        env_manager: None,
    }
}

/// What one version directory adds to the dispatcher: a report when it
/// holds an interpreter and its name classifies, else nothing.
pub open spec fn spec_pyenv_step(
    m: crate::messaging::DispatcherModel,
    v: PyenvVersionDirModel,
    bin: Seq<char>,
) -> crate::messaging::DispatcherModel {
    if v.executable is Some && classify_version(v.name) is Some {
        spec_report_environment(m, spec_pyenv_env(v, classify_version(v.name).unwrap(), bin))
    } else {
        m
    }
}

/// The version directories from index `i` on, reported in order.
pub open spec fn spec_pyenv_fold(
    m: crate::messaging::DispatcherModel,
    vs: Seq<PyenvVersionDirModel>,
    i: int,
    bin: Seq<char>,
) -> crate::messaging::DispatcherModel
    decreases vs.len() - i,
{
    if 0 <= i && i < vs.len() {
        spec_pyenv_fold(spec_pyenv_step(m, vs[i], bin), vs, i + 1, bin)
    } else {
        m
    }
}

/// The whole pyenv discovery: the manager binary reported first when one
/// was found, then each version directory in order.
pub open spec fn spec_pyenv_discovery(
    m: crate::messaging::DispatcherModel,
    binary: Option<Seq<char>>,
    vs: Seq<PyenvVersionDirModel>,
) -> crate::messaging::DispatcherModel {
    let m1 = match binary {
        Some(b) => spec_report_environment_manager(
            m,
            EnvManagerModel { executable_path: b, version: None },
        ),
        None => m,
    };
    spec_pyenv_fold(m1, vs, 0, pyenv_activation_binary(binary))
}

/// Reports the pyenv manager binary and every confidently version-tagged
/// interpreter under `versions/`. `pyenv_dir` is the resolved installation
/// directory (`None` when pyenv is not installed: nothing is reported),
/// `pyenv_binary` the discovered manager binary, and `versions` the probed
/// version directories in directory order.
pub fn find_and_report(
    dispatcher: &mut Dispatcher,
    pyenv_dir: &Option<String>,
    pyenv_binary: &Option<String>,
    versions: &Vec<PyenvVersionDir>,
) -> (r: Option<()>)
    ensures
        pyenv_dir is None ==> final(dispatcher)@ == old(dispatcher)@ && r is None,
        pyenv_dir is Some ==> r is Some && final(dispatcher)@ == spec_pyenv_discovery(
            old(dispatcher)@,
            pyenv_binary.deep_view(),
            versions.deep_view(),
        ),
{
    if pyenv_dir.is_none() {
        return None;
    }
    match pyenv_binary {
        Some(b) => {
            let mgr = EnvManager::new(b.clone(), None);
            proof {
                assert(mgr@ == EnvManagerModel { executable_path: b@, version: None });
            }
            dispatcher.report_environment_manager(&mgr);
        },
        None => (),
    }
    let ghost m1 = dispatcher@;
    let bin_for_activation: String = match pyenv_binary {
        Some(b) => b.clone(),
        None => String::from_str("pyenv"),
    };
    let ghost gbin = pyenv_activation_binary(pyenv_binary.deep_view());
    proof {
        assert(bin_for_activation@ == gbin);
    }
    let ghost dv = versions.deep_view();
    let n: usize = versions.len();
    let mut i: usize = 0;
    while i < n
        invariant
            0 <= i <= n,
            n == versions@.len(),
            dv == versions.deep_view(),
            dv.len() == n,
            gbin == pyenv_activation_binary(pyenv_binary.deep_view()),
            bin_for_activation@ == gbin,
            spec_pyenv_fold(dispatcher@, dv, i as int, gbin) == spec_pyenv_fold(m1, dv, 0, gbin),
        decreases n - i,
    {
        let ghost prev = dispatcher@;
        let v = &versions[i];
        proof {
            assert(dv[i as int] == versions@[i as int].deep_view());
        }
        match &v.executable {
            Some(exe) => {
                match get_pyenv_version(v.name.as_str()) {
                    Some(ver) => {
                        let ghost gver = classify_version(v.name@).unwrap();
                        let mut run: Vec<String> = Vec::new();
                        run.push(bin_for_activation.clone());
                        run.push(String::from_str("local"));
                        run.push(ver.clone());
                        proof {
                            assert(run.deep_view() =~= seq![gbin, "local"@, gver]);
                        }
                        let record = PythonEnvironment::new(
                            Some(String::from_str("Python")),
                            exe.clone(),
                            PythonEnvironmentCategory::Pyenv,
                            Some(ver),
                            Some(run),
                            Some(v.path.clone()),
                            Some(v.path.clone()),
                            None,
                            None,
                        );
                        proof {
                            assert(record@ == spec_pyenv_env(dv[i as int], gver, gbin));
                        }
                        dispatcher.report_environment(&record);
                        proof {
                            assert(dispatcher@ == spec_pyenv_step(prev, dv[i as int], gbin));
                        }
                    },
                    None => {
                        proof {
                            assert(dispatcher@ == spec_pyenv_step(prev, dv[i as int], gbin));
                        }
                    },
                }
            },
            None => {
                proof {
                    assert(dispatcher@ == spec_pyenv_step(prev, dv[i as int], gbin));
                }
            },
        }
        proof {
            assert(spec_pyenv_fold(prev, dv, i as int, gbin) == spec_pyenv_fold(
                dispatcher@,
                dv,
                i + 1,
                gbin,
            ));
        }
        i = i + 1;
    }
    proof {
        assert(spec_pyenv_fold(dispatcher@, dv, n as int, gbin) == dispatcher@);
    }
    Some(())
}

} // verus!
