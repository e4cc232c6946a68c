use vstd::prelude::*;

use crate::strutil::path_join_seq;
use crate::strutil::path_join;

verus! {

// ---------------------------------------------------------------------------
// Candidate interpreters
// ---------------------------------------------------------------------------

/// Abstract content of a candidate interpreter.
pub struct PythonEnvModel {
    pub path: Option<Seq<char>>,
    pub executable: Seq<char>,
    pub version: Option<Seq<char>>,
}

/// A filesystem path believed to be a Python executable, with the
/// environment root directory it sits in (when there is one) and the
/// version that probing resolved (when it could).
#[derive(Debug)]
pub struct PythonEnv {
    pub path: Option<String>,
    pub executable: String,
    pub version: Option<String>,
}

impl View for PythonEnv {
    type V = PythonEnvModel;

    open spec fn view(&self) -> PythonEnvModel {
        PythonEnvModel {
            path: self.path.deep_view(),
            executable: self.executable@,
            version: self.version.deep_view(),
        }
    }
}

impl DeepView for PythonEnv {
    type V = PythonEnvModel;

    open spec fn deep_view(&self) -> PythonEnvModel {
        self.view()
    }
}

impl PythonEnv {
    pub fn new(executable: String, path: Option<String>, version: Option<String>) -> (r: Self)
        ensures
            r.executable == executable,
            r.path == path,
            r.version == version,
    {
        Self { path, executable, version }
    }
}

// ---------------------------------------------------------------------------
// Candidate root directories of globally kept virtual environments
// ---------------------------------------------------------------------------

/// The candidate root directories, in order: the resolved `WORKON_HOME`
/// when there is one, then the conventional directories under the user
/// home. Whether each exists is for the caller to probe.
pub open spec fn global_virtualenv_dir_candidates(
    work_on_home: Option<Seq<char>>,
    home: Option<Seq<char>>,
) -> Seq<Seq<char>> {
    let woh = match work_on_home {
        Some(w) => seq![w],
        None => Seq::<Seq<char>>::empty(),
    };
    match home {
        Some(h) => woh + seq![
            path_join_seq(h, "envs"@),
            path_join_seq(h, ".direnv"@),
            path_join_seq(h, ".venvs"@),
            path_join_seq(h, ".virtualenvs"@),
            path_join_seq(h, ".local/share/virtualenvs"@),
            path_join_seq(h, "Envs"@),
        ],
        None => woh,
    }
}

/// Lists the directories that may hold globally kept virtual environments:
/// the canonicalized `WORKON_HOME` (when set) followed by the conventional
/// directories under the user home. Existence is not checked here.
pub fn get_global_virtualenv_dirs(work_on_home: &Option<String>, home: &Option<String>) -> (r: Vec<
    String,
>)
    ensures
        r.deep_view() == global_virtualenv_dir_candidates(
            work_on_home.deep_view(),
            home.deep_view(),
        ),
{
    let mut dirs: Vec<String> = Vec::new();
    match work_on_home {
        Some(w) => dirs.push(w.clone()),
        None => (),
    }
    match home {
        Some(h) => {
            dirs.push(path_join(h.as_str(), "envs"));
            dirs.push(path_join(h.as_str(), ".direnv"));
            dirs.push(path_join(h.as_str(), ".venvs"));
            dirs.push(path_join(h.as_str(), ".virtualenvs"));
            dirs.push(path_join(h.as_str(), ".local/share/virtualenvs"));
            dirs.push(path_join(h.as_str(), "Envs"));
        },
        None => (),
    }
    proof {
        assert(dirs.deep_view() =~= global_virtualenv_dir_candidates(
            work_on_home.deep_view(),
            home.deep_view(),
        ));
    }
    dirs
}

} // verus!
