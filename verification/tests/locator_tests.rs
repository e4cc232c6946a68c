use python_finder::common_python::{candidate_paths, get_env_path, version_from_banner, PythonOnPath};
use python_finder::global_virtualenvs::{get_global_virtualenv_dirs, PythonEnv};
use python_finder::known::{get_know_global_search_locations, get_user_home};
use python_finder::messaging::{get_rpc_messages, Dispatcher};
use python_finder::pipenv::{self, get_project_folder, PipenvCandidate};
use python_finder::virtualenv::{self, is_virtualenv, VirtualEnv};
use python_finder::virtualenvwrapper::{
    self, get_default_virtualenvwrapper_path, get_work_on_home_path, is_virtualenvwrapper,
};
use python_finder::windows_python;

fn env(executable: &str, path: Option<&str>, version: Option<&str>) -> PythonEnv {
    PythonEnv::new(
        executable.to_string(),
        path.map(|p| p.to_string()),
        version.map(|v| v.to_string()),
    )
}

fn listing(names: &[&str]) -> Option<Vec<String>> {
    Some(names.iter().map(|n| n.to_string()).collect())
}

#[test]
fn find_python_in_path() {
    let dir = "/tests/unix/known";
    let exe = format!("{}/python", dir);
    let candidates = candidate_paths(dir);
    assert_eq!(candidates, vec![exe.clone()]);

    let mut locator = PythonOnPath::with();
    let probes = vec![env(&exe, None, Some("12.0.0"))];
    let r = locator.gather(&Some(dir.to_string()), &probes);
    assert!(r.is_some());
    let mut dispatcher = Dispatcher::new();
    locator.report(&mut dispatcher);
    let messages = get_rpc_messages(&dispatcher);
    assert_eq!(messages.len(), 1);
    let v: serde_json::Value = serde_json::from_str(&messages[0]).unwrap();
    assert_eq!(v["method"], "pythonEnvironment");
    assert_eq!(v["params"]["version"], "12.0.0");
    assert_eq!(v["params"]["pythonExecutablePath"], exe.as_str());
}

#[test]
fn find_python_in_path_this() {
    let dir = "/tests/unix/known";
    let exe = format!("{}/python", dir);
    let mut locator = PythonOnPath::with();
    locator.gather(&Some(dir.to_string()), &vec![env(&exe, None, None)]);
    let mut dispatcher = Dispatcher::new();
    locator.report(&mut dispatcher);
    let messages = get_rpc_messages(&dispatcher);
    assert_eq!(messages.len(), 1);
    let v: serde_json::Value = serde_json::from_str(&messages[0]).unwrap();
    let p = &v["params"];
    assert_eq!(p["category"], "System");
    assert_eq!(p["pythonExecutablePath"], exe.as_str());
    // The environment root is the executable's parent directory.
    assert_eq!(p["envPath"], dir);
    let run = p["activatedRun"].as_array().unwrap();
    assert_eq!(run.len(), 1);
    assert_eq!(run[0], exe.as_str());
}

#[test]
fn path_locator_claims_only_the_canonical_name() {
    let mut locator = PythonOnPath::with();
    assert!(!locator.track_if_compatible(&env("/usr/bin/python3", None, None)));
    assert!(!locator.track_if_compatible(&env("/usr/bin/ruby", None, None)));
    assert!(locator.track_if_compatible(&env("/usr/bin/python", Some("/usr/bin"), None)));
    // The base name must match exactly; another case is another file.
    assert!(!locator.track_if_compatible(&env("/opt/bin/Python", Some("/opt/bin"), None)));
    assert!(locator.is_known("/usr/bin/python"));
    assert!(!locator.is_known("/usr/bin/python3"));
    // Tracking the same executable twice stores it once.
    assert!(locator.track_if_compatible(&env("/usr/bin/python", Some("/usr/bin"), None)));
    let mut dispatcher = Dispatcher::new();
    locator.report(&mut dispatcher);
    assert_eq!(get_rpc_messages(&dispatcher).len(), 1);
}

#[test]
fn env_path_skips_the_windows_scripts_directory() {
    assert_eq!(get_env_path("/a/b/python"), Some("/a/b".to_string()));
    assert_eq!(get_env_path("/a/Scripts/python"), Some("/a".to_string()));
    assert_eq!(get_env_path("python"), None);
    assert_eq!(
        candidate_paths("/usr/bin:/opt:"),
        vec![
            "/usr/bin/python".to_string(),
            "/opt/python".to_string(),
            "python".to_string(),
        ]
    );
}

#[test]
fn virtualenv_sibling_file_test() {
    // A directory containing only activate.fish is compatible.
    assert!(is_virtualenv(&listing(&["activate.fish"])));
    assert!(is_virtualenv(&listing(&["python", "activate"])));
    assert!(is_virtualenv(&listing(&["activate.bat"])));
    assert!(is_virtualenv(&listing(&["activate.ps1", "pip"])));
    // No file beginning with activate: not compatible.
    assert!(!is_virtualenv(&listing(&["python", "pip", "deactivate"])));
    assert!(!is_virtualenv(&listing(&[])));
    // An unreadable directory is never an error, only incompatible.
    assert!(!is_virtualenv(&None));
}

#[test]
fn virtualenv_locator_tracks_and_reports() {
    let mut locator = VirtualEnv::new();
    let candidate = env(
        "/v/envs/demo/bin/python",
        Some("/v/envs/demo"),
        Some("3.11.2"),
    );
    assert!(!locator.is_compatible(&None));
    assert!(locator.track_if_compatible(&candidate, &listing(&["activate.fish"])));
    assert!(locator.is_known("/v/envs/demo/bin/python"));
    let mut dispatcher = Dispatcher::new();
    locator.report(&mut dispatcher);
    let messages = get_rpc_messages(&dispatcher);
    assert_eq!(messages.len(), 1);
    let v: serde_json::Value = serde_json::from_str(&messages[0]).unwrap();
    let p = &v["params"];
    assert_eq!(p["category"], "virtualenv");
    assert_eq!(p["name"], "demo");
    assert_eq!(p["version"], "3.11.2");
    assert_eq!(p["envPath"], "/v/envs/demo");
    assert_eq!(p["sysPrefixPath"], "/v/envs/demo");
}

#[test]
fn virtualenv_find_and_report_rejects_incompatible() {
    let mut dispatcher = Dispatcher::new();
    let candidate = env("/v/envs/demo/bin/python", Some("/v/envs/demo"), None);
    let r = virtualenv::find_and_report(&candidate, &listing(&["python"]), &mut dispatcher);
    assert!(r.is_none());
    assert_eq!(get_rpc_messages(&dispatcher).len(), 0);
    let r = virtualenv::find_and_report(&candidate, &listing(&["activate"]), &mut dispatcher);
    assert!(r.is_some());
    assert_eq!(get_rpc_messages(&dispatcher).len(), 1);
}

#[test]
fn virtualenvwrapper_requires_containment() {
    let root = Some("/home/tester/.virtualenvs".to_string());
    let inside = env(
        "/home/tester/.virtualenvs/demo/bin/python",
        Some("/home/tester/.virtualenvs/demo"),
        None,
    );
    let outside = env("/srv/demo/bin/python", Some("/srv/demo"), None);
    let activate = listing(&["activate.fish"]);
    // Outside the resolved WORKON_HOME tree: never classified, even though
    // the generic virtualenv test passes.
    assert!(!is_virtualenvwrapper(&outside, &root, &activate));
    // A sibling prefix is not containment.
    let sibling = env("/home/tester/.virtualenvs-old/bin/python", None, None);
    assert!(!is_virtualenvwrapper(&sibling, &root, &activate));
    // Without a resolved root nothing is classified.
    assert!(!is_virtualenvwrapper(&inside, &None, &activate));
    // Inside the tree with the sibling test passing: classified.
    assert!(is_virtualenvwrapper(&inside, &root, &activate));
    assert!(!is_virtualenvwrapper(&inside, &root, &listing(&["python"])));

    let mut dispatcher = Dispatcher::new();
    let r = virtualenvwrapper::find_and_report(&outside, &mut dispatcher, &root, &activate);
    assert!(r.is_none());
    assert_eq!(get_rpc_messages(&dispatcher).len(), 0);
    let r = virtualenvwrapper::find_and_report(&inside, &mut dispatcher, &root, &activate);
    assert!(r.is_some());
    let messages = get_rpc_messages(&dispatcher);
    assert_eq!(messages.len(), 1);
    let v: serde_json::Value = serde_json::from_str(&messages[0]).unwrap();
    assert_eq!(v["params"]["category"], "virtualenvwrapper");
    assert_eq!(v["params"]["name"], "demo");
}

#[test]
fn virtualenvwrapper_root_resolution() {
    let home = Some("/home/tester".to_string());
    assert_eq!(
        get_default_virtualenvwrapper_path(&home),
        Some("/home/tester/.virtualenvs".to_string())
    );
    assert_eq!(get_default_virtualenvwrapper_path(&None), None);
    assert_eq!(
        get_work_on_home_path(&Some("/workon".to_string()), &home),
        Some("/workon".to_string())
    );
    assert_eq!(
        get_work_on_home_path(&None, &home),
        Some("/home/tester/.virtualenvs".to_string())
    );
    assert_eq!(get_work_on_home_path(&None, &None), None);
}

#[test]
fn pipenv_project_binding() {
    // A .project file pointing at a non-existent path yields no report.
    let dangling = PipenvCandidate {
        env: env("/v/envs/demo/bin/python", Some("/v/envs/demo"), None),
        project_file: Some("/gone/project\n".to_string()),
        project_target_exists: false,
    };
    let mut dispatcher = Dispatcher::new();
    let r = pipenv::find_and_report(&mut dispatcher, &vec![dangling]);
    assert!(r.is_some());
    assert_eq!(get_rpc_messages(&dispatcher).len(), 0);

    // A valid binding is reported, with the trimmed target attached.
    let bound = PipenvCandidate {
        env: env(
            "/v/envs/demo/bin/python",
            Some("/v/envs/demo"),
            Some("3.10.4"),
        ),
        project_file: Some("  /srv/project \n".to_string()),
        project_target_exists: true,
    };
    let unbound = PipenvCandidate {
        env: env("/v/envs/other/bin/python", Some("/v/envs/other"), None),
        project_file: None,
        project_target_exists: false,
    };
    let mut dispatcher = Dispatcher::new();
    pipenv::find_and_report(&mut dispatcher, &vec![bound, unbound]);
    let messages = get_rpc_messages(&dispatcher);
    assert_eq!(messages.len(), 1);
    let v: serde_json::Value = serde_json::from_str(&messages[0]).unwrap();
    let p = &v["params"];
    assert_eq!(p["category"], "pipenv");
    assert_eq!(p["projectPath"], "/srv/project");
    assert_eq!(p["version"], "3.10.4");
    assert_eq!(p["envPath"], "/v/envs/demo");
}

#[test]
fn pipenv_project_folder_resolution() {
    assert_eq!(
        get_project_folder(&Some(" /srv/app \r\n".to_string()), true),
        Some("/srv/app".to_string())
    );
    assert_eq!(get_project_folder(&Some("/srv/app".to_string()), false), None);
    assert_eq!(get_project_folder(&None, true), None);
    assert_eq!(get_project_folder(&Some(" \n".to_string()), true), Some("".to_string()));
}

#[test]
fn global_virtualenv_dirs_are_listed_in_order() {
    let home = Some("/home/tester".to_string());
    let dirs = get_global_virtualenv_dirs(&Some("/workon".to_string()), &home);
    assert_eq!(
        dirs,
        vec![
            "/workon".to_string(),
            "/home/tester/envs".to_string(),
            "/home/tester/.direnv".to_string(),
            "/home/tester/.venvs".to_string(),
            "/home/tester/.virtualenvs".to_string(),
            "/home/tester/.local/share/virtualenvs".to_string(),
            "/home/tester/Envs".to_string(),
        ]
    );
    assert_eq!(get_global_virtualenv_dirs(&None, &None).len(), 0);
}

#[test]
fn known_search_locations_are_fixed() {
    let locations = get_know_global_search_locations();
    assert_eq!(locations.len(), 12);
    assert_eq!(locations[0], "/usr/bin");
    assert_eq!(locations[11], "/opt/homebrew/bin");
}

#[test]
fn windows_store_names_and_reports() {
    assert!(windows_python::is_windows_store_python("python3.11.exe"));
    assert!(windows_python::is_windows_store_python("PYTHON3.8.EXE"));
    assert!(!windows_python::is_windows_store_python("python.exe"));
    assert!(!windows_python::is_windows_store_python("python3.11"));
    assert!(!windows_python::is_windows_store_python("idle3.11.exe"));

    let home = Some("/home/tester".to_string());
    assert_eq!(
        windows_python::get_windows_apps_path("/home/tester"),
        "/home/tester/AppData/Local/Microsoft/WindowsApps"
    );
    let files = vec![
        env("/apps/python3.11.exe", None, Some("3.11.0")),
        env("/apps/notepad.exe", None, None),
    ];
    let mut dispatcher = Dispatcher::new();
    let r = windows_python::find_and_report(&mut dispatcher, &home, &files);
    assert!(r.is_some());
    let messages = get_rpc_messages(&dispatcher);
    assert_eq!(messages.len(), 1);
    let v: serde_json::Value = serde_json::from_str(&messages[0]).unwrap();
    let p = &v["params"];
    assert_eq!(p["category"], "windowsStore");
    assert_eq!(p["name"], "Python");
    assert_eq!(p["version"], "3.11.0");
    assert!(p["envPath"].is_null());
    assert!(p["activatedRun"].is_null());

    let mut dispatcher = Dispatcher::new();
    assert!(windows_python::find_and_report(&mut dispatcher, &None, &files).is_none());
    assert_eq!(get_rpc_messages(&dispatcher).len(), 0);
}

#[test]
fn identity_dedup_across_locators() {
    // Two locators classify the same executable; the dispatcher emits one
    // report, and the first locator in orchestrator order wins.
    let exe = "/home/tester/.virtualenvs/demo/bin/python";
    let candidate = env(exe, Some("/home/tester/.virtualenvs/demo"), None);
    let mut path_locator = PythonOnPath::with();
    path_locator.track_if_compatible(&candidate);
    let mut dispatcher = Dispatcher::new();
    path_locator.report(&mut dispatcher);
    let r = virtualenvwrapper::find_and_report(
        &candidate,
        &mut dispatcher,
        &Some("/home/tester/.virtualenvs".to_string()),
        &listing(&["activate"]),
    );
    // The later locator still claims the candidate, but its report is
    // silently suppressed.
    assert!(r.is_some());
    let messages = get_rpc_messages(&dispatcher);
    assert_eq!(messages.len(), 1);
    let v: serde_json::Value = serde_json::from_str(&messages[0]).unwrap();
    assert_eq!(v["params"]["category"], "System");
}

#[test]
fn full_run_emits_ordered_frames() {
    // A whole discovery run: PATH locator, then pyenv, then the exit
    // message, each frame carrying its body's byte length.
    let mut dispatcher = Dispatcher::new();
    let mut path_locator = PythonOnPath::with();
    path_locator.gather(
        &Some("/usr/bin".to_string()),
        &vec![env("/usr/bin/python", None, Some("3.12.0"))],
    );
    path_locator.report(&mut dispatcher);
    python_finder::pyenv::find_and_report(
        &mut dispatcher,
        &Some("/home/tester/.pyenv".to_string()),
        &None,
        &vec![python_finder::pyenv::PyenvVersionDir {
            name: "3.9.9".to_string(),
            path: "/home/tester/.pyenv/versions/3.9.9".to_string(),
            executable: Some("/home/tester/.pyenv/versions/3.9.9/bin/python".to_string()),
        }],
    );
    dispatcher.report_exit();
    let messages = get_rpc_messages(&dispatcher);
    assert_eq!(messages.len(), 3);
    let methods: Vec<String> = messages
        .iter()
        .map(|m| {
            let v: serde_json::Value = serde_json::from_str(m).unwrap();
            v["method"].as_str().unwrap().to_string()
        })
        .collect();
    assert_eq!(methods, vec!["pythonEnvironment", "pythonEnvironment", "exit"]);
    for message in &messages {
        let framed = python_finder::messaging::frame_rpc_message(message);
        let expected = format!(
            "Content-Length: {}\r\nContent-Type: application/vscode-jsonrpc; charset=utf-8\r\n\r\n{}",
            message.len(),
            message
        );
        assert_eq!(framed, expected);
    }
}

#[test]
fn banner_parsing_takes_the_version_after_the_word() {
    assert_eq!(
        version_from_banner("Python 12.0.0\n"),
        Some("12.0.0".to_string())
    );
    assert_eq!(
        version_from_banner("  Python 3.11.4 \r\n"),
        Some("3.11.4".to_string())
    );
    assert_eq!(version_from_banner("python 3.11.4"), None);
    assert_eq!(version_from_banner("CPython 3.11.4"), None);
    assert_eq!(version_from_banner(""), None);
    // A banner of the bare word loses its trailing space to trimming.
    assert_eq!(version_from_banner("Python "), None);
    assert_eq!(version_from_banner("Python  3"), Some("3".to_string()));
}

#[test]
fn user_home_prefers_home_over_userprofile() {
    assert_eq!(
        get_user_home(&Some("/home/a".to_string()), &Some("/profile/b".to_string())),
        Some("/home/a".to_string())
    );
    assert_eq!(
        get_user_home(&None, &Some("/profile/b".to_string())),
        Some("/profile/b".to_string())
    );
    assert_eq!(get_user_home(&None, &None), None);
}
