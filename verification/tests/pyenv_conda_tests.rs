use python_finder::conda;
use python_finder::messaging::{get_rpc_messages, Dispatcher};
use python_finder::pyenv::{
    find_and_report, get_home_pyenv_dir, get_pyenv_binary_candidate, get_pyenv_dir,
    get_versions_dir, PyenvVersionDir,
};

fn version_dir(root: &str, name: &str, with_binary: bool) -> PyenvVersionDir {
    let path = format!("{}/versions/{}", root, name);
    let executable = if with_binary {
        Some(format!("{}/bin/python", path))
    } else {
        None
    };
    PyenvVersionDir {
        name: name.to_string(),
        path,
        executable,
    }
}

#[test]
fn resolves_pyenv_dir_in_precedence_order() {
    let home = Some("/home/tester".to_string());
    assert_eq!(
        get_pyenv_dir(&Some("/root-var".to_string()), &Some("/var".to_string()), &home),
        Some("/root-var".to_string())
    );
    assert_eq!(
        get_pyenv_dir(&None, &Some("/var".to_string()), &home),
        Some("/var".to_string())
    );
    assert_eq!(
        get_pyenv_dir(&None, &None, &home),
        Some("/home/tester/.pyenv".to_string())
    );
    assert_eq!(get_pyenv_dir(&None, &None, &None), None);
    assert_eq!(
        get_home_pyenv_dir(&home),
        Some("/home/tester/.pyenv".to_string())
    );
    assert_eq!(
        get_pyenv_binary_candidate("/home/tester/.pyenv"),
        "/home/tester/.pyenv/bin/pyenv"
    );
    assert_eq!(
        get_versions_dir("/home/tester/.pyenv"),
        "/home/tester/.pyenv/versions"
    );
}

#[test]
fn does_not_find_any_pyenv_envs() {
    let mut dispatcher = Dispatcher::new();
    let r = find_and_report(&mut dispatcher, &None, &None, &Vec::new());
    assert!(r.is_none());
    assert_eq!(get_rpc_messages(&dispatcher).len(), 0);
}

#[test]
fn does_not_find_any_pyenv_envs_even_with_pyenv_installed() {
    let root = "/home/tester/.pyenv".to_string();
    let pyenv_exe = "/opt/homebrew/bin/pyenv".to_string();
    let mut dispatcher = Dispatcher::new();
    let r = find_and_report(
        &mut dispatcher,
        &Some(root),
        &Some(pyenv_exe.clone()),
        &Vec::new(),
    );
    assert!(r.is_some());
    let messages = get_rpc_messages(&dispatcher);
    assert_eq!(messages.len(), 1);
    let v: serde_json::Value = serde_json::from_str(&messages[0]).unwrap();
    assert_eq!(v["method"], "envManager");
    assert_eq!(v["params"]["executablePath"], pyenv_exe.as_str());
    assert!(v["params"]["version"].is_null());
}

#[test]
fn find_pyenv_envs() {
    let root = "/home/tester/.pyenv";
    let pyenv_exe = "/opt/homebrew/bin/pyenv";
    let versions = vec![
        version_dir(root, "3.9.9", true),
        version_dir(root, "3.12.1", true),
        version_dir(root, "3.13-dev", true),
        version_dir(root, "3.12.1a3", true),
        version_dir(root, "nogo", true),
    ];
    let mut dispatcher = Dispatcher::new();
    let r = find_and_report(
        &mut dispatcher,
        &Some(root.to_string()),
        &Some(pyenv_exe.to_string()),
        &versions,
    );
    assert!(r.is_some());
    let messages = get_rpc_messages(&dispatcher);
    assert_eq!(messages.len(), 5);

    let manager: serde_json::Value = serde_json::from_str(&messages[0]).unwrap();
    assert_eq!(manager["method"], "envManager");
    assert_eq!(manager["params"]["executablePath"], pyenv_exe);
    assert!(manager["params"]["version"].is_null());

    let expected = ["3.9.9", "3.12.1", "3.13-dev", "3.12.1a3"];
    for (i, version) in expected.iter().enumerate() {
        let v: serde_json::Value = serde_json::from_str(&messages[i + 1]).unwrap();
        let env_path = format!("{}/versions/{}", root, version);
        assert_eq!(v["method"], "pythonEnvironment");
        let p = &v["params"];
        assert_eq!(p["name"], "Python");
        assert_eq!(p["category"], "pyenv");
        assert_eq!(
            p["pythonExecutablePath"],
            format!("{}/bin/python", env_path).as_str()
        );
        assert_eq!(p["version"], *version);
        let run = p["activatedRun"].as_array().unwrap();
        assert_eq!(run.len(), 3);
        assert_eq!(run[0], pyenv_exe);
        assert_eq!(run[1], "local");
        assert_eq!(run[2], *version);
        assert_eq!(p["envPath"], env_path.as_str());
        assert_eq!(p["sysPrefixPath"], env_path.as_str());
    }
}

#[test]
fn pyenv_version_dir_without_binary_is_skipped() {
    let root = "/home/tester/.pyenv";
    let versions = vec![
        version_dir(root, "3.9.9", false),
        version_dir(root, "3.12.1", true),
    ];
    let mut dispatcher = Dispatcher::new();
    find_and_report(&mut dispatcher, &Some(root.to_string()), &None, &versions);
    let messages = get_rpc_messages(&dispatcher);
    // No manager binary was found, so no manager report either.
    assert_eq!(messages.len(), 1);
    let v: serde_json::Value = serde_json::from_str(&messages[0]).unwrap();
    assert_eq!(v["params"]["version"], "3.12.1");
    // The activation command falls back to the bare binary name.
    assert_eq!(v["params"]["activatedRun"][0], "pyenv");
}

#[test]
fn does_not_find_any_conda_envs() {
    let mut dispatcher = Dispatcher::new();
    let r = conda::find_and_report(&mut dispatcher, &None, &Vec::new());
    assert!(r.is_some());
    assert_eq!(get_rpc_messages(&dispatcher).len(), 0);
}

#[test]
fn find_conda_exe_and_empty_envs() {
    let conda_exe = "/tests/unix/conda/conda".to_string();
    let mut dispatcher = Dispatcher::new();
    conda::find_and_report(&mut dispatcher, &Some(conda_exe.clone()), &Vec::new());
    let messages = get_rpc_messages(&dispatcher);
    assert_eq!(messages.len(), 1);
    let v: serde_json::Value = serde_json::from_str(&messages[0]).unwrap();
    assert_eq!(v["method"], "envManager");
    assert_eq!(v["params"]["executablePath"], conda_exe.as_str());
}

#[test]
fn finds_two_conda_envs_from_txt() {
    let conda_dir = "/tests/unix/conda";
    let conda_exe = format!("{}/conda", conda_dir);
    let conda_one = format!("{}/envs/one", conda_dir);
    let conda_two = format!("{}/envs/two", conda_dir);
    let registry = format!("{}\n{}", conda_one, conda_two);
    let roots = conda::conda_environment_roots(&registry);
    assert_eq!(roots, vec![conda_one.clone(), conda_two.clone()]);

    let entries = vec![
        conda::CondaEnvEntry {
            path: conda_one.clone(),
            executable: Some(format!("{}/python", conda_one)),
            version: Some("10.0.1".to_string()),
        },
        conda::CondaEnvEntry {
            path: conda_two.clone(),
            executable: Some(format!("{}/python", conda_two)),
            version: None,
        },
    ];
    let mut dispatcher = Dispatcher::new();
    conda::find_and_report(&mut dispatcher, &Some(conda_exe.clone()), &entries);
    let messages = get_rpc_messages(&dispatcher);
    assert_eq!(messages.len(), 3);

    let manager: serde_json::Value = serde_json::from_str(&messages[0]).unwrap();
    assert_eq!(manager["method"], "envManager");
    assert_eq!(manager["params"]["executablePath"], conda_exe.as_str());

    let one: serde_json::Value = serde_json::from_str(&messages[1]).unwrap();
    assert_eq!(one["method"], "pythonEnvironment");
    assert_eq!(one["params"]["category"], "conda");
    assert_eq!(one["params"]["name"], "envs/one");
    assert_eq!(one["params"]["version"], "10.0.1");
    assert_eq!(
        one["params"]["pythonExecutablePath"],
        format!("{}/python", conda_one).as_str()
    );
    let run = one["params"]["activatedRun"].as_array().unwrap();
    assert_eq!(run.len(), 5);
    assert_eq!(run[0], conda_exe.as_str());
    assert_eq!(run[1], "run");
    assert_eq!(run[2], "-n");
    assert_eq!(run[3], "envs/one");
    assert_eq!(run[4], "python");

    let two: serde_json::Value = serde_json::from_str(&messages[2]).unwrap();
    assert_eq!(two["params"]["category"], "conda");
    assert_eq!(two["params"]["name"], "envs/two");
    assert!(two["params"]["version"].is_null());
}

#[test]
fn conda_registry_parsing_trims_and_skips_blanks() {
    let contents = "  /a/envs/one \r\n\n\t\n/b/envs/two\r\n";
    let roots = conda::conda_environment_roots(contents);
    assert_eq!(roots, vec!["/a/envs/one".to_string(), "/b/envs/two".to_string()]);
    assert_eq!(conda::conda_environment_roots("").len(), 0);
}

#[test]
fn conda_env_names_take_trailing_components() {
    assert_eq!(conda::get_conda_env_name("/x/envs/one"), "envs/one");
    assert_eq!(conda::get_conda_env_name("one"), "one");
    assert_eq!(conda::get_conda_env_name("/one"), "one");
    // A root missing an interpreter yields no record but is not an error.
    let entries = vec![conda::CondaEnvEntry {
        path: "/x/envs/empty".to_string(),
        executable: None,
        version: None,
    }];
    let mut dispatcher = Dispatcher::new();
    conda::find_and_report(&mut dispatcher, &None, &entries);
    assert_eq!(get_rpc_messages(&dispatcher).len(), 0);
}
