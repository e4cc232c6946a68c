use python_finder::messaging::{
    clear_rpc_messages, frame_rpc_message, get_rpc_messages, send_rpc_message, Dispatcher,
    EnvManager, EnvManagerMessage, ExitMessage, PythonEnvironment, PythonEnvironmentCategory,
    PythonEnvironmentMessage,
};

fn plain_env(exe: &str, category: PythonEnvironmentCategory) -> PythonEnvironment {
    PythonEnvironment::new(
        None,
        exe.to_string(),
        category,
        None,
        None,
        None,
        None,
        None,
        None,
    )
}

#[test]
fn dispatcher_dedups_environments_first_wins() {
    let mut d = Dispatcher::new();
    let first = plain_env("/usr/bin/python", PythonEnvironmentCategory::System);
    let second = plain_env("/usr/bin/python", PythonEnvironmentCategory::Pyenv);
    d.report_environment(&first);
    d.report_environment(&second);
    let messages = get_rpc_messages(&d);
    assert_eq!(messages.len(), 1);
    let v: serde_json::Value = serde_json::from_str(&messages[0]).unwrap();
    assert_eq!(v["method"], "pythonEnvironment");
    assert_eq!(v["params"]["category"], "System");
    let other = plain_env("/opt/python/bin/python", PythonEnvironmentCategory::Pyenv);
    d.report_environment(&other);
    assert_eq!(get_rpc_messages(&d).len(), 2);
}

#[test]
fn dispatcher_dedups_managers() {
    let mut d = Dispatcher::new();
    let m1 = EnvManager::new("/usr/bin/conda".to_string(), Some("1.2.3".to_string()));
    let m2 = EnvManager::new("/usr/bin/conda".to_string(), None);
    d.report_environment_manager(&m1);
    d.report_environment_manager(&m2);
    let messages = get_rpc_messages(&d);
    assert_eq!(messages.len(), 1);
    let v: serde_json::Value = serde_json::from_str(&messages[0]).unwrap();
    assert_eq!(v["method"], "envManager");
    assert_eq!(v["params"]["executablePath"], "/usr/bin/conda");
    assert_eq!(v["params"]["version"], "1.2.3");
}

#[test]
fn environment_message_wire_form() {
    let env = PythonEnvironment::new(
        Some("Python".to_string()),
        "/home/user/.pyenv/versions/3.9.9/bin/python".to_string(),
        PythonEnvironmentCategory::Pyenv,
        Some("3.9.9".to_string()),
        Some(vec![
            "pyenv".to_string(),
            "local".to_string(),
            "3.9.9".to_string(),
        ]),
        Some("/home/user/.pyenv/versions/3.9.9".to_string()),
        Some("/home/user/.pyenv/versions/3.9.9".to_string()),
        None,
        None,
    );
    let msg = PythonEnvironmentMessage::new(env);
    let body = msg.to_json();
    let v: serde_json::Value = serde_json::from_str(&body).unwrap();
    assert_eq!(v["jsonrpc"], "2.0");
    assert_eq!(v["method"], "pythonEnvironment");
    let p = &v["params"];
    assert_eq!(p["name"], "Python");
    assert_eq!(
        p["pythonExecutablePath"],
        "/home/user/.pyenv/versions/3.9.9/bin/python"
    );
    assert_eq!(p["category"], "pyenv");
    assert_eq!(p["version"], "3.9.9");
    let run = p["activatedRun"].as_array().unwrap();
    assert_eq!(run.len(), 3);
    assert_eq!(run[0], "pyenv");
    assert_eq!(run[1], "local");
    assert_eq!(run[2], "3.9.9");
    assert_eq!(p["envPath"], "/home/user/.pyenv/versions/3.9.9");
    assert_eq!(p["sysPrefixPath"], "/home/user/.pyenv/versions/3.9.9");
    // Absent attributes are JSON null, never a missing key.
    assert!(p["projectPath"].is_null());
    assert!(p["envManager"].is_null());
    assert!(p.as_object().unwrap().contains_key("projectPath"));
    assert!(p.as_object().unwrap().contains_key("envManager"));
}

#[test]
fn manager_and_exit_message_wire_form() {
    let msg = EnvManagerMessage::new(EnvManager::new("/opt/pyenv/bin/pyenv".to_string(), None));
    let v: serde_json::Value = serde_json::from_str(&msg.to_json()).unwrap();
    assert_eq!(v["jsonrpc"], "2.0");
    assert_eq!(v["method"], "envManager");
    assert_eq!(v["params"]["executablePath"], "/opt/pyenv/bin/pyenv");
    assert!(v["params"]["version"].is_null());

    let exit = ExitMessage::new();
    let v: serde_json::Value = serde_json::from_str(&exit.to_json()).unwrap();
    assert_eq!(v["jsonrpc"], "2.0");
    assert_eq!(v["method"], "exit");
    assert!(v["params"].is_null());
}

#[test]
fn json_escaping_round_trips() {
    let awkward = "C:\\Program Files\\py\"3\"\n\tlaunch";
    let env = plain_env(awkward, PythonEnvironmentCategory::System);
    let msg = PythonEnvironmentMessage::new(env);
    let v: serde_json::Value = serde_json::from_str(&msg.to_json()).unwrap();
    assert_eq!(v["params"]["pythonExecutablePath"], awkward);
    let control = "a\u{1}b\u{1f}c";
    let env = plain_env(control, PythonEnvironmentCategory::System);
    let msg = PythonEnvironmentMessage::new(env);
    let v: serde_json::Value = serde_json::from_str(&msg.to_json()).unwrap();
    assert_eq!(v["params"]["pythonExecutablePath"], control);
}

#[test]
fn message_buffer_is_kept_in_order_and_clearable() {
    let mut d = Dispatcher::new();
    send_rpc_message(&mut d, "one".to_string());
    send_rpc_message(&mut d, "two".to_string());
    assert_eq!(get_rpc_messages(&d), vec!["one".to_string(), "two".to_string()]);
    clear_rpc_messages(&mut d);
    assert_eq!(get_rpc_messages(&d).len(), 0);
}

#[test]
fn frames_carry_byte_length_and_headers() {
    let framed = frame_rpc_message("{}");
    assert_eq!(
        framed,
        "Content-Length: 2\r\nContent-Type: application/vscode-jsonrpc; charset=utf-8\r\n\r\n{}"
    );
    // The length counts bytes, not characters.
    let framed = frame_rpc_message("\u{e9}");
    assert_eq!(
        framed,
        "Content-Length: 2\r\nContent-Type: application/vscode-jsonrpc; charset=utf-8\r\n\r\n\u{e9}"
    );
    let framed = frame_rpc_message("0123456789012");
    assert!(framed.starts_with("Content-Length: 13\r\n"));
}
