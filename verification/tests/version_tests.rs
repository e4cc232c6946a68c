use python_finder::pyenv::get_pyenv_version;
use regex::Regex;

#[test]
fn classify_stable_version() {
    assert_eq!(get_pyenv_version("3.10.10").unwrap(), "3.10.10");
    assert_eq!(get_pyenv_version("3.9.9").unwrap(), "3.9.9");
    assert_eq!(get_pyenv_version("3.12.1").unwrap(), "3.12.1");
    assert_eq!(get_pyenv_version("0.0.0").unwrap(), "0.0.0");
    assert_eq!(get_pyenv_version("10.222.3").unwrap(), "10.222.3");
}

#[test]
fn classify_dev_version() {
    assert_eq!(get_pyenv_version("3.13-dev").unwrap(), "3.13-dev");
    assert_eq!(get_pyenv_version("3.10-dev").unwrap(), "3.10-dev");
    assert!(get_pyenv_version("3.13-def").is_none());
    assert!(get_pyenv_version("3.13-devx").is_none());
    assert!(get_pyenv_version(".13-dev").is_none());
}

#[test]
fn classify_alpha_version() {
    assert_eq!(get_pyenv_version("3.12.1a3").unwrap(), "3.12.1a3");
    // The alpha rule is a prefix match: what follows the matched prefix
    // is dropped.
    assert_eq!(get_pyenv_version("3.12.1a3post1").unwrap(), "3.12.1a3");
    assert_eq!(get_pyenv_version("1.2.3a44xyz").unwrap(), "1.2.3a44");
    assert!(get_pyenv_version("3.12.1a").is_none());
    assert!(get_pyenv_version("3.12.a3").is_none());
}

#[test]
fn classify_rejects_unversioned_names() {
    assert!(get_pyenv_version("not-a-version").is_none());
    assert!(get_pyenv_version("garbage").is_none());
    assert!(get_pyenv_version("").is_none());
    assert!(get_pyenv_version("3.10").is_none());
    assert!(get_pyenv_version("3.10.10.10").is_none());
    assert!(get_pyenv_version("3..1").is_none());
    assert!(get_pyenv_version("v3.10.10").is_none());
    assert!(get_pyenv_version("3.10.10 ").is_none());
}

/// The classifier agrees with the three published patterns, applied in
/// priority order.
#[test]
fn classify_matches_reference_patterns() {
    let stable = Regex::new(r"^(\d+\.\d+\.\d+)$").unwrap();
    let dev = Regex::new(r"^(\d+\.\d+-dev)$").unwrap();
    let alpha = Regex::new(r"^(\d+\.\d+\.\d+a\d+)").unwrap();
    let samples = [
        "3.9.9",
        "3.12.1",
        "3.13-dev",
        "3.12.1a3",
        "3.12.1a3post",
        "nogo",
        "3.10",
        "3.10.10.10",
        "12.0.0",
        "0.1-dev",
        "1.2.3a",
        "9.9.9a9",
        "-dev",
        "a1.2.3",
        "3 .1.2",
    ];
    for sample in samples.iter() {
        let expected: Option<String> = if let Some(c) = stable.captures(sample) {
            Some(c.get(1).unwrap().as_str().to_string())
        } else if let Some(c) = dev.captures(sample) {
            Some(c.get(1).unwrap().as_str().to_string())
        } else if let Some(c) = alpha.captures(sample) {
            Some(c.get(1).unwrap().as_str().to_string())
        } else {
            None
        };
        assert_eq!(get_pyenv_version(sample), expected, "sample {}", sample);
    }
}
