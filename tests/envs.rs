use goose_extension::{Envs, ExtensionError};

fn pairs(items: &[(&str, &str)]) -> Vec<(String, String)> {
    items.iter().map(|(k, v)| (k.to_string(), v.to_string())).collect()
}

fn sorted(mut v: Vec<(String, String)>) -> Vec<(String, String)> {
    v.sort();
    v
}

#[test]
fn path_is_disallowed_in_any_case() {
    assert!(Envs::is_disallowed("Path"));
    assert!(Envs::is_disallowed("PATH"));
    assert!(Envs::is_disallowed("path"));
    assert!(!Envs::is_disallowed("MY_APP_KEY"));
}

#[test]
fn every_denylisted_name_is_disallowed() {
    let names = [
        "PATH", "PATHEXT", "SystemRoot", "windir", "LD_LIBRARY_PATH", "LD_PRELOAD", "LD_AUDIT",
        "LD_DEBUG", "LD_BIND_NOW", "LD_ASSUME_KERNEL", "DYLD_LIBRARY_PATH",
        "DYLD_INSERT_LIBRARIES", "DYLD_FRAMEWORK_PATH", "PYTHONPATH", "PYTHONHOME",
        "NODE_OPTIONS", "RUBYOPT", "GEM_PATH", "GEM_HOME", "CLASSPATH", "GO111MODULE", "GOROOT",
        "APPINIT_DLLS", "SESSIONNAME", "ComSpec", "TEMP", "TMP", "LOCALAPPDATA", "USERPROFILE",
        "HOMEDRIVE", "HOMEPATH",
    ];
    for name in names {
        assert!(Envs::is_disallowed(name), "{name}");
        assert!(Envs::is_disallowed(&name.to_lowercase()), "{name}");
        assert!(Envs::is_disallowed(&name.to_uppercase()), "{name}");
    }
}

#[test]
fn near_misses_are_allowed() {
    assert!(!Envs::is_disallowed(""));
    assert!(!Envs::is_disallowed("PATH "));
    assert!(!Envs::is_disallowed("PATHS"));
    assert!(!Envs::is_disallowed("PAT"));
    assert!(!Envs::is_disallowed("LD_PRELOAD_X"));
    assert!(!Envs::is_disallowed("HOME"));
    // Non-ASCII letters are not folded.
    assert!(!Envs::is_disallowed("PATH\u{212A}"));
    assert!(!Envs::is_disallowed("\u{1D40F}ATH"));
}

#[test]
fn new_drops_denylisted_names() {
    let envs = Envs::new(pairs(&[("API_KEY", "k"), ("ld_Preload", "/evil.so"), ("HOST", "h"), ("PyThOnPaTh", "/x")]));
    let got = sorted(envs.get_env());
    assert_eq!(got, pairs(&[("API_KEY", "k"), ("HOST", "h")]));
    assert!(got.iter().all(|(k, _)| !k.eq_ignore_ascii_case("LD_PRELOAD")));
}

#[test]
fn new_keeps_a_clean_map() {
    let input = pairs(&[("API_KEY", "secret"), ("HOST", "localhost"), ("PORT", "8080")]);
    let envs = Envs::new(input.clone());
    assert_eq!(sorted(envs.get_env()), sorted(input));
}

#[test]
fn new_on_empty_map_is_empty() {
    let envs = Envs::new(Vec::new());
    assert!(envs.get_env().is_empty());
    assert!(envs.validate().is_ok());
    assert!(Envs::default().get_env().is_empty());
}

#[test]
fn later_entry_wins() {
    let envs = Envs::new(pairs(&[("A", "1"), ("B", "2"), ("A", "3")]));
    assert_eq!(sorted(envs.get_env()), pairs(&[("A", "3"), ("B", "2")]));
}

#[test]
fn snapshot_is_independent() {
    let envs = Envs::new(pairs(&[("A", "1")]));
    let mut copy = envs.get_env();
    copy.push(("B".to_string(), "2".to_string()));
    copy[0].1 = "changed".to_string();
    assert_eq!(envs.get_env(), pairs(&[("A", "1")]));
    let cloned = envs.clone();
    assert_eq!(cloned.get_env(), pairs(&[("A", "1")]));
}

#[test]
fn validate_accepts_a_clean_map() {
    let envs = Envs::new(pairs(&[("API_KEY", "k"), ("HOST", "h")]));
    assert!(envs.validate().is_ok());
}

#[test]
fn validate_names_ld_preload() {
    for spelling in ["LD_PRELOAD", "ld_preload", "Ld_PreLoad"] {
        let mut envs = Envs::new(pairs(&[("API_KEY", "k")]));
        envs.insert(spelling.to_string(), "/evil.so".to_string());
        match envs.validate() {
            Err(e) => match *e {
                ExtensionError::InvalidEnvVar(name) => assert_eq!(name, spelling),
                other => panic!("unexpected error {other:?}"),
            },
            Ok(()) => panic!("{spelling} was accepted"),
        }
    }
}

#[test]
fn insert_replaces_a_value() {
    let mut envs = Envs::new(pairs(&[("A", "1")]));
    envs.insert("A".to_string(), "2".to_string());
    envs.insert("B".to_string(), "3".to_string());
    assert_eq!(sorted(envs.get_env()), pairs(&[("A", "2"), ("B", "3")]));
    assert!(envs.validate().is_ok());
}
