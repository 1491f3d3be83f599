use lnd::exe::searched_exe_path;
use lnd::{downloaded_exe_path, exe_path, exe_variables, EnvVar, Error, ExeLookup};
use std::path::PathBuf;

fn placeholder() -> EnvVar {
    EnvVar::Value("placeholder".to_string())
}

#[test]
fn test_both_env_vars() {
    assert!(exe_path(placeholder(), placeholder()).is_err());
    assert_eq!(exe_path(placeholder(), placeholder()), Err(Error::BothEnvVars));
}

#[test]
fn env_vars_by_name() {
    assert_eq!(exe_variables(), ("LND_EXEC", "LND_EXE"));
}

#[test]
fn either_env_var_names_the_executable() {
    let found = Ok(ExeLookup::Found("placeholder".to_string()));
    assert_eq!(exe_path(placeholder(), EnvVar::Absent), found);
    assert_eq!(exe_path(EnvVar::Absent, placeholder()), found);
}

#[test]
fn without_env_vars_lnd_is_searched() {
    assert_eq!(downloaded_exe_path(), None);
    let search = Ok(ExeLookup::Search("lnd"));
    assert_eq!(exe_path(EnvVar::Absent, EnvVar::Absent), search);
    assert_eq!(exe_path(EnvVar::NotUnicode, EnvVar::Absent), search);
    assert_eq!(exe_path(EnvVar::Absent, EnvVar::NotUnicode), search);
}

#[test]
fn both_env_vars_are_an_error_unicode_or_not() {
    let path = || EnvVar::Value("/opt/lnd/lnd".to_string());
    let both = Err(Error::BothEnvVars);
    assert_eq!(exe_path(EnvVar::NotUnicode, path()), both);
    assert_eq!(exe_path(path(), EnvVar::NotUnicode), both);
    assert_eq!(exe_path(EnvVar::NotUnicode, EnvVar::NotUnicode), both);
}

#[test]
fn search_ends_in_a_path_or_an_error() {
    let found = Some(PathBuf::from("/usr/bin/lnd"));
    assert_eq!(searched_exe_path(found), Ok("/usr/bin/lnd".to_string()));
    assert_eq!(searched_exe_path(None), Err(Error::NoElectrsExecutableFound));
}
