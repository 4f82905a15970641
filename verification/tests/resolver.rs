use ra_env::error::ResolveError;
use ra_env::fallback::fallback_candidate;
use ra_env::resolver::Resolver;
use ra_env::upper::override_var_name;

fn s(t: &str) -> String {
    t.to_owned()
}

#[test]
fn override_var_name_is_uppercased() {
    assert_eq!(override_var_name("cargo"), "CARGO");
    assert_eq!(override_var_name("rustc"), "RUSTC");
    assert_eq!(override_var_name("rUsTup"), "RUSTUP");
}

#[test]
fn override_var_name_leaves_other_characters_alone() {
    assert_eq!(override_var_name("my-tool2"), "MY-TOOL2");
    assert_eq!(override_var_name("a_b.c"), "A_B.C");
    assert_eq!(override_var_name(""), "");
}

#[test]
fn override_var_name_is_idempotent() {
    let once = override_var_name("cargo");
    let twice = override_var_name(once.as_str());
    assert_eq!(once, twice);
}

#[test]
fn fallback_candidate_is_home_cargo_bin_name() {
    assert_eq!(fallback_candidate("/home/user", "cargo"), "/home/user/.cargo/bin/cargo");
    assert_eq!(fallback_candidate("/root", "rustup"), "/root/.cargo/bin/rustup");
}

#[test]
fn valid_override_is_returned_verbatim() {
    let mut r = Resolver::new(s("cargo"), Some(s("/opt/toolchain/cargo")), Some(s("/home/user")));
    assert_eq!(r.candidate().unwrap(), "/opt/toolchain/cargo");
    r.advance(true);
    assert!(r.is_finished());
    assert_eq!(r.finish().unwrap(), "/opt/toolchain/cargo");
}

#[test]
fn relative_override_is_not_normalized() {
    let mut r = Resolver::new(s("cargo"), Some(s("bin/cargo")), Some(s("/home/user")));
    assert_eq!(r.candidate().unwrap(), "bin/cargo");
    r.advance(true);
    assert_eq!(r.finish().unwrap(), "bin/cargo");
}

#[test]
fn invalid_override_fails_and_names_the_variable() {
    let mut r = Resolver::new(s("cargo"), Some(s("/bad/path")), Some(s("/home/user")));
    let mut validations: usize = 0;
    while let Some(c) = r.candidate().cloned() {
        assert_eq!(c, "/bad/path");
        validations += 1;
        r.advance(false);
    }
    // The broken override is a hard error: nothing else was ever tried.
    assert_eq!(validations, 1);
    let err = r.finish().unwrap_err();
    match &err {
        ResolveError::EnvVarInvalid { var } => assert_eq!(var, "CARGO"),
        ResolveError::NotFound { .. } => panic!("expected the override error"),
    }
    assert_eq!(
        err.message(),
        "`CARGO` environment variable points to something that's not a valid executable"
    );
}

#[test]
fn bare_name_is_returned_unchanged() {
    let mut r = Resolver::new(s("cargo"), None, Some(s("/home/user")));
    assert_eq!(r.candidate().unwrap(), "cargo");
    r.advance(true);
    assert_eq!(r.finish().unwrap(), "cargo");
}

#[test]
fn fallback_path_is_tried_after_bare_name() {
    let mut r = Resolver::new(s("rustc"), None, Some(s("/home/user")));
    assert_eq!(r.candidate().unwrap(), "rustc");
    r.advance(false);
    assert_eq!(r.candidate().unwrap(), "/home/user/.cargo/bin/rustc");
    r.advance(true);
    assert_eq!(r.finish().unwrap(), "/home/user/.cargo/bin/rustc");
}

#[test]
fn nothing_found_names_executable_and_variable() {
    let mut r = Resolver::new(s("rustup"), None, Some(s("/home/user")));
    r.advance(false);
    r.advance(false);
    assert!(r.is_finished());
    let err = r.finish().unwrap_err();
    match &err {
        ResolveError::NotFound { name, var } => {
            assert_eq!(name, "rustup");
            assert_eq!(var, "RUSTUP");
        }
        ResolveError::EnvVarInvalid { .. } => panic!("expected the not-found error"),
    }
    assert_eq!(
        err.message(),
        "Failed to find `rustup` executable. Make sure `rustup` is in `$PATH`, \
         or set `$RUSTUP` to point to a valid executable."
    );
}

#[test]
fn without_home_only_the_bare_name_is_tried() {
    let mut r = Resolver::new(s("rustc"), None, None);
    assert_eq!(r.candidate().unwrap(), "rustc");
    r.advance(false);
    assert!(r.candidate().is_none());
    let err = r.finish().unwrap_err();
    assert!(matches!(err, ResolveError::NotFound { .. }));
}

#[test]
fn env_var_name_accessor_matches_derivation() {
    let r = Resolver::new(s("cargo"), None, None);
    assert_eq!(r.env_var_name(), "CARGO");
}

#[test]
fn valid_override_ignores_other_candidates() {
    // Even with a home directory set and a name that would also resolve,
    // the override wins and only one validation happens.
    let mut r = Resolver::new(s("cargo"), Some(s("/override/cargo")), Some(s("/home/user")));
    let mut validations: usize = 0;
    while let Some(_) = r.candidate().cloned() {
        validations += 1;
        r.advance(true);
    }
    assert_eq!(validations, 1);
    assert_eq!(r.finish().unwrap(), "/override/cargo");
}
