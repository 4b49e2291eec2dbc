use madura_javac::{compile_request, plan_invoke, plan_invoke_with, DistPath, InvokeError};

fn args(list: &[&str]) -> Vec<Vec<u8>> {
    list.iter().map(|s| s.as_bytes().to_vec()).collect()
}

fn c(s: &str) -> Vec<u8> {
    let mut v = s.as_bytes().to_vec();
    v.push(0);
    v
}

fn path(names: &[&str]) -> DistPath {
    DistPath { names: names.iter().map(|s| s.as_bytes().to_vec()).collect() }
}

#[test]
fn compile_request_marshals_paths_and_counts_arguments() {
    let req = compile_request(true, Some(b"/opt/madura/bin/madura".to_vec()), b"/opt/madura", vec![c("A.java"), c("-d")]);
    assert!(req.check_only);
    assert_eq!(req.bin, Some(c("/opt/madura/bin/madura")));
    assert_eq!(req.home, c("/opt/madura"));
    assert_eq!(req.argc, 2);
    assert_eq!(req.argv, vec![c("A.java"), c("-d")]);
}

#[test]
fn compile_request_without_known_binary() {
    let req = compile_request(false, None, b"rel/home", Vec::new());
    assert!(!req.check_only);
    assert_eq!(req.bin, None);
    assert_eq!(req.home, c("rel/home"));
    assert_eq!(req.argc, 0);
}

#[test]
fn invoke_plan_reports_missing_platform_image() {
    let exe = Some(b"/tmp/madura".to_vec());
    let res = plan_invoke(false, args(&["Hello.java"]), exe.clone(), None, exe.clone());
    assert_eq!(res, Err(InvokeError::NoPlatformImage { exe }));
}

#[test]
fn invoke_plan_reports_unknown_executable() {
    let res = plan_invoke(false, args(&["--version"]), None, None, None);
    assert_eq!(res, Err(InvokeError::NoPlatformImage { exe: None }));
}

#[test]
fn caller_errors_come_before_environment_errors() {
    let res = plan_invoke(false, args(&["ok", "b\0ad"]), None, None, None);
    match res {
        Err(InvokeError::NulArg(err)) => assert_eq!(err.arg, b"b\0ad".to_vec()),
        other => panic!("expected a NUL-argument error, got {other:?}"),
    }
    let res = plan_invoke(false, vec![vec![0u8]], None, Some(path(&["opt", "madura"])), None);
    assert!(matches!(res, Err(InvokeError::NulArg(_))));
}

#[test]
fn invoke_plan_hands_the_dist_root_to_the_image() {
    let exe = Some(b"/opt/madura/bin/madura".to_vec());
    let req = plan_invoke(true, args(&["-d", "out", "Hello.java"]), exe.clone(), Some(path(&["opt", "madura"])), exe)
        .expect("valid invocation");
    assert!(req.check_only);
    assert_eq!(req.home, c("/opt/madura"));
    assert_eq!(req.bin, Some(c("/opt/madura/bin/madura")));
    assert_eq!(req.argc, 3);
    assert_eq!(req.argv, vec![c("-d"), c("out"), c("Hello.java")]);
}

#[test]
fn invoke_plan_with_root_dist() {
    let req = plan_invoke(false, Vec::new(), None, Some(DistPath::root()), None).unwrap();
    assert_eq!(req.home, c("/"));
    assert_eq!(req.argc, 0);
    assert_eq!(req.bin, None);
}

#[test]
fn invoke_with_trusts_the_given_root() {
    let req = plan_invoke_with(false, b"target/jdkroot", args(&["--version"]), None).unwrap();
    assert_eq!(req.home, c("target/jdkroot"));
    assert_eq!(req.argv, vec![c("--version")]);
    assert_eq!(req.argc, 1);
}

#[test]
fn invoke_with_rejects_interior_nul() {
    let res = plan_invoke_with(false, b"target/jdkroot", vec![b"Foo\0.java".to_vec()], None);
    match res {
        Err(InvokeError::NulArg(err)) => assert_eq!(err.arg, b"Foo\0.java".to_vec()),
        other => panic!("expected a NUL-argument error, got {other:?}"),
    }
}
