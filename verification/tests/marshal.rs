use madura_javac::{argv, nul_terminated, plan_invoke, InvokeError};

fn bytes(s: &str) -> Vec<u8> {
    s.as_bytes().to_vec()
}

fn with_nul(s: &str) -> Vec<u8> {
    let mut v = bytes(s);
    v.push(0);
    v
}

/// The flags a release build passes ahead of the source list.
fn leading_flags() -> Vec<Vec<u8>> {
    [
        "--release",
        "21",
        "-d",
        "target/classes",
        "-encoding",
        "UTF-8",
        "-Xlint:all",
        "-Werror",
        "-parameters",
        "-g",
        "-classpath",
        "target/classes:target/deps/kotlin-stdlib-2.4.0.jar:target/deps/annotations-26.0.2.jar",
    ]
    .into_iter()
    .map(bytes)
    .collect()
}

fn source_path(index: usize) -> Vec<u8> {
    format!(
        "src/main/java/dev/elide/jvm/internal/generated/module{}/Class{index}.java",
        index % 32
    )
    .into_bytes()
}

fn command_line(count: usize) -> Vec<Vec<u8>> {
    let mut args = leading_flags();
    args.extend((0..count).map(source_path));
    args
}

#[test]
fn rejects_interior_nul_arguments() {
    let arg = b"Foo\0.java".to_vec();
    match plan_invoke(false, vec![arg.clone()], None, None, None) {
        Err(InvokeError::NulArg(err)) => assert_eq!(err.arg, arg),
        other => panic!("interior NUL must be rejected before reaching FFI: {other:?}"),
    }
}

#[test]
fn nul_terminated_appends_one_nul() {
    assert_eq!(nul_terminated(b"Hello.java"), Some(with_nul("Hello.java")));
}

#[test]
fn nul_terminated_of_empty_is_lone_nul() {
    assert_eq!(nul_terminated(b""), Some(vec![0u8]));
}

#[test]
fn nul_terminated_rejects_nul_anywhere() {
    assert_eq!(nul_terminated(b"\0abc"), None);
    assert_eq!(nul_terminated(b"ab\0c"), None);
    assert_eq!(nul_terminated(b"abc\0"), None);
}

#[test]
fn argv_single_file_compile() {
    let args = vec![bytes("Hello.java"), bytes("-d"), bytes("out")];
    let v = argv(args).expect("no NUL in the arguments");
    assert_eq!(
        v,
        vec![with_nul("Hello.java"), with_nul("-d"), with_nul("out")]
    );
}

#[test]
fn argv_version_flag() {
    let v = argv(vec![bytes("--version")]).unwrap();
    assert_eq!(v, vec![with_nul("--version")]);
}

#[test]
fn argv_empty_command_line() {
    assert_eq!(argv(Vec::new()).unwrap(), Vec::<Vec<u8>>::new());
}

#[test]
fn argv_keeps_empty_arguments() {
    let v = argv(vec![Vec::new(), bytes("x")]).unwrap();
    assert_eq!(v, vec![vec![0u8], with_nul("x")]);
}

#[test]
fn argv_marshals_full_command_line_in_order() {
    let args = command_line(512);
    let v = argv(args.clone()).unwrap();
    assert_eq!(v.len(), args.len());
    for (c, a) in v.iter().zip(args.iter()) {
        assert_eq!(&c[..c.len() - 1], &a[..]);
        assert_eq!(c[c.len() - 1], 0);
    }
}

#[test]
fn argv_copies_non_ascii_bytes_verbatim() {
    let args: Vec<Vec<u8>> = (0..256)
        .map(|i| format!("src/主要/ソース/пакет/módulo{i}/Класс{i}.java").into_bytes())
        .collect();
    let v = argv(args.clone()).unwrap();
    for (c, a) in v.iter().zip(args.iter()) {
        let mut expected = a.clone();
        expected.push(0);
        assert_eq!(c, &expected);
    }
}

#[test]
fn argv_copies_invalid_utf8_verbatim() {
    let arg = vec![0xffu8, 0xfe, b'a'];
    assert_eq!(argv(vec![arg]).unwrap(), vec![vec![0xffu8, 0xfe, b'a', 0]]);
}

#[test]
fn argv_long_classpath() {
    let classpath = (0..1024)
        .map(|i| format!("/home/runner/.m2/repository/dev/elide/module{i}/1.0.0/module{i}-1.0.0.jar"))
        .collect::<Vec<_>>()
        .join(":");
    let args = vec![bytes("-classpath"), bytes(&classpath), bytes("Hello.java")];
    let v = argv(args).unwrap();
    assert_eq!(v[1], with_nul(&classpath));
}

#[test]
fn argv_rejects_interior_nul_late_in_large_command_line() {
    let mut args = command_line(1024);
    args.push(b"Bad\0Name.java".to_vec());
    let err = argv(args).unwrap_err();
    assert_eq!(err.arg, b"Bad\0Name.java".to_vec());
}

#[test]
fn argv_reports_the_first_offending_argument() {
    let args = vec![
        bytes("ok.java"),
        b"first\0.java".to_vec(),
        b"second\0.java".to_vec(),
    ];
    let err = argv(args).unwrap_err();
    assert_eq!(err.arg, b"first\0.java".to_vec());
}

#[test]
fn argv_rejects_lone_nul_argument() {
    let err = argv(vec![vec![0u8]]).unwrap_err();
    assert_eq!(err.arg, vec![0u8]);
}
