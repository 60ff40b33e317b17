use installer_lib::args::{parse_detected_args, parse_elevated_args, DetectedArgs, ElevatedArgs};
use installer_lib::paths::validate_install_dir;

fn to_args(args: &[&str]) -> Vec<String> {
    args.iter().map(|s| s.to_string()).collect()
}

#[test]
fn validate_install_dir_rules() {
    assert!(validate_install_dir("").is_err());
    assert!(validate_install_dir("   ").is_err());
    assert!(validate_install_dir(r"relative\dir").is_err());
    assert!(validate_install_dir("C:\\Fake\\\"My App").is_err());
    assert!(validate_install_dir(r"C:\Fake\My App").is_ok());
}

#[test]
fn validate_install_dir_messages() {
    assert_eq!(validate_install_dir(" \t").unwrap_err(), "安装路径不能为空");
    assert_eq!(validate_install_dir("C:\\a\"b").unwrap_err(), "安装路径不能包含引号");
    assert_eq!(
        validate_install_dir(r"relative\dir").unwrap_err(),
        r"安装路径必须为绝对路径: relative\dir"
    );
}

#[test]
fn validate_install_dir_windows_absolute_forms() {
    assert!(validate_install_dir("D:/Apps/x").is_ok());
    assert!(validate_install_dir(r"\\server\share\dir").is_ok());
    assert!(validate_install_dir(r"\\?\C:\dir").is_ok());
    assert!(validate_install_dir(r"\\.\device").is_ok());
    assert!(validate_install_dir(r"C:relative").is_err());
    assert!(validate_install_dir(r"\rooted\no\drive").is_err());
    assert!(validate_install_dir(r"\\server").is_err());
    assert!(validate_install_dir(r"\\server\").is_err());
    assert!(validate_install_dir("1:\\x").is_err());
}

#[test]
fn parse_elevated_args_requires_install_path() {
    assert!(parse_elevated_args(&["--elevated".into()]).is_err());
    assert!(parse_elevated_args(&["--elevated".into(), "--install-path=".into()]).is_err());
    assert!(parse_elevated_args(&["--elevated".into(), "--install-path=relative\\dir".into()]).is_err());
}

#[test]
fn parse_elevated_args_missing_path_message() {
    assert_eq!(
        parse_elevated_args(&["--elevated".into()]).unwrap_err(),
        "缺少 --install-path 参数"
    );
}

#[test]
fn parse_elevated_args_full_flags() {
    let parsed = parse_elevated_args(&[
        "--elevated".into(),
        r"--install-path=C:\Fake\My App".into(),
        "--desktop-shortcut".into(),
        "--file-assoc".into(),
        r"--progress-file=C:\Temp\p.json".into(),
    ])
    .unwrap();
    assert_eq!(
        parsed,
        ElevatedArgs {
            install_path: r"C:\Fake\My App".into(),
            desktop_shortcut: true,
            file_assoc: true,
            progress_file: Some(r"C:\Temp\p.json".to_string()),
        }
    );
}

#[test]
fn parse_elevated_args_defaults_are_off() {
    let parsed =
        parse_elevated_args(&["--elevated".into(), r"--install-path=C:\Fake\My App".into()]).unwrap();
    assert!(!parsed.desktop_shortcut);
    assert!(!parsed.file_assoc);
    assert_eq!(parsed.progress_file, None);
}

#[test]
fn parse_elevated_args_first_install_path_wins() {
    let parsed = parse_elevated_args(&to_args(&[
        r"--install-path=C:\First",
        r"--install-path=C:\Second",
    ]))
    .unwrap();
    assert_eq!(parsed.install_path, r"C:\First");
}

#[test]
fn parse_detected_args_absent_is_none() {
    assert_eq!(parse_detected_args(&to_args(&["--uninstall", "--confirm"])).unwrap(), None);
}

#[test]
fn parse_detected_args_full_flags() {
    let parsed = parse_detected_args(&to_args(&[
        "--uninstall",
        "--confirm",
        r"--detected-install-dir=C:\Fake\My App",
        "--detected-system",
        "--detected-desktop-shortcut",
    ]))
    .unwrap();
    assert_eq!(
        parsed,
        Some(DetectedArgs {
            install_dir: r"C:\Fake\My App".into(),
            is_system: true,
            desktop_shortcut: true,
        })
    );
}

#[test]
fn parse_detected_args_user_level_defaults() {
    let parsed = parse_detected_args(&to_args(&[
        r"--detected-install-dir=C:\Fake\My App",
        "--detected-user",
    ]))
    .unwrap()
    .unwrap();
    assert!(!parsed.is_system);
    assert!(!parsed.desktop_shortcut);
    assert_eq!(parsed.to_site().install_dir, r"C:\Fake\My App");
}

#[test]
fn parse_detected_args_rejects_invalid_input() {
    assert!(parse_detected_args(&to_args(&[r"--detected-install-dir=C:\Fake\My App"])).is_err());
    assert!(parse_detected_args(&to_args(&[
        r"--detected-install-dir=C:\Fake\My App",
        "--detected-system",
        "--detected-user",
    ]))
    .is_err());
    assert!(parse_detected_args(&to_args(&[
        r"--detected-install-dir=relative\dir",
        "--detected-user",
    ]))
    .is_err());
}

#[test]
fn parse_detected_args_kind_message() {
    assert_eq!(
        parse_detected_args(&to_args(&[r"--detected-install-dir=C:\x"])).unwrap_err(),
        "--detected-install-dir 需要且只能搭配 --detected-system / --detected-user 之一"
    );
}
