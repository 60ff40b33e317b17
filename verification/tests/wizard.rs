use installer_lib::args::{parse_detected_args, parse_elevated_args, UninstallSite};
use installer_lib::install::InstallOptions;
use installer_lib::paths::KnownFolders;
use installer_lib::wizard::{
    build_elevated_args, build_uninstall_args, default_apps_uri, exe_inside_install_dir,
    get_install_config, run_uninstaller, temp_copy_args, window_title, WizardState,
};

#[test]
fn elevated_args_quote_paths_and_drop_trailing_backslashes() {
    let opts = InstallOptions {
        is_system: true,
        install_dir: r"C:\Program Files\My App\\".into(),
        desktop_shortcut: true,
        file_assoc: false,
    };
    assert_eq!(
        build_elevated_args(&opts, r"C:\Temp\my-app-wizard-progress-7.json"),
        r#"--elevated --install-path="C:\Program Files\My App" --progress-file="C:\Temp\my-app-wizard-progress-7.json" --desktop-shortcut"#
    );
}

#[test]
fn uninstall_args_for_worker_and_headless_relaunch() {
    let site = UninstallSite { is_system: true, install_dir: r"C:\Program Files\My App\".into(), created_desktop_shortcut: true };
    assert_eq!(
        build_uninstall_args(&site, true, Some(r"C:\T\p.json")),
        r#"--uninstall --confirm --detected-install-dir="C:\Program Files\My App" --detected-system --progress-file="C:\T\p.json" --detected-desktop-shortcut --remove-user-data"#
    );
    assert_eq!(
        build_uninstall_args(&site, false, None),
        r#"--uninstall --confirm --detected-install-dir="C:\Program Files\My App" --detected-system --detected-desktop-shortcut"#
    );
    let user = UninstallSite { is_system: false, install_dir: r"C:\U".into(), created_desktop_shortcut: false };
    assert_eq!(
        build_uninstall_args(&user, false, None),
        r#"--uninstall --confirm --detected-install-dir="C:\U" --detected-user"#
    );
}

#[test]
fn temp_copy_rebuilds_the_site() {
    let site = UninstallSite { is_system: false, install_dir: r"C:\Users\me\AppData\Local\Programs\我的应用".into(), created_desktop_shortcut: true };
    let args = temp_copy_args(&site, true, true);
    assert_eq!(
        args,
        vec![
            "--uninstall".to_string(),
            "--confirm".to_string(),
            r"--detected-install-dir=C:\Users\me\AppData\Local\Programs\我的应用".to_string(),
            "--detected-user".to_string(),
            "--detected-desktop-shortcut".to_string(),
            "--remove-user-data".to_string(),
        ]
    );
    let back = parse_detected_args(&args).unwrap().unwrap().to_site();
    assert_eq!(back, site);
    let ui = temp_copy_args(&site, false, false);
    assert_eq!(ui.len(), 4);
    assert_eq!(parse_detected_args(&ui).unwrap().unwrap().to_site(), site);
}

#[test]
fn elevated_args_parse_back_once_split() {
    let opts = InstallOptions { is_system: true, install_dir: r"C:\Apps\X".into(), desktop_shortcut: false, file_assoc: true };
    let line = build_elevated_args(&opts, r"C:\T\p.json");
    // the command line holds no spaces inside its quoted values here
    let args: Vec<String> = line.split(' ').map(|a| a.replace('"', "")).collect();
    let parsed = parse_elevated_args(&args).unwrap();
    assert_eq!(parsed.install_path, r"C:\Apps\X");
    assert!(parsed.file_assoc && !parsed.desktop_shortcut);
    assert_eq!(parsed.progress_file.as_deref(), Some(r"C:\T\p.json"));
}

#[test]
fn default_apps_uri_per_kind() {
    assert_eq!(default_apps_uri(true), "ms-settings:defaultapps?registeredAppMachine=我的应用");
    assert_eq!(default_apps_uri(false), "ms-settings:defaultapps?registeredAppUser=我的应用");
}

#[test]
fn exe_inside_install_dir_rules() {
    assert!(exe_inside_install_dir(r"C:\Program Files\My App\my-app-wizard.exe", r"c:\program files\my app"));
    assert!(!exe_inside_install_dir(r"C:\Users\me\Downloads\setup.exe", r"C:\Program Files\My App"));
    assert!(!exe_inside_install_dir(r"C:\x.exe", ""));
}

#[test]
fn install_config_for_both_modes() {
    let env = KnownFolders {
        program_files: Some(r"C:\Program Files".into()),
        program_data: Some(r"C:\ProgramData".into()),
        public: Some(r"C:\Users\Public".into()),
        local_app_data: Some(r"C:\Users\me\AppData\Local".into()),
        app_data: Some(r"C:\Users\me\AppData\Roaming".into()),
        user_profile: Some(r"C:\Users\me".into()),
    };
    let c = get_install_config(&WizardState::install(), &env, "0.1.0").ok().unwrap();
    assert_eq!(c.mode, "install");
    assert_eq!(c.version, "0.1.0");
    assert_eq!(c.system_default_dir, r"C:\Program Files\我的应用");
    assert_eq!(c.user_default_dir, r"C:\Users\me\AppData\Local\Programs\我的应用");
    assert!(c.uninstall_info.is_none());

    let site = UninstallSite { is_system: true, install_dir: r"C:\X".into(), created_desktop_shortcut: false };
    let state = run_uninstaller(Some(site.clone()));
    let c = get_install_config(&state, &env, "0.1.0").ok().unwrap();
    assert_eq!(c.mode, "uninstall");
    assert_eq!(c.uninstall_info, Some(site));
}

#[test]
fn relaunch_command_lines_keep_their_quotes_unescaped() {
    let quotes = |s: &str| s.matches('"').count();
    let escaped = |s: &str| s.contains("\\\"");
    let opts = InstallOptions {
        is_system: true,
        install_dir: r"D:\Apps\\\".into(),
        desktop_shortcut: false,
        file_assoc: true,
    };
    let line = build_elevated_args(&opts, r"C:\T\p.json");
    assert_eq!(quotes(&line), 4);
    assert!(!escaped(&line));
    let site = UninstallSite { is_system: false, install_dir: r"D:\Apps\".into(), created_desktop_shortcut: true };
    let with_file = build_uninstall_args(&site, true, Some(r"C:\T\p.json"));
    assert_eq!(quotes(&with_file), 4);
    assert!(!escaped(&with_file));
    let without = build_uninstall_args(&site, false, None);
    assert_eq!(quotes(&without), 2);
    assert!(!escaped(&without));
}

#[test]
fn window_title_names_uninstall_mode() {
    let state = run_uninstaller(None);
    assert_eq!(window_title(&state).unwrap(), "我的应用 卸载");
    assert_eq!(window_title(&WizardState::install()), None);
}
