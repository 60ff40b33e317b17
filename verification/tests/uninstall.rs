//! The uninstall machine driven against simulated answers.
use installer_lib::args::{parse_detected_args, UninstallSite};
use installer_lib::install::InstallInfo;
use installer_lib::paths::KnownFolders;
use installer_lib::progress::InstallProgress;
use installer_lib::registry::{AssocParams, Hive, RegOp};
use installer_lib::uninstall::{
    errors_to_result, run_uninstall, run_uninstall_for_site, site_from_info, site_from_registry,
    uninstall_options_for_site, UninstallEvent, UninstallOptions, UninstallWork,
};
use installer_lib::uninstall::{locked_removal_step, LockedRemoval};

fn test_options() -> UninstallOptions<'static> {
    UninstallOptions {
        app_id: "MyAppWizardTest.Uninst2".into(),
        assoc: AssocParams {
            progid: "MyAppWizardTest.ProgId2",
            extensions: &["myapptest2"],
            exe_name: "myapp-wizard-test2.exe",
            capability_key: r"Software\MyAppWizardTest.Caps2",
            app_name: "MyAppWizardTest App2",
        },
        install_dir: Some(r"C:\Test\app".into()),
        start_menu_dir: Some(r"C:\Test\start-menu".into()),
        desktop_shortcut: Some(r"C:\Test\My App.lnk".into()),
        user_data_dir: Some(r"C:\Test\user-data".into()),
    }
}

/// Drives the machine; `fail` names works that fail.
fn drive(opts: UninstallOptions<'static>, fail: &[&str]) -> (Vec<String>, Vec<InstallProgress>, Vec<String>) {
    let mut machine = run_uninstall(Hive::CurrentUser, opts);
    let mut log = Vec::new();
    let mut works = Vec::new();
    let mut event = UninstallEvent::Started;
    loop {
        let action = machine.step(event);
        log.extend(action.reports);
        let outcome = |name: &str| {
            if fail.contains(&name) {
                Err(format!("{name} failed"))
            } else {
                Ok(())
            }
        };
        event = match action.work {
            UninstallWork::CloseProcesses { dir } => {
                works.push(format!("close {dir}"));
                UninstallEvent::ProcessesClosed(if fail.contains(&"close") {
                    vec!["终止进程 42 失败: denied".into()]
                } else {
                    vec![]
                })
            }
            UninstallWork::RemoveFileIfExists { path } => {
                works.push(format!("rm {path}"));
                UninstallEvent::Completed(outcome("desktop"))
            }
            UninstallWork::RemoveDirIfExists { path } => {
                works.push(format!("rmdir? {path}"));
                UninstallEvent::Completed(outcome(if path.ends_with("user-data") { "data" } else { "menu" }))
            }
            UninstallWork::ApplyRegistry { root, ops } => {
                assert_eq!(root, Hive::CurrentUser);
                works.push(format!("registry {}", ops.len()));
                let name = if matches!(ops.first(), Some(RegOp::DeleteTree { .. })) { "unregister" } else { "unassoc" };
                UninstallEvent::Completed(outcome(name))
            }
            UninstallWork::CheckDirExists { path } => {
                works.push(format!("exists {path}"));
                UninstallEvent::DirChecked(!fail.contains(&"gone"))
            }
            UninstallWork::RemoveLockedFile { path, timeout_ms } => {
                assert_eq!(timeout_ms, 10000);
                works.push(format!("rm-locked {path}"));
                UninstallEvent::FileRemoved(!fail.contains(&"locked"))
            }
            UninstallWork::RemoveDirAll { path } => {
                works.push(format!("rmdir {path}"));
                UninstallEvent::Completed(outcome("dir"))
            }
            UninstallWork::Finish { errors } => return (errors, log, works),
        };
    }
}

#[test]
fn run_uninstall_cleans_everything() {
    let (errors, log, works) = drive(test_options(), &[]);
    assert!(errors.is_empty(), "errors: {errors:?}");
    let steps: Vec<&str> = log.iter().map(|p| p.step.as_str()).collect();
    assert_eq!(steps, vec!["close", "shortcut", "register", "register", "files", "files"]);
    assert!(log.windows(2).all(|w| w[0].percent <= w[1].percent));
    assert_eq!(
        works,
        vec![
            r"close C:\Test\app".to_string(),
            r"rm C:\Test\My App.lnk".to_string(),
            r"rmdir? C:\Test\start-menu".to_string(),
            "registry 7".to_string(),
            "registry 1".to_string(),
            r"exists C:\Test\app".to_string(),
            r"rm-locked C:\Test\app\my-app.exe".to_string(),
            r"rm-locked C:\Test\app\my-app-wizard.exe".to_string(),
            r"rmdir C:\Test\app".to_string(),
            r"rmdir? C:\Test\user-data".to_string(),
        ]
    );
}

#[test]
fn run_uninstall_is_tolerant_when_nothing_exists() {
    let mut opts = test_options();
    opts.user_data_dir = None;
    let (errors, log, works) = drive(opts, &["gone"]);
    assert!(errors.is_empty());
    assert!(!works.iter().any(|w| w.starts_with("rm-locked")));
    assert_eq!(log.last().unwrap().step, "files");
}

#[test]
fn run_uninstall_collects_every_failure_and_goes_on() {
    let (errors, _log, works) = drive(
        test_options(),
        &["close", "desktop", "menu", "unassoc", "unregister", "locked", "dir", "data"],
    );
    assert_eq!(
        errors,
        vec![
            "终止进程 42 失败: denied".to_string(),
            "删除桌面快捷方式失败: desktop failed".to_string(),
            "删除开始菜单快捷方式失败: menu failed".to_string(),
            "unassoc failed".to_string(),
            "unregister failed".to_string(),
            r"删除 C:\Test\app\my-app.exe 超时（文件被占用）".to_string(),
            r"删除 C:\Test\app\my-app-wizard.exe 超时（文件被占用）".to_string(),
            "删除安装目录失败: dir failed".to_string(),
            "删除用户数据失败: data failed".to_string(),
        ]
    );
    assert_eq!(works.len(), 10);
    let joined = errors_to_result(&errors).unwrap_err();
    assert_eq!(joined.lines().count(), 9);
    assert!(errors_to_result(&vec![]).is_ok());
    assert_eq!(errors_to_result(&vec!["a".into(), "b".into()]).unwrap_err(), "a\nb");
}

#[test]
fn run_uninstall_without_install_dir_skips_closing_and_files() {
    let mut opts = test_options();
    opts.install_dir = None;
    opts.desktop_shortcut = None;
    opts.user_data_dir = None;
    let (errors, log, works) = drive(opts, &[]);
    assert!(errors.is_empty());
    let steps: Vec<&str> = log.iter().map(|p| p.step.as_str()).collect();
    assert_eq!(steps, vec!["shortcut", "register", "register", "files"]);
    assert_eq!(works.len(), 3);
}

fn folders() -> KnownFolders {
    KnownFolders {
        program_files: Some(r"C:\Program Files".into()),
        program_data: Some(r"C:\ProgramData".into()),
        public: Some(r"C:\Users\Public".into()),
        local_app_data: Some(r"C:\Users\me\AppData\Local".into()),
        app_data: Some(r"C:\Users\me\AppData\Roaming".into()),
        user_profile: Some(r"C:\Users\me".into()),
    }
}

#[test]
fn uninstall_options_for_a_detected_site() {
    let site = UninstallSite { is_system: true, install_dir: r"C:\Program Files\我的应用".into(), created_desktop_shortcut: true };
    let o = uninstall_options_for_site(&site, true, &folders()).ok().unwrap();
    assert_eq!(o.app_id, "com.mycompany.myapp");
    assert_eq!(o.install_dir.as_deref(), Some(r"C:\Program Files\我的应用"));
    assert_eq!(
        o.start_menu_dir.as_deref(),
        Some(r"C:\ProgramData\Microsoft\Windows\Start Menu\Programs\我的应用")
    );
    assert_eq!(o.desktop_shortcut.as_deref(), Some(r"C:\Users\Public\Desktop\我的应用.lnk"));
    assert_eq!(o.user_data_dir.as_deref(), Some(r"C:\Users\me\AppData\Roaming\com.mycompany.myapp"));
    assert!(o.assoc.extensions.is_empty());

    let registry_site = site_from_registry(false, None);
    let o = uninstall_options_for_site(&registry_site, false, &folders()).ok().unwrap();
    assert_eq!(o.install_dir, None);
    assert_eq!(o.desktop_shortcut.as_deref(), Some(r"C:\Users\me\Desktop\我的应用.lnk"));
    assert_eq!(o.user_data_dir, None);

    let mut f = folders();
    f.app_data = None;
    assert_eq!(
        uninstall_options_for_site(&site, true, &f).err().unwrap(),
        "环境变量 APPDATA 不可用"
    );
    assert!(run_uninstall_for_site(&site, false, &f).is_ok());
    assert_eq!(run_uninstall_for_site(&registry_site, false, &f).err().unwrap(), "环境变量 APPDATA 不可用");
}

#[test]
fn sites_from_info_and_registry() {
    let info = InstallInfo {
        is_system: false,
        version: "1".into(),
        install_dir: r"C:\X".into(),
        app_id: "a".into(),
        progid: "p".into(),
        created_desktop_shortcut: false,
        file_assoc: false,
    };
    assert_eq!(
        site_from_info(&info),
        UninstallSite { is_system: false, install_dir: r"C:\X".into(), created_desktop_shortcut: false }
    );
    assert_eq!(
        site_from_registry(true, Some(r"C:\Y".into())),
        UninstallSite { is_system: true, install_dir: r"C:\Y".into(), created_desktop_shortcut: true }
    );
    let detected = parse_detected_args(&[r"--detected-install-dir=C:\Y".to_string(), "--detected-system".into()])
        .unwrap()
        .unwrap();
    assert_eq!(detected.to_site().install_dir, r"C:\Y");
}

#[test]
fn locked_removal_retries_until_deadline() {
    assert!(matches!(locked_removal_step(true, 0, 100), LockedRemoval::Removed));
    assert!(matches!(locked_removal_step(true, 500, 100), LockedRemoval::Removed));
    assert!(matches!(locked_removal_step(false, 40, 100), LockedRemoval::RetryAfter(200)));
    assert!(matches!(locked_removal_step(false, 100, 100), LockedRemoval::GaveUp));
    assert!(matches!(locked_removal_step(false, 0, 0), LockedRemoval::GaveUp));
}
