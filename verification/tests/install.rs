//! The install machine driven against an in-memory file system and registry.
use std::collections::{BTreeMap, BTreeSet};
use std::io::{Cursor, Write};

use installer_lib::install::{
    existing_install_from, run_install, run_install_with, ExistingInstall, InstallContext,
    InstallEvent, InstallInfo, InstallOptions, InstallWork,
};
use installer_lib::paths::KnownFolders;
use installer_lib::progress::InstallProgress;
use installer_lib::registry::{AssocParams, Hive, RegOp, RegValue};
use zip::write::SimpleFileOptions;
use zip::ZipWriter;

fn build_test_zip(entries: &[(&str, &[u8])]) -> Vec<u8> {
    let mut writer = ZipWriter::new(Cursor::new(Vec::new()));
    let options = SimpleFileOptions::default();
    for (name, data) in entries {
        writer.start_file(*name, options).unwrap();
        writer.write_all(data).unwrap();
    }
    writer.finish().unwrap().into_inner()
}

#[derive(Default)]
struct World {
    dirs: BTreeSet<String>,
    files: BTreeMap<String, Vec<u8>>,
    registry: BTreeMap<String, BTreeMap<String, String>>,
    info: Option<InstallInfo>,
    shortcuts: Vec<String>,
    closed: Vec<String>,
    log: Vec<InstallProgress>,
}

fn norm(p: &str) -> String {
    p.replace('/', "\\")
}

impl World {
    fn apply(&mut self, ops: Vec<RegOp>) {
        let mut current = String::new();
        for op in ops {
            match op {
                RegOp::CreateKey { path, .. } => {
                    self.registry.entry(path.clone()).or_default();
                    current = path;
                }
                RegOp::SetValue { name, value, .. } => {
                    let v = match value {
                        RegValue::Str(s) => s,
                        RegValue::Dword(d) => d.to_string(),
                    };
                    self.registry.entry(current.clone()).or_default().insert(name, v);
                }
                _ => {}
            }
        }
    }
}

fn drive(opts: InstallOptions, ctx: InstallContext, world: &mut World) -> Result<(), String> {
    let mut machine = run_install_with(opts, ctx);
    let mut event = InstallEvent::Started;
    loop {
        let action = machine.step(event);
        world.log.extend(action.reports);
        event = match action.work {
            InstallWork::CheckDirExists { path } => InstallEvent::DirChecked(world.dirs.contains(&norm(&path))),
            InstallWork::CloseProcesses { dir } => {
                world.closed.push(dir);
                InstallEvent::ProcessesClosed(vec![])
            }
            InstallWork::OpenBundle => machine.open_bundle_event(),
            InstallWork::CreateDir { path } | InstallWork::MakeDir { path } => {
                world.dirs.insert(norm(&path));
                InstallEvent::Completed(Ok(()))
            }
            InstallWork::ReadEntry { .. } => machine.read_entry_event(),
            InstallWork::MakeParentDir { path } => {
                let p = norm(&path);
                if let Some(k) = p.rfind('\\') {
                    world.dirs.insert(p[..k].to_string());
                }
                InstallEvent::Completed(Ok(()))
            }
            InstallWork::ReadData { .. } => machine.read_data_event(),
            InstallWork::WriteFile { path, data } => {
                world.files.insert(norm(&path), data);
                InstallEvent::Completed(Ok(()))
            }
            InstallWork::CheckWizard { path } => InstallEvent::WizardChecked(world.files.contains_key(&norm(&path))),
            InstallWork::SaveInstallInfo { info, .. } => {
                world.info = Some(info);
                InstallEvent::Completed(Ok(()))
            }
            InstallWork::ApplyRegistry { root, ops } => {
                assert_eq!(root, Hive::CurrentUser);
                world.apply(ops);
                InstallEvent::Completed(Ok(()))
            }
            InstallWork::CreateShortcut { shortcut, .. } => {
                world.shortcuts.push(shortcut);
                InstallEvent::Completed(Ok(()))
            }
            InstallWork::Finish { result } => return result,
        };
    }
}


fn ctx<'a>(bundle: &'a [u8], assoc: AssocParams<'a>) -> InstallContext<'a> {
    InstallContext {
        root: Hive::CurrentUser,
        app_id: "MyAppWizardTest.Install3",
        assoc,
        start_menu_dir: r"C:\Test\start-menu".into(),
        desktop_dir: r"C:\Test\desktop".into(),
        bundle,
        version: "9.9.9",
    }
}

fn test_assoc() -> AssocParams<'static> {
    AssocParams {
        progid: "MyAppWizardTest.ProgId5",
        extensions: &["myapptest5"],
        exe_name: "myapp-wizard-test5.exe",
        capability_key: r"Software\MyAppWizardTest.Caps5",
        app_name: "MyAppWizardTest App5",
    }
}

#[test]
fn install_machine_full_flow() {
    let bundle = build_test_zip(&[
        ("my-app.exe", b"fake main exe".as_slice()),
        ("my-app-wizard.exe", b"fake shell wizard".as_slice()),
        ("resources/app.json", b"{}".as_slice()),
    ]);
    let opts = InstallOptions {
        is_system: false,
        install_dir: r"C:\Test\app".into(),
        desktop_shortcut: true,
        file_assoc: true,
    };
    let mut world = World::default();
    drive(opts, ctx(&bundle, test_assoc()), &mut world).unwrap();

    assert_eq!(world.files[r"C:\Test\app\my-app.exe"], b"fake main exe");
    assert_eq!(world.files[r"C:\Test\app\my-app-wizard.exe"], b"fake shell wizard");
    let info = world.info.clone().unwrap();
    assert!(!info.is_system);
    assert_eq!(info.version, "9.9.9");
    assert!(info.created_desktop_shortcut);
    assert!(info.file_assoc);

    let key = &world.registry[r"Software\Microsoft\Windows\CurrentVersion\Uninstall\MyAppWizardTest.Install3"];
    assert_eq!(key["DisplayName"], "我的应用");
    assert_eq!(key["UninstallString"], r#""C:\Test\app\my-app-wizard.exe" --uninstall"#);
    assert!(!key["UninstallString"].contains("--confirm"));
    assert_eq!(key["EstimatedSize"], "0");
    assert_eq!(key["DisplayIcon"], r"C:\Test\app\my-app.exe");
    assert_eq!(
        world.registry[r"Software\Classes\.myapptest5\OpenWithProgids"]["MyAppWizardTest.ProgId5"],
        ""
    );
    assert_eq!(
        world.registry[r"Software\RegisteredApplications"]["MyAppWizardTest App5"],
        r"Software\MyAppWizardTest.Caps5\Capabilities"
    );

    assert_eq!(
        world.shortcuts,
        vec![r"C:\Test\start-menu\我的应用.lnk".to_string(), r"C:\Test\desktop\我的应用.lnk".to_string()]
    );

    assert_eq!(world.log.first().unwrap().step, "extract");
    let last = world.log.last().unwrap();
    assert!(last.done && last.percent == 100 && last.error.is_none());
    assert!(world.log.windows(2).all(|w| w[0].percent <= w[1].percent));
    let extract: Vec<(u8, String)> = world
        .log
        .iter()
        .filter(|p| p.step == "extract")
        .map(|p| (p.percent, p.message.clone()))
        .collect();
    assert_eq!(
        extract,
        vec![
            (0, "正在解压程序文件...".to_string()),
            (26, "正在解压程序文件 (1/3)...".to_string()),
            (53, "正在解压程序文件 (2/3)...".to_string()),
            (80, "正在解压程序文件 (3/3)...".to_string()),
        ]
    );
}

#[test]
fn install_machine_fails_when_bundle_missing_wizard() {
    let bundle = build_test_zip(&[("my-app.exe", b"fake main exe".as_slice())]);
    let opts = InstallOptions {
        is_system: false,
        install_dir: r"C:\Test\app".into(),
        desktop_shortcut: false,
        file_assoc: false,
    };
    let mut world = World::default();
    let err = drive(opts, ctx(&bundle, test_assoc()), &mut world).unwrap_err();
    assert!(err.contains("未含卸载程序"));
    assert_eq!(err, "安装包未含卸载程序 my-app-wizard.exe，安装包损坏或打包错误");
    assert!(world.registry.is_empty());
    assert!(world.info.is_none());
}

#[test]
fn install_machine_closes_running_processes_on_overwrite() {
    let bundle = build_test_zip(&[
        ("my-app.exe", b"new main exe".as_slice()),
        ("my-app-wizard.exe", b"fake shell wizard".as_slice()),
    ]);
    let opts = InstallOptions {
        is_system: false,
        install_dir: r"C:\Test\app".into(),
        desktop_shortcut: false,
        file_assoc: false,
    };
    let mut world = World::default();
    world.dirs.insert(r"C:\Test\app".into());
    world.files.insert(r"C:\Test\app\my-app.exe".into(), b"old main exe".to_vec());
    drive(opts, ctx(&bundle, test_assoc()), &mut world).unwrap();
    assert_eq!(world.log.first().unwrap().step, "close");
    assert_eq!(world.log.first().unwrap().message, "正在关闭运行中的 我的应用...");
    assert_eq!(world.closed, vec![r"C:\Test\app".to_string()]);
    assert!(world.log.last().unwrap().done);
    assert_eq!(world.files[r"C:\Test\app\my-app.exe"], b"new main exe");
    // no file association without extensions being chosen
    assert!(!world.registry.contains_key(r"Software\RegisteredApplications"));
    assert_eq!(world.shortcuts.len(), 1);
}

#[test]
fn install_machine_shortcut_failure_only_warns() {
    let bundle = build_test_zip(&[
        ("my-app.exe", b"x".as_slice()),
        ("my-app-wizard.exe", b"y".as_slice()),
    ]);
    let opts = InstallOptions {
        is_system: false,
        install_dir: r"C:\Test\app".into(),
        desktop_shortcut: false,
        file_assoc: false,
    };
    let mut machine = run_install_with(opts, ctx(&bundle, test_assoc()));
    let mut event = InstallEvent::Started;
    let mut log = Vec::new();
    let result = loop {
        let action = machine.step(event);
        log.extend(action.reports);
        event = match action.work {
            InstallWork::CheckDirExists { .. } => InstallEvent::DirChecked(false),
            InstallWork::OpenBundle => machine.open_bundle_event(),
            InstallWork::ReadEntry { .. } => machine.read_entry_event(),
            InstallWork::ReadData { .. } => machine.read_data_event(),
            InstallWork::CheckWizard { .. } => InstallEvent::WizardChecked(true),
            InstallWork::CreateShortcut { .. } => InstallEvent::Completed(Err("COM 初始化失败".into())),
            InstallWork::Finish { result } => break result,
            _ => InstallEvent::Completed(Ok(())),
        };
    };
    assert!(result.is_ok());
    let warn = log.iter().find(|p| p.percent == 97).unwrap();
    assert_eq!(
        warn.message,
        r"警告: 创建快捷方式 C:\Test\start-menu\我的应用.lnk 失败（COM 初始化失败），已跳过"
    );
    assert!(log.last().unwrap().done);
}

#[test]
fn run_install_refuses_placeholder_bundle_and_missing_folders() {
    let opts = InstallOptions {
        is_system: true,
        install_dir: r"C:\Program Files\x".into(),
        desktop_shortcut: false,
        file_assoc: false,
    };
    let env = KnownFolders {
        program_files: Some(r"C:\Program Files".into()),
        program_data: None,
        public: None,
        local_app_data: None,
        app_data: None,
        user_profile: None,
    };
    assert_eq!(
        run_install(opts.clone(), &[], &env, "1.0.0").err().unwrap(),
        "安装包未嵌入，请先执行打包脚本生成 app-bundle.zip 后重新编译安装器"
    );
    assert_eq!(
        run_install(opts, b"PK", &env, "1.0.0").err().unwrap(),
        "环境变量 ProgramData 不可用"
    );
}

#[test]
fn existing_install_from_key_rebuilds_site() {
    let info = InstallInfo {
        is_system: true,
        version: "0.1.0".into(),
        install_dir: r"C:\Somewhere".into(),
        app_id: "com.mycompany.myapp".into(),
        progid: "MyApp.file".into(),
        created_desktop_shortcut: true,
        file_assoc: true,
    };
    assert_eq!(
        existing_install_from(Some(r"C:\Dir"), Some(&info)).unwrap(),
        ExistingInstall {
            is_system: true,
            install_dir: r"C:\Dir".into(),
            version: "0.1.0".into(),
            desktop_shortcut: true,
            file_assoc: true,
        }
    );
    assert_eq!(existing_install_from(Some(r"C:\Dir"), None), None);
    assert_eq!(existing_install_from(Some(""), Some(&info)), None);
    assert_eq!(existing_install_from(None, Some(&info)), None);
}

#[test]
fn install_machine_refuses_bundle_that_is_no_zip() {
    let bundle = vec![7u8];
    let opts = InstallOptions {
        is_system: false,
        install_dir: r"C:\Test\app".into(),
        desktop_shortcut: false,
        file_assoc: false,
    };
    let mut world = World::default();
    let err = drive(opts, ctx(&bundle, test_assoc()), &mut world).unwrap_err();
    assert!(err.starts_with("读取安装包失败: "));
    assert!(world.files.is_empty());
    assert!(world.dirs.is_empty());
    assert!(world.info.is_none());
}

#[test]
fn install_machine_refuses_entry_leaving_install_dir() {
    let bundle = build_test_zip(&[
        ("my-app.exe", b"main".as_slice()),
        ("../evil.txt", b"evil".as_slice()),
        ("my-app-wizard.exe", b"wizard".as_slice()),
    ]);
    let opts = InstallOptions {
        is_system: false,
        install_dir: r"C:\Test\app".into(),
        desktop_shortcut: false,
        file_assoc: false,
    };
    let mut world = World::default();
    let err = drive(opts, ctx(&bundle, test_assoc()), &mut world).unwrap_err();
    assert_eq!(err, "安装包含非法路径条目: ../evil.txt");
    assert_eq!(world.files.len(), 1);
    assert_eq!(world.files[r"C:\Test\app\my-app.exe"], b"main");
    assert!(world.registry.is_empty());
}
