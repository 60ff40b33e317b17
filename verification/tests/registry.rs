//! Registry plans carried out on an in-memory registry (key path → values).
use std::collections::BTreeMap;

use installer_lib::registry::{
    register_file_associations, remove_uninstall_info, root_for, unregister_file_associations,
    write_uninstall_info, AssocParams, Hive, RegOp, RegValue, UninstallInfo,
};

const UNINSTALL_PATH: &str = r"Software\Microsoft\Windows\CurrentVersion\Uninstall";
const CLASSES_PATH: &str = r"Software\Classes";
const REGISTERED_APPS_PATH: &str = r"Software\RegisteredApplications";

#[derive(Default)]
struct FakeRegistry {
    keys: BTreeMap<String, BTreeMap<String, Value>>,
}

#[derive(Clone, Debug, PartialEq)]
enum Value {
    Str(String),
    Dword(u32),
}

impl FakeRegistry {
    fn apply(&mut self, ops: &[RegOp]) -> Result<(), String> {
        let mut current = String::new();
        for op in ops {
            match op {
                RegOp::CreateKey { path, .. } => {
                    self.keys.entry(path.to_lowercase()).or_default();
                    current = path.to_lowercase();
                }
                RegOp::SetValue { name, value, .. } => {
                    let v = match value {
                        RegValue::Str(s) => Value::Str(s.clone()),
                        RegValue::Dword(d) => Value::Dword(*d),
                    };
                    self.keys.entry(current.clone()).or_default().insert(name.to_lowercase(), v);
                }
                RegOp::DeleteTree { path, .. } => {
                    let root = path.to_lowercase();
                    let below = format!("{root}\\");
                    self.keys.retain(|k, _| *k != root && !k.starts_with(&below));
                }
                RegOp::ClearDefaultIfEquals { path, expected } => {
                    if let Some(values) = self.keys.get_mut(&path.to_lowercase()) {
                        if values.get("") == Some(&Value::Str(expected.clone())) {
                            values.remove("");
                        }
                    }
                }
                RegOp::DeleteValue { path, name } => {
                    if let Some(values) = self.keys.get_mut(&path.to_lowercase()) {
                        values.remove(&name.to_lowercase());
                    }
                }
                RegOp::NotifyAssocChanged => {}
            }
        }
        Ok(())
    }

    fn create(&mut self, path: &str) {
        self.keys.entry(path.to_lowercase()).or_default();
    }

    fn set(&mut self, path: &str, name: &str, value: &str) {
        self.keys
            .entry(path.to_lowercase())
            .or_default()
            .insert(name.to_lowercase(), Value::Str(value.into()));
    }

    fn has_key(&self, path: &str) -> bool {
        self.keys.contains_key(&path.to_lowercase())
    }

    fn get(&self, path: &str, name: &str) -> Option<Value> {
        self.keys.get(&path.to_lowercase())?.get(&name.to_lowercase()).cloned()
    }

    fn get_str(&self, path: &str, name: &str) -> Option<String> {
        match self.get(path, name)? {
            Value::Str(s) => Some(s),
            Value::Dword(_) => None,
        }
    }
}

#[test]
fn root_for_picks_hklm_for_system() {
    assert_eq!(root_for(true), Hive::LocalMachine);
    assert_eq!(root_for(false), Hive::CurrentUser);
}

#[test]
fn uninstall_info_roundtrip() {
    let mut root = FakeRegistry::default();
    let app_id = "MyAppWizardTest.Uninstall";
    let info = UninstallInfo {
        display_name: "My App".into(),
        display_version: "0.1.0".into(),
        publisher: "My Company".into(),
        uninstall_string: r#""C:\Fake\my-app-wizard.exe" --uninstall"#.into(),
        install_location: r"C:\Fake\My App".into(),
        display_icon: r"C:\Fake\My App\My App.exe".into(),
        estimated_size_kb: 12345,
    };

    root.apply(&write_uninstall_info(app_id, &info)).unwrap();

    let key = format!(r"{UNINSTALL_PATH}\{app_id}");
    assert_eq!(root.get_str(&key, "DisplayName").unwrap(), "My App");
    assert_eq!(root.get_str(&key, "DisplayVersion").unwrap(), "0.1.0");
    assert_eq!(root.get_str(&key, "Publisher").unwrap(), "My Company");
    assert_eq!(
        root.get_str(&key, "UninstallString").unwrap(),
        r#""C:\Fake\my-app-wizard.exe" --uninstall"#
    );
    assert_eq!(root.get_str(&key, "InstallLocation").unwrap(), r"C:\Fake\My App");
    assert_eq!(root.get_str(&key, "DisplayIcon").unwrap(), r"C:\Fake\My App\My App.exe");
    assert_eq!(root.get(&key, "EstimatedSize").unwrap(), Value::Dword(12345));
    assert_eq!(root.get(&key, "NoModify").unwrap(), Value::Dword(1));
    assert_eq!(root.get(&key, "NoRepair").unwrap(), Value::Dword(1));

    root.apply(&remove_uninstall_info(app_id)).unwrap();
    assert!(!root.has_key(&key));
    root.apply(&remove_uninstall_info(app_id)).unwrap();
}

#[test]
fn uninstall_info_plan_failure_texts() {
    let info = UninstallInfo {
        display_name: "A".into(),
        display_version: "1".into(),
        publisher: "P".into(),
        uninstall_string: "u".into(),
        install_location: "l".into(),
        display_icon: "i".into(),
        estimated_size_kb: 0,
    };
    let ops = write_uninstall_info("app", &info);
    assert_eq!(ops.len(), 10);
    assert_eq!(
        ops[0],
        RegOp::CreateKey {
            path: format!(r"{UNINSTALL_PATH}\app"),
            failure: format!(r"创建注册表键 {UNINSTALL_PATH}\app 失败: "),
        }
    );
    assert_eq!(
        ops[1],
        RegOp::SetValue {
            name: "DisplayName".into(),
            value: RegValue::Str("A".into()),
            failure: "写入注册表值 DisplayName 失败: ".into(),
        }
    );
    assert_eq!(
        remove_uninstall_info("app"),
        vec![RegOp::DeleteTree {
            path: format!(r"{UNINSTALL_PATH}\app"),
            failure: format!(r"删除注册表键 {UNINSTALL_PATH}\app 失败: "),
        }]
    );
}

#[test]
fn file_associations_register_full_surface_and_unregister() {
    let mut root = FakeRegistry::default();
    let params = AssocParams {
        progid: "MyAppWizardTest.ProgId1",
        extensions: &["myapptest1"],
        exe_name: "myapp-wizard-test1.exe",
        capability_key: r"Software\MyAppWizardTest.Caps1",
        app_name: "MyAppWizardTest App1",
    };
    let ext = params.extensions[0];
    let ext_path = format!(r"{CLASSES_PATH}\.{ext}");
    let exe = r"C:\Fake\My App\my-app.exe";

    root.set(&ext_path, "", "Legacy.ProgID");
    root.set(&format!(r"{ext_path}\OpenWithProgids"), "Other.ProgID", "");

    root.apply(&register_file_associations(&params, exe)).unwrap();

    assert_eq!(
        root.get_str(&format!(r"{CLASSES_PATH}\{}\shell\open\command", params.progid), "")
            .unwrap(),
        format!("\"{exe}\" \"%1\"")
    );
    let app_path = format!(r"{CLASSES_PATH}\Applications\{}", params.exe_name);
    assert_eq!(root.get_str(&app_path, "FriendlyAppName").unwrap(), params.app_name);
    assert_eq!(
        root.get_str(&format!(r"{app_path}\shell\open\command"), "").unwrap(),
        format!("\"{exe}\" \"%1\"")
    );
    assert_eq!(root.get_str(&format!(r"{app_path}\SupportedTypes"), &format!(".{ext}")).unwrap(), "");

    let cap_path = format!(r"{}\Capabilities", params.capability_key);
    assert_eq!(root.get_str(&cap_path, "ApplicationName").unwrap(), params.app_name);
    assert_eq!(
        root.get_str(&format!(r"{cap_path}\FileAssociations"), &format!(".{ext}")).unwrap(),
        params.progid
    );
    assert_eq!(root.get_str(REGISTERED_APPS_PATH, params.app_name).unwrap(), cap_path);

    assert_eq!(root.get_str(&ext_path, "").unwrap(), "Legacy.ProgID");
    assert_eq!(
        root.get_str(&format!(r"{ext_path}\OpenWithProgids"), params.progid).unwrap(),
        ""
    );

    root.apply(&unregister_file_associations(&params)).unwrap();

    assert!(!root.has_key(&format!(r"{CLASSES_PATH}\{}", params.progid)));
    assert!(!root.has_key(&app_path));
    assert!(!root.has_key(params.capability_key));
    assert!(root.get_str(REGISTERED_APPS_PATH, params.app_name).is_none());
    assert_eq!(root.get_str(&ext_path, "").unwrap(), "Legacy.ProgID");
    assert!(root.get_str(&format!(r"{ext_path}\OpenWithProgids"), params.progid).is_none());
    assert_eq!(
        root.get_str(&format!(r"{ext_path}\OpenWithProgids"), "Other.ProgID").unwrap(),
        ""
    );
}

#[test]
fn unregister_clears_dangling_own_default_value() {
    let mut root = FakeRegistry::default();
    let params = AssocParams {
        progid: "MyAppWizardTest.ProgId4",
        extensions: &["myapptest4"],
        exe_name: "myapp-wizard-test4.exe",
        capability_key: r"Software\MyAppWizardTest.Caps4",
        app_name: "MyAppWizardTest App4",
    };
    let ext_path = format!(r"{CLASSES_PATH}\.{}", params.extensions[0]);
    root.set(&ext_path, "", params.progid);

    root.apply(&unregister_file_associations(&params)).unwrap();

    assert_eq!(root.get_str(&ext_path, "").unwrap_or_default(), "");
}

#[test]
fn unregister_is_idempotent_on_empty_site() {
    let mut root = FakeRegistry::default();
    let params = AssocParams {
        progid: "MyAppWizardTest.ProgId3",
        extensions: &["myapptest3"],
        exe_name: "myapp-wizard-test3.exe",
        capability_key: r"Software\MyAppWizardTest.Caps3",
        app_name: "MyAppWizardTest App3",
    };
    root.apply(&unregister_file_associations(&params)).unwrap();
    root.apply(&unregister_file_associations(&params)).unwrap();
    assert!(root.keys.is_empty());
}

#[test]
fn register_plan_never_writes_extension_default() {
    let params = AssocParams {
        progid: "P.Id",
        extensions: &["a", "b"],
        exe_name: "x.exe",
        capability_key: r"Software\X",
        app_name: "X",
    };
    let ops = register_file_associations(&params, r"C:\x.exe");
    let mut current = String::new();
    for op in &ops {
        match op {
            RegOp::CreateKey { path, .. } => current = path.clone(),
            RegOp::SetValue { name, .. } => {
                assert!(!(name.is_empty() && (current.ends_with(r"\.a") || current.ends_with(r"\.b"))));
            }
            _ => {}
        }
    }
    assert_eq!(ops.last(), Some(&RegOp::NotifyAssocChanged));
    // ProgID (6) + Applications (7) + two types + Capabilities (4) + two associations
    // + RegisteredApplications (2) + two OpenWithProgids pairs + notify
    assert_eq!(ops.len(), 6 + 7 + 2 + 4 + 2 + 2 + 4 + 1);
}

#[test]
fn unregister_twice_leaves_what_once_left() {
    let mut root = FakeRegistry::default();
    let params = AssocParams {
        progid: "MyAppWizardTest.ProgId5",
        extensions: &["myapptest5", "myapptest6"],
        exe_name: "myapp-wizard-test5.exe",
        capability_key: r"Software\MyAppWizardTest.Caps5",
        app_name: "MyAppWizardTest App5",
    };
    let ext_path = format!(r"{CLASSES_PATH}\.myapptest5");
    root.set(&ext_path, "", "Other.ProgID");
    root.set(&format!(r"{ext_path}\OpenWithProgids"), "Other.ProgID", "");
    root.apply(&register_file_associations(&params, r"C:\x\app.exe")).unwrap();
    root.apply(&unregister_file_associations(&params)).unwrap();
    let once = root.keys.clone();
    root.apply(&unregister_file_associations(&params)).unwrap();
    assert_eq!(root.keys, once);
    assert_eq!(root.get_str(&ext_path, "").unwrap(), "Other.ProgID");
}

#[test]
fn remove_uninstall_info_twice_leaves_what_once_left() {
    let mut root = FakeRegistry::default();
    let info = UninstallInfo {
        display_name: "N".into(),
        display_version: "1".into(),
        publisher: "P".into(),
        uninstall_string: "u".into(),
        install_location: "l".into(),
        display_icon: "i".into(),
        estimated_size_kb: 3,
    };
    root.set(r"Software\Other", "keep", "yes");
    root.apply(&write_uninstall_info("app", &info)).unwrap();
    assert_eq!(root.get(&format!(r"{UNINSTALL_PATH}\app"), "EstimatedSize"), Some(Value::Dword(3)));
    root.apply(&remove_uninstall_info("app")).unwrap();
    let once = root.keys.clone();
    root.apply(&remove_uninstall_info("app")).unwrap();
    assert_eq!(root.keys, once);
    assert!(!root.has_key(&format!(r"{UNINSTALL_PATH}\app")));
    assert_eq!(root.get_str(r"Software\Other", "keep").unwrap(), "yes");
}
