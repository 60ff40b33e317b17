use installer_lib::paths::{dir_prefix, join_path, path_is_under, InstallPaths, KnownFolders};

#[test]
fn dir_prefix_is_lowercase_with_separator() {
    assert_eq!(dir_prefix(r"C:\Fake\My App"), r"c:\fake\my app\");
    assert_eq!(dir_prefix(r"C:\Fake\My App\"), r"c:\fake\my app\");
}

#[test]
fn path_is_under_ignores_case_and_requires_boundary() {
    let dir = r"C:\Program Files\My App";
    assert!(path_is_under(r"c:\program files\my app\my-app-wizard.exe", dir));
    assert!(!path_is_under(r"C:\Program Files\My App 2\app.exe", dir));
}

#[test]
fn directory_is_not_under_itself() {
    assert!(!path_is_under(r"C:\Apps", r"C:\Apps"));
    assert!(path_is_under(r"C:\Apps/x", r"c:\apps/"));
}

#[test]
fn join_path_follows_windows_rules() {
    assert_eq!(join_path(r"C:\a", "b"), r"C:\a\b");
    assert_eq!(join_path(r"C:\a\", "b"), r"C:\a\b");
    assert_eq!(join_path("C:", "b"), "C:b");
    assert_eq!(join_path("", "b"), "b");
}

fn folders() -> KnownFolders {
    KnownFolders {
        program_files: Some(r"C:\Program Files".into()),
        program_data: Some(r"C:\ProgramData".into()),
        public: Some(r"C:\Users\Public".into()),
        local_app_data: Some(r"C:\Users\me\AppData\Local".into()),
        app_data: Some(r"C:\Users\me\AppData\Roaming".into()),
        user_profile: Some(r"C:\Users\me".into()),
    }
}

#[test]
fn resolve_user_level_paths_from_folders() {
    let paths = InstallPaths::resolve(false, &folders()).unwrap();
    assert_eq!(paths.default_install_dir, r"C:\Users\me\AppData\Local\Programs\我的应用");
    assert_eq!(
        paths.start_menu_dir,
        r"C:\Users\me\AppData\Roaming\Microsoft\Windows\Start Menu\Programs\我的应用"
    );
    assert_eq!(paths.desktop_dir, r"C:\Users\me\Desktop");
}

#[test]
fn resolve_system_level_paths_from_folders() {
    let paths = InstallPaths::resolve(true, &folders()).unwrap();
    assert_eq!(paths.default_install_dir, r"C:\Program Files\我的应用");
    assert_eq!(
        paths.start_menu_dir,
        r"C:\ProgramData\Microsoft\Windows\Start Menu\Programs\我的应用"
    );
    assert_eq!(paths.desktop_dir, r"C:\Users\Public\Desktop");
}

#[test]
fn resolve_names_the_first_missing_variable() {
    let mut f = folders();
    f.program_data = None;
    f.public = None;
    assert_eq!(
        InstallPaths::resolve(true, &f).err().unwrap(),
        "环境变量 ProgramData 不可用"
    );
    let mut f = folders();
    f.user_profile = None;
    assert_eq!(InstallPaths::resolve(false, &f).err().unwrap(), "环境变量 USERPROFILE 不可用");
    assert!(InstallPaths::resolve(true, &f).is_ok());
}

#[test]
fn directory_with_non_ascii_name_is_not_under_itself() {
    assert!(!path_is_under(r"D:\我的应用\ÄPFEL", r"D:\我的应用\ÄPFEL"));
    assert!(path_is_under(r"D:\我的应用\äpfel\app.exe", r"D:\我的应用\ÄPFEL"));
}
