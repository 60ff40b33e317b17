//! The outcome of an elevated process the wizard waited for.
use installer_lib::args::ElevatedArgs;
use installer_lib::install::elevated_install_options;
use installer_lib::progress::InstallProgress;
use installer_lib::relaunch::{
    elevated_outcome, elevation_refused, headless_route, needs_elevation, ElevatedTask, HeadlessRoute,
};

#[test]
fn error_in_the_progress_file_wins_over_the_exit_code() {
    let last = InstallProgress::failed("解压失败".to_string());
    assert_eq!(elevated_outcome(ElevatedTask::Install, 0, Some(last)), Err("解压失败".to_string()));
}

#[test]
fn clean_exit_finishes_with_the_final_report() {
    let running = InstallProgress::running("extract", 40, "正在解压程序文件...".to_string());
    assert_eq!(
        elevated_outcome(ElevatedTask::Install, 0, Some(running)),
        Ok(InstallProgress::finished())
    );
    assert_eq!(
        elevated_outcome(ElevatedTask::Uninstall, 0, None),
        Ok(InstallProgress::finished_with("卸载完成"))
    );
}

#[test]
fn abnormal_exit_names_the_code_and_the_log() {
    assert_eq!(
        elevated_outcome(ElevatedTask::Install, 1603, None),
        Err("提权安装进程异常退出 (exit code: 1603)，详见 %TEMP%\\my-app-wizard.log".to_string())
    );
    assert_eq!(
        elevated_outcome(ElevatedTask::Uninstall, 5, None),
        Err("提权卸载进程异常退出 (exit code: 5)，详见 %TEMP%\\my-app-wizard.log".to_string())
    );
}

#[test]
fn refused_elevation_suggests_a_per_user_install() {
    assert_eq!(
        elevation_refused("用户拒绝了 UAC 提权请求"),
        "用户拒绝了 UAC 提权请求；可取消\"为所有用户安装\"改为用户级安装（无需管理员权限）"
    );
}

#[test]
fn elevated_arguments_make_a_system_install() {
    let parsed = ElevatedArgs {
        install_path: r"C:\Program Files\My App".to_string(),
        desktop_shortcut: true,
        file_assoc: false,
        progress_file: None,
    };
    let opts = elevated_install_options(&parsed);
    assert!(opts.is_system);
    assert_eq!(opts.install_dir, r"C:\Program Files\My App");
    assert!(opts.desktop_shortcut);
    assert!(!opts.file_assoc);
}

#[test]
fn only_system_work_without_rights_is_elevated() {
    assert!(needs_elevation(true, false));
    assert!(!needs_elevation(true, true));
    assert!(!needs_elevation(false, false));
}

#[test]
fn headless_uninstall_elevates_before_leaving_the_install_dir() {
    assert_eq!(headless_route(true, false, true), HeadlessRoute::Elevate);
    assert_eq!(headless_route(true, true, true), HeadlessRoute::TempCopy);
    assert_eq!(headless_route(false, false, true), HeadlessRoute::TempCopy);
    assert_eq!(headless_route(false, false, false), HeadlessRoute::InPlace);
}
