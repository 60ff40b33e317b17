//! Product constants of the installer, gathered in one place so that renaming
//! the product touches this file only.
use vstd::prelude::*;

use crate::registry::{AssocParams, AssocView};

verus! {

/// File name of the main program at the root of the embedded bundle.
pub const MAIN_EXE_NAME: &'static str = "my-app.exe";

/// File name of the uninstaller copied into the install directory (the wizard itself).
pub const WIZARD_EXE_NAME: &'static str = "my-app-wizard.exe";

/// Name shown in the control panel and on shortcuts.
pub const APP_DISPLAY_NAME: &'static str = "我的应用";

/// Publisher shown in the control panel.
pub const PUBLISHER: &'static str = "My Company";

/// Application id: the uninstall key name and the user data directory name.
pub const APP_ID: &'static str = "com.mycompany.myapp";

/// Folder name of the install directory and of the start menu group.
pub const INSTALL_DIR_NAME: &'static str = "我的应用";

/// Prefix of the log and progress files under the temporary directory.
pub const TEMP_PREFIX: &'static str = "my-app-wizard";

/// ProgID of the file association.
pub const PROGID: &'static str = "MyApp.file";

/// Parent key of `Capabilities`, relative to the registry root.
pub const CAPABILITY_KEY: &'static str = "Software\\MyApp";

/// Default value of the ProgID key (the file type description).
pub const ASSOC_FILE_TYPE_NAME: &'static str = "我的应用 文档";

/// `ApplicationDescription` under `Capabilities`.
pub const APP_DESCRIPTION: &'static str = "基于轻壳构建的桌面应用";

/// Extensions of the release file association (none: the step is off).
pub fn assoc_extensions() -> (r: &'static [&'static str])
    ensures
        r@.len() == 0,
{
    &[]
}

/// The file association surface of the release build.
pub open spec fn release_assoc_view() -> AssocView {
    AssocView {
        progid: PROGID@,
        extensions: seq![],
        exe_name: MAIN_EXE_NAME@,
        capability_key: CAPABILITY_KEY@,
        app_name: APP_DISPLAY_NAME@,
    }
}

/// The file association surface of the release build.
pub fn release_assoc() -> (r: AssocParams<'static>)
    ensures
        r@ == release_assoc_view(),
{
    let r = AssocParams {
        progid: PROGID,
        extensions: assoc_extensions(),
        exe_name: MAIN_EXE_NAME,
        capability_key: CAPABILITY_KEY,
        app_name: APP_DISPLAY_NAME,
    };
    assert(r@ =~= release_assoc_view());
    r
}

} // verus!
