use std::io::{Cursor, Write};

use installer_lib::bundle::{
    embedded_bundle, entry_count, open_bundle, read_bundle_entry, read_entry_data,
};
use zip::write::SimpleFileOptions;
use zip::ZipWriter;

fn build_test_zip(entries: &[(&str, &[u8])]) -> Vec<u8> {
    let mut writer = ZipWriter::new(Cursor::new(Vec::new()));
    let options = SimpleFileOptions::default();
    for (name, data) in entries {
        if name.ends_with('/') {
            writer.add_directory(name.trim_end_matches('/'), options).unwrap();
        } else {
            writer.start_file(*name, options).unwrap();
            writer.write_all(data).unwrap();
        }
    }
    writer.finish().unwrap().into_inner()
}

#[test]
fn bundle_entries_in_archive_order() {
    let zip = build_test_zip(&[
        ("my-app.exe", b"fake exe".as_slice()),
        ("resources/", b"".as_slice()),
        ("resources/app.json", b"{}".as_slice()),
    ]);
    let mut archive = open_bundle(&zip).unwrap();
    assert_eq!(entry_count(&archive), 3);

    let e0 = read_bundle_entry(&mut archive, 0, r"C:\Target").unwrap();
    assert_eq!(e0.dest, r"C:\Target\my-app.exe");
    assert!(!e0.is_dir);
    let d0 = read_entry_data(&mut archive, 0, &e0.dest).unwrap();
    assert_eq!(d0, b"fake exe");

    let e1 = read_bundle_entry(&mut archive, 1, r"C:\Target").unwrap();
    assert_eq!(e1.dest, r"C:\Target\resources/");
    assert!(e1.is_dir);

    let e2 = read_bundle_entry(&mut archive, 2, r"C:\Target").unwrap();
    assert_eq!(e2.dest, r"C:\Target\resources/app.json");
    let d2 = read_entry_data(&mut archive, 2, &e2.dest).unwrap();
    assert_eq!(d2, b"{}");
    assert_eq!(d0.len() + d2.len(), 10);
}

#[test]
fn bundle_rejects_zip_slip() {
    let zip = build_test_zip(&[("../escape.txt", b"evil".as_slice())]);
    let mut archive = open_bundle(&zip).unwrap();
    let err = read_bundle_entry(&mut archive, 0, r"C:\Target").err().unwrap();
    assert!(err.contains("非法路径"), "unexpected error: {err}");
    assert_eq!(err, "安装包含非法路径条目: ../escape.txt");
}

#[test]
fn bundle_rejects_invalid_bytes() {
    let err = open_bundle(b"not a zip").err().unwrap();
    assert!(err.starts_with("读取安装包失败: "));
}

#[test]
fn embedded_bundle_refuses_placeholder() {
    assert_eq!(
        embedded_bundle(&[]).unwrap_err(),
        "安装包未嵌入，请先执行打包脚本生成 app-bundle.zip 后重新编译安装器"
    );
    assert_eq!(embedded_bundle(b"PK").unwrap(), b"PK");
}

#[test]
fn bundle_rejects_climbing_out_in_the_middle() {
    let zip = build_test_zip(&[("a/../../x.txt", b"evil".as_slice())]);
    let mut archive = open_bundle(&zip).unwrap();
    let err = read_bundle_entry(&mut archive, 0, r"C:\Target").err().unwrap();
    assert_eq!(err, "安装包含非法路径条目: a/../../x.txt");
}

#[test]
fn bundle_accepts_a_name_that_comes_back_inside() {
    let zip = build_test_zip(&[("a/../x.txt", b"ok".as_slice())]);
    let mut archive = open_bundle(&zip).unwrap();
    let e = read_bundle_entry(&mut archive, 0, r"C:\Target").unwrap();
    assert_eq!(e.dest, r"C:\Target\a/../x.txt");
    assert_eq!(read_entry_data(&mut archive, 0, &e.dest).unwrap(), b"ok");
}
