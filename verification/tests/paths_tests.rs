use marktext_ru_patcher::paths::SEARCHED_DIRS;
use marktext_ru_patcher::{
    first_present, installation_probe, locale_file, machine_install_dir, main_bundle,
    renderer_assets, source_json_candidates, user_install_dir, Error, FsPath, MarkTextPaths,
    MARKTEXT_DIR_PROGRAM,
};

fn parts(p: &FsPath) -> Vec<&str> {
    p.parts.iter().map(|s| s.as_str()).collect()
}

#[test]
fn layout_from_root() {
    let p = MarkTextPaths::from_root(FsPath::new("D:\\apps\\marktext"));
    assert_eq!(parts(&p.root), vec!["D:\\apps\\marktext"]);
    assert_eq!(parts(&p.asar), vec!["D:\\apps\\marktext", "resources", "app.asar"]);
    assert_eq!(parts(&p.asar_backup), vec!["D:\\apps\\marktext", "resources", "app.asar.backup"]);
    assert_eq!(
        parts(&p.locales_dir),
        vec!["D:\\apps\\marktext", "resources", "static", "locales"]
    );
}

const LOCAL: &str = "C:\\Users\\anna\\AppData\\Local";

#[test]
fn detect_prefers_per_user_installation() {
    let p = MarkTextPaths::detect(Some(LOCAL), true, true).unwrap();
    assert_eq!(parts(&p.root), vec![LOCAL, "Programs", "marktext"]);
    let p = MarkTextPaths::detect(Some(LOCAL), true, false).unwrap();
    assert_eq!(parts(&p.asar), vec![LOCAL, "Programs", "marktext", "resources", "app.asar"]);
}

#[test]
fn detect_falls_back_to_program_files() {
    let p = MarkTextPaths::detect(Some(LOCAL), false, true).unwrap();
    assert_eq!(parts(&p.root), vec![MARKTEXT_DIR_PROGRAM]);
    assert_eq!(parts(&p.asar), vec![MARKTEXT_DIR_PROGRAM, "resources", "app.asar"]);
    let p = MarkTextPaths::detect(None, true, true).unwrap();
    assert_eq!(parts(&p.root), vec![MARKTEXT_DIR_PROGRAM]);
}

#[test]
fn detect_without_installation_fails() {
    for local in [Some(LOCAL), None] {
        match MarkTextPaths::detect(local, false, false) {
            Err(Error::MarkTextNotFound(m)) => assert_eq!(m, SEARCHED_DIRS),
            other => panic!("unexpected {:?}", other),
        }
    }
    match MarkTextPaths::detect(None, true, false) {
        Err(Error::MarkTextNotFound(m)) => assert_eq!(m, SEARCHED_DIRS),
        other => panic!("unexpected {:?}", other),
    }
}

#[test]
fn installation_probes() {
    assert_eq!(
        parts(&installation_probe(&user_install_dir(LOCAL))),
        vec![LOCAL, "Programs", "marktext", "marktext.exe"]
    );
    assert_eq!(
        parts(&installation_probe(&machine_install_dir())),
        vec![MARKTEXT_DIR_PROGRAM, "marktext.exe"]
    );
}

#[test]
fn source_json_candidates_order() {
    let dir = FsPath::new("/opt/patcher");
    let c = source_json_candidates(&dir);
    assert_eq!(parts(&c[0]), vec!["/opt/patcher", "ru.json"]);
    assert_eq!(parts(&c[1]), vec!["/opt/patcher", "..", "ru.json"]);
    assert_eq!(parts(&c[2]), vec!["/opt/patcher", "ru.min.json"]);
    assert_eq!(parts(&c[3]), vec!["/opt/patcher", "..", "ru.min.json"]);
    assert_eq!(c.len(), 4);
}

#[test]
fn first_present_cases() {
    assert_eq!(first_present(&vec![false, true, true]), Some(1));
    assert_eq!(first_present(&vec![true]), Some(0));
    assert_eq!(first_present(&vec![false, false]), None);
    assert_eq!(first_present(&vec![]), None);
}

#[test]
fn unpacked_layout() {
    let tmp = FsPath::new("/tmp/x");
    assert_eq!(parts(&main_bundle(&tmp)), vec!["/tmp/x", "out", "main", "index.js"]);
    assert_eq!(parts(&renderer_assets(&tmp)), vec!["/tmp/x", "out", "renderer", "assets"]);
    assert_eq!(parts(&locale_file(&tmp)), vec!["/tmp/x", "ru.min.json"]);
}

#[test]
fn join_keeps_original() {
    let a = FsPath::new("a");
    let b = a.join("b");
    assert_eq!(parts(&a), vec!["a"]);
    assert_eq!(parts(&b), vec!["a", "b"]);
}
