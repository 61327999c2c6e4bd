use marktext_ru_patcher::patch::{
    LANGUAGES, LANGUAGES_NOT_FOUND, LANGUAGES_WITH_RU, PORTUGUESE_LABEL_NOT_FOUND,
    PORTUGUESE_OPTION_NOT_FOUND,
};
use marktext_ru_patcher::{
    has_language_options, is_renderer_bundle_name, patch_main_js, patch_main_js_edit,
    patch_renderer_js, patch_renderer_js_edits, Edit, Error,
};

const PT_OPTION: &str =
    "  {\n    label: t(\"preferences.general.misc.language.portuguese\"),\n    value: \"pt\"\n  }";
const PT_OPTION_UNINDENTED: &str =
    "{\n    label: t(\"preferences.general.misc.language.portuguese\"),\n    value: \"pt\"\n  }";
const RU_OPTION: &str =
    "  {\n    label: t(\"preferences.general.misc.language.russian\"),\n    value: \"ru\"\n  }";
const RU_OPTION_UNINDENTED: &str =
    "{\n    label: t(\"preferences.general.misc.language.russian\"),\n    value: \"ru\"\n  }";
const PT_LABEL: &str = "\"portuguese\":\"Português\"";
const PT_LABEL_PLAIN: &str = "\"portuguese\":\"Portugues\"";
const RU_LABEL: &str = ",\"russian\":\"Русский\"";

fn failure_text(e: Error) -> String {
    match e {
        Error::PatchFailed(m) => m,
        other => panic!("unexpected error {:?}", other),
    }
}

fn renderer(option: &str, label: &str) -> String {
    format!(
        "function getLanguageOptions(t) {{ return [\n{},\n  ]; }}\nconst en = {{{},\"x\":1}};",
        option, label
    )
}

#[test]
fn main_js_adds_russian_to_languages() {
    let content = format!("const a = 1;\nconst {};\nexport {{}};", LANGUAGES);
    let patched = patch_main_js(&content).unwrap();
    assert_eq!(patched, format!("const a = 1;\nconst {};\nexport {{}};", LANGUAGES_WITH_RU));
    assert!(patched.contains("\"pt\", \"ru\"]"));
}

#[test]
fn main_js_replaces_every_occurrence() {
    let content = format!("{}|{}", LANGUAGES, LANGUAGES);
    let patched = patch_main_js(&content).unwrap();
    assert_eq!(patched, format!("{}|{}", LANGUAGES_WITH_RU, LANGUAGES_WITH_RU));
}

#[test]
fn main_js_already_patched_is_unchanged() {
    let content = format!("x = 0; {}; y = 1;", LANGUAGES_WITH_RU);
    let (patched, edit) = patch_main_js_edit(&content).unwrap();
    assert_eq!(patched, content);
    assert_eq!(edit, Edit::AlreadyPresent);
}

#[test]
fn main_js_without_language_list_fails() {
    let err = patch_main_js("const SUPPORTED_LANGUAGES = [\"en\"];").unwrap_err();
    assert_eq!(failure_text(err), LANGUAGES_NOT_FOUND);
    assert_eq!(LANGUAGES_NOT_FOUND, "SUPPORTED_LANGUAGES не найден");
}

#[test]
fn main_js_patch_is_idempotent() {
    let content = format!("a {} b", LANGUAGES);
    let (once, first) = patch_main_js_edit(&content).unwrap();
    let (twice, second) = patch_main_js_edit(&once).unwrap();
    assert_eq!(first, Edit::Added);
    assert_eq!(second, Edit::AlreadyPresent);
    assert_eq!(once, twice);
}

#[test]
fn renderer_js_adds_option_and_label() {
    let content = renderer(PT_OPTION, PT_LABEL);
    let (patched, dropdown, label) = patch_renderer_js_edits(&content).unwrap();
    let expected = format!(
        "function getLanguageOptions(t) {{ return [\n{},\n{},\n  ]; }}\nconst en = {{{}{},\"x\":1}};",
        RU_OPTION, PT_OPTION, PT_LABEL, RU_LABEL
    );
    assert_eq!(patched, expected);
    assert_eq!(dropdown, Edit::Added);
    assert_eq!(label, Edit::Added);
}

#[test]
fn renderer_js_unindented_option() {
    let content = format!("[{}]{}", PT_OPTION_UNINDENTED, PT_LABEL);
    let patched = patch_renderer_js(&content).unwrap();
    assert_eq!(
        patched,
        format!("[{},\n{}]{}{}", RU_OPTION_UNINDENTED, PT_OPTION_UNINDENTED, PT_LABEL, RU_LABEL)
    );
}

#[test]
fn renderer_js_plain_label() {
    let content = renderer(PT_OPTION, PT_LABEL_PLAIN);
    let (patched, _, label) = patch_renderer_js_edits(&content).unwrap();
    assert_eq!(label, Edit::AddedPlain);
    assert!(patched.contains(&format!("{}{}", PT_LABEL_PLAIN, RU_LABEL)));
}

#[test]
fn renderer_js_accented_label_first() {
    let content = format!("{}{} {}", PT_OPTION, PT_LABEL_PLAIN, PT_LABEL);
    let (patched, _, label) = patch_renderer_js_edits(&content).unwrap();
    assert_eq!(label, Edit::Added);
    assert!(patched.ends_with(&format!("{}{} {}{}", PT_OPTION, PT_LABEL_PLAIN, PT_LABEL, RU_LABEL)));
}

#[test]
fn renderer_js_first_label_only() {
    let content = format!("{}{}{}", PT_OPTION, PT_LABEL, PT_LABEL);
    let patched = patch_renderer_js(&content).unwrap();
    assert!(patched.ends_with(&format!("{}{}{}", PT_LABEL, RU_LABEL, PT_LABEL)));
}

#[test]
fn renderer_js_without_portuguese_option_fails() {
    let err = patch_renderer_js(&format!("nothing here {}", PT_LABEL)).unwrap_err();
    assert_eq!(failure_text(err), PORTUGUESE_OPTION_NOT_FOUND);
}

#[test]
fn renderer_js_without_portuguese_label_fails() {
    let err = patch_renderer_js(PT_OPTION).unwrap_err();
    assert_eq!(failure_text(err), PORTUGUESE_LABEL_NOT_FOUND);
    assert_eq!(PORTUGUESE_LABEL_NOT_FOUND, "португальский не найден во встроенном en.json");
}

#[test]
fn renderer_js_already_patched_is_unchanged() {
    let content = format!("{}{}{}", RU_OPTION, PT_LABEL, RU_LABEL);
    let (patched, dropdown, label) = patch_renderer_js_edits(&content).unwrap();
    assert_eq!(patched, content);
    assert_eq!(dropdown, Edit::AlreadyPresent);
    assert_eq!(label, Edit::AlreadyPresent);
}

#[test]
fn renderer_js_patch_is_idempotent() {
    let content = renderer(PT_OPTION, PT_LABEL);
    let once = patch_renderer_js(&content).unwrap();
    let (twice, dropdown, label) = patch_renderer_js_edits(&once).unwrap();
    assert_eq!(once, twice);
    assert_eq!(dropdown, Edit::AlreadyPresent);
    assert_eq!(label, Edit::AlreadyPresent);
}

#[test]
fn renderer_js_unindented_option_is_added_again() {
    let content = format!("[{}]{}", PT_OPTION_UNINDENTED, PT_LABEL);
    let once = patch_renderer_js(&content).unwrap();
    let (twice, dropdown, label) = patch_renderer_js_edits(&once).unwrap();
    assert_eq!(dropdown, Edit::Added);
    assert_eq!(label, Edit::AlreadyPresent);
    assert_eq!(twice.matches(RU_OPTION_UNINDENTED).count(), 2);
}

#[test]
fn renderer_bundle_names() {
    assert!(is_renderer_bundle_name("index-3f2a.js"));
    assert!(is_renderer_bundle_name("index-.js"));
    assert!(!is_renderer_bundle_name("index.js"));
    assert!(!is_renderer_bundle_name("index-3f2a.css"));
    assert!(!is_renderer_bundle_name("vendor-index-1.js"));
    assert!(!is_renderer_bundle_name(""));
}

#[test]
fn language_options_bundle() {
    assert!(has_language_options("const getLanguageOptions = () => []"));
    assert!(!has_language_options("const getLanguage = () => []"));
}
