//! The edits that add Russian to MarkText's JavaScript bundles.
//!
//! The main-process bundle gets `"ru"` in its list of supported languages;
//! the renderer bundle gets a "Russian" entry in the language drop-down and
//! the label `"russian":"Русский"` in its embedded English dictionary.
use vstd::prelude::*;

use crate::text::{
    chars_of, concat_exec, contains, contains_exec, ends_with_exec, find, find_exec, has_char,
    insert_at, insert_exec, is_first_occurrence, lemma_find, lemma_insert_adds_no,
    lemma_insert_before_keeps, lemma_insert_after_keeps, lemma_insert_at_occurs,
    lemma_missing_char, lemma_replace_all_contains, lemma_replace_first_prepend, occurs_at,
    replace_all, replace_all_exec, replace_first, replace_first_exec, starts_with_exec, string_of,
};
use crate::Error;

verus! {

broadcast use vstd::string::group_string_axioms;

/// The list of supported languages in the main-process bundle, before the patch.
pub const LANGUAGES: &'static str = "SUPPORTED_LANGUAGES = [\"en\", \"zh-CN\", \"zh-TW\", \"es\", \"fr\", \"de\", \"ja\", \"ko\", \"pt\"]";

/// The same list with Russian added at its end.
pub const LANGUAGES_WITH_RU: &'static str = "SUPPORTED_LANGUAGES = [\"en\", \"zh-CN\", \"zh-TW\", \"es\", \"fr\", \"de\", \"ja\", \"ko\", \"pt\", \"ru\"]";

/// The Portuguese entry of the language drop-down (`getLanguageOptions`).
pub const PORTUGUESE_OPTION: &'static str = "  {\n    label: t(\"preferences.general.misc.language.portuguese\"),\n    value: \"pt\"\n  }";

/// The Portuguese entry as it reads when the bundle does not indent it.
pub const PORTUGUESE_OPTION_UNINDENTED: &'static str = "{\n    label: t(\"preferences.general.misc.language.portuguese\"),\n    value: \"pt\"\n  }";

/// The Russian entry of the language drop-down.
pub const RUSSIAN_OPTION: &'static str = "  {\n    label: t(\"preferences.general.misc.language.russian\"),\n    value: \"ru\"\n  }";

/// The Russian entry, not indented.
pub const RUSSIAN_OPTION_UNINDENTED: &'static str = "{\n    label: t(\"preferences.general.misc.language.russian\"),\n    value: \"ru\"\n  }";

/// What separates two entries of the drop-down.
pub const OPTION_SEPARATOR: &'static str = ",\n";

/// The Portuguese label in the embedded English dictionary.
pub const PORTUGUESE_LABEL: &'static str = "\"portuguese\":\"Portugu\u{ea}s\"";

/// The Portuguese label spelled without the accent.
pub const PORTUGUESE_LABEL_PLAIN: &'static str = "\"portuguese\":\"Portugues\"";

/// The Russian label, inserted right after the Portuguese one.
pub const RUSSIAN_LABEL: &'static str = ",\"russian\":\"\u{420}\u{443}\u{441}\u{441}\u{43a}\u{438}\u{439}\"";

/// Error text: the list of supported languages is missing.
pub const LANGUAGES_NOT_FOUND: &'static str = "SUPPORTED_LANGUAGES не найден";

/// Error text: the Portuguese drop-down entry is missing.
pub const PORTUGUESE_OPTION_NOT_FOUND: &'static str = "португальский язык не найден в getLanguageOptions";

/// Error text: the Portuguese dictionary label is missing.
pub const PORTUGUESE_LABEL_NOT_FOUND: &'static str = "португальский не найден во встроенном en.json";

/// What the names of the renderer's bundles start with.
pub const BUNDLE_PREFIX: &'static str = "index-";

/// What the names of the renderer's bundles end with.
pub const BUNDLE_SUFFIX: &'static str = ".js";

/// The function whose presence marks the bundle with the language drop-down.
pub const LANGUAGE_OPTIONS_MARK: &'static str = "getLanguageOptions";

/// Error text: no renderer bundle has the language drop-down.
pub const RENDERER_NOT_FOUND: &'static str = "не найден файл рендерера с getLanguageOptions";

/// How one edit of a patch went.
#[derive(Clone, Copy, Debug, PartialEq, Eq, Structural)]
pub enum Edit {
    /// The text was there already; nothing was changed.
    AlreadyPresent,
    /// The text was added.
    Added,
    /// The text was added next to the Portuguese label spelled without accent.
    AddedPlain,
}

// ----------------------------------------------------------------------
// Specifications
// ----------------------------------------------------------------------

/// The main-process patch: the bundle unchanged when its language list
/// already has Russian; every occurrence of the old list replaced by the new
/// one when it has the old list; `None` when it has neither.
pub open spec fn main_js_result(c: Seq<char>) -> Option<(Seq<char>, Edit)> {
    if contains(c, LANGUAGES_WITH_RU@) {
        Some((c, Edit::AlreadyPresent))
    } else if contains(c, LANGUAGES@) {
        Some((replace_all(c, LANGUAGES@, LANGUAGES_WITH_RU@), Edit::Added))
    } else {
        None
    }
}

/// The drop-down edit: nothing when the Russian entry is there; otherwise
/// the Russian entry and a separator put in front of the first Portuguese
/// entry, the indented form looked for before the unindented one; `None`
/// when there is no Portuguese entry.
pub open spec fn dropdown_result(c: Seq<char>) -> Option<(Seq<char>, Edit)> {
    if contains(c, RUSSIAN_OPTION@) {
        Some((c, Edit::AlreadyPresent))
    } else if contains(c, PORTUGUESE_OPTION@) {
        Some(
            (
                replace_first(
                    c,
                    PORTUGUESE_OPTION@,
                    RUSSIAN_OPTION@ + OPTION_SEPARATOR@ + PORTUGUESE_OPTION@,
                ),
                Edit::Added,
            ),
        )
    } else if contains(c, PORTUGUESE_OPTION_UNINDENTED@) {
        Some(
            (
                replace_first(
                    c,
                    PORTUGUESE_OPTION_UNINDENTED@,
                    RUSSIAN_OPTION_UNINDENTED@ + OPTION_SEPARATOR@ + PORTUGUESE_OPTION_UNINDENTED@,
                ),
                Edit::Added,
            ),
        )
    } else {
        None
    }
}

/// The dictionary edit: nothing when the Russian label is there; otherwise
/// the Russian label inserted right after the first Portuguese label (the
/// accented spelling looked for first); `None` when there is no Portuguese
/// label.
pub open spec fn label_result(c: Seq<char>) -> Option<(Seq<char>, Edit)> {
    if contains(c, RUSSIAN_LABEL@) {
        Some((c, Edit::AlreadyPresent))
    } else if let Some(pos) = find(c, PORTUGUESE_LABEL@) {
        Some((insert_at(c, pos + PORTUGUESE_LABEL@.len(), RUSSIAN_LABEL@), Edit::Added))
    } else if let Some(pos) = find(c, PORTUGUESE_LABEL_PLAIN@) {
        Some((insert_at(c, pos + PORTUGUESE_LABEL_PLAIN@.len(), RUSSIAN_LABEL@), Edit::AddedPlain))
    } else {
        None
    }
}

/// The renderer patch: the drop-down edit, then the dictionary edit on its
/// result.
pub open spec fn renderer_js_result(c: Seq<char>) -> Option<(Seq<char>, Edit, Edit)> {
    match dropdown_result(c) {
        None => None,
        Some((c1, e1)) => match label_result(c1) {
            None => None,
            Some((c2, e2)) => Some((c2, e1, e2)),
        },
    }
}

/// `e` is the `PatchFailed` error with text `msg`.
pub open spec fn is_patch_failure(e: Error, msg: Seq<char>) -> bool {
    e matches Error::PatchFailed(m) && m@ == msg
}

// ----------------------------------------------------------------------
// Executable patches
// ----------------------------------------------------------------------

/// Adds `"ru"` to the list of supported languages of the main-process
/// bundle, and says whether it was there already.
pub fn patch_main_js_edit(content: &str) -> (res: Result<(String, Edit), Error>)
    ensures
        match res {
            Ok((s, e)) => main_js_result(content@) == Some((s@, e)),
            Err(e) => main_js_result(content@) is None && is_patch_failure(e, LANGUAGES_NOT_FOUND@),
        },
{
    let c = chars_of(content);
    let with_ru = chars_of(LANGUAGES_WITH_RU);
    if contains_exec(&c, &with_ru) {
        return Ok((content.to_owned(), Edit::AlreadyPresent));
    }
    let old = chars_of(LANGUAGES);
    if !contains_exec(&c, &old) {
        return Err(Error::PatchFailed(LANGUAGES_NOT_FOUND.to_owned()));
    }
    proof {
        reveal_strlit("SUPPORTED_LANGUAGES = [\"en\", \"zh-CN\", \"zh-TW\", \"es\", \"fr\", \"de\", \"ja\", \"ko\", \"pt\"]");
    }
    let patched = replace_all_exec(&c, &old, &with_ru);
    Ok((string_of(&patched), Edit::Added))
}

/// Adds `"ru"` to the list of supported languages of the main-process
/// bundle.
pub fn patch_main_js(content: &str) -> (res: Result<String, Error>)
    ensures
        match res {
            Ok(s) => main_js_result(content@) matches Some((t, _)) && s@ == t,
            Err(e) => main_js_result(content@) is None && is_patch_failure(e, LANGUAGES_NOT_FOUND@),
        },
{
    match patch_main_js_edit(content) {
        Ok((s, _)) => Ok(s),
        Err(e) => Err(e),
    }
}

/// The drop-down edit on characters.
fn dropdown_edit(c: Vec<char>) -> (res: Option<(Vec<char>, Edit)>)
    ensures
        match res {
            Some((d, e)) => dropdown_result(c@) == Some((d@, e)),
            None => dropdown_result(c@) is None,
        },
{
    let ru = chars_of(RUSSIAN_OPTION);
    if contains_exec(&c, &ru) {
        return Some((c, Edit::AlreadyPresent));
    }
    let sep = chars_of(OPTION_SEPARATOR);
    let pt = chars_of(PORTUGUESE_OPTION);
    if contains_exec(&c, &pt) {
        let inserted = concat_exec(&concat_exec(&ru, &sep), &pt);
        return Some((replace_first_exec(&c, &pt, &inserted), Edit::Added));
    }
    let pt_alt = chars_of(PORTUGUESE_OPTION_UNINDENTED);
    if contains_exec(&c, &pt_alt) {
        let ru_alt = chars_of(RUSSIAN_OPTION_UNINDENTED);
        let inserted = concat_exec(&concat_exec(&ru_alt, &sep), &pt_alt);
        return Some((replace_first_exec(&c, &pt_alt, &inserted), Edit::Added));
    }
    None
}

/// The label inserted right after the first occurrence of `key`, if any.
fn insert_after_first(c: &Vec<char>, key: &Vec<char>, label: &Vec<char>) -> (res: Option<Vec<char>>)
    ensures
        match res {
            Some(d) => find(c@, key@) matches Some(pos) && d@ == insert_at(c@, pos + key@.len(), label@),
            None => find(c@, key@) is None,
        },
{
    match find_exec(c, key) {
        Some(pos) => {
            proof {
                lemma_find(c@, key@);
            }
            assert(occurs_at(c@, key@, pos as int));
            let n = c.len();
            assert(pos + key.len() <= n);
            Some(insert_exec(c, pos + key.len(), label))
        },
        None => None,
    }
}

/// The dictionary edit on characters.
fn label_edit(c: Vec<char>) -> (res: Option<(Vec<char>, Edit)>)
    ensures
        match res {
            Some((d, e)) => label_result(c@) == Some((d@, e)),
            None => label_result(c@) is None,
        },
{
    let ru = chars_of(RUSSIAN_LABEL);
    if contains_exec(&c, &ru) {
        return Some((c, Edit::AlreadyPresent));
    }
    let pt = chars_of(PORTUGUESE_LABEL);
    if let Some(d) = insert_after_first(&c, &pt, &ru) {
        return Some((d, Edit::Added));
    }
    let plain = chars_of(PORTUGUESE_LABEL_PLAIN);
    if let Some(d) = insert_after_first(&c, &plain, &ru) {
        return Some((d, Edit::AddedPlain));
    }
    None
}

/// Adds Russian to the language drop-down and to the embedded English
/// dictionary of the renderer bundle, and says how each edit went.
pub fn patch_renderer_js_edits(content: &str) -> (res: Result<(String, Edit, Edit), Error>)
    ensures
        match res {
            Ok((s, e1, e2)) => renderer_js_result(content@) == Some((s@, e1, e2)),
            Err(e) => {
                &&& renderer_js_result(content@) is None
                &&& dropdown_result(content@) is None ==> is_patch_failure(e, PORTUGUESE_OPTION_NOT_FOUND@)
                &&& dropdown_result(content@) is Some ==> is_patch_failure(e, PORTUGUESE_LABEL_NOT_FOUND@)
            },
        },
{
    let c = chars_of(content);
    let (c1, e1) = match dropdown_edit(c) {
        Some(step) => step,
        None => return Err(Error::PatchFailed(PORTUGUESE_OPTION_NOT_FOUND.to_owned())),
    };
    let (c2, e2) = match label_edit(c1) {
        Some(step) => step,
        None => return Err(Error::PatchFailed(PORTUGUESE_LABEL_NOT_FOUND.to_owned())),
    };
    Ok((string_of(&c2), e1, e2))
}

/// Adds Russian to the language drop-down and to the embedded English
/// dictionary of the renderer bundle.
pub fn patch_renderer_js(content: &str) -> (res: Result<String, Error>)
    ensures
        match res {
            Ok(s) => renderer_js_result(content@) matches Some((t, _, _)) && s@ == t,
            Err(e) => {
                &&& renderer_js_result(content@) is None
                &&& dropdown_result(content@) is None ==> is_patch_failure(e, PORTUGUESE_OPTION_NOT_FOUND@)
                &&& dropdown_result(content@) is Some ==> is_patch_failure(e, PORTUGUESE_LABEL_NOT_FOUND@)
            },
        },
{
    match patch_renderer_js_edits(content) {
        Ok((s, _, _)) => Ok(s),
        Err(e) => Err(e),
    }
}

/// Whether a file of the renderer's assets is a bundle worth opening: its
/// name starts with `index-` and ends with `.js`.
pub fn is_renderer_bundle_name(name: &str) -> (b: bool)
    ensures
        b == (BUNDLE_PREFIX@.is_prefix_of(name@) && BUNDLE_SUFFIX@.is_suffix_of(name@)),
{
    let n = chars_of(name);
    starts_with_exec(&n, &chars_of(BUNDLE_PREFIX)) && ends_with_exec(&n, &chars_of(BUNDLE_SUFFIX))
}

/// Whether a renderer bundle is the one with the language drop-down.
pub fn has_language_options(content: &str) -> (b: bool)
    ensures
        b == contains(content@, LANGUAGE_OPTIONS_MARK@),
{
    contains_exec(&chars_of(content), &chars_of(LANGUAGE_OPTIONS_MARK))
}

// ----------------------------------------------------------------------
// Laws
// ----------------------------------------------------------------------

/// What the laws need to know of the literals.
proof fn lemma_literal_facts()
    ensures
        LANGUAGES@.len() > 0,
        RUSSIAN_OPTION@.len() > 0,
        RUSSIAN_OPTION@[0] == ' ',
        RUSSIAN_OPTION_UNINDENTED@.len() > 0,
        RUSSIAN_OPTION_UNINDENTED@[0] == '{',
        RUSSIAN_OPTION@.len() == RUSSIAN_OPTION_UNINDENTED@.len() + 2,
        RUSSIAN_OPTION@.subrange(2, RUSSIAN_OPTION@.len() as int) == RUSSIAN_OPTION_UNINDENTED@,
        !has_char(PORTUGUESE_LABEL@, ' '),
        !has_char(PORTUGUESE_LABEL@, '{'),
        !has_char(PORTUGUESE_LABEL_PLAIN@, ' '),
        !has_char(PORTUGUESE_LABEL_PLAIN@, '{'),
        !contains(RUSSIAN_OPTION@, PORTUGUESE_LABEL@),
        !contains(RUSSIAN_OPTION@, PORTUGUESE_LABEL_PLAIN@),
        !contains(RUSSIAN_OPTION_UNINDENTED@, PORTUGUESE_LABEL@),
        !contains(RUSSIAN_OPTION_UNINDENTED@, PORTUGUESE_LABEL_PLAIN@),
        PORTUGUESE_OPTION@.len() > 0,
        PORTUGUESE_OPTION@[0] == ' ',
        OPTION_SEPARATOR@ == seq![',', '\n'],
        !has_char(RUSSIAN_LABEL@, ' '),
        !has_char(RUSSIAN_LABEL@, '\n'),
        RUSSIAN_LABEL@.len() > 12,
        RUSSIAN_LABEL@[12] == '\u{420}',
        !has_char(RUSSIAN_OPTION@, '\u{420}'),
{
    reveal_strlit("  {\n    label: t(\"preferences.general.misc.language.portuguese\"),\n    value: \"pt\"\n  }");
    reveal_strlit(",\n");
    reveal_strlit(",\"russian\":\"\u{420}\u{443}\u{441}\u{441}\u{43a}\u{438}\u{439}\"");
    assert(OPTION_SEPARATOR@ =~= seq![',', '\n']);
    reveal_strlit("SUPPORTED_LANGUAGES = [\"en\", \"zh-CN\", \"zh-TW\", \"es\", \"fr\", \"de\", \"ja\", \"ko\", \"pt\"]");
    reveal_strlit("  {\n    label: t(\"preferences.general.misc.language.russian\"),\n    value: \"ru\"\n  }");
    reveal_strlit("{\n    label: t(\"preferences.general.misc.language.russian\"),\n    value: \"ru\"\n  }");
    reveal_strlit("\"portuguese\":\"Portugu\u{ea}s\"");
    reveal_strlit("\"portuguese\":\"Portugues\"");
    assert(RUSSIAN_OPTION@.subrange(2, RUSSIAN_OPTION@.len() as int) =~= RUSSIAN_OPTION_UNINDENTED@);
    assert(PORTUGUESE_LABEL@[14] == 'P');
    assert(PORTUGUESE_LABEL_PLAIN@[14] == 'P');
    assert(!has_char(RUSSIAN_OPTION@, 'P'));
    assert(!has_char(RUSSIAN_OPTION_UNINDENTED@, 'P'));
    lemma_missing_char(RUSSIAN_OPTION@, PORTUGUESE_LABEL@, 14);
    lemma_missing_char(RUSSIAN_OPTION@, PORTUGUESE_LABEL_PLAIN@, 14);
    lemma_missing_char(RUSSIAN_OPTION_UNINDENTED@, PORTUGUESE_LABEL@, 14);
    lemma_missing_char(RUSSIAN_OPTION_UNINDENTED@, PORTUGUESE_LABEL_PLAIN@, 14);
}

/// The indented Russian entry contains the unindented one.
proof fn lemma_indented_contains_unindented(c: Seq<char>)
    requires
        contains(c, RUSSIAN_OPTION@),
    ensures
        contains(c, RUSSIAN_OPTION_UNINDENTED@),
{
    lemma_literal_facts();
    let j = choose|j: int| occurs_at(c, RUSSIAN_OPTION@, j);
    let n = RUSSIAN_OPTION@.len() as int;
    assert(c.subrange(j + 2, j + n) =~= c.subrange(j, j + n).subrange(2, n));
    assert(occurs_at(c, RUSSIAN_OPTION_UNINDENTED@, j + 2));
}

/// The dictionary edit keeps every occurrence of a pattern `q` that does not
/// hold a Portuguese label and does not start with a character of one.
proof fn lemma_label_keeps(c: Seq<char>, q: Seq<char>)
    requires
        q.len() > 0,
        !contains(q, PORTUGUESE_LABEL@),
        !contains(q, PORTUGUESE_LABEL_PLAIN@),
        !has_char(PORTUGUESE_LABEL@, q[0]),
        !has_char(PORTUGUESE_LABEL_PLAIN@, q[0]),
        contains(c, q),
    ensures
        label_result(c) matches Some((d, _)) ==> contains(d, q),
{
    let j = choose|j: int| occurs_at(c, q, j);
    if !contains(c, RUSSIAN_LABEL@) {
        lemma_find(c, PORTUGUESE_LABEL@);
        lemma_find(c, PORTUGUESE_LABEL_PLAIN@);
        if let Some(pos) = find(c, PORTUGUESE_LABEL@) {
            lemma_insert_after_keeps(c, pos, RUSSIAN_LABEL@, PORTUGUESE_LABEL@, q, j);
        } else if let Some(pos) = find(c, PORTUGUESE_LABEL_PLAIN@) {
            lemma_insert_after_keeps(c, pos, RUSSIAN_LABEL@, PORTUGUESE_LABEL_PLAIN@, q, j);
        }
    }
}

/// After the dictionary edit the Russian label is there.
proof fn lemma_label_adds_label(c: Seq<char>)
    ensures
        label_result(c) matches Some((d, _)) ==> contains(d, RUSSIAN_LABEL@),
{
    if !contains(c, RUSSIAN_LABEL@) {
        lemma_find(c, PORTUGUESE_LABEL@);
        lemma_find(c, PORTUGUESE_LABEL_PLAIN@);
        if let Some(pos) = find(c, PORTUGUESE_LABEL@) {
            assert(occurs_at(c, PORTUGUESE_LABEL@, pos));
            lemma_insert_at_occurs(c, pos + PORTUGUESE_LABEL@.len(), RUSSIAN_LABEL@);
        } else if let Some(pos) = find(c, PORTUGUESE_LABEL_PLAIN@) {
            assert(occurs_at(c, PORTUGUESE_LABEL_PLAIN@, pos));
            lemma_insert_at_occurs(c, pos + PORTUGUESE_LABEL_PLAIN@.len(), RUSSIAN_LABEL@);
        }
    }
}

/// After the drop-down edit the (unindented) Russian entry is there; when
/// the bundle had the Russian or the indented Portuguese entry, the indented
/// Russian entry is there.
proof fn lemma_dropdown_adds_option(c: Seq<char>)
    ensures
        dropdown_result(c) matches Some((d, _)) ==> contains(d, RUSSIAN_OPTION_UNINDENTED@),
        (contains(c, RUSSIAN_OPTION@) || contains(c, PORTUGUESE_OPTION@)) ==> (
        dropdown_result(c) matches Some((d, _)) && contains(d, RUSSIAN_OPTION@)),
{
    let sep = OPTION_SEPARATOR@;
    if contains(c, RUSSIAN_OPTION@) {
        lemma_indented_contains_unindented(c);
    } else if contains(c, PORTUGUESE_OPTION@) {
        let x = RUSSIAN_OPTION@ + sep;
        lemma_replace_first_prepend(c, PORTUGUESE_OPTION@, x);
        assert(x + PORTUGUESE_OPTION@ == RUSSIAN_OPTION@ + sep + PORTUGUESE_OPTION@);
        let (d, _) = dropdown_result(c)->0;
        let i = find(c, PORTUGUESE_OPTION@)->0;
        assert(occurs_at(d, x, i));
        assert(x.subrange(0, RUSSIAN_OPTION@.len() as int) =~= RUSSIAN_OPTION@);
        assert(d.subrange(i, i + RUSSIAN_OPTION@.len()) =~= d.subrange(i, i + x.len()).subrange(0, RUSSIAN_OPTION@.len() as int));
        assert(occurs_at(d, RUSSIAN_OPTION@, i));
        lemma_indented_contains_unindented(d);
    } else if contains(c, PORTUGUESE_OPTION_UNINDENTED@) {
        let x = RUSSIAN_OPTION_UNINDENTED@ + sep;
        lemma_replace_first_prepend(c, PORTUGUESE_OPTION_UNINDENTED@, x);
        assert(x + PORTUGUESE_OPTION_UNINDENTED@ == RUSSIAN_OPTION_UNINDENTED@ + sep + PORTUGUESE_OPTION_UNINDENTED@);
        let (d, _) = dropdown_result(c)->0;
        let i = find(c, PORTUGUESE_OPTION_UNINDENTED@)->0;
        assert(occurs_at(d, x, i));
        assert(x.subrange(0, RUSSIAN_OPTION_UNINDENTED@.len() as int) =~= RUSSIAN_OPTION_UNINDENTED@);
        assert(d.subrange(i, i + RUSSIAN_OPTION_UNINDENTED@.len()) =~= d.subrange(i, i + x.len()).subrange(0, RUSSIAN_OPTION_UNINDENTED@.len() as int));
        assert(occurs_at(d, RUSSIAN_OPTION_UNINDENTED@, i));
    }
}

/// After a successful main-process patch, the language list with Russian is
/// in the bundle.
pub proof fn law_main_js_lists_russian(c: Seq<char>)
    ensures
        main_js_result(c) matches Some((r, _)) ==> contains(r, LANGUAGES_WITH_RU@),
{
    if !contains(c, LANGUAGES_WITH_RU@) && contains(c, LANGUAGES@) {
        lemma_literal_facts();
        lemma_replace_all_contains(c, LANGUAGES@, LANGUAGES_WITH_RU@);
    }
}

/// Patching the main-process bundle a second time finds Russian already
/// listed and changes nothing.
pub proof fn law_main_js_idempotent(c: Seq<char>)
    ensures
        main_js_result(c) matches Some((r, _)) ==> main_js_result(r) == Some((r, Edit::AlreadyPresent)),
{
    law_main_js_lists_russian(c);
}

/// After a successful renderer patch, the drop-down has a Russian entry and
/// the dictionary has the Russian label.
pub proof fn law_renderer_js_offers_russian(c: Seq<char>)
    ensures
        renderer_js_result(c) matches Some((r, _, _)) ==> contains(r, RUSSIAN_OPTION_UNINDENTED@)
            && contains(r, RUSSIAN_LABEL@),
{
    lemma_literal_facts();
    lemma_dropdown_adds_option(c);
    if let Some((d, _)) = dropdown_result(c) {
        lemma_label_keeps(d, RUSSIAN_OPTION_UNINDENTED@);
        lemma_label_adds_label(d);
    }
}

/// Patching a renderer bundle whose drop-down had the Russian entry or the
/// indented Portuguese entry a second time changes nothing: both edits find
/// their text already present.
pub proof fn law_renderer_js_idempotent(c: Seq<char>)
    requires
        contains(c, RUSSIAN_OPTION@) || contains(c, PORTUGUESE_OPTION@),
    ensures
        renderer_js_result(c) matches Some((r, _, _)) ==> renderer_js_result(r) == Some(
            (r, Edit::AlreadyPresent, Edit::AlreadyPresent),
        ),
{
    lemma_literal_facts();
    lemma_dropdown_adds_option(c);
    if let Some((d, _)) = dropdown_result(c) {
        lemma_label_keeps(d, RUSSIAN_OPTION@);
        lemma_label_adds_label(d);
    }
}

/// The main-process patch leaves a bundle whose language list already has
/// Russian unchanged; otherwise it replaces every occurrence of the old list,
/// wherever it stands in the bundle; it fails exactly when neither list
/// occurs anywhere.
pub proof fn law_main_js_edits(c: Seq<char>)
    ensures
        contains(c, LANGUAGES_WITH_RU@) ==> main_js_result(c) == Some((c, Edit::AlreadyPresent)),
        !contains(c, LANGUAGES_WITH_RU@) && contains(c, LANGUAGES@) ==> main_js_result(c) == Some(
            (replace_all(c, LANGUAGES@, LANGUAGES_WITH_RU@), Edit::Added),
        ),
        main_js_result(c) is None <==> (!contains(c, LANGUAGES_WITH_RU@) && !contains(c, LANGUAGES@)),
{
}

/// The drop-down edit: with the Russian entry present nothing changes; else
/// the Russian entry and a separator go right in front of the first
/// indented Portuguese entry of the whole text, or, when there is none, in
/// front of the first unindented one; it fails exactly when there is no
/// Portuguese entry at all.
pub proof fn law_dropdown_edit(c: Seq<char>)
    ensures
        contains(c, RUSSIAN_OPTION@) ==> dropdown_result(c) == Some((c, Edit::AlreadyPresent)),
        !contains(c, RUSSIAN_OPTION@) && contains(c, PORTUGUESE_OPTION@) ==> exists|i: int|
            is_first_occurrence(c, PORTUGUESE_OPTION@, i) && dropdown_result(c) == Some(
                (insert_at(c, i, RUSSIAN_OPTION@ + OPTION_SEPARATOR@), Edit::Added),
            ),
        !contains(c, RUSSIAN_OPTION@) && !contains(c, PORTUGUESE_OPTION@) && contains(
            c,
            PORTUGUESE_OPTION_UNINDENTED@,
        ) ==> exists|i: int|
            is_first_occurrence(c, PORTUGUESE_OPTION_UNINDENTED@, i) && dropdown_result(c) == Some(
                (insert_at(c, i, RUSSIAN_OPTION_UNINDENTED@ + OPTION_SEPARATOR@), Edit::Added),
            ),
        dropdown_result(c) is None <==> (!contains(c, RUSSIAN_OPTION@) && !contains(
            c,
            PORTUGUESE_OPTION@,
        ) && !contains(c, PORTUGUESE_OPTION_UNINDENTED@)),
{
    let sep = OPTION_SEPARATOR@;
    if !contains(c, RUSSIAN_OPTION@) && contains(c, PORTUGUESE_OPTION@) {
        let x = RUSSIAN_OPTION@ + sep;
        lemma_replace_first_prepend(c, PORTUGUESE_OPTION@, x);
        lemma_find(c, PORTUGUESE_OPTION@);
        assert(x + PORTUGUESE_OPTION@ == RUSSIAN_OPTION@ + sep + PORTUGUESE_OPTION@);
        let i = find(c, PORTUGUESE_OPTION@)->0;
        assert(is_first_occurrence(c, PORTUGUESE_OPTION@, i));
    }
    if !contains(c, RUSSIAN_OPTION@) && !contains(c, PORTUGUESE_OPTION@) && contains(
        c,
        PORTUGUESE_OPTION_UNINDENTED@,
    ) {
        let x = RUSSIAN_OPTION_UNINDENTED@ + sep;
        lemma_replace_first_prepend(c, PORTUGUESE_OPTION_UNINDENTED@, x);
        lemma_find(c, PORTUGUESE_OPTION_UNINDENTED@);
        assert(x + PORTUGUESE_OPTION_UNINDENTED@ == RUSSIAN_OPTION_UNINDENTED@ + sep
            + PORTUGUESE_OPTION_UNINDENTED@);
        let i = find(c, PORTUGUESE_OPTION_UNINDENTED@)->0;
        assert(is_first_occurrence(c, PORTUGUESE_OPTION_UNINDENTED@, i));
    }
}

/// The dictionary edit: with the Russian label present nothing changes;
/// else the Russian label goes right after the first accented Portuguese
/// label of the whole text, or, when there is none, right after the first
/// unaccented one; it fails exactly when there is no Portuguese label at all.
pub proof fn law_label_edit(c: Seq<char>)
    ensures
        contains(c, RUSSIAN_LABEL@) ==> label_result(c) == Some((c, Edit::AlreadyPresent)),
        !contains(c, RUSSIAN_LABEL@) && contains(c, PORTUGUESE_LABEL@) ==> exists|i: int|
            is_first_occurrence(c, PORTUGUESE_LABEL@, i) && label_result(c) == Some(
                (insert_at(c, i + PORTUGUESE_LABEL@.len(), RUSSIAN_LABEL@), Edit::Added),
            ),
        !contains(c, RUSSIAN_LABEL@) && !contains(c, PORTUGUESE_LABEL@) && contains(
            c,
            PORTUGUESE_LABEL_PLAIN@,
        ) ==> exists|i: int|
            is_first_occurrence(c, PORTUGUESE_LABEL_PLAIN@, i) && label_result(c) == Some(
                (insert_at(c, i + PORTUGUESE_LABEL_PLAIN@.len(), RUSSIAN_LABEL@), Edit::AddedPlain),
            ),
        label_result(c) is None <==> (!contains(c, RUSSIAN_LABEL@) && !contains(
            c,
            PORTUGUESE_LABEL@,
        ) && !contains(c, PORTUGUESE_LABEL_PLAIN@)),
{
    lemma_find(c, PORTUGUESE_LABEL@);
    lemma_find(c, PORTUGUESE_LABEL_PLAIN@);
    if let Some(i) = find(c, PORTUGUESE_LABEL@) {
        assert(is_first_occurrence(c, PORTUGUESE_LABEL@, i));
    }
    if let Some(i) = find(c, PORTUGUESE_LABEL_PLAIN@) {
        assert(is_first_occurrence(c, PORTUGUESE_LABEL_PLAIN@, i));
    }
}

/// On a bundle with the indented Portuguese entry and the accented
/// Portuguese label but no Russian entry or label, the renderer patch puts
/// the Russian entry in front of the first Portuguese entry and then the
/// Russian label right after the first Portuguese label of that text,
/// wherever the dictionary stands relative to the drop-down.
pub proof fn law_renderer_js_edits(c: Seq<char>)
    requires
        !contains(c, RUSSIAN_OPTION@),
        contains(c, PORTUGUESE_OPTION@),
        !contains(c, RUSSIAN_LABEL@),
        contains(c, PORTUGUESE_LABEL@),
    ensures
        exists|i: int, j: int|
            #![trigger is_first_occurrence(c, PORTUGUESE_OPTION@, i), is_first_occurrence(insert_at(c, i, RUSSIAN_OPTION@ + OPTION_SEPARATOR@), PORTUGUESE_LABEL@, j)]
            is_first_occurrence(c, PORTUGUESE_OPTION@, i) && is_first_occurrence(
                insert_at(c, i, RUSSIAN_OPTION@ + OPTION_SEPARATOR@),
                PORTUGUESE_LABEL@,
                j,
            ) && renderer_js_result(c) == Some(
                (
                    insert_at(
                        insert_at(c, i, RUSSIAN_OPTION@ + OPTION_SEPARATOR@),
                        j + PORTUGUESE_LABEL@.len(),
                        RUSSIAN_LABEL@,
                    ),
                    Edit::Added,
                    Edit::Added,
                ),
            ),
{
    law_dropdown_edit(c);
    let i = choose|i: int|
        is_first_occurrence(c, PORTUGUESE_OPTION@, i) && dropdown_result(c) == Some(
            (insert_at(c, i, RUSSIAN_OPTION@ + OPTION_SEPARATOR@), Edit::Added),
        );
    let c1 = insert_at(c, i, RUSSIAN_OPTION@ + OPTION_SEPARATOR@);
    // the insertion keeps the Portuguese label and adds no Russian label
    let k = choose|k: int| occurs_at(c, PORTUGUESE_LABEL@, k);
    lemma_literal_facts();
    let x = RUSSIAN_OPTION@ + OPTION_SEPARATOR@;
    lemma_insert_before_keeps(c, i, x, PORTUGUESE_OPTION@, PORTUGUESE_LABEL@, k);
    assert(x[0] == ' ');
    assert(x[x.len() - 1] == '\n');
    assert(!has_char(x, RUSSIAN_LABEL@[12])) by {
        if has_char(x, RUSSIAN_LABEL@[12]) {
            let t = choose|t: int| 0 <= t < x.len() && #[trigger] x[t] == RUSSIAN_LABEL@[12];
            if t < RUSSIAN_OPTION@.len() {
                assert(RUSSIAN_OPTION@[t] == x[t]);
            }
        }
    }
    lemma_insert_adds_no(c, i, x, RUSSIAN_LABEL@, 12);
    law_label_edit(c1);
    let j = choose|j: int|
        is_first_occurrence(c1, PORTUGUESE_LABEL@, j) && label_result(c1) == Some(
            (insert_at(c1, j + PORTUGUESE_LABEL@.len(), RUSSIAN_LABEL@), Edit::Added),
        );
    assert(is_first_occurrence(c, PORTUGUESE_OPTION@, i) && is_first_occurrence(c1, PORTUGUESE_LABEL@, j));
}

} // verus!
