//! Where things are in a MarkText installation, in the unpacked `app.asar`
//! and next to the patcher.
//!
//! A path is modelled as the list of its components: the first one is the
//! starting directory as it was given, each next one is joined onto it, as
//! `Path::join` does with a relative name.
use vstd::prelude::*;

use crate::Error;

verus! {

broadcast use vstd::string::group_string_axioms;

/// A filesystem path as the sequence of its components.
#[derive(Debug, PartialEq, Eq)]
pub struct FsPath {
    /// The starting directory followed by the names joined onto it.
    pub parts: Vec<String>,
}

impl View for FsPath {
    type V = Seq<Seq<char>>;

    open spec fn view(&self) -> Seq<Seq<char>> {
        self.parts@.map_values(|p: String| p@)
    }
}

impl FsPath {
    /// The path that starts at `start`.
    pub fn new(start: &str) -> (p: FsPath)
        ensures
            p@ == seq![start@],
    {
        let mut parts: Vec<String> = Vec::new();
        parts.push(start.to_owned());
        let p = FsPath { parts };
        assert(p@ =~= seq![start@]);
        p
    }

    /// This path with `part` joined onto it.
    pub fn join(&self, part: &str) -> (p: FsPath)
        ensures
            p@ == self@.push(part@),
    {
        let mut parts: Vec<String> = Vec::new();
        let mut i: usize = 0;
        while i < self.parts.len()
            invariant
                i <= self.parts.len(),
                parts@.map_values(|p: String| p@) =~= self@.take(i as int),
            decreases self.parts.len() - i,
        {
            let ghost before = parts@;
            let s = self.parts[i].clone();
            assert(s@ == self.parts@[i as int]@);
            parts.push(s);
            assert(parts@ == before.push(s));
            assert(parts@.map_values(|p: String| p@) =~= before.map_values(|p: String| p@).push(s@));
            assert(self@.take(i + 1) =~= self@.take(i as int).push(self@[i as int]));
            assert(parts@.map_values(|p: String| p@) =~= self@.take(i + 1));
            i += 1;
        }
        let ghost before = parts@;
        parts.push(part.to_owned());
        assert(parts@.map_values(|p: String| p@) =~= before.map_values(|p: String| p@).push(part@));
        assert(self@.take(self.parts.len() as int) =~= self@);
        let p = FsPath { parts };
        assert(p@ =~= self@.push(part@));
        p
    }
}

/// Directory under `%LOCALAPPDATA%` that holds per-user programs.
pub const PROGRAMS_DIR: &'static str = "Programs";

/// The name of MarkText's installation directory.
pub const MARKTEXT_DIR_NAME: &'static str = "marktext";

/// The machine-wide installation directory of MarkText.
pub const MARKTEXT_DIR_PROGRAM: &'static str = "C:\\Program Files\\marktext";

/// The executable whose presence marks an installation directory.
pub const MARKTEXT_EXE: &'static str = "marktext.exe";

/// Error text: where an installation was looked for.
pub const SEARCHED_DIRS: &'static str = "проверены: %LOCALAPPDATA%\\Programs\\marktext и C:\\Program Files\\marktext";

/// Directory of the installation that holds `app.asar`.
pub const RESOURCES: &'static str = "resources";

/// The packed application.
pub const APP_ASAR: &'static str = "app.asar";

/// The untouched copy of the packed application.
pub const APP_ASAR_BACKUP: &'static str = "app.asar.backup";

/// Directory under `resources` that holds `locales`.
pub const STATIC_DIR: &'static str = "static";

/// Directory of the locale files.
pub const LOCALES_DIR: &'static str = "locales";

/// The locale file as MarkText loads it.
pub const LOCALE_FILE: &'static str = "ru.min.json";

/// The full locale file shipped next to the patcher.
pub const SOURCE_JSON: &'static str = "ru.json";

/// The parent directory.
pub const PARENT_DIR: &'static str = "..";

/// Directory of the build output inside the unpacked `app.asar`.
pub const OUT_DIR: &'static str = "out";

/// Directory of the main-process build.
pub const MAIN_DIR: &'static str = "main";

/// The main-process bundle.
pub const INDEX_JS: &'static str = "index.js";

/// Directory of the renderer build.
pub const RENDERER_DIR: &'static str = "renderer";

/// Directory of the renderer's bundles.
pub const ASSETS_DIR: &'static str = "assets";

/// The files of a MarkText installation that the patcher touches.
#[derive(Debug)]
pub struct MarkTextPaths {
    /// The installation directory.
    pub root: FsPath,
    /// The packed application.
    pub asar: FsPath,
    /// Where the untouched copy of the packed application is kept.
    pub asar_backup: FsPath,
    /// The directory of locale files.
    pub locales_dir: FsPath,
}

/// `p` is the layout of an installation rooted at `root`.
pub open spec fn is_layout(p: MarkTextPaths, root: Seq<Seq<char>>) -> bool {
    &&& p.root@ == root
    &&& p.asar@ == root + seq![RESOURCES@, APP_ASAR@]
    &&& p.asar_backup@ == root + seq![RESOURCES@, APP_ASAR_BACKUP@]
    &&& p.locales_dir@ == root + seq![RESOURCES@, STATIC_DIR@, LOCALES_DIR@]
}

impl MarkTextPaths {
    /// The layout of the installation in `root`.
    pub fn from_root(root: FsPath) -> (p: Self)
        ensures
            is_layout(p, root@),
            p.root@ == root@,
            p.asar@ == root@ + seq![RESOURCES@, APP_ASAR@],
            p.asar_backup@ == root@ + seq![RESOURCES@, APP_ASAR_BACKUP@],
            p.locales_dir@ == root@ + seq![RESOURCES@, STATIC_DIR@, LOCALES_DIR@],
    {
        let resources = root.join(RESOURCES);
        let asar = resources.join(APP_ASAR);
        let asar_backup = resources.join(APP_ASAR_BACKUP);
        let locales_dir = resources.join(STATIC_DIR).join(LOCALES_DIR);
        assert(asar@ =~= root@ + seq![RESOURCES@, APP_ASAR@]);
        assert(asar_backup@ =~= root@ + seq![RESOURCES@, APP_ASAR_BACKUP@]);
        assert(locales_dir@ =~= root@ + seq![RESOURCES@, STATIC_DIR@, LOCALES_DIR@]);
        MarkTextPaths { root, asar, asar_backup, locales_dir }
    }
}

/// Every path of an installation's layout lies inside its root, whatever
/// the root: `app.asar` and its backup sit side by side in `resources`, and
/// the locale directory is `resources/static/locales` under the root.
pub proof fn law_layout_under_root(p: MarkTextPaths, root: Seq<Seq<char>>)
    requires
        is_layout(p, root),
    ensures
        p.root@ == root,
        root.is_prefix_of(p.asar@),
        root.is_prefix_of(p.asar_backup@),
        root.is_prefix_of(p.locales_dir@),
        p.asar@.skip(root.len() as int) == seq![RESOURCES@, APP_ASAR@],
        p.asar_backup@.skip(root.len() as int) == seq![RESOURCES@, APP_ASAR_BACKUP@],
        p.locales_dir@.skip(root.len() as int) == seq![RESOURCES@, STATIC_DIR@, LOCALES_DIR@],
        p.asar@.drop_last() == p.asar_backup@.drop_last(),
{
    let a = root + seq![RESOURCES@, APP_ASAR@];
    let b = root + seq![RESOURCES@, APP_ASAR_BACKUP@];
    let l = root + seq![RESOURCES@, STATIC_DIR@, LOCALES_DIR@];
    assert(a.subrange(0, root.len() as int) =~= root);
    assert(b.subrange(0, root.len() as int) =~= root);
    assert(l.subrange(0, root.len() as int) =~= root);
    assert(a.skip(root.len() as int) =~= seq![RESOURCES@, APP_ASAR@]);
    assert(b.skip(root.len() as int) =~= seq![RESOURCES@, APP_ASAR_BACKUP@]);
    assert(l.skip(root.len() as int) =~= seq![RESOURCES@, STATIC_DIR@, LOCALES_DIR@]);
    assert(a.drop_last() =~= b.drop_last());
}

/// The per-user installation directory of MarkText,
/// `%LOCALAPPDATA%\Programs\marktext`, for the given `%LOCALAPPDATA%`.
pub fn user_install_dir(local_app_data: &str) -> (p: FsPath)
    ensures
        p@ == seq![local_app_data@, PROGRAMS_DIR@, MARKTEXT_DIR_NAME@],
{
    let p = FsPath::new(local_app_data).join(PROGRAMS_DIR).join(MARKTEXT_DIR_NAME);
    assert(p@ =~= seq![local_app_data@, PROGRAMS_DIR@, MARKTEXT_DIR_NAME@]);
    p
}

/// The machine-wide installation directory of MarkText.
pub fn machine_install_dir() -> (p: FsPath)
    ensures
        p@ == seq![MARKTEXT_DIR_PROGRAM@],
{
    FsPath::new(MARKTEXT_DIR_PROGRAM)
}

/// The file whose presence marks `dir` as an installation directory.
pub fn installation_probe(dir: &FsPath) -> (p: FsPath)
    ensures
        p@ == dir@.push(MARKTEXT_EXE@),
{
    dir.join(MARKTEXT_EXE)
}

impl MarkTextPaths {
    /// The installation to patch: the per-user one when `%LOCALAPPDATA%` is
    /// known and its probe exists, else the machine-wide one when its probe
    /// exists (`installation_probe` of `user_install_dir` and of
    /// `machine_install_dir`).
    pub fn detect(local_app_data: Option<&str>, user_installed: bool, machine_installed: bool) -> (res: Result<Self, Error>)
        ensures
            match local_app_data {
                Some(d) if user_installed => res matches Ok(p) && is_layout(p, seq![d@, PROGRAMS_DIR@, MARKTEXT_DIR_NAME@])
                    && p.locales_dir@ == seq![d@, PROGRAMS_DIR@, MARKTEXT_DIR_NAME@, RESOURCES@, STATIC_DIR@, LOCALES_DIR@]
                    && p.asar@ == seq![d@, PROGRAMS_DIR@, MARKTEXT_DIR_NAME@, RESOURCES@, APP_ASAR@],
                _ => {
                    &&& machine_installed ==> (res matches Ok(p) && is_layout(p, seq![MARKTEXT_DIR_PROGRAM@]))
                    &&& !machine_installed ==> (res matches Err(Error::MarkTextNotFound(m)) && m@ == SEARCHED_DIRS@)
                },
            },
    {
        if let Some(d) = local_app_data {
            if user_installed {
                return Ok(MarkTextPaths::from_root(user_install_dir(d)));
            }
        }
        if machine_installed {
            Ok(MarkTextPaths::from_root(machine_install_dir()))
        } else {
            Err(Error::MarkTextNotFound(SEARCHED_DIRS.to_owned()))
        }
    }
}

/// Where the locale file may lie relative to the patcher's directory,
/// in the order in which they are tried: the full file next to it and one
/// level up, then the compact file next to it and one level up.
pub fn source_json_candidates(exe_dir: &FsPath) -> (v: Vec<FsPath>)
    ensures
        v.len() == 4,
        v[0]@ == exe_dir@.push(SOURCE_JSON@),
        v[1]@ == exe_dir@.push(PARENT_DIR@).push(SOURCE_JSON@),
        v[2]@ == exe_dir@.push(LOCALE_FILE@),
        v[3]@ == exe_dir@.push(PARENT_DIR@).push(LOCALE_FILE@),
{
    let mut v: Vec<FsPath> = Vec::new();
    v.push(exe_dir.join(SOURCE_JSON));
    v.push(exe_dir.join(PARENT_DIR).join(SOURCE_JSON));
    v.push(exe_dir.join(LOCALE_FILE));
    v.push(exe_dir.join(PARENT_DIR).join(LOCALE_FILE));
    v
}

/// The index of the first candidate that exists.
pub fn first_present(present: &Vec<bool>) -> (r: Option<usize>)
    ensures
        match r {
            Some(i) => i < present.len() && present[i as int] && forall|j: int|
                0 <= j < i ==> !present[j],
            None => forall|j: int| 0 <= j < present.len() ==> !present[j],
        },
{
    let mut i: usize = 0;
    while i < present.len()
        invariant
            i <= present.len(),
            forall|j: int| 0 <= j < i ==> !present[j],
        decreases present.len() - i,
    {
        if present[i] {
            return Some(i);
        }
        i += 1;
    }
    None
}

/// The locale file inside a directory of locale files.
pub fn locale_file(locales_dir: &FsPath) -> (p: FsPath)
    ensures
        p@ == locales_dir@.push(LOCALE_FILE@),
{
    locales_dir.join(LOCALE_FILE)
}

/// The main-process bundle inside the unpacked `app.asar`.
pub fn main_bundle(unpacked: &FsPath) -> (p: FsPath)
    ensures
        p@ == unpacked@ + seq![OUT_DIR@, MAIN_DIR@, INDEX_JS@],
{
    let p = unpacked.join(OUT_DIR).join(MAIN_DIR).join(INDEX_JS);
    assert(p@ =~= unpacked@ + seq![OUT_DIR@, MAIN_DIR@, INDEX_JS@]);
    p
}

/// The directory of the renderer's bundles inside the unpacked `app.asar`.
pub fn renderer_assets(unpacked: &FsPath) -> (p: FsPath)
    ensures
        p@ == unpacked@ + seq![OUT_DIR@, RENDERER_DIR@, ASSETS_DIR@],
{
    let p = unpacked.join(OUT_DIR).join(RENDERER_DIR).join(ASSETS_DIR);
    assert(p@ =~= unpacked@ + seq![OUT_DIR@, RENDERER_DIR@, ASSETS_DIR@]);
    p
}

} // verus!
