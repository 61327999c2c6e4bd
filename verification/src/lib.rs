//! Installs the Russian localization into a MarkText desktop installation:
//! the text edits applied to MarkText's JavaScript bundles, the locale file
//! preparation, the layout of an installation on disk and the command lines
//! used to unpack and repack `app.asar`, each with its specification.
use vstd::prelude::*;
use vstd::string::StringExecFns;

pub mod text;
pub mod patch;
pub mod locale;
pub mod json;
pub mod paths;
pub mod asar;
pub mod workflow;

verus! {

/// `std::io::Error`, carried through the library without being inspected.
#[verifier::external_type_specification]
#[verifier::external_body]
pub struct ExIoError(std::io::Error);

/// What can go wrong while patching or rolling back an installation.
#[derive(Debug)]
pub enum Error {
    /// No MarkText installation was found; the text says where it was looked for.
    MarkTextNotFound(String),
    /// `npx` (Node.js) is not on the `PATH`.
    NpxNotFound,
    /// Unpacking or repacking `app.asar` failed.
    AsarFailed(String),
    /// A JavaScript bundle does not have the shape the patch expects.
    PatchFailed(String),
    /// Reading or writing a file failed.
    Io(std::io::Error),
    /// The locale file is not UTF-8 JSON.
    InvalidJson(String),
}

/// The result type of the library's fallible operations.
pub type Result<T> = std::result::Result<T, Error>;

/// Prefix of the message of `Error::MarkTextNotFound`.
pub const NOT_FOUND_PREFIX: &'static str = "MarkText не найден по пути: ";

/// The message of `Error::NpxNotFound`.
pub const NPX_NOT_FOUND: &'static str = "Node.js (npx) не найден в PATH. Установите Node.js: https://nodejs.org";

/// Prefix of the message of `Error::AsarFailed`.
pub const ASAR_PREFIX: &'static str = "Ошибка asar: ";

/// Prefix of the message of `Error::PatchFailed`.
pub const PATCH_PREFIX: &'static str = "Ошибка патча: ";

/// Prefix of the message of `Error::Io`.
pub const IO_PREFIX: &'static str = "Ошибка ввода/вывода: ";

/// Prefix of the message of `Error::InvalidJson`.
pub const JSON_PREFIX: &'static str = "Ошибка JSON: ";

/// `Display` of `std::io::Error`: its description. Nothing is claimed of
/// the text, which for an operating-system error comes from the system.
#[verifier::external_body]
fn io_error_text(e: &std::io::Error) -> String {
    format!("{}", e)
}

/// `prefix` followed by `detail`.
fn prefixed(prefix: &str, detail: &str) -> (m: String)
    ensures
        m@ == prefix@ + detail@,
{
    let mut m = prefix.to_owned();
    m.append(detail);
    m
}

impl Error {
    /// The message shown to the user for this error.
    pub fn message(&self) -> (m: String)
        ensures
            match self {
                Error::MarkTextNotFound(p) => m@ == NOT_FOUND_PREFIX@ + p@,
                Error::NpxNotFound => m@ == NPX_NOT_FOUND@,
                Error::AsarFailed(msg) => m@ == ASAR_PREFIX@ + msg@,
                Error::PatchFailed(msg) => m@ == PATCH_PREFIX@ + msg@,
                Error::Io(_) => IO_PREFIX@.is_prefix_of(m@),
                Error::InvalidJson(msg) => m@ == JSON_PREFIX@ + msg@,
            },
    {
        match self {
            Error::MarkTextNotFound(p) => prefixed(NOT_FOUND_PREFIX, p.as_str()),
            Error::NpxNotFound => NPX_NOT_FOUND.to_owned(),
            Error::AsarFailed(msg) => prefixed(ASAR_PREFIX, msg.as_str()),
            Error::PatchFailed(msg) => prefixed(PATCH_PREFIX, msg.as_str()),
            Error::Io(e) => {
                let detail = io_error_text(e);
                let m = prefixed(IO_PREFIX, detail.as_str());
                assert(m@.subrange(0, IO_PREFIX@.len() as int) =~= IO_PREFIX@);
                m
            },
            Error::InvalidJson(msg) => prefixed(JSON_PREFIX, msg.as_str()),
        }
    }
}

impl From<std::io::Error> for Error {
    /// An I/O failure becomes `Error::Io`.
    fn from(e: std::io::Error) -> (r: Self) {
        Error::Io(e)
    }
}

impl vstd::std_specs::convert::FromSpecImpl<std::io::Error> for Error {
    open spec fn obeys_from_spec() -> bool {
        true
    }

    open spec fn from_spec(e: std::io::Error) -> Self {
        Error::Io(e)
    }
}

} // verus!

pub use asar::{asar_command, asar_outcome, extract_args, npx_probe_command, npx_runs, pack_args};
pub use locale::{minify_json_bytes, strip_bom};
pub use patch::{
    has_language_options, is_renderer_bundle_name, patch_main_js, patch_main_js_edit,
    patch_renderer_js, patch_renderer_js_edits, Edit,
};
pub use paths::{
    first_present, locale_file, main_bundle, renderer_assets, source_json_candidates, FsPath,
    installation_probe, machine_install_dir, user_install_dir, MarkTextPaths, MARKTEXT_DIR_PROGRAM,
};
