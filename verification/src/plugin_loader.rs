//! The decisions of dynamic plugin loading: which files are plugins, which
//! symbols to look for, and what each failure is reported as.
//!
//! A plugin library exports `janus_plugin_abi_version` and
//! `janus_plugin_create`, or per-plugin fallbacks named after its file
//! (`libjanus_plugin_echotest.so` exports `janus_plugin_echotest_create`).
use vstd::prelude::*;
use vstd::string::StrSliceExecFns;
use vstd::string::StringExecFns;
use crate::error::Error;
use crate::plugin_api::PLUGIN_LOADER_ABI_VERSION;
use crate::text::{decimal, is_prefix, str_eq, strip_prefix};

verus! {

/// The stem of the file a path names (its file name without the final
/// extension), as `std::path::Path::file_stem` finds it.
pub uninterp spec fn file_stem_of(path: Seq<char>) -> Option<Seq<char>>;

/// The extension of the file a path names, as
/// `std::path::Path::extension` finds it.
pub uninterp spec fn extension_of(path: Seq<char>) -> Option<Seq<char>>;

/// The file stem of `path`.
///
/// Calls `std::path::Path::file_stem` and converts the result to a
/// `String` (a path made from a `&str` is valid UTF-8, so nothing is lost).
/// The result is a function of the path's text, named `file_stem_of`.
#[verifier::external_body]
fn path_file_stem(path: &str) -> (r: Option<String>)
    ensures
        match r {
            Some(s) => file_stem_of(path@) == Some(s@),
            None => file_stem_of(path@) is None,
        },
{
    std::path::Path::new(path).file_stem().map(|s| s.to_string_lossy().into_owned())
}

/// The extension of `path`.
///
/// Calls `std::path::Path::extension` and converts the result to a
/// `String`. The result is a function of the path's text, named
/// `extension_of`.
#[verifier::external_body]
pub(crate) fn path_extension(path: &str) -> (r: Option<String>)
    ensures
        match r {
            Some(s) => extension_of(path@) == Some(s@),
            None => extension_of(path@) is None,
        },
{
    std::path::Path::new(path).extension().map(|s| s.to_string_lossy().into_owned())
}

/// `s` with every `-` replaced by `_`.
pub open spec fn dashes_to_underscores(s: Seq<char>) -> Seq<char> {
    s.map_values(|c: char| if c == '-' { '_' } else { c })
}

/// The stem without a leading `lib`.
pub open spec fn library_name(stem: Seq<char>) -> Seq<char> {
    if is_prefix("lib"@, stem) { stem.skip(3) } else { stem }
}

/// The per-plugin symbol `<name>_<suffix>` for the library at `path`.
pub open spec fn plugin_symbol(path: Seq<char>, suffix: Seq<char>) -> Option<Seq<char>> {
    match file_stem_of(path) {
        None => None,
        Some(stem) => {
            let name = library_name(stem);
            if name.len() == 0 { None } else { Some(dashes_to_underscores(name) + "_"@ + suffix) }
        },
    }
}

/// The per-plugin symbol with the given suffix for the library at `path`:
/// the file stem without a leading `lib`, dashes made underscores, then
/// `_` and the suffix. `None` when the path has no stem or the name is
/// empty.
pub fn derive_plugin_symbol(path: &str, suffix: &str) -> (r: Option<String>)
    ensures
        match r {
            Some(s) => plugin_symbol(path@, suffix@) == Some(s@),
            None => plugin_symbol(path@, suffix@) is None,
        },
{
    let stem = match path_file_stem(path) {
        Some(s) => s,
        None => { return None; },
    };
    proof {
        reveal_strlit("lib");
    }
    let name: &str = match strip_prefix(stem.as_str(), "lib") {
        Some(rest) => rest,
        None => stem.as_str(),
    };
    let n = name.unicode_len();
    if n == 0 {
        return None;
    }
    let mut out = String::new();
    let mut i: usize = 0;
    while i < n
        invariant
            n == name@.len(),
            i <= n,
            out@ == dashes_to_underscores(name@.take(i as int)),
        decreases n - i,
    {
        let c = name.get_char(i);
        if c == '-' {
            out.append("_");
            proof { reveal_strlit("_"); }
        } else {
            let piece = name.substring_char(i, i + 1);
            out.append(piece);
        }
        proof {
            reveal_strlit("_");
            assert(dashes_to_underscores(name@.take(i + 1)) =~= dashes_to_underscores(name@.take(i as int)).push(if c == '-' { '_' } else { c }));
        }
        i = i + 1;
    }
    proof {
        assert(name@.take(n as int) =~= name@);
    }
    out.append("_");
    out.append(suffix);
    Some(out)
}

/// The fallback factory symbol of the library at `path`.
pub fn derive_plugin_create_symbol(path: &str) -> (r: Option<String>)
    ensures
        match r {
            Some(s) => plugin_symbol(path@, "create"@) == Some(s@),
            None => plugin_symbol(path@, "create"@) is None,
        },
{
    derive_plugin_symbol(path, "create")
}

/// The fallback ABI-version symbol of the library at `path`.
pub fn derive_plugin_abi_symbol(path: &str) -> (r: Option<String>)
    ensures
        match r {
            Some(s) => plugin_symbol(path@, "abi_version"@) == Some(s@),
            None => plugin_symbol(path@, "abi_version"@) is None,
        },
{
    derive_plugin_symbol(path, "abi_version")
}

/// Whether the file at `path` is a plugin library: its extension is
/// `extension` (`so`, or `dylib` on macOS).
pub fn is_plugin_file(path: &str, extension: &str) -> (b: bool)
    ensures
        b == (extension_of(path@) == Some(extension@)),
{
    match path_extension(path) {
        Some(e) => str_eq(e.as_str(), extension),
        None => false,
    }
}

/// The error of a library that could not be opened.
pub fn dlopen_error(path: &str, err: &str) -> (e: Error)
    ensures
        e matches Error::PluginLoad(m) && m@ == "dlopen "@ + path@ + ": "@ + err@,
{
    Error::PluginLoad("dlopen ".to_owned().concat(path).concat(": ").concat(err))
}

/// The error of a missing symbol: the primary symbol `primary` was not found
/// (with `primary_err`), and either there was no fallback or the fallback
/// `fallback` was not found either (with its error).
pub fn missing_symbol_error(primary: &str, path: &str, primary_err: &str, fallback: Option<(&str, &str)>) -> (e: Error)
    ensures
        e matches Error::PluginLoad(m) && m@ == "dlsym "@ + primary@ + " in "@ + path@ + ": "@ + primary_err@ + (match fallback {
            Some((sym, err)) => "; fallback dlsym "@ + sym@ + " failed: "@ + err@,
            None => Seq::empty(),
        }),
{
    let mut m = "dlsym ".to_owned().concat(primary).concat(" in ").concat(path).concat(": ").concat(primary_err);
    if let Some((sym, err)) = fallback {
        m.append("; fallback dlsym ");
        m.append(sym);
        m.append(" failed: ");
        m.append(err);
    }
    proof {
        assert(m@ =~= "dlsym "@ + primary@ + " in "@ + path@ + ": "@ + primary_err@ + (match fallback {
            Some((sym, err)) => "; fallback dlsym "@ + sym@ + " failed: "@ + err@,
            None => Seq::empty(),
        }));
    }
    Error::PluginLoad(m)
}

/// Checks the ABI version a plugin reports (through `symbol`) against the
/// one this loader speaks.
pub fn check_abi(symbol: &str, path: &str, version: u32) -> (r: Result<(), Error>)
    ensures
        version == PLUGIN_LOADER_ABI_VERSION ==> r is Ok,
        version != PLUGIN_LOADER_ABI_VERSION ==> (r matches Err(Error::PluginLoad(m))
            && m@ == "plugin ABI mismatch (symbol "@ + symbol@ + ") in "@ + path@ + ": expected "@
                + decimal(PLUGIN_LOADER_ABI_VERSION as nat) + ", got "@ + decimal(version as nat)),
{
    if version == PLUGIN_LOADER_ABI_VERSION {
        return Ok(());
    }
    let mut m = "plugin ABI mismatch (symbol ".to_owned().concat(symbol).concat(") in ").concat(path).concat(": expected ");
    crate::text::push_decimal(&mut m, PLUGIN_LOADER_ABI_VERSION as u64);
    m.append(", got ");
    crate::text::push_decimal(&mut m, version as u64);
    Err(Error::PluginLoad(m))
}

/// The error of a factory that returned no plugin.
pub fn null_plugin_error(symbol: &str, path: &str) -> (e: Error)
    ensures
        e matches Error::PluginLoad(m) && m@ == symbol@ + " returned null in "@ + path@,
{
    Error::PluginLoad(symbol.to_owned().concat(" returned null in ").concat(path))
}

/// Whether a plugin's package is on the disable list.
pub fn is_disabled(package: &str, disable_list: &Vec<String>) -> (b: bool)
    ensures
        b == exists|i: int| 0 <= i < disable_list@.len() && disable_list@[i]@ == package@,
{
    let mut i: usize = 0;
    while i < disable_list.len()
        invariant
            i <= disable_list@.len(),
            forall|j: int| 0 <= j < i ==> disable_list@[j]@ != package@,
        decreases disable_list@.len() - i,
    {
        if str_eq(disable_list[i].as_str(), package) {
            return true;
        }
        i = i + 1;
    }
    false
}

/// The error of a plugin whose initialisation failed.
pub fn init_error(package: &str, err: &str) -> (e: Error)
    ensures
        e matches Error::PluginLoad(m) && m@ == "plugin "@ + package@ + " init failed: "@ + err@,
{
    Error::PluginLoad("plugin ".to_owned().concat(package).concat(" init failed: ").concat(err))
}

/// The error of a plugins directory that could not be read.
pub fn directory_error(dir: &str, err: &str) -> (e: Error)
    ensures
        e matches Error::Config(m) && m@ == "cannot read plugins directory "@ + dir@ + ": "@ + err@,
{
    Error::Config("cannot read plugins directory ".to_owned().concat(dir).concat(": ").concat(err))
}

} // verus!
