//! The installer's decision logic: assembling the configuration handed to
//! the UI, deciding whether a self-update is due, and accepting or
//! rejecting what the platform reports about runtimes and fonts.

use vstd::prelude::*;
use crate::cli::UpdateArgs;
use crate::num::{append_dec_u64, spec_dec_digits};
use crate::version::{spec_version_lt, spec_version_parse, Version};

verus! {

/// What the installer UI is told about this run.
#[derive(Debug)]
pub struct Config {
    pub version: String,
    pub is_update: bool,
    pub need_migration: bool,
    pub skip_self_update: bool,
    pub is_offline_mode: bool,
    pub embedded_version: Option<String>,
    pub curr_version: Option<String>,
    pub token: Option<String>,
}

/// Assembles the configuration of one run.
///
/// With update arguments present this is an update run that skips the
/// self-update and is never offline; otherwise it is an update exactly
/// when an installed version exists, and offline builds skip the
/// self-update.
pub fn build_config(
    version: String,
    offline: bool,
    embedded_version: Option<String>,
    need_migration: bool,
    existing_version: Option<String>,
    update_args: Option<UpdateArgs>,
) -> (c: Config)
    ensures
        c.version == version,
        c.need_migration == need_migration,
        c.embedded_version == embedded_version,
        c.curr_version == existing_version,
        match update_args {
            Some(args) => {
                &&& c.is_update == true
                &&& c.skip_self_update == true
                &&& c.is_offline_mode == false
                &&& c.token == args.token
            },
            None => {
                &&& c.is_update == (existing_version is Some)
                &&& c.skip_self_update == offline
                &&& c.is_offline_mode == offline
                &&& c.token is None
            },
        },
{
    match update_args {
        Some(args) => Config {
            version,
            is_update: true,
            need_migration,
            skip_self_update: true,
            is_offline_mode: false,
            embedded_version,
            curr_version: existing_version,
            token: args.token,
        },
        None => {
            let is_update = existing_version.is_some();
            Config {
                version,
                is_update,
                need_migration,
                skip_self_update: offline,
                is_offline_mode: offline,
                embedded_version,
                curr_version: existing_version,
                token: None,
            }
        },
    }
}

/// Whether a self-update is due: never right after one (the outdated
/// binary still lies beside the new one), otherwise exactly when the
/// published version is newer than the running one.
pub fn self_update_needed(outdated_exists: bool, current: &Version, latest: &Version) -> (r:
    bool)
    ensures
        r == (!outdated_exists && spec_version_lt(*current, *latest)),
{
    if outdated_exists {
        false
    } else {
        current < latest
    }
}

/// Whether the platform's answer about the C++ runtime means it is
/// installed: both the 64-bit and the 32-bit registration must exist and
/// read one.
pub fn vcrt_installed(x64_installed: Option<u32>, x86_installed: Option<u32>) -> (r: bool)
    ensures
        r == (x64_installed == Some(1u32) && x86_installed == Some(1u32)),
{
    match (x64_installed, x86_installed) {
        (Some(a), Some(b)) => a == 1 && b == 1,
        _ => false,
    }
}

/// Whether the runtime installer's exit is acceptable: success, or the
/// codes for "already installed" and "reboot required".
pub fn vcrt_exit_ok(success: bool, code: i32) -> (r: bool)
    ensures
        r == (success || code == 1638 || code == 3010),
{
    success || code == 1638 || code == 3010
}

/// Whether a font's raw version entry proves a sufficient version: the
/// entry must carry at least the eight-character prefix before the dotted
/// number, and that number must parse and reach the minimum.
pub open spec fn spec_font_version_sufficient(raw: Seq<char>, minimum: Version) -> bool {
    &&& raw.len() >= 8
    &&& spec_version_parse(raw.skip(8)) matches Some(v) && !spec_version_lt(v, minimum)
}

/// Decides from a font's raw version entry whether the installed font is
/// at least `minimum`. The entry carries an eight-character prefix before
/// the dotted version number.
pub fn font_version_sufficient(raw_version: &str, minimum: &Version) -> (r: bool)
    ensures
        r == spec_font_version_sufficient(raw_version@, *minimum),
{
    let n = raw_version.unicode_len();
    if n < 8 {
        return false;
    }
    let suffix = raw_version.substring_char(8, n);
    proof {
        assert(suffix@ =~= raw_version@.skip(8));
    }
    match Version::from_string(suffix) {
        Ok(v) => v >= *minimum,
        Err(_) => false,
    }
}

/// The user-agent string of the installer, assembled from the build mode,
/// package version, web view version, platform version and thread count.
pub fn build_user_agent(
    mode: &str,
    pkg_version: &str,
    webview_version: &str,
    winver: &Version,
    threads: u64,
) -> (r: String)
    ensures
        r@ == "HutaoInstaller-"@ + mode@ + "/"@ + pkg_version@ + " Webview2/"@
            + webview_version@ + " Windows/"@ + spec_dec_digits(winver.major as nat) + "."@
            + spec_dec_digits(winver.minor as nat) + "."@ + spec_dec_digits(winver.build as nat)
            + " Threads/"@ + spec_dec_digits(threads as nat),
{
    let mut s = String::from_str("HutaoInstaller-");
    s.append(mode);
    s.append("/");
    s.append(pkg_version);
    s.append(" Webview2/");
    s.append(webview_version);
    s.append(" Windows/");
    append_dec_u64(&mut s, winver.major);
    s.append(".");
    append_dec_u64(&mut s, winver.minor);
    s.append(".");
    append_dec_u64(&mut s, winver.build);
    s.append(" Threads/");
    append_dec_u64(&mut s, threads);
    proof {
        assert(s@ =~= "HutaoInstaller-"@ + mode@ + "/"@ + pkg_version@ + " Webview2/"@
            + webview_version@ + " Windows/"@ + spec_dec_digits(winver.major as nat) + "."@
            + spec_dec_digits(winver.minor as nat) + "."@ + spec_dec_digits(winver.build as nat)
            + " Threads/"@ + spec_dec_digits(threads as nat));
    }
    s
}

} // verus!
