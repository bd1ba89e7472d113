//! Where the log is kept, and when a new one is begun.
use vstd::prelude::*;
use vstd::string::*;

use crate::persistence::paths::{opt_view, place_at, Place, StoragePath};
use crate::types::Platform;

verus! {

/// The name of the log.
pub const LOG_FILE: &'static str = "zhunji.log";

/// The name of the log before it.
pub const LOG_ARCHIVE: &'static str = "zhunji.log.1";

/// How large the log may be when the program starts, in bytes.
pub const LOG_ROTATE_LIMIT_BYTES: u64 = 10485760;

/// The log makes room for a new one.
pub open spec fn log_is_full(size: Option<u64>) -> bool {
    size matches Some(n) && n > LOG_ROTATE_LIMIT_BYTES
}

/// Whether the log makes room for a new one. `size` is that of the log, where there is one.
pub fn rotates_log(size: Option<u64>) -> (r: bool)
    ensures
        r == log_is_full(size),
{
    match size {
        Some(n) => n > LOG_ROTATE_LIMIT_BYTES,
        None => false,
    }
}

/// The directory of the log.
pub open spec fn log_place(
    platform: Platform,
    home: Option<Seq<char>>,
    local_app_data: Option<Seq<char>>,
    temporary: Seq<char>,
) -> Place {
    let fallback = place_at(temporary).child("Zhunji"@);
    match platform {
        Platform::Macos => match home {
            Some(h) => place_at(h).child("Library"@).child("Logs"@).child("Zhunji"@),
            None => fallback,
        },
        Platform::Windows => match local_app_data {
            Some(d) => place_at(d).child("Zhunji"@).child("Logs"@),
            None => fallback,
        },
        _ => match home {
            Some(h) => place_at(h).child(".local"@).child("share"@).child("Zhunji"@).child(
                "logs"@,
            ),
            None => fallback,
        },
    }
}

/// The directory of the log, from the variables of the environment; in the directory for temporary
/// files where they are missing.
pub fn log_dir_path(
    platform: Platform,
    home: Option<&str>,
    local_app_data: Option<&str>,
    temporary: &str,
) -> (r: StoragePath)
    ensures
        r@ == log_place(platform, opt_view(home), opt_view(local_app_data), temporary@),
{
    match platform {
        Platform::Macos => match home {
            Some(h) => StoragePath::at(h).child("Library").child("Logs").child("Zhunji"),
            None => StoragePath::at(temporary).child("Zhunji"),
        },
        Platform::Windows => match local_app_data {
            Some(d) => StoragePath::at(d).child("Zhunji").child("Logs"),
            None => StoragePath::at(temporary).child("Zhunji"),
        },
        _ => match home {
            Some(h) => StoragePath::at(h).child(".local").child("share").child("Zhunji").child(
                "logs",
            ),
            None => StoragePath::at(temporary).child("Zhunji"),
        },
    }
}

/// The log makes room exactly where it has more than ten mebibytes.
pub proof fn law_full_log_makes_room(size: u64)
    ensures
        log_is_full(Some(size)) <==> size > 10 * 1024 * 1024,
        !log_is_full(None),
{
}

/// Where the log is kept on each system; in the directory for temporary files where the system does
/// not tell.
pub proof fn law_log_is_kept_where_the_system_wants_it(
    home: Option<Seq<char>>,
    local_app_data: Option<Seq<char>>,
    temporary: Seq<char>,
)
    ensures
        home matches Some(h) ==> log_place(Platform::Macos, home, local_app_data, temporary) == (
        Place { base: h, parts: seq!["Library"@, "Logs"@, "Zhunji"@] }),
        local_app_data matches Some(d) ==> log_place(
            Platform::Windows,
            home,
            local_app_data,
            temporary,
        ) == (Place { base: d, parts: seq!["Zhunji"@, "Logs"@] }),
        home matches Some(h) ==> log_place(Platform::Linux, home, local_app_data, temporary) == (
        Place { base: h, parts: seq![".local"@, "share"@, "Zhunji"@, "logs"@] }),
        home is None ==> log_place(Platform::Macos, home, local_app_data, temporary) == (Place {
            base: temporary,
            parts: seq!["Zhunji"@],
        }),
        local_app_data is None ==> log_place(Platform::Windows, home, local_app_data, temporary)
            == (Place { base: temporary, parts: seq!["Zhunji"@] }),
        home is None ==> log_place(Platform::Linux, home, local_app_data, temporary) == (Place {
            base: temporary,
            parts: seq!["Zhunji"@],
        }),
        log_place(Platform::Other, home, local_app_data, temporary) == log_place(
            Platform::Linux,
            home,
            local_app_data,
            temporary,
        ),
{
    assert(seq![].push("Library"@).push("Logs"@).push("Zhunji"@) =~= seq![
        "Library"@,
        "Logs"@,
        "Zhunji"@,
    ]);
    assert(seq![].push("Zhunji"@).push("Logs"@) =~= seq!["Zhunji"@, "Logs"@]);
    assert(seq![].push(".local"@).push("share"@).push("Zhunji"@).push("logs"@) =~= seq![
        ".local"@,
        "share"@,
        "Zhunji"@,
        "logs"@,
    ]);
    assert(seq![].push("Zhunji"@) =~= seq!["Zhunji"@]);
}

} // verus!
