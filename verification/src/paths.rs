//! Filesystem layout of the log target.
//!
//! Two fixed filenames under the configured log directory: the actively
//! appended current file, and the single rotated backup beside it.

use vstd::prelude::*;

verus! {

/// The configured directory the log files live under.
pub const LOG_DIR: &'static str = "/data/adb/ksu/log";

/// Filename of the actively appended log file.
pub const SULOG_FILENAME: &'static str = "sulog.log";

/// Filename of the single rotated backup.
pub const SULOG_OLD_FILENAME: &'static str = "sulog.old.log";

/// The canonical paths of the current log file and of the rotated backup:
/// the two filenames joined under the log directory.
pub fn sulog_paths() -> (r: (&'static str, &'static str))
    ensures
        r.0@ == LOG_DIR@ + "/"@ + SULOG_FILENAME@,
        r.1@ == LOG_DIR@ + "/"@ + SULOG_OLD_FILENAME@,
{
    proof {
        reveal_strlit("/data/adb/ksu/log");
        reveal_strlit("/");
        reveal_strlit("sulog.log");
        reveal_strlit("sulog.old.log");
        reveal_strlit("/data/adb/ksu/log/sulog.log");
        reveal_strlit("/data/adb/ksu/log/sulog.old.log");
        assert("/data/adb/ksu/log/sulog.log"@ =~= LOG_DIR@ + "/"@ + SULOG_FILENAME@);
        assert("/data/adb/ksu/log/sulog.old.log"@ =~= LOG_DIR@ + "/"@ + SULOG_OLD_FILENAME@);
    }
    ("/data/adb/ksu/log/sulog.log", "/data/adb/ksu/log/sulog.old.log")
}

} // verus!
