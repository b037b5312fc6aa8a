//! What the configuration watcher does with each notification.

use vstd::prelude::*;
use vstd::string::*;

verus! {

/// What the watcher does next.
#[derive(Debug, Clone, PartialEq, Eq)]
pub enum WatchAction {
    /// Nothing.
    Ignore,
    /// Read the configuration file again.
    Reload,
    /// Replace the current configuration and announce it.
    Publish,
    /// Report a warning with this text.
    Warn(String),
}

/// Notifications that come sooner than this after a handled one are dropped.
pub const QUIET_MILLIS: u128 = 200;

/// Decides what to do with a notification. The first part of the result
/// tells whether the notification counts as handled, which restarts the
/// quiet time.
pub fn on_notification(elapsed_millis: u128, failure: Option<&str>) -> (r: (bool, WatchAction))
    ensures
        r.0 == (elapsed_millis >= QUIET_MILLIS),
        elapsed_millis < QUIET_MILLIS ==> r.1 == WatchAction::Ignore,
        elapsed_millis >= QUIET_MILLIS ==> match failure {
            Some(detail) => r.1 matches WatchAction::Warn(w) && w@ == "設定ファイル監視エラー: "@
                + detail@,
            None => r.1 == WatchAction::Reload,
        },
{
    if elapsed_millis < QUIET_MILLIS {
        return (false, WatchAction::Ignore);
    }
    match failure {
        Some(detail) => {
            let mut text = String::from_str("設定ファイル監視エラー: ");
            text.append(detail);
            (true, WatchAction::Warn(text))
        },
        None => (true, WatchAction::Reload),
    }
}

/// Decides what to do once the file has been read again: `outcome` tells
/// whether what was read differs from the current configuration, or why
/// reading failed.
pub fn on_reloaded(outcome: Result<bool, &str>) -> (r: WatchAction)
    ensures
        match outcome {
            Ok(true) => r == WatchAction::Publish,
            Ok(false) => r == WatchAction::Ignore,
            Err(detail) => r matches WatchAction::Warn(w) && w@ == "設定の再読込に失敗しました: "@
                + detail@,
        },
{
    match outcome {
        Ok(changed) => {
            if changed {
                WatchAction::Publish
            } else {
                WatchAction::Ignore
            }
        },
        Err(detail) => {
            let mut text = String::from_str("設定の再読込に失敗しました: ");
            text.append(detail);
            WatchAction::Warn(text)
        },
    }
}

} // verus!
