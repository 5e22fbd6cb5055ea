//! Startup configuration: the watched root, the ignore policy, and the
//! destination credential, all fixed for the lifetime of the process.
//!
//! The values arrive from the process environment as optional text;
//! building the configuration decides exactly which absences and malformed
//! values are fatal. A fatal configuration error terminates the process
//! before the dispatch loop ever starts — it is the only kind of error that
//! does.

use vstd::prelude::*;
use crate::location::text_eq;

verus! {

/// A startup configuration problem: the only fatal kind of failure.
#[derive(Clone, Copy, Debug, PartialEq, Eq, Structural)]
pub enum FatalConfigError {
    /// The ignore-hidden-files flag was given but is neither `true` nor
    /// `false`.
    InvalidIgnoreFlag,
    /// No watch root was given.
    MissingWatchRoot,
    /// No destination credential (webhook address or workspace token) was
    /// given.
    MissingDestination,
}

/// The process-wide configuration, immutable once built.
#[derive(Debug, Clone)]
pub struct WatchConfig {
    /// The absolute, canonical path of the watched directory.
    pub root: String,
    /// Whether files whose name starts with the hidden-file marker are
    /// skipped.
    pub ignore_hidden: bool,
    /// The destination credential: the webhook address or the workspace
    /// token, as the chosen upload variant needs it.
    pub destination: String,
}

/// The text is the spelling of a boolean.
pub open spec fn boolean_text(text: Seq<char>) -> bool {
    text == "true"@ || text == "false"@
}

/// Builds the configuration from the optional environment values, checked
/// in the order the process reads them: a present but malformed ignore
/// flag is fatal, an absent one defaults to ignoring hidden files; the
/// watch root and the destination credential must both be present.
pub fn build_config(
    root: Option<String>,
    ignore_hidden_text: Option<String>,
    destination: Option<String>,
) -> (built: Result<WatchConfig, FatalConfigError>)
    ensures
        (ignore_hidden_text matches Some(text) && !boolean_text(text@)) <==> built == Err::<
            WatchConfig,
            FatalConfigError,
        >(FatalConfigError::InvalidIgnoreFlag),
        built == Err::<WatchConfig, FatalConfigError>(FatalConfigError::MissingWatchRoot) <==> (
        root is None && (ignore_hidden_text matches Some(text) ==> boolean_text(text@))),
        built matches Ok(config) ==> {
            &&& root matches Some(chosen) && config.root == chosen
            &&& destination matches Some(given) && config.destination == given
            &&& config.ignore_hidden == (ignore_hidden_text matches Some(text) ==> text@
                == "true"@)
        },
        built is Ok <==> (root is Some && destination is Some && (ignore_hidden_text matches Some(
            text,
        ) ==> boolean_text(text@))),
{
    let ignore_hidden = match &ignore_hidden_text {
        None => true,
        Some(text) => {
            if text_eq(text.as_str(), "true") {
                true
            } else if text_eq(text.as_str(), "false") {
                false
            } else {
                return Err(FatalConfigError::InvalidIgnoreFlag);
            }
        },
    };
    let chosen_root = match root {
        Some(chosen) => chosen,
        None => {
            return Err(FatalConfigError::MissingWatchRoot);
        },
    };
    let chosen_destination = match destination {
        Some(given) => given,
        None => {
            return Err(FatalConfigError::MissingDestination);
        },
    };
    Ok(
        WatchConfig {
            root: chosen_root,
            ignore_hidden,
            destination: chosen_destination,
        },
    )
}

} // verus!
