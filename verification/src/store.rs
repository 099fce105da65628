//! The load contracts of the two backing stores: how the raw outcome of
//! reading a backing file (absent, malformed, or parsed) is reconciled into
//! the documented results. The host performs the reading and parsing; these
//! functions own the decisions.

use vstd::prelude::*;

use crate::model::{ClaudeConfig, ConfigPreset};

verus! {

/// Why a load failed. An absent active-configuration file is a distinct,
/// reportable condition; malformed contents are another. Failures while
/// persisting are host I/O conditions and never reach this library.
#[derive(Debug, Clone, Copy, PartialEq, Eq, Structural)]
pub enum LoadError {
    NotFound,
    ParseError,
}

/// Reconciles a read of the active configuration: an absent file is
/// `NotFound` (no default is synthesized), unparseable contents are
/// `ParseError`, and a parsed document is returned as is.
pub fn reconcile_config_load(exists: bool, parsed: Option<ClaudeConfig>) -> (r: Result<
    ClaudeConfig,
    LoadError,
>)
    ensures
        match r {
            Ok(config) => exists && parsed == Some(config),
            Err(e) => {
                ||| (!exists && e == LoadError::NotFound)
                ||| (exists && parsed is None && e == LoadError::ParseError)
            },
        },
        r is Ok <==> (exists && parsed is Some),
{
    if !exists {
        return Err(LoadError::NotFound);
    }
    match parsed {
        Some(config) => Ok(config),
        None => Err(LoadError::ParseError),
    }
}

/// Reconciles a read of the preset list: an absent file is an empty list,
/// not an error (presets are optional); unparseable contents are still
/// `ParseError`; a parsed list is returned as is.
pub fn reconcile_presets_load(exists: bool, parsed: Option<Vec<ConfigPreset>>) -> (r: Result<
    Vec<ConfigPreset>,
    LoadError,
>)
    ensures
        match r {
            Ok(presets) => {
                ||| (!exists && presets@ =~= Seq::<ConfigPreset>::empty())
                ||| (exists && parsed == Some(presets))
            },
            Err(e) => exists && parsed is None && e == LoadError::ParseError,
        },
        r is Err <==> (exists && parsed is None),
{
    if !exists {
        let empty: Vec<ConfigPreset> = Vec::new();
        return Ok(empty);
    }
    match parsed {
        Some(presets) => Ok(presets),
        None => Err(LoadError::ParseError),
    }
}

} // verus!
