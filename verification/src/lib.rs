//! Core logic of a launcher that installs and runs a Windows game on a
//! non-Windows host through a Wine/Proton-style compatibility layer.
//!
//! The library holds the decision logic of the launcher: the installation
//! state machine over the persisted configuration, the manifest model and
//! the planning of the resource synchronization (which files to verify,
//! delete and download), the aggregation of download progress across
//! concurrent files, and the assembly of the launch command. All
//! input/output (network, disk, processes) is done by the surrounding
//! application, which feeds plain values into these functions.

use vstd::prelude::*;
use vstd::string::*;

pub mod components;
pub mod config_codec;
pub mod error;
pub mod game_component;
pub mod game_config;
pub mod game_manager;
pub mod game_patcher;
pub mod game_state;
pub mod github_requester;
pub mod manifest;
pub mod messages;

verus! {

/// A path under `base`: the separator, then `name`.
pub fn join_path(base: &str, name: &str) -> (r: String)
    ensures
        r@ == base@ + "/"@ + name@,
{
    base.to_owned().concat("/").concat(name)
}

/// `s` without its trailing `suffix`: the name of the directory an
/// archive unpacks to, given the archive's file name. Nothing when `s`
/// does not end in `suffix`.
pub fn strip_string_suffix(s: &str, suffix: &str) -> (r: Option<String>)
    ensures
        r is Some <==> (s@.len() >= suffix@.len() && s@.skip(s@.len() - suffix@.len())
            == suffix@),
        r matches Some(p) ==> p@ == s@.take(s@.len() - suffix@.len()),
{
    let n = s.unicode_len();
    let m = suffix.unicode_len();
    if m > n {
        return None;
    }
    let mut i: usize = 0;
    while i < m
        invariant
            0 <= i <= m,
            m <= n,
            n == s@.len(),
            m == suffix@.len(),
            forall|k: int| 0 <= k < i ==> s@[n - m + k] == suffix@[k],
        decreases m - i,
    {
        if s.get_char(n - m + i) != suffix.get_char(i) {
            proof {
                assert(s@.skip(n - m as int)[i as int] != suffix@[i as int]);
            }
            return None;
        }
        i = i + 1;
    }
    proof {
        assert(s@.skip(n - m as int) =~= suffix@);
    }
    Some(s.substring_char(0, n - m).to_owned())
}

/// Name of the game directory and of the game itself.
pub fn get_game_name() -> (r: String)
    ensures
        r@ == "PGR"@,
{
    String::from_str("PGR")
}

/// Name of the game's executable file.
pub fn get_game_name_with_executable() -> (r: String)
    ensures
        r@ == "PGR.exe"@,
{
    let r = get_game_name().concat(".exe");
    proof {
        reveal_strlit("PGR");
        reveal_strlit(".exe");
        reveal_strlit("PGR.exe");
        assert(r@ =~= "PGR.exe"@);
    }
    r
}

} // verus!
