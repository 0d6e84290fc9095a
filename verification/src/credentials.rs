//! The saved GitHub session. Secure storage exists only on Android, where
//! the platform layer talks to the keystore; these are the outcomes the
//! library gives to the session store.

use vstd::prelude::*;

verus! {

pub open spec fn storage_unavailable_message() -> Seq<char> {
    "Secure credential storage is unavailable on this platform"@
}

pub open spec fn keystore_rejected_message() -> Seq<char> {
    "Android Keystore rejected the credential"@
}

pub open spec fn keystore_remove_failed_message() -> Seq<char> {
    "Failed to remove the saved credential"@
}

/// The saved session on a platform without secure storage: there is none.
pub fn load_token() -> (r: Option<String>)
    ensures
        r is None,
{
    None
}

/// Saving a session on a platform without secure storage: refused.
pub fn save_token(_token: &str) -> (r: Result<(), String>)
    ensures
        r matches Err(e) && e@ == storage_unavailable_message(),
{
    Err("Secure credential storage is unavailable on this platform".to_owned())
}

/// Forgetting the session on a platform without secure storage: nothing is
/// saved, so this succeeds.
pub fn clear_token() -> (r: Result<(), String>)
    ensures
        r is Ok,
{
    Ok(())
}

/// The outcome of a keystore write that reported `saved`.
pub fn keystore_save_outcome(saved: bool) -> (r: Result<(), String>)
    ensures
        saved <==> r is Ok,
        r matches Err(e) ==> e@ == keystore_rejected_message(),
{
    if saved {
        Ok(())
    } else {
        Err("Android Keystore rejected the credential".to_owned())
    }
}

/// The outcome of a keystore removal that reported `removed`.
pub fn keystore_remove_outcome(removed: bool) -> (r: Result<(), String>)
    ensures
        removed <==> r is Ok,
        r matches Err(e) ==> e@ == keystore_remove_failed_message(),
{
    if removed {
        Ok(())
    } else {
        Err("Failed to remove the saved credential".to_owned())
    }
}

} // verus!
