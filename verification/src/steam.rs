//! The locally logged-in platform account, read from the launcher's login
//! roster.
//!
//! The shell locates the installation and parses the roster file into plain
//! [`UserRecord`] values; picking the account out of them is specified here.

use vstd::prelude::*;

verus! {

/// One login roster entry, as plain values.
pub struct UserRecord {
    /// The account's login name.
    pub account_name: String,
    /// The account's display name.
    pub persona_name: String,
    /// Whether the roster marks this entry as the most recent login.
    pub most_recent: bool,
}

/// The account shown in the loader.
pub struct SteamAccount {
    /// Login name.
    pub username: String,
    /// Display name.
    pub name: String,
}

impl SteamAccount {
    /// Picks the most recent login out of the roster: the first entry so
    /// marked. A roster without one is refused.
    pub fn new(users: &Vec<UserRecord>) -> (r: Result<SteamAccount, String>)
        ensures
            r is Ok <==> exists|i: int| 0 <= i < users@.len() && #[trigger] users@[i].most_recent,
            r matches Ok(a) ==> exists|i: int|
                {
                    &&& 0 <= i < users@.len()
                    &&& #[trigger] users@[i].most_recent
                    &&& a.username@ == users@[i].account_name@
                    &&& a.name@ == users@[i].persona_name@
                    &&& forall|j: int| 0 <= j < i ==> !(#[trigger] users@[j].most_recent)
                },
            r matches Err(m) ==> m@ == "No recent user found"@,
    {
        let mut i: usize = 0;
        while i < users.len()
            invariant
                i <= users@.len(),
                forall|j: int| 0 <= j < i ==> !(#[trigger] users@[j].most_recent),
            decreases users@.len() - i,
        {
            if users[i].most_recent {
                return Ok(SteamAccount {
                    username: users[i].account_name.clone(),
                    name: users[i].persona_name.clone(),
                });
            }
            i = i + 1;
        }
        Err("No recent user found".to_owned())
    }

    /// The placeholder account shown when the roster cannot be read.
    pub fn default() -> (a: SteamAccount)
        ensures
            a.username@ == "unknown"@,
            a.name@ == "unknown"@,
    {
        SteamAccount { username: "unknown".to_owned(), name: "unknown".to_owned() }
    }
}

} // verus!
