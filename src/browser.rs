//! A Chromium-family browser profile, the site a caller asks for, and how
//! its cookie store is reached.
use crate::error::GcookieError;
use crate::primitives::{lower_of, lowercase};
use vstd::prelude::*;

verus! {

/// Whether two texts are the same.
fn same_text(a: &str, b: &str) -> (r: bool)
    ensures
        r == (a@ == b@),
{
    let n = a.unicode_len();
    if n != b.unicode_len() {
        return false;
    }
    let mut i: usize = 0;
    while i < n
        invariant
            n == a@.len(),
            n == b@.len(),
            i <= n,
            forall|j: int| 0 <= j < i ==> a@[j] == b@[j],
        decreases n - i,
    {
        if a.get_char(i) != b.get_char(i) {
            return false;
        }
        i = i + 1;
    }
    assert(a@ =~= b@);
    true
}

/// The profile directory of a browser, relative to the home directory,
/// by its lower-case name.
pub open spec fn profile_subpath(lower: Seq<char>) -> Option<Seq<char>> {
    if lower == "chrome"@ {
        Some("AppData/Local/Google/Chrome/User Data/Default/"@)
    } else if lower == "chrome beta"@ {
        Some("AppData/Local/Google/Chrome Beta/User Data/Default/"@)
    } else if lower == "chromium"@ {
        Some("AppData/Local/Chromium/User Data/Default/"@)
    } else if lower == "edge"@ {
        Some("AppData/Local/Microsoft/Edge/User Data/Default/"@)
    } else {
        None
    }
}

/// A path below a directory.
pub open spec fn join_path(dir: Seq<char>, rest: Seq<char>) -> Seq<char> {
    dir + seq!['/'] + rest
}

/// A Chromium-family browser and the profile whose cookies it keeps.
pub struct Chromium {
    pub name: String,
    pub profile_path: String,
}

impl Chromium {
    /// A profile at a given path, read as Chrome's.
    pub fn new(path: String) -> (r: Chromium)
        ensures
            r.name@ == "Chrome"@,
            r.profile_path@ == path@,
    {
        Chromium { name: String::from_str("Chrome"), profile_path: path }
    }

    /// The default profile of a browser named `Chrome`, `Chrome Beta`,
    /// `Chromium` or `Edge` (in any case) under a home directory; no other
    /// name is known.
    pub fn for_browser(name: &str, home: &str) -> (r: Option<Chromium>)
        ensures
            match profile_subpath(lower_of(name@)) {
                Some(sub) => r matches Some(c) && c.name@ == name@ && c.profile_path@ == join_path(home@, sub),
                None => r is None,
            },
    {
        let lower = lowercase(name);
        let key = lower.as_str();
        let sub: &str = if same_text(key, "chrome") {
            "AppData/Local/Google/Chrome/User Data/Default/"
        } else if same_text(key, "chrome beta") {
            "AppData/Local/Google/Chrome Beta/User Data/Default/"
        } else if same_text(key, "chromium") {
            "AppData/Local/Chromium/User Data/Default/"
        } else if same_text(key, "edge") {
            "AppData/Local/Microsoft/Edge/User Data/Default/"
        } else {
            return None;
        };
        let slash = "/";
        proof {
            reveal_strlit("/");
        }
        let profile_path = String::from_str(home).concat(slash).concat(sub);
        Some(Chromium { name: String::from_str(name), profile_path })
    }
}

/// Whether a site is given as a URL (it starts with `http`).
pub open spec fn looks_like_url(site: Seq<char>) -> bool {
    site.len() >= 4 && site.subrange(0, 4) == seq!['h', 't', 't', 'p']
}

/// The host a caller means by a site: a site starting with `http` is read
/// as a URL and stands for its host; anything else is a host already. A URL
/// that does not parse, or has no host, is rejected.
pub fn get_site(site: &str) -> (r: Result<String, GcookieError>)
    ensures
        !looks_like_url(site@) ==> (r matches Ok(h) && h@ == site@),
        r is Err ==> r->Err_0 == GcookieError::InvalidSite,
{
    let is_url = site.unicode_len() >= 4 && site.get_char(0) == 'h' && site.get_char(1) == 't'
        && site.get_char(2) == 't' && site.get_char(3) == 'p';
    assert(is_url == looks_like_url(site@)) by {
        if site@.len() >= 4 {
            assert(is_url == (site@.subrange(0, 4) =~= seq!['h', 't', 't', 'p']));
        }
    }
    if !is_url {
        return Ok(String::from_str(site));
    }
    match url::Url::parse(site) {
        Err(_) => Err(GcookieError::InvalidSite),
        Ok(u) => match u.host_str() {
            Some(h) => Ok(String::from_str(h)),
            None => Err(GcookieError::InvalidSite),
        },
    }
}

/// How to reach a cookie store that may be locked by the browser.
#[derive(Debug, Clone, Copy, PartialEq, Eq, Structural)]
pub enum StoreAccess {
    /// Read a private copy of the store straight from the volume.
    RawCopy,
    /// Ask the restart manager to free the store, then open it in place.
    ReleaseLockThenOpen,
}

/// The first way to try: a store that does not exist is unavailable; an
/// elevated caller reads the volume; any other asks for the lock.
pub fn plan_store_access(exists: bool, elevated: bool) -> (r: Result<StoreAccess, GcookieError>)
    ensures
        !exists ==> r == Err::<StoreAccess, GcookieError>(GcookieError::StoreUnavailable),
        exists && elevated ==> r == Ok::<StoreAccess, GcookieError>(StoreAccess::RawCopy),
        exists && !elevated ==> r == Ok::<StoreAccess, GcookieError>(StoreAccess::ReleaseLockThenOpen),
{
    if !exists {
        Err(GcookieError::StoreUnavailable)
    } else if elevated {
        Ok(StoreAccess::RawCopy)
    } else {
        Ok(StoreAccess::ReleaseLockThenOpen)
    }
}

/// What to do when the store would not open in place: a store that is
/// still locked is read from the volume by an elevated caller, and is
/// refused to any other; a store that failed for another reason is
/// unavailable.
pub fn after_open_failure(locked: bool, elevated: bool) -> (r: Result<StoreAccess, GcookieError>)
    ensures
        locked && elevated ==> r == Ok::<StoreAccess, GcookieError>(StoreAccess::RawCopy),
        locked && !elevated ==> r == Err::<StoreAccess, GcookieError>(GcookieError::PermissionDenied),
        !locked ==> r == Err::<StoreAccess, GcookieError>(GcookieError::StoreUnavailable),
{
    if !locked {
        Err(GcookieError::StoreUnavailable)
    } else if elevated {
        Ok(StoreAccess::RawCopy)
    } else {
        Err(GcookieError::PermissionDenied)
    }
}

} // verus!
