use gcookie::browser::{after_open_failure, get_site, plan_store_access, Chromium, StoreAccess};
use gcookie::cipher::KeyGeneration;
use gcookie::cookie::{Cookie, SiteCookie};
use gcookie::envelope::{app_bound_envelope, os_seal_envelope, LocalStateKeys};
use gcookie::error::GcookieError;

#[test]
fn is_v10_ok() {
    let state = r#"{"os_crypt":{"encrypted_key":"RFBBUElrZXk="}}"#;
    let keys = LocalStateKeys::parse(state).unwrap();
    assert!(keys.is_v10());
    let state = r#"{"os_crypt":{"encrypted_key":"RFBBUElrZXk=","app_bound_encrypted_key":"APPBAAAA"}}"#;
    assert!(!LocalStateKeys::parse(state).unwrap().is_v10());
    assert!(!LocalStateKeys::parse("{}").unwrap().is_v10());
}

#[test]
fn local_state_must_be_json() {
    assert_eq!(LocalStateKeys::parse("not json").err(), Some(GcookieError::KeyUnwrapFailed));
}

#[test]
fn os_seal_envelope_strips_marker() {
    // "DPAPIkey" in base64.
    assert_eq!(os_seal_envelope("RFBBUElrZXk=").unwrap(), b"key".to_vec());
    assert_eq!(os_seal_envelope("RFBBUEk=").unwrap(), Vec::<u8>::new());
    assert_eq!(os_seal_envelope("RFBB").err(), Some(GcookieError::KeyUnwrapFailed));
    assert_eq!(os_seal_envelope("not base64!").err(), Some(GcookieError::KeyUnwrapFailed));
}

#[test]
fn app_bound_envelope_checks_marker_and_elevation() {
    assert_eq!(app_bound_envelope("APPBAAAA", true).unwrap(), vec![0x00, 0xf3, 0xc1, 0x00, 0x00, 0x00]);
    assert_eq!(app_bound_envelope("APPBAAAA", false).err(), Some(GcookieError::PermissionDenied));
    assert_eq!(app_bound_envelope("XPPBAAAA", true).err(), Some(GcookieError::KeyUnwrapFailed));
    assert_eq!(app_bound_envelope("APPB!", true).err(), Some(GcookieError::KeyUnwrapFailed));
}

#[test]
fn master_key_envelope_prefers_app_bound() {
    let keys = LocalStateKeys {
        encrypted_key: Some("RFBBUElrZXk=".to_string()),
        app_bound_encrypted_key: Some("APPBAAAA".to_string()),
    };
    let (blob, generation) = keys.master_key_envelope(true).unwrap();
    assert_eq!(generation, KeyGeneration::AppBound);
    assert_eq!(blob, vec![0x00, 0xf3, 0xc1, 0x00, 0x00, 0x00]);
    assert_eq!(keys.master_key_envelope(false).err(), Some(GcookieError::PermissionDenied));
    let keys = LocalStateKeys { encrypted_key: Some("RFBBUElrZXk=".to_string()), app_bound_encrypted_key: None };
    assert_eq!(keys.master_key_envelope(false).unwrap(), (b"key".to_vec(), KeyGeneration::OsSealed));
    let keys = LocalStateKeys { encrypted_key: None, app_bound_encrypted_key: None };
    assert_eq!(keys.master_key_envelope(true).err(), Some(GcookieError::KeyUnwrapFailed));
}

#[test]
fn chromium_profiles() {
    let c = Chromium::new("/profiles/Default".to_string());
    assert_eq!(c.name, "Chrome");
    assert_eq!(c.profile_path, "/profiles/Default");
    let e = Chromium::for_browser("EDGE", "/home/u").unwrap();
    assert_eq!(e.name, "EDGE");
    assert_eq!(e.profile_path, "/home/u/AppData/Local/Microsoft/Edge/User Data/Default/");
    let b = Chromium::for_browser("Chrome Beta", "C:/Users/u").unwrap();
    assert_eq!(b.profile_path, "C:/Users/u/AppData/Local/Google/Chrome Beta/User Data/Default/");
    assert!(Chromium::for_browser("Firefox", "/home/u").is_none());
}

#[test]
fn site_host() {
    assert_eq!(get_site("bing.com").unwrap(), "bing.com");
    assert_eq!(get_site("http://cn.bing.com").unwrap(), "cn.bing.com");
    assert_eq!(get_site("https://www.mozilla.org/").unwrap(), "www.mozilla.org");
    assert_eq!(get_site("http://").err(), Some(GcookieError::InvalidSite));
}

#[test]
fn store_access_by_privilege() {
    assert_eq!(plan_store_access(false, true), Err(GcookieError::StoreUnavailable));
    assert_eq!(plan_store_access(true, true), Ok(StoreAccess::RawCopy));
    assert_eq!(plan_store_access(true, false), Ok(StoreAccess::ReleaseLockThenOpen));
    assert_eq!(after_open_failure(true, false), Err(GcookieError::PermissionDenied));
    assert_eq!(after_open_failure(true, true), Ok(StoreAccess::RawCopy));
    assert_eq!(after_open_failure(false, true), Err(GcookieError::StoreUnavailable));
}

#[test]
fn cookie_header_string() {
    let mut s = SiteCookie::new();
    assert_eq!(s.to_cookie_string(), "");
    s.push(Cookie {
        host: "a.com".to_string(),
        path: "/".to_string(),
        name: "n1".to_string(),
        value: "v1".to_string(),
        encrypted_value: vec![],
    });
    assert_eq!(s.to_cookie_string(), "n1=v1");
    s.push(Cookie {
        host: "a.com".to_string(),
        path: "/".to_string(),
        name: "n2".to_string(),
        value: "".to_string(),
        encrypted_value: vec![],
    });
    assert_eq!(s.len(), 2);
    assert_eq!(s.to_cookie_string(), "n1=v1; n2=");
}

#[test]
fn error_messages() {
    assert_eq!(GcookieError::DestinationConflict.message(), "destination already exists");
    assert_eq!(GcookieError::PermissionDenied.message(), "permission denied: run as administrator");
}
