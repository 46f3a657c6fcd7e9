//! The fixed header set every service request carries: the bearer
//! credential, platform and version markers, device markers, the per-process
//! client identifier, and the JSON content type.

use vstd::prelude::*;

verus! {

/// The ten headers of a service request, in order, for the given credential
/// and client identifier.  The transport applies them verbatim.
pub fn auth_headers(token: &str, login_uuid: &str) -> (hs: Vec<(String, String)>)
    ensures
        hs@.len() == 10,
        hs@[0].0@ == "authorization"@ && hs@[0].1@ == token@,
        hs@[1].0@ == "platform"@ && hs@[1].1@ == "android"@,
        hs@[2].0@ == "app-version"@ && hs@[2].1@ == "61"@,
        hs@[3].0@ == "x-app-version"@ && hs@[3].1@ == "2.4.0"@,
        hs@[4].0@ == "x-channel"@ && hs@[4].1@ == "1004"@,
        hs@[5].0@ == "devicetype"@ && hs@[5].1@ == "M2101K9C"@,
        hs@[6].0@ == "devicename"@ && hs@[6].1@ == "Xiaomi"@,
        hs@[7].0@ == "osversion"@ && hs@[7].1@ == "Android_7.1.2"@,
        hs@[8].0@ == "loginuuid"@ && hs@[8].1@ == login_uuid@,
        hs@[9].0@ == "content-type"@ && hs@[9].1@ == "application/json"@,
{
    let mut hs: Vec<(String, String)> = Vec::new();
    hs.push((String::from_str("authorization"), String::from_str(token)));
    hs.push((String::from_str("platform"), String::from_str("android")));
    hs.push((String::from_str("app-version"), String::from_str("61")));
    hs.push((String::from_str("x-app-version"), String::from_str("2.4.0")));
    hs.push((String::from_str("x-channel"), String::from_str("1004")));
    hs.push((String::from_str("devicetype"), String::from_str("M2101K9C")));
    hs.push((String::from_str("devicename"), String::from_str("Xiaomi")));
    hs.push((String::from_str("osversion"), String::from_str("Android_7.1.2")));
    hs.push((String::from_str("loginuuid"), String::from_str(login_uuid)));
    hs.push((String::from_str("content-type"), String::from_str("application/json")));
    hs
}

} // verus!
