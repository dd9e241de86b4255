//! The data model of the backend API responses and the rules for reading
//! them: a response is usable exactly when its return code is zero, and
//! its payload is then taken as the result.

use vstd::prelude::*;

verus! {

/// Response carrying an accelerated mirror for a file.
#[derive(Debug)]
pub struct HomaDistributionGetAcceleratedMirrorResp {
    pub retcode: i32,
    pub message: String,
    pub data: Option<GenericPatchPackageMirror>,
}

/// Response of a passport login: the payload is the session token.
#[derive(Debug)]
pub struct HomaPassportLoginResp {
    pub retcode: i32,
    pub message: String,
    pub data: Option<String>,
}

/// A passport login request.
#[derive(Debug)]
pub struct HomaPassportLoginReq {
    pub username: String,
    pub password: String,
}

/// Account details of a passport user.
#[derive(Debug)]
pub struct HomaPassportUserInfo {
    pub normalized_username: Option<String>,
    pub username: Option<String>,
    pub is_licensed_developer: bool,
    pub is_maintainer: bool,
    pub gacha_log_expire_at: String,
    pub cdn_expire_at: String,
}

/// Response carrying a passport user's details.
#[derive(Debug)]
pub struct HomaPassportUserInfoResp {
    pub retcode: i32,
    pub message: String,
    pub data: Option<HomaPassportUserInfo>,
}

/// The caller's address and region division.
#[derive(Debug)]
pub struct GenericIp {
    pub ip: String,
    pub division: String,
}

impl Default for GenericIp {
    /// The placeholder address used when the lookup fails.
    fn default() -> (r: GenericIp)
        ensures
            r.ip@ == "0.0.0.0"@,
            r.division@ == Seq::<char>::empty(),
    {
        let r = GenericIp { ip: String::from_str("0.0.0.0"), division: String::new() };
        proof {
            assert(r.division@ =~= Seq::<char>::empty());
        }
        r
    }
}

/// Response carrying the caller's address information.
#[derive(Debug)]
pub struct GenericIpResp {
    pub retcode: i32,
    pub message: String,
    pub data: Option<GenericIp>,
}

/// A released patch: its version, mirrors, direct URLs, and digest.
#[derive(Debug)]
pub struct GenericPatchData {
    pub version: String,
    pub validation: String,
    pub cache_time: String,
    pub mirrors: Vec<GenericPatchPackageMirror>,
    pub urls: Vec<String>,
    pub sha256: String,
}

/// One mirror a patch can be fetched from.
#[derive(Debug)]
pub struct GenericPatchPackageMirror {
    pub url: String,
    pub mirror_name: String,
    pub mirror_type: String,
}

/// Response carrying a released patch.
#[derive(Debug)]
pub struct GenericPatchResp {
    pub retcode: i32,
    pub message: String,
    pub data: Option<GenericPatchData>,
}

/// Takes the address information out of its response: the payload on a
/// zero return code, the server's message otherwise.
pub fn ip_info_from_resp(resp: GenericIpResp) -> (r: Result<GenericIp, String>)
    requires
        resp.retcode == 0 ==> resp.data is Some,
    ensures
        resp.retcode == 0 <==> r is Ok,
        resp.retcode == 0 ==> r == Ok::<GenericIp, String>(resp.data->0),
        resp.retcode != 0 ==> r == Err::<GenericIp, String>(resp.message),
{
    if resp.retcode != 0 {
        Err(resp.message)
    } else {
        match resp.data {
            Some(d) => Ok(d),
            None => Err(resp.message),
        }
    }
}

/// Whether address information places the caller overseas.
pub fn is_oversea_division(ip: &GenericIp) -> (r: bool)
    ensures
        r <==> ip.division@ == "Oversea"@,
{
    let expected = String::from_str("Oversea");
    ip.division == expected
}

/// Takes the patch data out of its response: the payload on a zero return
/// code, the server's message otherwise.
pub fn patch_from_resp(resp: GenericPatchResp) -> (r: Result<GenericPatchData, String>)
    requires
        resp.retcode == 0 ==> resp.data is Some,
    ensures
        resp.retcode == 0 <==> r is Ok,
        resp.retcode == 0 ==> r == Ok::<GenericPatchData, String>(resp.data->0),
        resp.retcode != 0 ==> r == Err::<GenericPatchData, String>(resp.message),
{
    if resp.retcode != 0 {
        Err(resp.message)
    } else {
        match resp.data {
            Some(d) => Ok(d),
            None => Err(resp.message),
        }
    }
}

/// Takes the user details out of their response: the payload on a zero
/// return code, the server's message otherwise.
pub fn userinfo_from_resp(resp: HomaPassportUserInfoResp) -> (r: Result<
    HomaPassportUserInfo,
    String,
>)
    requires
        resp.retcode == 0 ==> resp.data is Some,
    ensures
        resp.retcode == 0 <==> r is Ok,
        resp.retcode == 0 ==> r == Ok::<HomaPassportUserInfo, String>(resp.data->0),
        resp.retcode != 0 ==> r == Err::<HomaPassportUserInfo, String>(resp.message),
{
    if resp.retcode != 0 {
        Err(resp.message)
    } else {
        match resp.data {
            Some(d) => Ok(d),
            None => Err(resp.message),
        }
    }
}

/// Takes the accelerated mirror URL out of its response: the mirror's URL
/// on a zero return code, the server's message otherwise.
pub fn cdn_url_from_resp(resp: HomaDistributionGetAcceleratedMirrorResp) -> (r: Result<
    String,
    String,
>)
    requires
        resp.retcode == 0 ==> resp.data is Some,
    ensures
        resp.retcode == 0 <==> r is Ok,
        resp.retcode == 0 ==> r == Ok::<String, String>(resp.data->0.url),
        resp.retcode != 0 ==> r == Err::<String, String>(resp.message),
{
    if resp.retcode != 0 {
        Err(resp.message)
    } else {
        match resp.data {
            Some(d) => Ok(d.url),
            None => Err(resp.message),
        }
    }
}

} // verus!
