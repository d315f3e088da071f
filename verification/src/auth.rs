use vstd::prelude::*;

use crate::errors::ProxyError;
use crate::shared::SharedAccessCredential;
use crate::stats::spec_saturating_add;

verus! {

/// A credential exactly as it arrives from the auth server, before any
/// field has been checked: both the token value and the expiry may be
/// absent.
#[derive(Debug)]
pub struct CandidateCredential {
    pub value: Option<String>,
    /// Absolute expiry instant, seconds since the epoch.
    pub expires_at: Option<u64>,
}

/// A validated authentication credential: an opaque token value together
/// with the absolute expiry instant (seconds since the epoch) the server
/// attached to it. Produced only by validation of a server response;
/// never mutated in place.
#[derive(Debug)]
pub struct Credential {
    pub value: String,
    pub expires_at: u64,
}

impl Clone for Credential {
    fn clone(&self) -> (r: Self)
        ensures
            r.value@ == self.value@,
            r.expires_at == self.expires_at,
    {
        Credential { value: self.value.clone(), expires_at: self.expires_at }
    }
}

/// Validates a credential received from the server. A candidate is
/// invalid if it is absent, if its value is absent, or if it carries no
/// expiry; every well-formed candidate is accepted unchanged.
pub fn get_validated_token(maybe_token: Option<CandidateCredential>) -> (r: Result<
    Credential,
    ProxyError,
>)
    ensures
        maybe_token is None ==> (r matches Err(e) && e matches ProxyError::BadAuthenticationToken(
            m,
        ) && m@ == "received a null token"@),
        maybe_token matches Some(t) ==> (t.value is None ==> (r matches Err(e)
            && e matches ProxyError::BadAuthenticationToken(m) && m@ == "value field is null"@)),
        maybe_token matches Some(t) ==> ((t.value is Some && t.expires_at is None) ==> (r matches Err(
            e,
        ) && e matches ProxyError::BadAuthenticationToken(m) && m@
            == "expires_at_utc field is null"@)),
        maybe_token matches Some(t) ==> (t.value matches Some(v) ==> (t.expires_at matches Some(x)
            ==> (r matches Ok(c) && c.value@ == v@ && c.expires_at == x))),
{
    match maybe_token {
        None => Err(
            ProxyError::BadAuthenticationToken(String::from_str("received a null token")),
        ),
        Some(token) => {
            let expires = token.expires_at;
            match token.value {
                None => Err(
                    ProxyError::BadAuthenticationToken(String::from_str("value field is null")),
                ),
                Some(value) => match expires {
                    None => Err(
                        ProxyError::BadAuthenticationToken(
                            String::from_str("expires_at_utc field is null"),
                        ),
                    ),
                    Some(expires_at) => Ok(Credential { value, expires_at }),
                },
            }
        },
    }
}

/// Validates the access/refresh pair of a handshake response. The access
/// credential is checked first, so its failure is reported even when both
/// are malformed.
pub fn validate_token_pair(
    access: Option<CandidateCredential>,
    refresh: Option<CandidateCredential>,
) -> (r: Result<(Credential, Credential), ProxyError>)
    ensures
        r matches Ok(p) ==> (access matches Some(a) && a.value matches Some(av)
            && a.expires_at matches Some(ax) && p.0.value@ == av@ && p.0.expires_at == ax),
        r matches Ok(p) ==> (refresh matches Some(f) && f.value matches Some(fv)
            && f.expires_at matches Some(fx) && p.1.value@ == fv@ && p.1.expires_at == fx),
        r is Err ==> (r matches Err(e) && e is BadAuthenticationToken),
        ((access matches Some(a) && a.value is Some && a.expires_at is Some) && (
        refresh matches Some(f) && f.value is Some && f.expires_at is Some)) ==> r is Ok,
{
    let access_token = get_validated_token(access)?;
    let refresh_token = get_validated_token(refresh)?;
    Ok((access_token, refresh_token))
}

/// What the maintenance path must do about the credentials, judged
/// against the lookahead window.
#[derive(Debug, Clone, Copy, PartialEq, Eq, Structural)]
pub enum RefreshDecision {
    /// Both credentials are comfortably far from expiry.
    NoRefresh,
    /// Only the access credential is close to expiry: exchange the
    /// refresh credential for a new access credential.
    LightRefresh,
    /// The refresh credential itself is close to expiry: repeat the
    /// challenge/response handshake from scratch, replacing both
    /// credentials.
    FullReauth,
}

/// Time left until `expiry` as seen from `now`, saturating at zero.
pub open spec fn spec_remaining(expiry: u64, now: u64) -> u64 {
    if expiry >= now {
        (expiry - now) as u64
    } else {
        0
    }
}

/// The refresh decision for the given expiries, instant and lookahead
/// window. A full re-handshake supersedes a light refresh because an
/// expired refresh credential cannot mint a new access credential.
pub open spec fn spec_decide_refresh(
    access_expiry: u64,
    refresh_expiry: u64,
    now: u64,
    lookahead: u64,
) -> RefreshDecision {
    if spec_remaining(refresh_expiry, now) <= lookahead {
        RefreshDecision::FullReauth
    } else if spec_remaining(access_expiry, now) <= lookahead {
        RefreshDecision::LightRefresh
    } else {
        RefreshDecision::NoRefresh
    }
}

/// Decides between doing nothing, a lightweight access-credential
/// refresh, and a full re-handshake. Equality with the lookahead window
/// already triggers renewal, and a refresh credential within the window
/// forces a full re-handshake regardless of the access credential.
pub fn decide_refresh(access_expiry: u64, refresh_expiry: u64, now: u64, lookahead: u64) -> (r:
    RefreshDecision)
    ensures
        r == spec_decide_refresh(access_expiry, refresh_expiry, now, lookahead),
        spec_remaining(refresh_expiry, now) <= lookahead ==> r == RefreshDecision::FullReauth,
        (spec_remaining(refresh_expiry, now) > lookahead && spec_remaining(access_expiry, now)
            <= lookahead) ==> r == RefreshDecision::LightRefresh,
        (spec_remaining(refresh_expiry, now) > lookahead && spec_remaining(access_expiry, now)
            > lookahead) ==> r == RefreshDecision::NoRefresh,
{
    let access_remaining: u64 = if access_expiry >= now {
        access_expiry - now
    } else {
        0
    };
    let refresh_remaining: u64 = if refresh_expiry >= now {
        refresh_expiry - now
    } else {
        0
    };
    if refresh_remaining <= lookahead {
        RefreshDecision::FullReauth
    } else if access_remaining <= lookahead {
        RefreshDecision::LightRefresh
    } else {
        RefreshDecision::NoRefresh
    }
}

/// The lookahead window used by the maintenance tick: the maintenance
/// interval plus a quarter, so that any necessary rotation completes at
/// least one maintenance cycle before expiry. Saturates instead of
/// overflowing.
pub fn auth_refresh_lookahead(maintenance_interval_s: u64) -> (r: u64)
    ensures
        maintenance_interval_s * 5 <= u64::MAX ==> r == maintenance_interval_s * 5 / 4,
        maintenance_interval_s * 5 > u64::MAX ==> r == u64::MAX / 4,
{
    let scaled = if maintenance_interval_s <= u64::MAX / 5 {
        maintenance_interval_s * 5
    } else {
        u64::MAX
    };
    proof {
        if maintenance_interval_s <= u64::MAX / 5 {
            assert(maintenance_interval_s * 5 <= (u64::MAX / 5) * 5) by (nonlinear_arith)
                requires
                    maintenance_interval_s <= u64::MAX / 5,
            ;
        } else {
            assert(maintenance_interval_s * 5 >= (u64::MAX / 5 + 1) * 5) by (nonlinear_arith)
                requires
                    maintenance_interval_s >= u64::MAX / 5 + 1,
            ;
        }
    }
    scaled / 4
}

/// One emitted credential-rotation datapoint: the telemetry event name
/// and the running rotation count.
pub struct RotationReport {
    pub name: String,
    pub count: u64,
}

/// Applies a full re-handshake's outcome: the shared access credential
/// and the maintenance routine's private refresh credential are both
/// replaced wholesale, and the full-reauth counter is stepped under its
/// contracted telemetry name.
pub fn apply_full_reauth(
    shared_access: &SharedAccessCredential,
    refresh_token: &mut Credential,
    new_access: Credential,
    new_refresh: Credential,
    num_full_refreshes: &mut u64,
) -> (r: RotationReport)
    ensures
        *final(refresh_token) == new_refresh,
        *final(num_full_refreshes) == spec_saturating_add(*old(num_full_refreshes), 1),
        r.name@ == "relayer_stage-tokens_generated"@,
        r.count == *final(num_full_refreshes),
{
    shared_access.replace(new_access);
    *refresh_token = new_refresh;
    *num_full_refreshes = num_full_refreshes.saturating_add(1);
    RotationReport {
        name: String::from_str("relayer_stage-tokens_generated"),
        count: *num_full_refreshes,
    }
}

/// Applies a lightweight refresh's outcome: only the shared access
/// credential is replaced — the refresh credential is left untouched —
/// and the refresh counter is stepped under its contracted telemetry
/// name.
pub fn apply_light_refresh(
    shared_access: &SharedAccessCredential,
    new_access: Credential,
    num_refresh_access_token: &mut u64,
) -> (r: RotationReport)
    ensures
        *final(num_refresh_access_token) == spec_saturating_add(*old(num_refresh_access_token), 1),
        r.name@ == "relayer_stage-refresh_access_token"@,
        r.count == *final(num_refresh_access_token),
{
    shared_access.replace(new_access);
    *num_refresh_access_token = num_refresh_access_token.saturating_add(1);
    RotationReport {
        name: String::from_str("relayer_stage-refresh_access_token"),
        count: *num_refresh_access_token,
    }
}

} // verus!
