//! ONVIF orchestration: credential extraction from a connection URL,
//! the discovery outcome, and the per-direction movement plan with the
//! two-phase continuous-move timing.

use vstd::prelude::*;

verus! {

use crate::ptz::{CapabilitiesView, MovementKind, PtzCapabilities, PtzDirection};
use crate::wsse::{create_wsse_token, lemma_token_nonempty, spec_wsse_token};

#[verifier::external_type_specification]
#[verifier::external_body]
pub struct ExUrl(url::Url);

/// The URL's user-info name part as url::Url::username reports it, the
/// empty string when there is none; a function of the URL value alone.
pub uninterp spec fn url_username(u: url::Url) -> Seq<char>;

/// The URL's user-info password part as url::Url::password reports it;
/// a function of the URL value alone.
pub uninterp spec fn url_password(u: url::Url) -> Option<Seq<char>>;

/// Relies on url::Url::username.
#[verifier::external_body]
fn url_username_of(u: &url::Url) -> (r: String)
    ensures
        r@ == url_username(*u),
{
    u.username().to_owned()
}

/// Relies on url::Url::password.
#[verifier::external_body]
fn url_password_of(u: &url::Url) -> (r: Option<String>)
    ensures
        r is Some <==> url_password(*u) is Some,
        r is Some ==> r.unwrap()@ == url_password(*u).unwrap(),
{
    u.password().map(|p| p.to_owned())
}

/// Relies on url::Url::set_username("") and url::Url::set_password(None):
/// on a URL with a host they clear the user-info, and a parsed URL
/// without a host (or with the file scheme) can carry no user-info in
/// the first place — its parser rejects credentials there — so the
/// copy's user-info is empty either way.
#[verifier::external_body]
fn strip_userinfo(u: &url::Url) -> (r: url::Url)
    ensures
        url_username(r).len() == 0,
        url_password(r) is None,
{
    let mut r = u.clone();
    let _ = r.set_username("");
    let _ = r.set_password(None);
    r
}

/// Whether a URL embeds usable credentials: a non-empty username and a
/// non-empty password.
pub open spec fn spec_has_credentials(u: url::Url) -> bool {
    url_username(u).len() > 0 && url_password(u) is Some && url_password(u).unwrap().len() > 0
}

/// Splits a connection URL into a credential-free URL and a security
/// header: a WS-Security UsernameToken built from the embedded
/// credentials when both are present and non-empty, the empty header
/// otherwise. The returned URL's user-info is always empty, with or
/// without embedded credentials, so it is safe to log or reuse.
pub fn extract_credentials(url: &url::Url) -> (r: (url::Url, String))
    ensures
        url_username(r.0).len() == 0,
        url_password(r.0) is None,
        !spec_has_credentials(*url) ==> r.1@ == Seq::<char>::empty(),
        spec_has_credentials(*url) ==> exists|nonce: Seq<u8>, created: Seq<char>|
            nonce.len() == 16 && r.1@ == spec_wsse_token(
                url_username(*url),
                url_password(*url).unwrap(),
                nonce,
                created,
            ),
        spec_has_credentials(*url) ==> r.1@.len() > 0,
{
    let username = url_username_of(url);
    let password = url_password_of(url);
    let stripped = strip_userinfo(url);
    let mut header = String::new();
    match password {
        Some(p) => {
            if !username.as_str().is_empty() && !p.as_str().is_empty() {
                header = create_wsse_token(username.as_str(), p.as_str());
                proof {
                    let (nonce, created) = choose|nonce: Seq<u8>, created: Seq<char>|
                        nonce.len() == 16 && header@ == spec_wsse_token(
                            username@,
                            p@,
                            nonce,
                            created,
                        );
                    assert(header@ == spec_wsse_token(
                        url_username(*url),
                        url_password(*url).unwrap(),
                        nonce,
                        created,
                    ));
                    lemma_token_nonempty(
                        url_username(*url),
                        url_password(*url).unwrap(),
                        nonce,
                        created,
                    );
                }
            }
        },
        None => {},
    }
    (stripped, header)
}

/// A discovery failure: the camera could not be reached, or it answered
/// with no usable profile.
#[derive(Debug, Copy, Clone, PartialEq, Eq, Structural)]
pub enum MonitorOnvifError {
    FetchMediaProfilesError,
    NoMediaProfiles,
}

impl MonitorOnvifError {
    pub fn message(&self) -> (r: &'static str)
        ensures
            self is FetchMediaProfilesError ==> r@ == "onvif fetch media profiles"@,
            self is NoMediaProfiles ==> r@ == "onvif no media profiles"@,
    {
        match self {
            MonitorOnvifError::FetchMediaProfilesError => "onvif fetch media profiles",
            MonitorOnvifError::NoMediaProfiles => "onvif no media profiles",
        }
    }
}

/// The outcome of a discovery round: the first parsed capability entry,
/// or `NoMediaProfiles` when the response carried none.
pub fn discovery_outcome(parsed: Vec<PtzCapabilities>) -> (r: Result<
    PtzCapabilities,
    MonitorOnvifError,
>)
    ensures
        parsed@.len() > 0 ==> r is Ok && r.unwrap()@ == parsed@[0]@,
        parsed@.len() == 0 ==> r == Err::<PtzCapabilities, MonitorOnvifError>(
            MonitorOnvifError::NoMediaProfiles,
        ),
{
    let mut parsed = parsed;
    if parsed.len() > 0 {
        Ok(parsed.remove(0))
    } else {
        Err(MonitorOnvifError::NoMediaProfiles)
    }
}

/// One step of a movement plan: a SOAP request to render and post, or a
/// timed wait in milliseconds.
#[derive(Debug, Copy, Clone, PartialEq, Eq, Structural)]
pub enum PtzStep {
    PostRelative,
    PostContinuousStart,
    WaitMillis(u64),
    PostStop,
}

/// A movement failure: the absolute strategy is a named stub — it needs
/// a coordinate-space negotiation not yet implemented — and a command
/// request that could not be delivered is reported, not swallowed.
#[derive(Debug, Copy, Clone, PartialEq, Eq, Structural)]
pub enum PtzMoveError {
    AbsoluteNotImplemented,
    CommandFailed,
}

/// The wait between a continuous start and its stop: 1000 ms for zoom
/// directions, 500 ms for pan/tilt directions.
pub open spec fn spec_continuous_wait_millis(direction: PtzDirection) -> u64 {
    if direction.spec_is_zoom() {
        1000u64
    } else {
        500u64
    }
}

/// The ordered command sequence for a direction under a profile's
/// capabilities: nothing when no strategy is selected; one relative
/// request for `Relative`; start, timed wait, stop for `Continuous`;
/// the named stub failure for `Absolute`.
pub open spec fn spec_move_plan(caps: CapabilitiesView, direction: PtzDirection) -> Result<
    Seq<PtzStep>,
    PtzMoveError,
> {
    match caps.spec_preferred_movement(direction) {
        None => Ok(Seq::empty()),
        Some(MovementKind::Relative) => Ok(seq![PtzStep::PostRelative]),
        Some(MovementKind::Continuous) => Ok(
            seq![
                PtzStep::PostContinuousStart,
                PtzStep::WaitMillis(spec_continuous_wait_millis(direction)),
                PtzStep::PostStop,
            ],
        ),
        Some(MovementKind::Absolute) => Err(PtzMoveError::AbsoluteNotImplemented),
    }
}

/// Plans the movement for `direction`: the steps the caller is to
/// perform in order, a post addressing `caps`' profile token rendered
/// with a fresh security header at each post step.
pub fn move_ptz_plan(caps: &PtzCapabilities, direction: PtzDirection) -> (r: Result<
    Vec<PtzStep>,
    PtzMoveError,
>)
    ensures
        r is Ok ==> spec_move_plan(caps@, direction) is Ok && r.unwrap()@ == spec_move_plan(
            caps@,
            direction,
        ).unwrap(),
        r is Err ==> spec_move_plan(caps@, direction) == Err::<Seq<PtzStep>, PtzMoveError>(
            r.unwrap_err(),
        ),
{
    match caps.preferred_movement(direction) {
        None => Ok(Vec::new()),
        Some(MovementKind::Relative) => {
            let mut steps: Vec<PtzStep> = Vec::new();
            steps.push(PtzStep::PostRelative);
            proof {
                assert(steps@ =~= seq![PtzStep::PostRelative]);
            }
            Ok(steps)
        },
        Some(MovementKind::Continuous) => {
            let wait: u64 = if direction.is_zoom() {
                1000
            } else {
                500
            };
            let mut steps: Vec<PtzStep> = Vec::new();
            steps.push(PtzStep::PostContinuousStart);
            steps.push(PtzStep::WaitMillis(wait));
            steps.push(PtzStep::PostStop);
            proof {
                assert(steps@ =~= seq![
                    PtzStep::PostContinuousStart,
                    PtzStep::WaitMillis(spec_continuous_wait_millis(direction)),
                    PtzStep::PostStop,
                ]);
            }
            Ok(steps)
        },
        Some(MovementKind::Absolute) => Err(PtzMoveError::AbsoluteNotImplemented),
    }
}

/// Law: whenever the continuous strategy is selected, the plan is
/// exactly start, a wait, stop, and the wait is 1000 ms for a zoom
/// direction and 500 ms for a pan/tilt direction.
pub proof fn lemma_continuous_two_phase_wait(caps: CapabilitiesView, direction: PtzDirection)
    requires
        caps.spec_preferred_movement(direction) == Some(MovementKind::Continuous),
    ensures
        spec_move_plan(caps, direction) == Ok::<Seq<PtzStep>, PtzMoveError>(
            seq![
                PtzStep::PostContinuousStart,
                PtzStep::WaitMillis(
                    if direction.spec_is_zoom() {
                        1000u64
                    } else {
                        500u64
                    },
                ),
                PtzStep::PostStop,
            ],
        ),
{
}

} // verus!
