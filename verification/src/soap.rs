//! SOAP 1.2 request bodies for the four ONVIF operations used:
//! GetProfiles, RelativeMove, ContinuousMove and Stop.
//!
//! Vector components are tenths (a displacement or velocity of 0.1 per
//! step), held as integers and rendered with one decimal digit, so the
//! direction-to-vector mapping is exact.

use vstd::prelude::*;
use vstd::string::StringExecFns;

verus! {

use crate::ptz::PtzDirection;

/// One decimal digit as text.
pub open spec fn spec_digit_str(d: int) -> Seq<char> {
    if d == 0 {
        "0"@
    } else if d == 1 {
        "1"@
    } else if d == 2 {
        "2"@
    } else if d == 3 {
        "3"@
    } else if d == 4 {
        "4"@
    } else if d == 5 {
        "5"@
    } else if d == 6 {
        "6"@
    } else if d == 7 {
        "7"@
    } else if d == 8 {
        "8"@
    } else {
        "9"@
    }
}

fn digit_str(d: u32) -> (r: &'static str)
    requires
        d <= 9,
    ensures
        r@ == spec_digit_str(d as int),
{
    match d {
        0 => "0",
        1 => "1",
        2 => "2",
        3 => "3",
        4 => "4",
        5 => "5",
        6 => "6",
        7 => "7",
        8 => "8",
        _ => "9",
    }
}

/// `t` tenths rendered with one decimal digit: 1 is "0.1", -1 is "-0.1",
/// 0 is "0.0".
pub open spec fn spec_tenths(t: int) -> Seq<char> {
    if t < 0 {
        "-0."@ + spec_digit_str(-t)
    } else {
        "0."@ + spec_digit_str(t)
    }
}

pub fn render_tenths(t: i32) -> (r: String)
    requires
        -9 <= t <= 9,
    ensures
        r@ == spec_tenths(t as int),
{
    let mut r: String;
    if t < 0 {
        r = "-0.".to_owned();
        r.append(digit_str((-t) as u32));
    } else {
        r = "0.".to_owned();
        r.append(digit_str(t as u32));
    }
    r
}

/// The (pan-or-zoom, tilt) vector for a direction, in tenths: magnitude one
/// tenth on the participating axis, sign positive for `Up`, `Right` and
/// `ZoomIn`, negative for `Down`, `Left` and `ZoomOut`, and the
/// non-participating pan/tilt axis fixed at zero.
pub open spec fn spec_move_vector(direction: PtzDirection) -> (int, int) {
    match direction {
        PtzDirection::Up => (0int, 1int),
        PtzDirection::Down => (0int, -1int),
        PtzDirection::Left => (-1int, 0int),
        PtzDirection::Right => (1int, 0int),
        PtzDirection::ZoomIn => (1int, 0int),
        PtzDirection::ZoomOut => (-1int, 0int),
    }
}

pub fn move_vector(direction: PtzDirection) -> (r: (i32, i32))
    ensures
        (r.0 as int, r.1 as int) == spec_move_vector(direction),
{
    match direction {
        PtzDirection::Up => (0, 1),
        PtzDirection::Down => (0, -1),
        PtzDirection::Left => (-1, 0),
        PtzDirection::Right => (1, 0),
        PtzDirection::ZoomIn => (1, 0),
        PtzDirection::ZoomOut => (-1, 0),
    }
}

/// The direction a movement vector stands for: the inverse of
/// `spec_move_vector`, read on the axis group given by `zoom`.
pub open spec fn spec_direction_from_vector(zoom: bool, x: int, y: int) -> Option<PtzDirection> {
    if zoom {
        if x == 1 && y == 0 {
            Some(PtzDirection::ZoomIn)
        } else if x == -1 && y == 0 {
            Some(PtzDirection::ZoomOut)
        } else {
            None
        }
    } else {
        if x == 0 && y == 1 {
            Some(PtzDirection::Up)
        } else if x == 0 && y == -1 {
            Some(PtzDirection::Down)
        } else if x == -1 && y == 0 {
            Some(PtzDirection::Left)
        } else if x == 1 && y == 0 {
            Some(PtzDirection::Right)
        } else {
            None
        }
    }
}

pub fn direction_from_vector(zoom: bool, x: i32, y: i32) -> (r: Option<PtzDirection>)
    ensures
        r == spec_direction_from_vector(zoom, x as int, y as int),
{
    if zoom {
        if x == 1 && y == 0 {
            Some(PtzDirection::ZoomIn)
        } else if x == -1 && y == 0 {
            Some(PtzDirection::ZoomOut)
        } else {
            None
        }
    } else {
        if x == 0 && y == 1 {
            Some(PtzDirection::Up)
        } else if x == 0 && y == -1 {
            Some(PtzDirection::Down)
        } else if x == -1 && y == 0 {
            Some(PtzDirection::Left)
        } else if x == 1 && y == 0 {
            Some(PtzDirection::Right)
        } else {
            None
        }
    }
}

/// Law: encoding a direction as its movement vector and decoding the
/// vector back on the same axis group returns that direction, for all six
/// directions.
pub proof fn lemma_vector_round_trip(direction: PtzDirection)
    ensures
        ({
            let v = spec_move_vector(direction);
            spec_direction_from_vector(direction.spec_is_zoom(), v.0, v.1) == Some(direction)
        }),
{
}

/// The translation (or velocity) element: a `Zoom` element carrying the
/// vector's first component for zoom directions, a `PanTilt` element
/// carrying both components for pan/tilt directions.
pub open spec fn spec_translation(direction: PtzDirection) -> Seq<char> {
    let v = spec_move_vector(direction);
    if direction.spec_is_zoom() {
        "<tt:Zoom x=\""@ + spec_tenths(v.0) + "\" xmlns:tt=\"http://www.onvif.org/ver10/schema\"/>"@
    } else {
        "<tt:PanTilt x=\""@ + spec_tenths(v.0) + "\" y=\""@ + spec_tenths(v.1)
            + "\" xmlns:tt=\"http://www.onvif.org/ver10/schema\"/>"@
    }
}

fn translation_element(direction: PtzDirection) -> (r: String)
    ensures
        r@ == spec_translation(direction),
{
    let v = move_vector(direction);
    let mut r: String;
    if direction.is_zoom() {
        r = "<tt:Zoom x=\"".to_owned();
        let x = render_tenths(v.0);
        r.append(x.as_str());
        r.append("\" xmlns:tt=\"http://www.onvif.org/ver10/schema\"/>");
    } else {
        r = "<tt:PanTilt x=\"".to_owned();
        let x = render_tenths(v.0);
        r.append(x.as_str());
        r.append("\" y=\"");
        let y = render_tenths(v.1);
        r.append(y.as_str());
        r.append("\" xmlns:tt=\"http://www.onvif.org/ver10/schema\"/>");
    }
    r
}

/// The GetProfiles envelope: an empty body operation under the media
/// namespace, with the security header in the SOAP header.
pub open spec fn spec_media_get_profiles_body(security_header: Seq<char>) -> Seq<char> {
    "\n        <s:Envelope xmlns:s=\"http://www.w3.org/2003/05/soap-envelope\"\n            xmlns:media=\"http://www.onvif.org/ver10/media/wsdl\">\n            <s:Header>"@
        + security_header
        + "</s:Header>\n            <s:Body>\n                <media:GetProfiles/>\n            </s:Body>\n        </s:Envelope>\n        "@
}

pub fn media_get_profiles_body(security_header: &str) -> (r: String)
    ensures
        r@ == spec_media_get_profiles_body(security_header@),
{
    let mut r: String =
        "\n        <s:Envelope xmlns:s=\"http://www.w3.org/2003/05/soap-envelope\"\n            xmlns:media=\"http://www.onvif.org/ver10/media/wsdl\">\n            <s:Header>".to_owned();
    r.append(security_header);
    r.append(
        "</s:Header>\n            <s:Body>\n                <media:GetProfiles/>\n            </s:Body>\n        </s:Envelope>\n        ",
    );
    r
}

/// The RelativeMove envelope: one bounded translation of the direction's
/// vector for the given profile.
pub open spec fn spec_relative_move_body(
    profile_token: Seq<char>,
    direction: PtzDirection,
    security_header: Seq<char>,
) -> Seq<char> {
    "\n        <s:Envelope xmlns:s=\"http://www.w3.org/2003/05/soap-envelope\"\n            xmlns:ptz=\"http://www.onvif.org/ver20/ptz/wsdl\">\n            <s:Header>"@
        + security_header
        + "</s:Header>\n            <s:Body>\n                <ptz:RelativeMove>\n                    <ptz:ProfileToken>"@
        + profile_token
        + "</ptz:ProfileToken>\n                    <ptz:Translation>\n                        "@
        + spec_translation(direction)
        + "\n                    </ptz:Translation>\n                </ptz:RelativeMove>\n            </s:Body>\n        </s:Envelope>\n        "@
}

pub fn ptz_move_relative_body(
    profile_token: &str,
    direction: PtzDirection,
    security_header: &str,
) -> (r: String)
    ensures
        r@ == spec_relative_move_body(profile_token@, direction, security_header@),
{
    let mut r: String =
        "\n        <s:Envelope xmlns:s=\"http://www.w3.org/2003/05/soap-envelope\"\n            xmlns:ptz=\"http://www.onvif.org/ver20/ptz/wsdl\">\n            <s:Header>".to_owned();
    r.append(security_header);
    r.append(
        "</s:Header>\n            <s:Body>\n                <ptz:RelativeMove>\n                    <ptz:ProfileToken>",
    );
    r.append(profile_token);
    r.append("</ptz:ProfileToken>\n                    <ptz:Translation>\n                        ");
    let translation = translation_element(direction);
    r.append(translation.as_str());
    r.append(
        "\n                    </ptz:Translation>\n                </ptz:RelativeMove>\n            </s:Body>\n        </s:Envelope>\n        ",
    );
    r
}

/// The ContinuousMove envelope: the direction's vector read as a velocity
/// for the given profile; movement lasts until a Stop request.
pub open spec fn spec_continuous_start_body(
    profile_token: Seq<char>,
    direction: PtzDirection,
    security_header: Seq<char>,
) -> Seq<char> {
    "\n        <s:Envelope xmlns:s=\"http://www.w3.org/2003/05/soap-envelope\"\n            xmlns:ptz=\"http://www.onvif.org/ver20/ptz/wsdl\">\n            <s:Header>"@
        + security_header
        + "</s:Header>\n            <s:Body>\n                <ptz:ContinuousMove>\n                    <ptz:ProfileToken>"@
        + profile_token
        + "</ptz:ProfileToken>\n                    <ptz:Velocity>\n                        "@
        + spec_translation(direction)
        + "\n                    </ptz:Velocity>\n                </ptz:ContinuousMove>\n            </s:Body>\n        </s:Envelope>\n        "@
}

pub fn ptz_move_continuous_start_body(
    profile_token: &str,
    direction: PtzDirection,
    security_header: &str,
) -> (r: String)
    ensures
        r@ == spec_continuous_start_body(profile_token@, direction, security_header@),
{
    let mut r: String =
        "\n        <s:Envelope xmlns:s=\"http://www.w3.org/2003/05/soap-envelope\"\n            xmlns:ptz=\"http://www.onvif.org/ver20/ptz/wsdl\">\n            <s:Header>".to_owned();
    r.append(security_header);
    r.append(
        "</s:Header>\n            <s:Body>\n                <ptz:ContinuousMove>\n                    <ptz:ProfileToken>",
    );
    r.append(profile_token);
    r.append("</ptz:ProfileToken>\n                    <ptz:Velocity>\n                        ");
    let translation = translation_element(direction);
    r.append(translation.as_str());
    r.append(
        "\n                    </ptz:Velocity>\n                </ptz:ContinuousMove>\n            </s:Body>\n        </s:Envelope>\n        ",
    );
    r
}

/// The Stop envelope: stops both the pan/tilt and the zoom axes
/// unconditionally, whichever axis was moving.
pub open spec fn spec_stop_body(profile_token: Seq<char>, security_header: Seq<char>) -> Seq<
    char,
> {
    "\n        <s:Envelope xmlns:s=\"http://www.w3.org/2003/05/soap-envelope\"\n            xmlns:ptz=\"http://www.onvif.org/ver20/ptz/wsdl\">\n            <s:Header>"@
        + security_header
        + "</s:Header>\n            <s:Body>\n                <ptz:Stop>\n                    <ptz:ProfileToken>"@
        + profile_token
        + "</ptz:ProfileToken>\n                    <ptz:PanTilt>true</ptz:PanTilt>\n                    <ptz:Zoom>true</ptz:Zoom>\n                </ptz:Stop>\n            </s:Body>\n        </s:Envelope>\n        "@
}

pub fn ptz_stop_body(profile_token: &str, security_header: &str) -> (r: String)
    ensures
        r@ == spec_stop_body(profile_token@, security_header@),
{
    let mut r: String =
        "\n        <s:Envelope xmlns:s=\"http://www.w3.org/2003/05/soap-envelope\"\n            xmlns:ptz=\"http://www.onvif.org/ver20/ptz/wsdl\">\n            <s:Header>".to_owned();
    r.append(security_header);
    r.append(
        "</s:Header>\n            <s:Body>\n                <ptz:Stop>\n                    <ptz:ProfileToken>",
    );
    r.append(profile_token);
    r.append(
        "</ptz:ProfileToken>\n                    <ptz:PanTilt>true</ptz:PanTilt>\n                    <ptz:Zoom>true</ptz:Zoom>\n                </ptz:Stop>\n            </s:Body>\n        </s:Envelope>\n        ",
    );
    r
}

} // verus!
