use onvif_ptz::ptz::PtzDirection;
use onvif_ptz::soap::{
    direction_from_vector, media_get_profiles_body, move_vector, ptz_move_continuous_start_body,
    ptz_move_relative_body, ptz_stop_body, render_tenths,
};

const ALL_DIRECTIONS: [PtzDirection; 6] = [
    PtzDirection::Up,
    PtzDirection::Down,
    PtzDirection::Left,
    PtzDirection::Right,
    PtzDirection::ZoomIn,
    PtzDirection::ZoomOut,
];

#[test]
fn render_tenths_one_decimal_digit() {
    assert_eq!(render_tenths(0), "0.0");
    assert_eq!(render_tenths(1), "0.1");
    assert_eq!(render_tenths(-1), "-0.1");
    assert_eq!(render_tenths(9), "0.9");
    assert_eq!(render_tenths(-9), "-0.9");
}

#[test]
fn move_vector_sign_and_axis_mapping() {
    assert_eq!(move_vector(PtzDirection::Up), (0, 1));
    assert_eq!(move_vector(PtzDirection::Down), (0, -1));
    assert_eq!(move_vector(PtzDirection::Left), (-1, 0));
    assert_eq!(move_vector(PtzDirection::Right), (1, 0));
    assert_eq!(move_vector(PtzDirection::ZoomIn), (1, 0));
    assert_eq!(move_vector(PtzDirection::ZoomOut), (-1, 0));
}

#[test]
fn vector_round_trip_all_directions() {
    for d in ALL_DIRECTIONS {
        let (x, y) = move_vector(d);
        assert_eq!(direction_from_vector(d.is_zoom(), x, y), Some(d));
    }
}

#[test]
fn relative_body_vectors() {
    let up = ptz_move_relative_body("14", PtzDirection::Up, "");
    assert!(up.contains(r#"<tt:PanTilt x="0.0" y="0.1""#));
    let down = ptz_move_relative_body("14", PtzDirection::Down, "");
    assert!(down.contains(r#"<tt:PanTilt x="0.0" y="-0.1""#));
    let left = ptz_move_relative_body("14", PtzDirection::Left, "");
    assert!(left.contains(r#"<tt:PanTilt x="-0.1" y="0.0""#));
    let right = ptz_move_relative_body("14", PtzDirection::Right, "");
    assert!(right.contains(r#"<tt:PanTilt x="0.1" y="0.0""#));
    let zoom_in = ptz_move_relative_body("14", PtzDirection::ZoomIn, "");
    assert!(zoom_in.contains(r#"<tt:Zoom x="0.1""#));
    assert!(!zoom_in.contains("PanTilt"));
    let zoom_out = ptz_move_relative_body("14", PtzDirection::ZoomOut, "");
    assert!(zoom_out.contains(r#"<tt:Zoom x="-0.1""#));
}

#[test]
fn relative_body_structure() {
    let body = ptz_move_relative_body("tok7", PtzDirection::Up, "<sec/>");
    assert!(body.contains("<ptz:RelativeMove>"));
    assert!(body.contains("<ptz:ProfileToken>tok7</ptz:ProfileToken>"));
    assert!(body.contains("<s:Header><sec/></s:Header>"));
    assert!(body.contains(r#"xmlns:ptz="http://www.onvif.org/ver20/ptz/wsdl""#));
}

#[test]
fn continuous_start_body_vectors() {
    let up = ptz_move_continuous_start_body("14", PtzDirection::Up, "");
    assert!(up.contains("<ptz:ContinuousMove>"));
    assert!(up.contains("<ptz:Velocity>"));
    assert!(up.contains(r#"<tt:PanTilt x="0.0" y="0.1""#));
    let zoom_out = ptz_move_continuous_start_body("14", PtzDirection::ZoomOut, "");
    assert!(zoom_out.contains(r#"<tt:Zoom x="-0.1""#));
}

#[test]
fn stop_body_addresses_both_axes() {
    let body = ptz_stop_body("14", "");
    assert!(body.contains("<ptz:Stop>"));
    assert!(body.contains("<ptz:ProfileToken>14</ptz:ProfileToken>"));
    assert!(body.contains("<ptz:PanTilt>true</ptz:PanTilt>"));
    assert!(body.contains("<ptz:Zoom>true</ptz:Zoom>"));
}

#[test]
fn get_profiles_body_exact() {
    let body = media_get_profiles_body("<sec/>");
    let want = "\n        <s:Envelope xmlns:s=\"http://www.w3.org/2003/05/soap-envelope\"\n            xmlns:media=\"http://www.onvif.org/ver10/media/wsdl\">\n            <s:Header><sec/></s:Header>\n            <s:Body>\n                <media:GetProfiles/>\n            </s:Body>\n        </s:Envelope>\n        ";
    assert_eq!(body, want);
}
