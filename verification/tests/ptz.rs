use onvif_ptz::ptz::{MovementKind, PtzCapabilities, PtzDirection};

fn caps(movements: Vec<MovementKind>, zoom: Vec<MovementKind>) -> PtzCapabilities {
    PtzCapabilities {
        profile_token: "p".to_string(),
        supported_movements: movements,
        supported_zoom: zoom,
    }
}

#[test]
fn preferred_relative_wins_regardless_of_others() {
    let c = caps(
        vec![MovementKind::Continuous, MovementKind::Absolute, MovementKind::Relative],
        vec![],
    );
    assert_eq!(c.preferred_movement(PtzDirection::Up), Some(MovementKind::Relative));
    assert_eq!(c.preferred_movement(PtzDirection::Left), Some(MovementKind::Relative));
}

#[test]
fn preferred_none_on_empty_group() {
    let c = caps(vec![], vec![]);
    assert_eq!(c.preferred_movement(PtzDirection::Up), None);
    assert_eq!(c.preferred_movement(PtzDirection::ZoomIn), None);
}

#[test]
fn preferred_priority_absolute_over_continuous() {
    let c = caps(vec![MovementKind::Continuous, MovementKind::Absolute], vec![]);
    assert_eq!(c.preferred_movement(PtzDirection::Down), Some(MovementKind::Absolute));
    let c = caps(vec![MovementKind::Continuous], vec![]);
    assert_eq!(c.preferred_movement(PtzDirection::Down), Some(MovementKind::Continuous));
}

#[test]
fn zoom_directions_use_zoom_group() {
    let c = caps(vec![MovementKind::Relative], vec![MovementKind::Continuous]);
    assert_eq!(c.preferred_movement(PtzDirection::ZoomIn), Some(MovementKind::Continuous));
    assert_eq!(c.preferred_movement(PtzDirection::ZoomOut), Some(MovementKind::Continuous));
    assert_eq!(c.preferred_movement(PtzDirection::Up), Some(MovementKind::Relative));
}

#[test]
fn is_zoom_classification() {
    assert!(!PtzDirection::Up.is_zoom());
    assert!(!PtzDirection::Down.is_zoom());
    assert!(!PtzDirection::Left.is_zoom());
    assert!(!PtzDirection::Right.is_zoom());
    assert!(PtzDirection::ZoomIn.is_zoom());
    assert!(PtzDirection::ZoomOut.is_zoom());
}

#[test]
fn direction_group_selects_by_axis() {
    let c = caps(vec![MovementKind::Relative], vec![MovementKind::Absolute]);
    assert_eq!(c.direction_group(PtzDirection::Right), &vec![MovementKind::Relative]);
    assert_eq!(c.direction_group(PtzDirection::ZoomOut), &vec![MovementKind::Absolute]);
}
