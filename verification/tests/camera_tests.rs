use shooter_core::camera::{
    on_hit_camera_shake, on_hit_camera_shake_with, CameraShakeEvent, CameraState,
};
use shooter_core::geom::Vec3;

fn v(x: i64, y: i64, z: i64) -> Vec3 {
    Vec3 { x, y, z }
}

#[test]
fn shake_events_are_clamped() {
    let mut state = CameraState::default();
    let mut camera = state.original_position;
    let events = vec![CameraShakeEvent { intensity: 1000 }; 5];
    on_hit_camera_shake_with(&mut state, &mut camera, &events, 16, 0, 0);
    // Duration caps at 250 milli-seconds, intensity at 1500 milli.
    assert_eq!(state.shake_duration, 250);
    assert_eq!(state.shake_intensity, 1500);
    // The shake was not yet running this tick, so the camera stood still.
    assert_eq!(camera, state.original_position);
}

#[test]
fn shake_jitters_scaled_by_intensity() {
    let mut state = CameraState {
        original_position: v(0, 20000, 2000),
        shake_duration: 200,
        shake_intensity: 1000,
    };
    let mut camera = v(5, 20000, 7);
    let events: Vec<CameraShakeEvent> = Vec::new();
    on_hit_camera_shake_with(&mut state, &mut camera, &events, 100, 99, -100);
    assert_eq!(state.shake_duration, 100);
    assert_eq!(state.shake_intensity, 1000);
    assert_eq!(camera, v(5 + 99, 20000, 7 - 100));
}

#[test]
fn shake_snaps_back_when_timer_runs_out() {
    let mut state = CameraState {
        original_position: v(0, 20000, 2000),
        shake_duration: 50,
        shake_intensity: 1200,
    };
    let mut camera = v(77, 20000, 2055);
    let events: Vec<CameraShakeEvent> = Vec::new();
    on_hit_camera_shake_with(&mut state, &mut camera, &events, 100, 10, 10);
    assert_eq!(camera, state.original_position);
    assert_eq!(state.shake_intensity, 0);
    assert!(state.shake_duration < 0);
}

#[test]
fn random_shake_offsets_stay_bounded() {
    let mut state = CameraState {
        original_position: v(0, 20000, 2000),
        shake_duration: 250,
        shake_intensity: 1500,
    };
    let mut camera = v(0, 20000, 2000);
    let events: Vec<CameraShakeEvent> = Vec::new();
    on_hit_camera_shake(&mut state, &mut camera, &events, 16);
    // Offsets are at most the draw range times the intensity: 150 milli.
    assert!(camera.x.abs() <= 150);
    assert!((camera.z - 2000).abs() <= 150);
    assert_eq!(camera.y, 20000);
}
