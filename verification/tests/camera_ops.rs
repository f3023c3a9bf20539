use creative_camera::ops::{
    creative_camera_create, creative_camera_move, creative_camera_set_enabled,
};
use creative_camera::table::CameraTable;
use creative_camera::types::{CreativeCamera, DbVector3, Identity};

fn ident(n: u128) -> Identity {
    Identity { hi: 0, lo: n }
}

fn vec3(x: f32, y: f32, z: f32) -> DbVector3 {
    DbVector3 { x: x.to_bits(), y: y.to_bits(), z: z.to_bits() }
}

#[test]
fn create_makes_zeroed_disabled_record() {
    let mut table = CameraTable::new();
    let a = ident(1);
    let r = creative_camera_create(&mut table, a);
    assert!(r.is_ok());
    let cam = table.get(a).unwrap();
    assert_eq!(cam.identity, a);
    assert_eq!(cam.enabled, false);
    assert_eq!(cam.position, vec3(0.0, 0.0, 0.0));
    assert_eq!(cam.rotation, vec3(0.0, 0.0, 0.0));
}

#[test]
fn create_twice_fails_and_preserves_record() {
    let mut table = CameraTable::new();
    let a = ident(2);
    assert!(creative_camera_create(&mut table, a).is_ok());
    assert!(creative_camera_set_enabled(&mut table, a, true).is_ok());
    let before = table.get(a).unwrap();
    let r = creative_camera_create(&mut table, a);
    assert_eq!(r.unwrap_err(), "Creative camera already exists");
    assert_eq!(table.get(a).unwrap(), before);
}

#[test]
fn set_enabled_updates_flag_and_keeps_pose() {
    let mut table = CameraTable::new();
    let a = ident(3);
    assert!(creative_camera_create(&mut table, a).is_ok());
    let p = vec3(4.0, 5.0, 6.0);
    let q = vec3(0.0, 45.0, 0.0);
    assert!(creative_camera_move(&mut table, a, p, q).is_ok());
    assert!(creative_camera_set_enabled(&mut table, a, true).is_ok());
    let cam = table.get(a).unwrap();
    assert_eq!(cam.enabled, true);
    assert_eq!(cam.position, p);
    assert_eq!(cam.rotation, q);
    assert!(creative_camera_set_enabled(&mut table, a, false).is_ok());
    let cam = table.get(a).unwrap();
    assert_eq!(cam.enabled, false);
    assert_eq!(cam.position, p);
    assert_eq!(cam.rotation, q);
}

#[test]
fn set_enabled_without_record_is_a_silent_no_op() {
    let mut table = CameraTable::new();
    let a = ident(4);
    let r = creative_camera_set_enabled(&mut table, a, true);
    assert!(r.is_ok());
    assert!(table.get(a).is_none());
}

#[test]
fn move_updates_pose_and_keeps_enabled() {
    let mut table = CameraTable::new();
    let a = ident(5);
    assert!(creative_camera_create(&mut table, a).is_ok());
    assert!(creative_camera_set_enabled(&mut table, a, true).is_ok());
    let p = vec3(-1.5, 2.25, 10.0);
    let q = vec3(30.0, 0.0, -90.0);
    assert!(creative_camera_move(&mut table, a, p, q).is_ok());
    let cam = table.get(a).unwrap();
    assert_eq!(cam.enabled, true);
    assert_eq!(cam.position, p);
    assert_eq!(cam.rotation, q);
}

#[test]
fn move_without_record_reports_not_found() {
    let mut table = CameraTable::new();
    let a = ident(6);
    let b = ident(7);
    assert!(creative_camera_create(&mut table, a).is_ok());
    let before = table.get(a).unwrap();
    let r = creative_camera_move(&mut table, b, vec3(1.0, 1.0, 1.0), vec3(2.0, 2.0, 2.0));
    assert_eq!(r.unwrap_err(), "Creative camera not found");
    assert!(table.get(b).is_none());
    assert_eq!(table.get(a).unwrap(), before);
}

#[test]
fn distinct_identities_do_not_interfere() {
    let mut table = CameraTable::new();
    let a = ident(8);
    let b = ident(9);
    assert!(creative_camera_create(&mut table, a).is_ok());
    assert!(creative_camera_create(&mut table, b).is_ok());
    assert!(creative_camera_move(&mut table, a, vec3(1.0, 2.0, 3.0), vec3(0.0, 90.0, 0.0)).is_ok());
    assert!(creative_camera_set_enabled(&mut table, b, true).is_ok());
    let cam_a = table.get(a).unwrap();
    assert_eq!(cam_a.enabled, false);
    assert_eq!(cam_a.position, vec3(1.0, 2.0, 3.0));
    assert_eq!(cam_a.rotation, vec3(0.0, 90.0, 0.0));
    let cam_b = table.get(b).unwrap();
    assert_eq!(cam_b.enabled, true);
    assert_eq!(cam_b.position, vec3(0.0, 0.0, 0.0));
    assert_eq!(cam_b.rotation, vec3(0.0, 0.0, 0.0));
}

#[test]
fn full_session_scenario() {
    let mut table = CameraTable::new();
    let a = ident(10);
    let b = ident(11);

    assert!(creative_camera_create(&mut table, a).is_ok());
    let cam = table.get(a).unwrap();
    assert_eq!(cam.enabled, false);
    assert_eq!(cam.position, vec3(0.0, 0.0, 0.0));
    assert_eq!(cam.rotation, vec3(0.0, 0.0, 0.0));

    assert!(creative_camera_set_enabled(&mut table, a, true).is_ok());
    let cam = table.get(a).unwrap();
    assert_eq!(cam.enabled, true);

    assert!(creative_camera_move(&mut table, a, vec3(1.0, 2.0, 3.0), vec3(0.0, 90.0, 0.0)).is_ok());
    let cam = table.get(a).unwrap();
    assert_eq!(cam.enabled, true);
    assert_eq!(cam.position, vec3(1.0, 2.0, 3.0));
    assert_eq!(cam.rotation, vec3(0.0, 90.0, 0.0));

    let r = creative_camera_move(&mut table, b, vec3(1.0, 1.0, 1.0), vec3(0.0, 0.0, 0.0));
    assert_eq!(r.unwrap_err(), "Creative camera not found");
}

#[test]
fn upsert_replaces_and_get_finds() {
    let mut table = CameraTable::new();
    let a = ident(12);
    let cam = CreativeCamera {
        identity: a,
        enabled: true,
        position: vec3(9.0, 9.0, 9.0),
        rotation: vec3(0.0, 180.0, 0.0),
    };
    table.upsert(cam);
    assert_eq!(table.get(a).unwrap(), cam);
    let replaced = CreativeCamera { enabled: false, ..cam };
    table.upsert(replaced);
    assert_eq!(table.get(a).unwrap(), replaced);
}

#[test]
fn default_vector_is_zero() {
    let v = DbVector3::default();
    assert_eq!(v, vec3(0.0, 0.0, 0.0));
    assert_eq!(f32::from_bits(v.x), 0.0);
    assert_eq!(f32::from_bits(v.y), 0.0);
    assert_eq!(f32::from_bits(v.z), 0.0);
}
