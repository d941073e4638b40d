use modern_camera::lease::{DeviceLease, LeaseError, LeaseMode};
use modern_camera::supervisor::{
    begin_capture, begin_preview, end_capture, finish_preview, stop_preview,
};

#[test]
fn lease_is_exclusive() {
    let mut lease = DeviceLease::new();
    assert_eq!(lease.mode(), LeaseMode::Free);
    assert_eq!(lease.acquire(LeaseMode::Preview), Ok(()));
    assert_eq!(lease.acquire(LeaseMode::Capturing), Err(LeaseError::Busy));
    assert_eq!(lease.acquire(LeaseMode::Preview), Err(LeaseError::Busy));
    assert_eq!(lease.mode(), LeaseMode::Preview);
}

#[test]
fn lease_refuses_free_mode() {
    let mut lease = DeviceLease::new();
    assert_eq!(lease.acquire(LeaseMode::Free), Err(LeaseError::InvalidMode));
    assert_eq!(lease.mode(), LeaseMode::Free);
}

#[test]
fn lease_records_one_subprocess() {
    let mut lease = DeviceLease::new();
    assert_eq!(lease.attach(7), Err(LeaseError::NoSlot));
    lease.acquire(LeaseMode::Capturing).unwrap();
    assert_eq!(lease.attach(7), Ok(()));
    assert_eq!(lease.attach(8), Err(LeaseError::NoSlot));
    assert_eq!(lease.child(), Some(7));
    assert_eq!(lease.release(), Some(7));
    assert_eq!(lease.mode(), LeaseMode::Free);
    assert_eq!(lease.child(), None);
}

#[test]
fn restarting_preview_hands_back_the_old_subprocess() {
    let mut lease = DeviceLease::new();
    assert_eq!(begin_preview(&mut lease), Ok(None));
    assert_eq!(finish_preview(&mut lease, Ok(100)), Ok(()));
    assert_eq!(lease.child(), Some(100));
    assert_eq!(begin_preview(&mut lease), Ok(Some(100)));
    assert_eq!(lease.mode(), LeaseMode::Preview);
    assert_eq!(lease.child(), None);
    assert_eq!(finish_preview(&mut lease, Ok(101)), Ok(()));
    assert_eq!(lease.child(), Some(101));
}

#[test]
fn failed_launch_frees_the_lease() {
    let mut lease = DeviceLease::new();
    begin_preview(&mut lease).unwrap();
    let r = finish_preview(&mut lease, Err("No such file or directory".to_string()));
    assert_eq!(r, Err("No such file or directory".to_string()));
    assert_eq!(lease.mode(), LeaseMode::Free);
    assert_eq!(lease.child(), None);
}

#[test]
fn stop_preview_is_idempotent() {
    let mut lease = DeviceLease::new();
    assert_eq!(stop_preview(&mut lease), None);
    begin_preview(&mut lease).unwrap();
    finish_preview(&mut lease, Ok(5)).unwrap();
    assert_eq!(stop_preview(&mut lease), Some(5));
    assert_eq!(stop_preview(&mut lease), None);
    assert_eq!(lease.mode(), LeaseMode::Free);
}

#[test]
fn capture_takes_over_from_preview() {
    let mut lease = DeviceLease::new();
    begin_preview(&mut lease).unwrap();
    finish_preview(&mut lease, Ok(42)).unwrap();
    assert_eq!(begin_capture(&mut lease), Ok(Some(42)));
    assert_eq!(lease.mode(), LeaseMode::Capturing);
    assert_eq!(lease.child(), None);
    assert_eq!(stop_preview(&mut lease), None);
    assert_eq!(lease.mode(), LeaseMode::Capturing);
}

#[test]
fn capture_blocks_preview_and_second_capture() {
    let mut lease = DeviceLease::new();
    assert_eq!(begin_capture(&mut lease), Ok(None));
    assert_eq!(begin_preview(&mut lease), Err(LeaseError::Busy));
    assert_eq!(begin_capture(&mut lease), Err(LeaseError::Busy));
    assert_eq!(lease.mode(), LeaseMode::Capturing);
    end_capture(&mut lease);
    assert_eq!(lease.mode(), LeaseMode::Free);
    assert_eq!(begin_preview(&mut lease), Ok(None));
    end_capture(&mut lease);
    assert_eq!(lease.mode(), LeaseMode::Preview);
}
