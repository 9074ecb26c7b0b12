use winsafe::handles::{user_Haccel, Handle, ACCEL, ERROR, HACCEL};
use winsafe::system::ForeignSystem;

#[test]
fn accelerator_tables_pair_create_and_destroy() {
    let mut sys = ForeignSystem::new();
    let mut entries = vec![ACCEL { fVirt: 1, key: 0x41, cmd: 100 }, ACCEL { fVirt: 1, key: 0x42, cmd: 101 }];
    let h = HACCEL::CreateAcceleratorTable(&mut sys, &mut entries).unwrap();
    assert_eq!(h.ptr(), 1);
    let h2 = HACCEL::CreateAcceleratorTable(&mut sys, &mut entries).unwrap();
    assert_eq!(h2.ptr(), 2);
    assert!(h.DestroyAcceleratorTable(&mut sys));
    assert!(!h.DestroyAcceleratorTable(&mut sys));
    assert!(h2.DestroyAcceleratorTable(&mut sys));
    assert!(!HACCEL::from_ptr(9).DestroyAcceleratorTable(&mut sys));
}

#[test]
fn empty_accelerator_table_is_refused() {
    let mut sys = ForeignSystem::new();
    let mut entries: Vec<ACCEL> = Vec::new();
    assert_eq!(HACCEL::CreateAcceleratorTable(&mut sys, &mut entries), Err(ERROR { raw: 87 }));
    assert_eq!(sys.last_error(), 87);
}
