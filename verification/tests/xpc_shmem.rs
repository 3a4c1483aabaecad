use launchk::xpc_error::XPCError;
use launchk::xpc_object::XPCObject;
use launchk::xpc_shmem::ShmemRelease;
use launchk::xpc_shmem::XPCShmem;

#[test]
fn allocation_failure_is_an_io_error() {
    let r = XPCShmem::new(3, 4096, 3, 0, "(os/kern) no space available".to_string());
    assert_eq!(
        r.unwrap_err(),
        XPCError::IOError("(os/kern) no space available".to_string())
    );
}

#[test]
fn every_code_but_zero_is_a_failure() {
    for code in [-308, -1, 1, 5, i32::MIN, i32::MAX] {
        let r = XPCShmem::new(3, 4096, code, 0x7000, format!("code {}", code));
        assert_eq!(r.unwrap_err(), XPCError::IOError(format!("code {}", code)));
    }
    assert!(XPCShmem::new(3, 4096, 0, 0x7000, "unused".to_string()).is_ok());
}

#[test]
fn segment_and_object_name_the_same_bytes() {
    let shmem = XPCShmem::new(3, 4096, 0, 0x7000, String::new()).unwrap();
    assert_eq!(shmem.task, 3);
    assert_eq!(shmem.size, 4096);
    assert_eq!(shmem.region, 0x7000);
    assert_eq!(shmem.xpc_object, XPCObject::Shmem { region: 0x7000, size: 4096 });
}

#[test]
fn region_stays_while_the_object_is_held_elsewhere() {
    let mut shmem = XPCShmem::new(3, 4096, 0, 0x7000, String::new()).unwrap();
    assert_eq!(shmem.release(2), ShmemRelease::Skipped);
    assert_eq!(shmem.region, 0x7000);
    assert_eq!(shmem.release(17), ShmemRelease::Skipped);
    assert_eq!(shmem.region, 0x7000);
    assert_eq!(
        shmem.release(1),
        ShmemRelease::Deallocate { task: 3, region: 0x7000, size: 4096 }
    );
    assert_eq!(shmem.region, 0);
    assert_eq!(shmem.release(1), ShmemRelease::Nothing);
    assert_eq!(shmem.release(2), ShmemRelease::Nothing);
}

#[test]
fn no_region_nothing_to_release() {
    let mut shmem = XPCShmem::new(3, 0, 0, 0, String::new()).unwrap();
    assert_eq!(shmem.release(1), ShmemRelease::Nothing);
    assert_eq!(shmem.region, 0);
}

#[test]
fn count_of_nobody_gives_nothing_back() {
    let mut shmem = XPCShmem::new(3, 8, 0, 0x10, String::new()).unwrap();
    assert_eq!(shmem.release(0), ShmemRelease::Skipped);
    assert_eq!(shmem.region, 0x10);
}
