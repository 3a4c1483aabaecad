use launchk::xpc_handle::HandleAction;
use launchk::xpc_handle::ObjectHandle;

#[test]
fn adopted_reference_is_released_once() {
    let mut wrapper = ObjectHandle::adopt(0x1000);
    assert_eq!(wrapper, ObjectHandle { handle: 0x1000, held: true });
    assert_eq!(wrapper.release(), HandleAction::Release);
    assert_eq!(wrapper.release(), HandleAction::Nothing);
    assert_eq!(wrapper.release(), HandleAction::Nothing);
    assert_eq!(wrapper.handle, 0x1000);
}

#[test]
fn no_object_nothing_to_do() {
    let mut wrapper = ObjectHandle::adopt(0);
    assert!(!wrapper.held);
    assert_eq!(wrapper.release(), HandleAction::Nothing);
    let (mut wrapper, action) = ObjectHandle::retain(0);
    assert_eq!(action, HandleAction::Nothing);
    assert_eq!(wrapper.release(), HandleAction::Nothing);
}

#[test]
fn wrappers_leave_the_count_where_it_was() {
    for count in [0usize, 1, 2, 17] {
        let mut references: i64 = 1;
        let mut wrappers = Vec::new();
        for _ in 0..count {
            let (wrapper, action) = ObjectHandle::retain(0x2000);
            assert_eq!(action, HandleAction::Retain);
            references += 1;
            wrappers.push(wrapper);
        }
        assert_eq!(references, 1 + count as i64);
        for wrapper in wrappers.iter_mut() {
            match wrapper.release() {
                HandleAction::Release => references -= 1,
                HandleAction::Retain => references += 1,
                HandleAction::Nothing => {}
            }
        }
        assert_eq!(references, 1);
        for wrapper in wrappers.iter_mut() {
            assert_eq!(wrapper.release(), HandleAction::Nothing);
        }
        assert_eq!(references, 1);
    }
}
