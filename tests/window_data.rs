use ponsic_winsafe::safe_proc::{WM_CLOSE, WM_GETMINMAXINFO, WM_LBUTTONDOWN, WM_NCDESTROY};
use ponsic_winsafe::MinMaxInfo;
use ponsic_winsafe::{
    assert_cast, cast_checked, cast_for_message, dispatch, dispatch_as, to_raw_return, Event, Events, Pointee, Return, The,
    TypeMismatch, WindowBindData, WindowEvent, WindowHandle,
};
use std::any::TypeId;
use std::cell::Cell;

#[test]
fn bound_value_comes_back_through_accessor() {
    let mut slot = WindowBindData::new(42i32);
    assert!(slot.has_data());
    assert_eq!(slot.tag_id(), TypeId::of::<i32>());
    let the = assert_cast::<i32>(Some(&mut slot)).unwrap();
    assert!(the.has_value());
    assert_eq!(*the.as_ref().unwrap(), 42);
}

#[test]
fn cast_to_other_type_fails_fast() {
    let mut slot = WindowBindData::new(42i32);
    let r = cast_checked(Some(&mut slot), TypeId::of::<String>());
    assert_eq!(
        r.err(),
        Some(TypeMismatch { expected: TypeId::of::<String>(), found: TypeId::of::<i32>() })
    );
}

#[test]
fn absent_slot_gives_empty_accessor() {
    let mut the = assert_cast::<String>(None).unwrap();
    assert!(!the.has_value());
    assert!(the.as_ref().is_none());
    assert!(the.as_mut().is_none());
}

#[test]
fn writes_through_accessor_reach_the_slot() {
    let mut slot = WindowBindData::new(vec![1u8]);
    {
        let mut the = assert_cast::<Vec<u8>>(Some(&mut slot)).unwrap();
        if let Some(mut v) = the.as_mut() {
            v.push(2);
        }
    }
    let the = assert_cast::<Vec<u8>>(Some(&mut slot)).unwrap();
    assert_eq!(*the.as_ref().unwrap(), vec![1u8, 2]);
}

#[test]
fn settle_frees_on_last_message_only() {
    let mut slot = WindowBindData::new(String::from("state"));
    slot.settle(WM_CLOSE);
    assert!(slot.has_data());
    slot.settle(WM_NCDESTROY);
    assert!(!slot.has_data());
    assert_eq!(slot.take(), None);
}

#[test]
fn dispatch_hands_event_and_state_to_handler() {
    let mut slot = WindowBindData::new(10u32);
    let window = WindowHandle::from_raw(77);
    let r = dispatch(
        window,
        WM_LBUTTONDOWN,
        0,
        3 | (4 << 16),
        Pointee::Nothing,
        Some(&mut slot),
        |e: Events, mut the: The<u32>| {
            assert_eq!(e.window, WindowHandle::from_raw(77));
            if let Some(mut v) = the.as_mut() {
                *v += 1;
            }
            (e.event, Return::Data(5))
        },
    );
    let (event, ret) = r.unwrap();
    assert!(matches!(event, Event::Mouse { pos: (3, 4), .. }));
    assert_eq!(ret, Return::Data(5));
    assert_eq!(slot.take(), Some(11));
}

#[test]
fn accessor_after_destroy_has_no_value() {
    let mut slot = WindowBindData::new(5i64);
    let r = dispatch(
        WindowHandle::from_raw(1),
        WM_NCDESTROY,
        0,
        0,
        Pointee::Nothing,
        Some(&mut slot),
        |e: Events, the: The<i64>| {
            assert!(!the.has_value());
            (e.event, Return::Finish)
        },
    );
    assert_eq!(r.unwrap().1, Return::Finish);
    let the = assert_cast::<i64>(Some(&mut slot)).unwrap();
    assert!(!the.has_value());
}

#[test]
fn dispatch_rejects_state_of_another_type() {
    let mut slot = WindowBindData::new(1i32);
    let r = cast_checked(Some(&mut slot), TypeId::of::<i64>());
    assert!(r.is_err());
    let ok = dispatch(
        WindowHandle::from_raw(1),
        WM_CLOSE,
        0,
        0,
        Pointee::Nothing,
        None::<&mut WindowBindData<i64>>,
        |e: Events, the: The<i64>| {
            assert_eq!(e.event, Event::Window(WindowEvent::Close));
            assert!(!the.has_value());
            (e.event, Return::Default)
        },
    );
    assert_eq!(ok.unwrap().1, Return::Default);
}

#[test]
fn raw_return_mapping() {
    let calls = Cell::new(0);
    assert_eq!(to_raw_return(Return::Finish, || { calls.set(calls.get() + 1); 9 }), 0);
    assert_eq!(to_raw_return(Return::Data(42), || { calls.set(calls.get() + 1); 9 }), 42);
    assert_eq!(calls.get(), 0);
    assert_eq!(to_raw_return(Return::Default, || { calls.set(calls.get() + 1); 9 }), 9);
    assert_eq!(calls.get(), 1);
}

#[test]
fn dispatch_as_fails_on_other_type_without_calling_handler() {
    let mut slot = WindowBindData::new(3u8);
    let called = Cell::new(false);
    let r = dispatch_as(
        TypeId::of::<u16>(),
        WindowHandle::from_raw(1),
        WM_CLOSE,
        0,
        0,
        Pointee::Nothing,
        Some(&mut slot),
        |e: Events, _the: The<u8>| {
            called.set(true);
            (e.event, Return::Finish)
        },
    );
    assert_eq!(
        r.err(),
        Some(TypeMismatch { expected: TypeId::of::<u16>(), found: TypeId::of::<u8>() })
    );
    assert!(!called.get());
    assert!(slot.has_data());
}

#[test]
fn cast_for_last_message_empties_slot() {
    let mut slot = WindowBindData::new(9u8);
    let the = cast_for_message(Some(&mut slot), TypeId::of::<u8>(), WM_LBUTTONDOWN).unwrap();
    assert_eq!(*the.as_ref().unwrap(), 9);
    let the = cast_for_message(Some(&mut slot), TypeId::of::<u8>(), WM_NCDESTROY).unwrap();
    assert!(!the.has_value());
    assert!(!slot.has_data());
    let bad = cast_for_message(Some(&mut slot), TypeId::of::<i8>(), WM_NCDESTROY);
    assert!(bad.is_err());
}

#[test]
fn handler_changes_to_in_out_fields_come_back() {
    let info = MinMaxInfo {
        max_width: 100,
        max_height: 100,
        max_left: 0,
        max_top: 0,
        min_track_width: 10,
        min_track_height: 10,
        max_track_width: 100,
        max_track_height: 100,
    };
    let r = dispatch(
        WindowHandle::from_raw(1),
        WM_GETMINMAXINFO,
        0,
        0x1000,
        Pointee::MinMax(info),
        None::<&mut WindowBindData<()>>,
        |e: Events, _the: The<()>| match e.event {
            Event::Window(WindowEvent::SizeRange(mut v)) => {
                v.min_track_width = 300;
                (Event::Window(WindowEvent::SizeRange(v)), Return::Finish)
            }
            other => (other, Return::Default),
        },
    );
    let (event, ret) = r.unwrap();
    assert_eq!(ret, Return::Finish);
    assert_eq!(
        event,
        Event::Window(WindowEvent::SizeRange(MinMaxInfo { min_track_width: 300, ..info }))
    );
}
