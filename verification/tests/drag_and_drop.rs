use myconnect::drop::{Drag, Dropped};

#[test]
fn a_drop_is_complete_once_every_hovered_file_has_dropped() {
    let mut drag = Drag::default();
    drag.hover();
    drag.hover();
    assert!(drag.is_active());
    let gesture = match drag.drop_file("/a".into()) {
        Dropped::Settle(gesture) => gesture,
        other => panic!("{other:?}"),
    };
    match drag.drop_file("/b".into()) {
        Dropped::Done(paths) => assert_eq!(paths, vec!["/a".to_string(), "/b".to_string()]),
        other => panic!("{other:?}"),
    }
    assert!(!drag.is_active());
    // Its timer finds nothing left.
    assert_eq!(drag.settled(gesture), None);
}

#[test]
fn a_drop_without_a_count_is_complete_once_it_settles() {
    let mut drag = Drag::default();
    let Dropped::Settle(gesture) = drag.drop_file("/a".into()) else {
        panic!("waits for more");
    };
    assert!(matches!(drag.drop_file("/b".into()), Dropped::Wait));
    assert_eq!(drag.settled(gesture), Some(vec!["/a".to_string(), "/b".to_string()]));
}

#[test]
fn leaving_forgets_the_drag_and_an_old_timer_leaves_a_new_one_alone() {
    let mut drag = Drag::default();
    drag.hover();
    drag.leave();
    assert!(!drag.is_active());

    drag.hover();
    drag.hover();
    let Dropped::Settle(first) = drag.drop_file("/a".into()) else {
        panic!("waits for more");
    };
    drag.leave();
    drag.hover();
    drag.hover();
    let Dropped::Settle(second) = drag.drop_file("/b".into()) else {
        panic!("a new drag");
    };
    assert_eq!(drag.settled(first), None);
    assert_eq!(drag.settled(second), Some(vec!["/b".to_string()]));
}
