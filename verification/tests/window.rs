use modal_editor::edit::window::{Window, Windows};

#[test]
fn test_windows() {
    let mut wins = Windows::default();
    wins.add(None);
    wins.add(None);
    wins.add(None);
    assert_eq!(wins.count(), 3);

    wins.next(true);
    wins.next(true);
    wins.next(true);
    assert_eq!(wins.current(), 0);

    wins.prev(true);
    assert_eq!(wins.current(), 2);

    wins.next(false);
    assert_eq!(wins.current(), 2);

    wins.prev(false);
    wins.prev(false);
    wins.prev(false);
    assert_eq!(wins.current(), 0);
}

#[test]
fn cycling_three_windows() {
    let mut wins = Windows::default();
    assert_eq!(wins.add(None), 0);
    assert_eq!(wins.add(None), 1);
    assert_eq!(wins.add(None), 2);
    assert_eq!(wins.count(), 3);
    assert_eq!(wins.winid(), Some(0));
    wins.next(true);
    assert_eq!(wins.winid(), Some(1));
    wins.next(true);
    assert_eq!(wins.winid(), Some(2));
    wins.next(true);
    assert_eq!(wins.winid(), Some(0));
    for _ in 0..5 {
        wins.prev(false);
        assert_eq!(wins.winid(), Some(0));
    }
}

#[test]
fn empty_table_has_no_focus() {
    let mut wins = Windows::default();
    assert_eq!(wins.winid(), None);
    assert_eq!(wins.count(), 0);
    wins.delete();
    wins.next(true);
    wins.prev(true);
    wins.next(false);
    wins.prev(false);
    assert_eq!(wins.winid(), None);
    assert_eq!(wins.count(), 0);
    assert!(wins.get(0).is_none());
}

#[test]
fn delete_moves_the_focus_down() {
    let mut wins = Windows::default();
    wins.add(None);
    wins.add(Some(7));
    wins.add(None);
    wins.next(false);
    assert_eq!(wins.winid(), Some(1));
    wins.delete();
    assert_eq!(wins.count(), 2);
    assert_eq!(wins.winid(), Some(0));
    assert!(wins.get(1).is_none());
    assert_eq!(wins.idcount(), 3);
    wins.next(false);
    assert_eq!(wins.winid(), Some(2));
    wins.next(false);
    assert_eq!(wins.winid(), Some(2));
    wins.next(true);
    assert_eq!(wins.winid(), Some(0));
    wins.prev(true);
    assert_eq!(wins.winid(), Some(2));
    wins.delete();
    assert_eq!(wins.winid(), Some(0));
    assert_eq!(wins.idcount(), 1);
    assert_eq!(wins.add(None), 1);
}

#[test]
fn delete_of_the_first_window_focuses_the_next() {
    let mut wins = Windows::default();
    wins.add(None);
    wins.add(None);
    wins.add(None);
    wins.delete();
    assert_eq!(wins.winid(), Some(1));
    assert_eq!(wins.count(), 2);
    assert_eq!(wins.idcount(), 3);
}

#[test]
fn delete_of_the_last_window_empties_the_table() {
    let mut wins = Windows::with_buffer(4);
    assert_eq!(wins.winid(), Some(0));
    assert_eq!(wins.get(0).unwrap().buf(), Some(4));
    wins.delete();
    assert_eq!(wins.winid(), None);
    assert_eq!(wins.count(), 0);
    assert_eq!(wins.idcount(), 0);
    assert_eq!(wins.add(None), 0);
    assert_eq!(wins.winid(), Some(0));
}

#[test]
fn window_names_its_buffer() {
    let mut win = Window::default();
    assert_eq!(win.buf(), None);
    win.set_buf(3);
    assert_eq!(win.buf(), Some(3));
    assert_eq!(Window::new(9).buf(), Some(9));
}

#[test]
fn windows_get_mut_changes_the_window_in_the_table() {
    let mut wins = Windows::default();
    wins.add(None);
    wins.add(Some(1));
    wins.get_mut(0).unwrap().set_buf(5);
    assert_eq!(wins.get(0).unwrap().buf(), Some(5));
    assert_eq!(wins.get(1).unwrap().buf(), Some(1));
    assert!(wins.get_mut(2).is_none());
}

#[test]
fn ids_come_in_order() {
    let mut wins = Windows::default();
    assert_eq!(wins.ids(), Vec::<usize>::new());
    wins.add(None);
    wins.add(None);
    wins.add(None);
    wins.add(None);
    assert_eq!(wins.ids(), vec![0, 1, 2, 3]);
    wins.next(false);
    wins.delete();
    assert_eq!(wins.ids(), vec![0, 2, 3]);
}
