use gitdash::list_window::{ListWindow, ScrollDirection};

#[test]
fn reset_smaller_size() {
    let mut window = ListWindow::new(0, 0, 0, 10, 25);
    window.reset();

    assert_eq!(window.max, 9);
    assert_eq!(window.min, 0);
    assert_eq!(window.position, 0);
}

#[test]
fn reset_larger_size() {
    let mut window = ListWindow::new(0, 0, 0, 100, 25);
    window.reset();

    assert_eq!(window.max, 24);
    assert_eq!(window.min, 0);
    assert_eq!(window.position, 0);
}

#[test]
fn scroll_up_single_top() {
    let mut window = ListWindow::new(0, 24, 0, 100, 25);
    window.scroll_up(1);

    assert_eq!(window.min, 0);
    assert_eq!(window.max, 24);
    assert_eq!(window.position, 0);
}

#[test]
fn scroll_up_single_not_top() {
    let mut window = ListWindow::new(5, 29, 29, 100, 25);
    window.scroll_up(1);

    assert_eq!(window.min, 4);
    assert_eq!(window.max, 28);
    assert_eq!(window.position, 4);
}

#[test]
fn scroll_up_page_top() {
    let mut window = ListWindow::new(0, 24, 0, 100, 25);
    window.scroll_up(12);

    assert_eq!(window.min, 0);
    assert_eq!(window.max, 24);
    assert_eq!(window.position, 0);
}

#[test]
fn scroll_up_page_middle() {
    let mut window = ListWindow::new(10, 34, 10, 100, 25);
    window.scroll_up(12);

    assert_eq!(window.min, 0);
    assert_eq!(window.max, 24);
    assert_eq!(window.position, 0);
}

#[test]
fn scroll_up_page_bottom() {
    let mut window = ListWindow::new(30, 54, 54, 100, 25);
    window.scroll_up(12);

    assert_eq!(window.min, 18);
    assert_eq!(window.max, 42);
    assert_eq!(window.position, 18);
}

#[test]
fn scroll_down_single_bottom() {
    let mut window = ListWindow::new(10, 19, 19, 20, 10);
    window.scroll_down(1);

    assert_eq!(window.min, 10);
    assert_eq!(window.max, 19);
    assert_eq!(window.position, 19);
}

#[test]
fn scroll_down_single_not_bottom() {
    let mut window = ListWindow::new(0, 9, 0, 20, 10);
    window.scroll_down(1);

    assert_eq!(window.min, 1);
    assert_eq!(window.max, 10);
    assert_eq!(window.position, 10);
}

#[test]
fn scroll_down_page_bottom() {
    let mut window = ListWindow::new(75, 99, 75, 100, 25);
    window.scroll_down(12);

    assert_eq!(window.min, 75);
    assert_eq!(window.max, 99);
    assert_eq!(window.position, 99);
}

#[test]
fn scroll_down_page_middle() {
    let mut window = ListWindow::new(70, 94, 70, 100, 25);
    window.scroll_down(12);

    assert_eq!(window.min, 75);
    assert_eq!(window.max, 99);
    assert_eq!(window.position, 99);
}

#[test]
fn scroll_down_page_top() {
    let mut window = ListWindow::new(30, 54, 54, 100, 25);
    window.scroll_down(12);

    assert_eq!(window.min, 42);
    assert_eq!(window.max, 66);
    assert_eq!(window.position, 66);
}

#[test]
fn scroll_dispatches_by_direction() {
    let mut window = ListWindow::new(5, 29, 29, 100, 25);
    window.scroll(ScrollDirection::Up, 1);
    assert_eq!((window.min, window.max, window.position), (4, 28, 4));

    let mut window = ListWindow::new(75, 99, 75, 100, 25);
    window.scroll(ScrollDirection::Down, 12);
    assert_eq!((window.min, window.max, window.position), (75, 99, 99));
}

#[test]
fn scroll_on_empty_list_is_a_no_op() {
    let mut window = ListWindow::new(0, 0, 0, 0, 25);
    window.reset();
    window.scroll_down(3);
    assert_eq!((window.min, window.max, window.position), (0, 0, 0));
    window.scroll_up(2);
    assert_eq!((window.min, window.max, window.position), (0, 0, 0));
}

#[test]
fn position_is_none_on_empty_list() {
    let window = ListWindow::new(0, 0, 0, 0, 25);
    assert_eq!(window.position(), None);
    let window = ListWindow::new(0, 9, 4, 20, 10);
    assert_eq!(window.position(), Some(4));
}

#[test]
fn setters_take_effect_on_next_reset() {
    let mut window = ListWindow::new(0, 0, 0, 0, 0);
    window.set_size(10);
    window.set_height(25);
    assert_eq!(window.height(), 25);
    window.reset();
    assert_eq!((window.min, window.max, window.position), (0, 9, 0));
}
