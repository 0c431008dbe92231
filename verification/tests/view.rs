use lineview::view::View;

#[test]
fn adjust_scrolls_up_to_a_line_above() {
    let mut v = View { y: 5, height: 3 };
    v.adjust(2);
    assert_eq!(v.y, 2);
    assert_eq!(v.height, 3);
}

#[test]
fn adjust_scrolls_down_until_the_line_is_the_last_row() {
    let mut v = View { y: 0, height: 3 };
    v.adjust(9);
    assert_eq!(v.y, 7);
    v.adjust(10);
    assert_eq!(v.y, 8);
    assert_eq!(v.height, 3);
}

#[test]
fn adjust_leaves_a_visible_line_alone() {
    let mut v = View { y: 4, height: 3 };
    v.adjust(4);
    assert_eq!(v.y, 4);
    v.adjust(5);
    assert_eq!(v.y, 4);
    v.adjust(6);
    assert_eq!(v.y, 4);
    v.adjust(7);
    assert_eq!(v.y, 5);
}

#[test]
fn adjust_keeps_the_line_in_the_window() {
    let mut v = View { y: 0, height: 4 };
    let lines = [0usize, 3, 4, 17, 16, 2, 2, 100, 97, 96, 0];
    for line in lines {
        v.adjust(line);
        assert!(v.y <= line && line < v.y + v.height);
    }
}

#[test]
fn adjust_near_the_largest_line() {
    let mut v = View { y: usize::MAX - 1, height: usize::MAX };
    v.adjust(usize::MAX);
    assert_eq!(v.y, usize::MAX - 1);
    let mut w = View { y: 0, height: 1 };
    w.adjust(usize::MAX);
    assert_eq!(w.y, usize::MAX);
}

#[test]
fn adjust_a_window_without_rows() {
    let mut v = View { y: 0, height: 0 };
    v.adjust(0);
    assert_eq!(v.y, 1);
    v.adjust(0);
    assert_eq!(v.y, 0);
}
