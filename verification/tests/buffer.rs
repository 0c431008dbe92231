use lineview::buffer::Buffer;

fn buffer(source: &str, rows: u16) -> Buffer {
    Buffer::load(String::from("sample"), String::from("/tmp/sample"), source, rows)
}

fn sample() -> Buffer {
    buffer("abc\nde\nf\n", 24)
}

fn ten_lines() -> String {
    let mut s = String::new();
    for i in 0..10 {
        s.push_str(&format!("line {}\n", i));
    }
    s
}

#[test]
fn load_starts_at_the_top() {
    let b = sample();
    assert_eq!(b.name().as_str(), "sample");
    assert_eq!(b.path().as_str(), "/tmp/sample");
    assert_eq!(b.lines(), 3);
    assert_eq!(b.text().len(), 8);
    assert_eq!(b.point(), 0);
    assert_eq!(b.window().y, 0);
    assert_eq!(b.window().height, 23);
}

#[test]
fn end_of_line_then_down_then_delete() {
    let mut b = sample();
    b.move_end_of_line();
    assert_eq!(b.point(), 3);
    b.move_down();
    assert_eq!(b.point(), 4);
    b.move_up();
    assert_eq!(b.point(), 0);
    b.delete_line();
    assert_eq!(b.lines(), 2);
    assert_eq!(b.text().len(), 4);
    assert_eq!(b.point(), 0);
    assert_eq!(b.text().line(0).as_str(), "de");
    assert_eq!(b.text().line(1).as_str(), "f");
}

#[test]
fn delete_line_from_the_end_of_the_first_line() {
    let mut b = sample();
    b.move_end_of_line();
    b.delete_line();
    assert_eq!(b.lines(), 2);
    assert_eq!(b.text().len(), 4);
    assert_eq!(b.point(), 0);
}

#[test]
fn empty_file_stays_at_zero() {
    let mut b = buffer("", 24);
    assert_eq!(b.lines(), 0);
    b.move_right();
    assert_eq!(b.point(), 0);
    b.move_left();
    assert_eq!(b.point(), 0);
    b.move_down();
    assert_eq!(b.point(), 0);
    b.move_up();
    assert_eq!(b.point(), 0);
    b.move_end_of_line();
    assert_eq!(b.point(), 0);
    b.move_start_of_line();
    assert_eq!(b.point(), 0);
    b.move_end();
    assert_eq!(b.point(), 0);
    b.move_start();
    assert_eq!(b.point(), 0);
    b.page_down();
    assert_eq!(b.point(), 0);
    b.page_up();
    assert_eq!(b.point(), 0);
    b.delete_line();
    assert_eq!(b.point(), 0);
    assert_eq!(b.lines(), 0);
    assert_eq!(b.window().y, 0);
}

#[test]
fn moving_down_to_the_last_line_scrolls_the_window() {
    let mut b = buffer(&ten_lines(), 4);
    assert_eq!(b.window().height, 3);
    for _ in 0..9 {
        b.move_down();
    }
    assert_eq!(b.text().line_at(b.point()).0, 9);
    assert_eq!(b.window().y, 7);
}

#[test]
fn moving_back_up_scrolls_only_when_the_line_leaves_the_window() {
    let mut b = buffer(&ten_lines(), 4);
    for _ in 0..9 {
        b.move_down();
    }
    b.move_up();
    assert_eq!(b.window().y, 7);
    b.move_up();
    assert_eq!(b.window().y, 7);
    b.move_up();
    assert_eq!(b.window().y, 6);
    assert_eq!(b.text().line_at(b.point()).0, 6);
}

#[test]
fn move_right_stops_at_the_end_of_the_text() {
    let mut b = sample();
    for expected in 1..=8 {
        b.move_right();
        assert_eq!(b.point(), expected);
    }
    b.move_right();
    assert_eq!(b.point(), 8);
}

#[test]
fn move_left_stops_at_the_start_of_the_text() {
    let mut b = sample();
    b.move_right();
    b.move_right();
    b.move_left();
    assert_eq!(b.point(), 1);
    b.move_left();
    assert_eq!(b.point(), 0);
    b.move_left();
    assert_eq!(b.point(), 0);
}

#[test]
fn right_then_left_returns() {
    for p in 0..8 {
        let mut b = sample();
        for _ in 0..p {
            b.move_right();
        }
        assert_eq!(b.point(), p);
        b.move_right();
        b.move_left();
        assert_eq!(b.point(), p);
    }
    let mut b = sample();
    b.move_end();
    b.move_right();
    b.move_left();
    assert_eq!(b.point(), 7);
}

#[test]
fn end_of_line_then_start_of_line_stays_on_the_line() {
    for p in 0..=8 {
        let mut b = sample();
        for _ in 0..p {
            b.move_right();
        }
        let (line, start, len) = b.text().line_at(b.point());
        b.move_end_of_line();
        assert_eq!(b.point(), start + len);
        assert_eq!(b.text().line_at(b.point()).0, line);
        b.move_start_of_line();
        assert_eq!(b.point(), start);
        assert_eq!(b.text().line_at(b.point()), (line, start, len));
    }
}

#[test]
fn move_down_goes_to_the_start_of_the_next_line() {
    let mut b = sample();
    b.move_right();
    b.move_down();
    assert_eq!(b.point(), 4);
    b.move_down();
    assert_eq!(b.point(), 7);
    b.move_down();
    assert_eq!(b.point(), 8);
    b.move_down();
    assert_eq!(b.point(), 8);
}

#[test]
fn move_up_goes_to_the_start_of_the_previous_line() {
    let mut b = sample();
    b.move_end();
    assert_eq!(b.point(), 8);
    b.move_up();
    assert_eq!(b.point(), 4);
    b.move_right();
    b.move_up();
    assert_eq!(b.point(), 0);
    b.move_right();
    b.move_up();
    assert_eq!(b.point(), 0);
}

#[test]
fn move_end_and_move_start() {
    let source = ten_lines();
    let mut b = buffer(&source, 4);
    b.move_end();
    assert_eq!(b.point(), b.text().len());
    assert_eq!(b.point(), source.len() - 1);
    assert_eq!(b.window().y, 7);
    b.move_start();
    assert_eq!(b.point(), 0);
    assert_eq!(b.window().y, 0);
}

#[test]
fn page_down_and_page_up_move_by_the_rows_of_the_terminal() {
    let mut b = buffer(&ten_lines(), 4);
    b.page_down();
    assert_eq!(b.text().line_at(b.point()).0, 4);
    assert_eq!(b.window().y, 2);
    b.page_down();
    assert_eq!(b.text().line_at(b.point()).0, 8);
    b.page_down();
    assert_eq!(b.point(), b.text().len());
    assert_eq!(b.window().y, 7);
    b.page_up();
    assert_eq!(b.text().line_at(b.point()).0, 5);
    assert_eq!(b.window().y, 5);
    b.page_up();
    assert_eq!(b.text().line_at(b.point()).0, 1);
    b.page_up();
    assert_eq!(b.point(), 0);
    assert_eq!(b.window().y, 0);
}

#[test]
fn delete_line_on_the_last_line_clamps_the_cursor() {
    let mut b = sample();
    b.move_end();
    b.delete_line();
    assert_eq!(b.lines(), 2);
    assert_eq!(b.text().len(), 6);
    assert_eq!(b.point(), 6);
    assert_eq!(b.text().line_at(b.point()), (1, 4, 2));
}

#[test]
fn delete_line_in_the_middle_keeps_the_cursor_at_the_line_start() {
    let mut b = sample();
    b.move_down();
    b.move_right();
    b.delete_line();
    assert_eq!(b.text().line(0).as_str(), "abc");
    assert_eq!(b.text().line(1).as_str(), "f");
    assert_eq!(b.point(), 4);
    assert_eq!(b.text().len(), 5);
}

#[test]
fn delete_line_until_nothing_is_left() {
    let mut b = sample();
    b.delete_line();
    b.delete_line();
    assert_eq!(b.lines(), 1);
    b.delete_line();
    assert_eq!(b.lines(), 0);
    assert_eq!(b.text().len(), 0);
    assert_eq!(b.point(), 0);
    b.delete_line();
    assert_eq!(b.lines(), 0);
    assert_eq!(b.point(), 0);
}

#[test]
fn delete_line_scrolls_back_when_the_text_gets_short() {
    let mut b = buffer(&ten_lines(), 4);
    b.move_end();
    assert_eq!(b.window().y, 7);
    for _ in 0..9 {
        b.delete_line();
        let line = b.text().line_at(b.point()).0;
        assert!(b.window().y <= line && line < b.window().y + 3);
    }
    assert_eq!(b.lines(), 1);
    assert_eq!(b.window().y, 0);
}

#[test]
fn every_movement_keeps_the_cursor_on_a_visible_line() {
    let mut b = buffer(&ten_lines(), 4);
    let mut seed: u32 = 12345;
    for _ in 0..2000 {
        seed = seed.wrapping_mul(1103515245).wrapping_add(12345);
        match (seed >> 16) % 11 {
            0 => b.move_right(),
            1 => b.move_left(),
            2 => b.move_down(),
            3 => b.move_up(),
            4 => b.move_end_of_line(),
            5 => b.move_start_of_line(),
            6 => b.move_start(),
            7 => b.move_end(),
            8 => b.page_down(),
            9 => b.page_up(),
            _ => {
                if (seed >> 8) % 16 == 0 {
                    b.delete_line()
                }
            }
        }
        assert!(b.point() <= b.text().len());
        let (line, start, len) = b.text().line_at(b.point());
        if b.lines() == 0 {
            assert_eq!(b.point(), 0);
        } else {
            assert!(line < b.lines());
            assert!(start <= b.point() && b.point() <= start + len);
        }
        assert!(b.window().y <= line && line < b.window().y + b.window().height);
    }
}

#[test]
fn position_is_column_and_line() {
    let mut b = sample();
    assert_eq!(b.position(), (0, 0));
    b.move_end_of_line();
    assert_eq!(b.position(), (3, 0));
    b.move_right();
    assert_eq!(b.position(), (0, 1));
    b.move_right();
    assert_eq!(b.position(), (1, 1));
    b.move_end();
    assert_eq!(b.position(), (1, 2));
    let e = buffer("", 24);
    assert_eq!(e.position(), (0, 0));
}
