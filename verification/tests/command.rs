use lineview::buffer::Buffer;
use lineview::command::{command_for, Command, Key};
use lineview::display::display;

#[test]
fn arrow_and_named_keys_are_bound() {
    assert_eq!(command_for(Key::Right), Command::MoveRight);
    assert_eq!(command_for(Key::Left), Command::MoveLeft);
    assert_eq!(command_for(Key::Down), Command::MoveDown);
    assert_eq!(command_for(Key::Up), Command::MoveUp);
    assert_eq!(command_for(Key::End), Command::MoveEndOfLine);
    assert_eq!(command_for(Key::Home), Command::MoveStartOfLine);
    assert_eq!(command_for(Key::PageDown), Command::PageDown);
    assert_eq!(command_for(Key::PageUp), Command::PageUp);
}

#[test]
fn letters_are_bound() {
    assert_eq!(command_for(Key::Char('l')), Command::MoveRight);
    assert_eq!(command_for(Key::Char('j')), Command::MoveLeft);
    assert_eq!(command_for(Key::Char('k')), Command::MoveDown);
    assert_eq!(command_for(Key::Char('i')), Command::MoveUp);
    assert_eq!(command_for(Key::Char('L')), Command::MoveEndOfLine);
    assert_eq!(command_for(Key::Char('J')), Command::MoveStartOfLine);
    assert_eq!(command_for(Key::Char('K')), Command::PageDown);
    assert_eq!(command_for(Key::Char('I')), Command::PageUp);
    assert_eq!(command_for(Key::Char('>')), Command::MoveEnd);
    assert_eq!(command_for(Key::Char('<')), Command::MoveStart);
    assert_eq!(command_for(Key::Char('d')), Command::DeleteLine);
    assert_eq!(command_for(Key::Char('q')), Command::Quit);
}

#[test]
fn other_keys_are_ignored() {
    assert_eq!(command_for(Key::Other), Command::Ignore);
    assert_eq!(command_for(Key::Char('x')), Command::Ignore);
    assert_eq!(command_for(Key::Char('D')), Command::Ignore);
    assert_eq!(command_for(Key::Char('Q')), Command::Ignore);
    assert_eq!(command_for(Key::Char('\n')), Command::Ignore);
}

#[test]
fn execute_carries_out_the_command() {
    let mut b = Buffer::load(String::from("n"), String::from("p"), "abc\nde\nf\n", 24);
    assert!(b.execute(Command::MoveEndOfLine));
    assert_eq!(b.point(), 3);
    assert!(b.execute(Command::MoveDown));
    assert_eq!(b.point(), 4);
    assert!(b.execute(Command::MoveRight));
    assert_eq!(b.point(), 5);
    assert!(b.execute(Command::MoveLeft));
    assert_eq!(b.point(), 4);
    assert!(b.execute(Command::MoveEnd));
    assert_eq!(b.point(), 8);
    assert!(b.execute(Command::MoveStartOfLine));
    assert_eq!(b.point(), 7);
    assert!(b.execute(Command::MoveUp));
    assert_eq!(b.point(), 4);
    assert!(b.execute(Command::PageDown));
    assert_eq!(b.point(), 8);
    assert!(b.execute(Command::PageUp));
    assert_eq!(b.point(), 0);
    assert!(b.execute(Command::MoveEnd));
    assert!(b.execute(Command::MoveStart));
    assert_eq!(b.point(), 0);
    assert!(b.execute(Command::DeleteLine));
    assert_eq!(b.lines(), 2);
}

#[test]
fn execute_stops_on_quit_and_ignores_unbound_keys() {
    let mut b = Buffer::load(String::from("n"), String::from("p"), "abc\nde\nf\n", 24);
    b.move_right();
    assert!(b.execute(Command::Ignore));
    assert_eq!(b.point(), 1);
    assert_eq!(b.lines(), 3);
    assert!(!b.execute(Command::Quit));
    assert_eq!(b.point(), 1);
    assert_eq!(b.lines(), 3);
}

#[test]
fn handle_moves_and_gives_the_next_picture() {
    let mut b = Buffer::load(String::from("n"), String::from("p"), "abc\nde\nf\n", 24);
    let picture = b.handle(Key::Down);
    assert_eq!(b.point(), 4);
    assert_eq!(picture, Some(display(&b)));
    let picture = b.handle(Key::Char('l'));
    assert_eq!(b.point(), 5);
    assert_eq!(
        picture.unwrap(),
        "\x1b[1;1Habc\x1b[K\x1b[2;1Hde\x1b[K\x1b[3;1Hf\x1b[K\x1b[J\
         \x1b[24;1H\x1b[1m\x1b[38;5;4mn [p]  2:2/3\x1b[m\x1b[39m\x1b[K\
         \x1b[2;2H"
    );
}

#[test]
fn handle_draws_again_after_an_unbound_key() {
    let mut b = Buffer::load(String::from("n"), String::from("p"), "abc\nde\nf\n", 24);
    let before = display(&b);
    assert_eq!(b.handle(Key::Other), Some(before.clone()));
    assert_eq!(b.handle(Key::Char('z')), Some(before));
    assert_eq!(b.point(), 0);
}

#[test]
fn handle_gives_nothing_on_quit() {
    let mut b = Buffer::load(String::from("n"), String::from("p"), "abc\nde\nf\n", 24);
    b.move_down();
    assert_eq!(b.handle(Key::Char('q')), None);
    assert_eq!(b.point(), 4);
    assert_eq!(b.lines(), 3);
}
