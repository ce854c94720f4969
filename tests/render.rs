use boxframe::{render_square, Align, Frame, LayoutError, Title};

fn titled(text: &str, align: Align) -> Title {
    let mut t = Title::new();
    t.set_title(text.to_string());
    t.set_align(align);
    t
}

fn frame(title: &Title, width: usize, height: usize) -> Frame {
    match render_square(title, (width, height)) {
        Ok(f) => f,
        Err(e) => panic!("unexpected {:?}", e),
    }
}

#[test]
fn empty_title_twenty_by_five() {
    let f = frame(&Title::new(), 20, 5);
    assert_eq!(
        f.lines,
        vec![
            "┌──────────────────┐".to_string(),
            "│                  │".to_string(),
            "│                  │".to_string(),
            "│                  │".to_string(),
            "└──────────────────┘".to_string(),
        ]
    );
    assert!(!f.truncated);
}

#[test]
fn every_size_has_height_lines_of_width_chars() {
    for width in 3..30usize {
        for height in 3..12usize {
            let f = frame(&titled("title", Align::Middle), width, height);
            assert_eq!(f.lines.len(), height);
            for line in &f.lines {
                assert_eq!(line.chars().count(), width);
            }
        }
    }
}

#[test]
fn left_title_is_flush_left() {
    let f = frame(&titled("ab", Align::Left), 10, 3);
    assert_eq!(f.lines[0], "┌ab──────┐");
}

#[test]
fn middle_title_puts_odd_padding_after() {
    let f = frame(&titled("ab", Align::Middle), 10, 3);
    assert_eq!(f.lines[0], "┌──ab────┐");
}

#[test]
fn middle_title_even_padding() {
    let f = frame(&titled("abc", Align::Middle), 10, 3);
    assert_eq!(f.lines[0], "┌──abc───┐");
}

#[test]
fn right_title_is_flush_right_of_field() {
    let f = frame(&titled("ab", Align::Right), 10, 3);
    assert_eq!(f.lines[0], "┌─────ab─┐");
}

#[test]
fn title_filling_field_exactly() {
    let f = frame(&titled("abcde", Align::Right), 8, 3);
    assert_eq!(f.lines[0], "┌abcde─┐");
    assert!(!f.truncated);
}

#[test]
fn long_title_is_cut_and_flagged() {
    let f = frame(&titled("abcdefgh", Align::Left), 8, 4);
    assert_eq!(f.lines[0], "┌abcde─┐");
    assert_eq!(f.lines[3], "└──────┘");
    assert!(f.truncated);
}

#[test]
fn title_counts_characters_not_bytes() {
    let f = frame(&titled("é€", Align::Left), 6, 3);
    assert_eq!(f.lines[0], "┌é€──┐");
    assert!(!f.truncated);
}

#[test]
fn render_twice_is_identical() {
    let t = titled("hello", Align::Middle);
    let a = frame(&t, 17, 6);
    let b = frame(&t, 17, 6);
    assert_eq!(a.lines, b.lines);
    assert_eq!(a.truncated, b.truncated);
}

#[test]
fn width_three_is_corners_only() {
    let f = frame(&titled("xyz", Align::Right), 3, 4);
    assert_eq!(f.lines, vec!["┌─┐", "│ │", "│ │", "└─┘"]);
    assert!(f.truncated);
}

#[test]
fn height_three_has_one_middle_row() {
    let f = frame(&Title::new(), 5, 3);
    assert_eq!(f.lines, vec!["┌───┐", "│   │", "└───┘"]);
}

#[test]
fn width_two_is_too_small() {
    assert_eq!(render_square(&Title::new(), (2, 5)).unwrap_err(), LayoutError::TooSmall);
}

#[test]
fn height_two_is_too_small() {
    assert_eq!(render_square(&Title::new(), (5, 2)).unwrap_err(), LayoutError::TooSmall);
}

#[test]
fn zero_size_is_too_small() {
    assert_eq!(render_square(&Title::new(), (0, 0)).unwrap_err(), LayoutError::TooSmall);
}
