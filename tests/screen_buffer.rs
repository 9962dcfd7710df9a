use compass::screen::{ScreenBuffer, BUF_SIZE, HEIGHT, WIDTH};
use compass::user_interface::{Anim, Frame};

fn lit(s: &ScreenBuffer) -> Vec<(usize, usize)> {
    let mut v = Vec::new();
    for x in 0..WIDTH {
        for y in 0..HEIGHT {
            if s.get_pixel(x, y) {
                v.push((x, y));
            }
        }
    }
    v
}

#[test]
fn new_buffer_is_dark() {
    let s = ScreenBuffer::default();
    assert!(lit(&s).is_empty());
    assert_eq!(s.bytes().len(), BUF_SIZE);
}

#[test]
fn set_pixel_sets_one_bit() {
    let mut s = ScreenBuffer::new();
    s.set_pixel(5, 10, true);
    assert_eq!(lit(&s), vec![(5, 10)]);
    // row 10 is bit 2 of the second band of eight rows
    assert_eq!(s.bytes()[5 + WIDTH], 0b100);
    s.set_pixel(83, 47, true);
    assert_eq!(s.bytes()[BUF_SIZE - 1], 0x80);
    s.set_pixel(5, 10, false);
    assert_eq!(lit(&s), vec![(83, 47)]);
    s.clear();
    assert!(lit(&s).is_empty());
}

#[test]
fn neighbouring_bits_are_kept() {
    let mut s = ScreenBuffer::new();
    s.set_pixel(0, 0, true);
    s.set_pixel(0, 1, true);
    s.set_pixel(0, 0, false);
    assert_eq!(lit(&s), vec![(0, 1)]);
}

#[test]
fn horizontal_line() {
    let mut s = ScreenBuffer::new();
    s.line(2, 47, 6, 47, true);
    assert_eq!(lit(&s), vec![(2, 47), (3, 47), (4, 47), (5, 47), (6, 47)]);
}

#[test]
fn diagonal_line() {
    let mut s = ScreenBuffer::new();
    s.line(0, 0, 3, 3, true);
    assert_eq!(lit(&s), vec![(0, 0), (1, 1), (2, 2), (3, 3)]);
}

#[test]
fn shallow_lines_step_early() {
    let mut s = ScreenBuffer::new();
    s.line(0, 0, 4, 1, true);
    assert_eq!(lit(&s), vec![(0, 0), (1, 1), (2, 1), (3, 1), (4, 1)]);
    let mut s = ScreenBuffer::new();
    s.line(0, 0, 2, 1, true);
    assert_eq!(lit(&s), vec![(0, 0), (1, 1), (2, 2)]);
}

#[test]
fn line_can_erase() {
    let mut s = ScreenBuffer::new();
    s.line(0, 5, 10, 5, true);
    s.line(3, 5, 4, 5, false);
    assert_eq!(lit(&s).len(), 9);
    assert!(!s.get_pixel(3, 5));
    assert!(!s.get_pixel(4, 5));
}

static FRAME_A: [u8; BUF_SIZE] = [1; BUF_SIZE];
static FRAME_B: [u8; BUF_SIZE] = [2; BUF_SIZE];
static FRAMES: [Frame; 2] = [&FRAME_A, &FRAME_B];

#[test]
fn animation_advances_to_last_frame() {
    let anim = Anim::new(&FRAMES);
    assert_eq!(anim.current()[0], 1);
    let anim = anim.next().unwrap();
    assert_eq!(anim.current()[0], 2);
    assert!(anim.next().is_none());
}
