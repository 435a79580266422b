use donkey::check_no_nul;
use donkey::colors::Color;
use donkey::twod::{Canvas, DrawCommand, Rectangle, Vector2};

#[test]
fn make_vector2() {
    let v1 = Vector2::new(1_000_000, 2_000_000);
    let v2 = Vector2 { x: 1_000_000, y: 2_000_000 };
    assert_eq!(v1.x, v2.x);
    assert_eq!(v1.y, v2.y);
}

#[test]
fn color_from_packed_dark_gray() {
    let c = Color::from_u32(0x181818AA);
    assert_eq!(c, Color { r: 0x18, g: 0x18, b: 0x18, a: 0xAA });
}

#[test]
fn color_from_packed_pure_red() {
    let c = Color::from_u32(0xFF0000FF);
    assert_eq!(c, Color { r: 0xFF, g: 0x00, b: 0x00, a: 0xFF });
}

#[test]
fn color_from_tuple_and_bytes() {
    let t = Color::from_tuple((1, 2, 3, 4));
    assert_eq!(t, Color { r: 1, g: 2, b: 3, a: 4 });
    let b = Color::from_bytes([5, 6, 7, 8]);
    assert_eq!(b, Color { r: 5, g: 6, b: 7, a: 8 });
}

#[test]
fn canvas_records_commands_in_order() {
    let bg = Color::from_u32(0x181818AA);
    let red = Color::from_u32(0xFF0000FF);
    let mut canvas = Canvas::new();
    canvas.clear_background(bg);
    canvas.draw_rectangle(10, 20, 30, 40, red);
    canvas.draw_rectangle_v(Vector2::new(1, 2), Vector2::new(3, 4), red);
    assert_eq!(
        canvas.commands,
        vec![
            DrawCommand::Background(bg),
            DrawCommand::Rect { x: 10, y: 20, width: 30, height: 40, color: red },
            DrawCommand::RectV {
                position: Vector2::new(1, 2),
                size: Vector2::new(3, 4),
                color: red
            },
        ]
    );
}

#[test]
fn canvas_accepts_nul_free_text() {
    let white = Color::from_u32(0xFFFFFFFF);
    let mut canvas = Canvas::new();
    let r = canvas.draw_text(b"score: 10".to_vec(), 5, 5, 20, white);
    assert!(r.is_ok());
    assert_eq!(
        canvas.commands,
        vec![DrawCommand::Text { text: b"score: 10".to_vec(), x: 5, y: 5, font_size: 20, color: white }]
    );
}

#[test]
fn canvas_rejects_text_with_interior_nul() {
    let white = Color::from_u32(0xFFFFFFFF);
    let mut canvas = Canvas::new();
    let r = canvas.draw_text(b"bad\0text".to_vec(), 5, 5, 20, white);
    assert_eq!(r.unwrap_err().message(), "NulError");
    assert!(canvas.commands.is_empty());
}

#[test]
fn rectangle_holds_its_fields() {
    let r = Rectangle::new(1, 2, 3, 4);
    assert_eq!(r.x, 1);
    assert_eq!(r.y, 2);
    assert_eq!(r.width, 3);
    assert_eq!(r.height, 4);
}

#[test]
fn nul_free_text_is_accepted() {
    assert!(check_no_nul(b"a window title").is_ok());
    assert!(check_no_nul(b"").is_ok());
}

#[test]
fn interior_nul_is_a_typed_error() {
    let err = check_no_nul(b"bad\0title").unwrap_err();
    assert_eq!(err.message(), "NulError");
    assert!(check_no_nul(b"\0").is_err());
}
