use donkey::camera3d::{Camera3D, CameraProjection};
use donkey::colors::Color;
use donkey::twod::DrawCommand;
use donkey::vector3::Vector3;
use donkey::window::{SceneCommand, Window};

#[test]
fn init_rejects_titles_with_interior_nul() {
    let err = Window::init(800, 600, b"bad\0title").unwrap_err();
    assert_eq!(err.message(), "NulError");
    assert!(Window::init(800, 600, b"a fine title").is_ok());
}

#[test]
fn a_frame_records_both_draw_lists() {
    let mut win = Window::init(800, 600, b"demo").unwrap();
    let bg = Color::from_u32(0x181818AA);
    let red = Color::from_u32(0xFF0000FF);
    let camera = Camera3D::new(
        Vector3::new(0, 0, -3_000_000),
        Vector3::new(0, 0, 0),
        Vector3::new(0, 1_000_000, 0),
        90_000_000,
        CameraProjection::Perspective,
    );

    win.begin_drawing();
    win.clear_background(bg);
    win.begin_mode3d(camera);
    win.draw_cube(Vector3::new(0, 0, 0), 1_000_000, 1_000_000, 1_000_000, red);
    win.draw_sphere(Vector3::new(0, 2_000_000, 0), 500_000, red);
    win.end_mode3d();
    win.draw_rectangle(0, 0, 10, 10, red);
    win.end_drawing();

    assert!(!win.drawing);
    assert!(!win.mode3d);
    assert_eq!(win.camera, Some(camera));
    assert_eq!(
        win.canvas.commands,
        vec![
            DrawCommand::Background(bg),
            DrawCommand::Rect { x: 0, y: 0, width: 10, height: 10, color: red },
        ]
    );
    assert_eq!(
        win.scene,
        vec![
            SceneCommand::Cube {
                center: Vector3::new(0, 0, 0),
                width: 1_000_000,
                height: 1_000_000,
                length: 1_000_000,
                color: red
            },
            SceneCommand::Sphere { center: Vector3::new(0, 2_000_000, 0), radius: 500_000, color: red },
        ]
    );
}

#[test]
fn begin_drawing_starts_a_fresh_frame() {
    let mut win = Window::init(320, 200, b"demo").unwrap();
    let red = Color::from_u32(0xFF0000FF);
    win.begin_drawing();
    win.draw_rectangle(1, 2, 3, 4, red);
    win.end_drawing();
    win.begin_drawing();
    assert!(win.canvas.commands.is_empty());
    assert!(win.scene.is_empty());
    win.end_drawing();
}
