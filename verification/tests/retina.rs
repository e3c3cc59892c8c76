use remote_conn::double::Double;
use remote_conn::message::{CursorPosition, MouseEvent};
use remote_conn::retina::{DisplayInfo, Retina};

#[test]
fn retina() {
    let retina = Retina {
        displays: vec![DisplayInfo {
            x: 10,
            y: 10,
            width: 1000,
            height: 1000,
            scale: Double { bits: 2.0f64.to_bits() },
            ..Default::default()
        }],
    };
    let mut mouse: MouseEvent = MouseEvent {
        x: 510,
        y: 510,
        ..Default::default()
    };
    retina.on_mouse_event(&mut mouse, 0);
    assert_eq!(mouse.x, 260);
    assert_eq!(mouse.y, 260);
    let pos = CursorPosition {
        x: 260,
        y: 260,
        ..Default::default()
    };
    let msg = retina.on_cursor_pos(&pos, 0).unwrap();
    let pos = msg.cursor_position();
    assert_eq!(pos.x, 510);
    assert_eq!(pos.y, 510);
}
