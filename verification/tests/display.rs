use snake_core::data::text_data::get_game_context_text;
use snake_core::entities::text_elements::{Color, FontDefinition, FontName, TextAlignment};
use snake_core::data_structs::{Position2D, Position3D};
use snake_core::game_context::GameMode;

#[test]
fn initial_layout_score_element() {
    let d = get_game_context_text();
    let e = &d.score_element;
    assert_eq!(e.name, "score_element");
    assert!(e.visible);
    assert_eq!((e.position.x, e.position.y), (5, 5));
    assert!(matches!(e.alignment, TextAlignment::Start));
    assert_eq!(e.draw_order, 0);
    assert!(!e.is_overlay);
    assert_eq!(e.lines.len(), 1);
    assert_eq!(e.lines[0].text, "0");
    assert!(matches!(e.lines[0].font.font_name, FontName::ArcadeNormal));
    assert_eq!(e.lines[0].font.font_size, 24);
    assert_eq!(e.lines[0].font.color, Color { r: 255, g: 255, b: 255, a: 255 });
}

#[test]
fn initial_layout_mode_element() {
    let d = get_game_context_text();
    let e = &d.mode_element;
    assert_eq!(e.name, "mode_element");
    assert!(e.visible);
    assert!(matches!(e.alignment, TextAlignment::End));
    assert_eq!(e.draw_order, 0);
    assert!(!e.is_overlay);
    assert_eq!(e.lines.len(), 1);
    assert_eq!(e.lines[0].text, "Normal");
}

#[test]
fn initial_layout_pause_element() {
    let d = get_game_context_text();
    let e = &d.pause_element;
    assert_eq!(e.name, "pause_element");
    assert!(e.visible);
    assert_eq!(e.draw_order, 1);
    assert!(e.is_overlay);
    assert_eq!(e.lines.len(), 3);
    assert_eq!(e.lines[0].text, "Paused");
    assert_eq!(e.lines[0].vertical_order, 0);
    assert!(matches!(e.lines[0].font.font_name, FontName::ArcadeInterlaced));
    assert_eq!(e.lines[0].font.font_size, 48);
    assert_eq!(e.lines[1].text, "Press ESC to continue");
    assert_eq!(e.lines[1].vertical_order, 1);
    assert!(matches!(e.lines[1].font.font_name, FontName::ArcadeRounded));
    assert_eq!(e.lines[2].text, "Press M to change mode");
    assert_eq!(e.lines[2].vertical_order, 2);
}

#[test]
fn initial_layout_game_over_element() {
    let d = get_game_context_text();
    let e = &d.game_over_element;
    assert_eq!(e.name, "game_over_element");
    assert!(!e.visible);
    assert_eq!(e.draw_order, 1);
    assert!(e.is_overlay);
    assert_eq!(e.lines.len(), 1);
    assert_eq!(e.lines[0].text, "Game Over");
    assert!(matches!(e.lines[0].font.font_name, FontName::ArcadeInterlaced));
}

#[test]
fn mode_display_text() {
    assert_eq!(GameMode::Classic.display_text(), "Classic");
    assert_eq!(GameMode::WallPass.display_text(), "Wall Pass");
}

#[test]
fn font_definition_new_keeps_fields() {
    let f = FontDefinition::new(FontName::ArcadeRounded, 16, Color::new(1, 2, 3, 4));
    assert!(matches!(f.font_name, FontName::ArcadeRounded));
    assert_eq!(f.font_size, 16);
    assert_eq!(f.color, Color { r: 1, g: 2, b: 3, a: 4 });
}

#[test]
fn position_constructors_keep_fields() {
    let p = Position2D::new(3, -4);
    assert_eq!((p.x, p.y), (3, -4));
    let q = Position3D::new(1, 2, 3);
    assert_eq!((q.x, q.y, q.z), (1, 2, 3));
}
