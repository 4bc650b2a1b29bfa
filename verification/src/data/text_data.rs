//! The static text layout the simulation starts from.
//!
//! `get_game_context_text` builds the one `TextDisplayModel` used for the
//! whole run. Structural fields (positions, fonts, alignments, paint order)
//! never change afterwards; the simulation only rewrites the score and mode
//! line texts and the pause and game-over visibility.

use vstd::prelude::*;
use vstd::string::StringExecFns;
use crate::data_structs::Position2D;
use crate::entities::text_elements::{
    Color, FontDefinition, FontName, TextAlignment, TextDisplayModel, TextElement, TextLine,
};

verus! {

/// Opaque white, the color of every initial line.
pub open spec fn spec_white() -> Color {
    Color { r: 255, g: 255, b: 255, a: 255 }
}

/// The score element: one line in the top-left corner, initially showing "0".
pub open spec fn initial_score_element(e: TextElement) -> bool {
    &&& e.name@ == "score_element"@
    &&& e.visible == true
    &&& e.position == (Position2D { x: 5, y: 5 })
    &&& e.alignment is Start
    &&& e.draw_order == 0
    &&& e.is_overlay == false
    &&& e.lines@.len() == 1
    &&& e.lines@[0].vertical_order == 0
    &&& e.lines@[0].position == (Position2D { x: 5, y: 5 })
    &&& e.lines@[0].alignment is Start
    &&& e.lines@[0].font == (FontDefinition {
        font_name: FontName::ArcadeNormal,
        font_size: 24,
        color: spec_white(),
    })
    &&& e.lines@[0].text@ == "0"@
}

/// The mode element: one end-anchored line naming the rule mode.
pub open spec fn initial_mode_element(e: TextElement) -> bool {
    &&& e.name@ == "mode_element"@
    &&& e.visible == true
    &&& e.position == (Position2D { x: 5, y: 5 })
    &&& e.alignment is End
    &&& e.draw_order == 0
    &&& e.is_overlay == false
    &&& e.lines@.len() == 1
    &&& e.lines@[0].vertical_order == 0
    &&& e.lines@[0].position == (Position2D { x: 5, y: 5 })
    &&& e.lines@[0].alignment is Start
    &&& e.lines@[0].font == (FontDefinition {
        font_name: FontName::ArcadeNormal,
        font_size: 24,
        color: spec_white(),
    })
    &&& e.lines@[0].text@ == "Normal"@
}

/// The pause overlay: a title and two hint lines, visible at the paused
/// start.
pub open spec fn initial_pause_element(e: TextElement) -> bool {
    &&& e.name@ == "pause_element"@
    &&& e.visible == true
    &&& e.position == (Position2D { x: 5, y: 5 })
    &&& e.alignment is Start
    &&& e.draw_order == 1
    &&& e.is_overlay == true
    &&& e.lines@.len() == 3
    &&& e.lines@[0].vertical_order == 0
    &&& e.lines@[0].position == (Position2D { x: 0, y: 0 })
    &&& e.lines@[0].alignment is Start
    &&& e.lines@[0].font == (FontDefinition {
        font_name: FontName::ArcadeInterlaced,
        font_size: 48,
        color: spec_white(),
    })
    &&& e.lines@[0].text@ == "Paused"@
    &&& e.lines@[1].vertical_order == 1
    &&& e.lines@[1].position == (Position2D { x: 0, y: 0 })
    &&& e.lines@[1].alignment is Start
    &&& e.lines@[1].font == (FontDefinition {
        font_name: FontName::ArcadeRounded,
        font_size: 24,
        color: spec_white(),
    })
    &&& e.lines@[1].text@ == "Press ESC to continue"@
    &&& e.lines@[2].vertical_order == 2
    &&& e.lines@[2].position == (Position2D { x: 0, y: 0 })
    &&& e.lines@[2].alignment is Start
    &&& e.lines@[2].font == (FontDefinition {
        font_name: FontName::ArcadeRounded,
        font_size: 24,
        color: spec_white(),
    })
    &&& e.lines@[2].text@ == "Press M to change mode"@
}

/// The game-over overlay: a single title line, hidden until the game ends.
pub open spec fn initial_game_over_element(e: TextElement) -> bool {
    &&& e.name@ == "game_over_element"@
    &&& e.visible == false
    &&& e.position == (Position2D { x: 5, y: 5 })
    &&& e.alignment is Start
    &&& e.draw_order == 1
    &&& e.is_overlay == true
    &&& e.lines@.len() == 1
    &&& e.lines@[0].vertical_order == 0
    &&& e.lines@[0].position == (Position2D { x: 0, y: 0 })
    &&& e.lines@[0].alignment is Start
    &&& e.lines@[0].font == (FontDefinition {
        font_name: FontName::ArcadeInterlaced,
        font_size: 48,
        color: spec_white(),
    })
    &&& e.lines@[0].text@ == "Game Over"@
}

/// The full startup layout.
pub open spec fn initial_display(d: TextDisplayModel) -> bool {
    &&& initial_score_element(d.score_element)
    &&& initial_mode_element(d.mode_element)
    &&& initial_pause_element(d.pause_element)
    &&& initial_game_over_element(d.game_over_element)
}

/// Builds the startup layout.
pub fn get_game_context_text() -> (d: TextDisplayModel)
    ensures
        initial_display(d),
{
    let mut score_element = TextElement::new(
        String::from_str("score_element"),
        0,
        Position2D::new(5, 5),
        TextAlignment::Start,
        false,
    );
    score_element.lines.push(TextLine::new(
        0,
        Position2D::new(5, 5),
        TextAlignment::Start,
        FontDefinition::new(FontName::ArcadeNormal, 24, Color::white()),
        String::from_str("0"),
    ));

    let mut mode_element = TextElement::new(
        String::from_str("mode_element"),
        0,
        Position2D::new(5, 5),
        TextAlignment::End,
        false,
    );
    mode_element.lines.push(TextLine::new(
        0,
        Position2D::new(5, 5),
        TextAlignment::Start,
        FontDefinition::new(FontName::ArcadeNormal, 24, Color::white()),
        String::from_str("Normal"),
    ));

    let mut pause_element = TextElement::new(
        String::from_str("pause_element"),
        1,
        Position2D::new(5, 5),
        TextAlignment::Start,
        true,
    );
    pause_element.lines.push(TextLine::new(
        0,
        Position2D::new(0, 0),
        TextAlignment::Start,
        FontDefinition::new(FontName::ArcadeInterlaced, 48, Color::white()),
        String::from_str("Paused"),
    ));
    pause_element.lines.push(TextLine::new(
        1,
        Position2D::new(0, 0),
        TextAlignment::Start,
        FontDefinition::new(FontName::ArcadeRounded, 24, Color::white()),
        String::from_str("Press ESC to continue"),
    ));
    pause_element.lines.push(TextLine::new(
        2,
        Position2D::new(0, 0),
        TextAlignment::Start,
        FontDefinition::new(FontName::ArcadeRounded, 24, Color::white()),
        String::from_str("Press M to change mode"),
    ));

    let mut game_over_element = TextElement::new(
        String::from_str("game_over_element"),
        1,
        Position2D::new(5, 5),
        TextAlignment::Start,
        true,
    );
    game_over_element.visible = false;
    game_over_element.lines.push(TextLine::new(
        0,
        Position2D::new(0, 0),
        TextAlignment::Start,
        FontDefinition::new(FontName::ArcadeInterlaced, 48, Color::white()),
        String::from_str("Game Over"),
    ));

    TextDisplayModel { score_element, mode_element, pause_element, game_over_element }
}

} // verus!
