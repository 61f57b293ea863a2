use text_animator::render::{render, Glyph, Rgba, Style};

fn chars(s: &str) -> Vec<char> {
    s.chars().collect()
}

fn shown(glyphs: &[Glyph]) -> String {
    glyphs.iter().map(|g| g.ch).collect()
}

const BLACK: Rgba = Rgba { r: 0, g: 0, b: 0, a: 255 };
const WHITE: Rgba = Rgba { r: 255, g: 255, b: 255, a: 255 };

fn glyph(ch: char, x: u128, y: u32) -> Glyph {
    Glyph { ch, x, y, font_size: 30, color: WHITE }
}

#[test]
fn default_style_is_white_on_black_at_pitch_20() {
    let style = Style::default();
    assert_eq!(style.background, BLACK);
    assert_eq!(style.foreground, WHITE);
    assert_eq!(style.font_size, 30);
    assert_eq!(style.margin, 20);
    assert_eq!(style.pitch, 20);
    assert_eq!(style.baseline, 20);
}

#[test]
fn render_gives_one_glyph_for_each_character() {
    let text = chars("hi there!");
    for cursor in 0..text.len() {
        assert_eq!(render(&text, cursor, &Style::default()).len(), 9);
    }
    assert_eq!(render(&chars("ÄÖ"), 0, &Style::default()).len(), 2);
}

#[test]
fn render_capitalizes_the_character_under_the_cursor() {
    let text = chars("hi there!");
    let style = Style::default();
    assert_eq!(shown(&render(&text, 0, &style)), "Hi there!");
    assert_eq!(shown(&render(&text, 1, &style)), "hI there!");
    assert_eq!(shown(&render(&text, 3, &style)), "hi There!");
    assert_eq!(shown(&render(&text, 7, &style)), "hi therE!");
}

#[test]
fn render_leaves_all_other_characters_unchanged() {
    let text = chars("hi there!");
    for cursor in 0..text.len() {
        let glyphs = render(&text, cursor, &Style::default());
        for (i, g) in glyphs.iter().enumerate() {
            if i != cursor {
                assert_eq!(g.ch, text[i]);
            }
        }
    }
}

#[test]
fn render_shows_an_active_character_without_upper_case_as_it_is() {
    let text = chars("hi there!");
    let style = Style::default();
    assert_eq!(shown(&render(&text, 2, &style)), "hi there!");
    assert_eq!(shown(&render(&text, 8, &style)), "hi there!");
}

#[test]
fn render_with_the_cursor_outside_the_text_capitalizes_nothing() {
    let text = chars("hi");
    assert_eq!(shown(&render(&text, 2, &Style::default())), "hi");
    assert_eq!(shown(&render(&text, usize::MAX, &Style::default())), "hi");
}

#[test]
fn render_of_an_empty_text_is_empty() {
    assert_eq!(render(&Vec::new(), 0, &Style::default()), Vec::new());
}

#[test]
fn render_places_glyphs_at_the_fixed_pitch() {
    let glyphs = render(&chars("hi there!"), 0, &Style::default());
    for (i, g) in glyphs.iter().enumerate() {
        assert_eq!(g.x, 20 + 20 * i as u128);
        assert_eq!(g.y, 20);
    }
    assert_eq!(glyphs[0], glyph('H', 20, 20));
    assert_eq!(glyphs[8], glyph('!', 180, 20));
}

#[test]
fn render_follows_the_style() {
    let style = Style { margin: 5, pitch: 7, baseline: 11, ..Style::default() };
    let glyphs = render(&chars("abc"), 1, &style);
    assert_eq!(glyphs, vec![glyph('a', 5, 11), glyph('B', 12, 11), glyph('c', 19, 11)]);
}

#[test]
fn render_draws_every_glyph_in_the_size_and_colour_of_the_style() {
    let red = Rgba { r: 200, g: 10, b: 10, a: 128 };
    let style = Style { foreground: red, font_size: 12, ..Style::default() };
    let glyphs = render(&chars("abc"), 1, &style);
    assert_eq!(glyphs.len(), 3);
    for g in glyphs {
        assert_eq!(g.font_size, 12);
        assert_eq!(g.color, red);
    }
    for g in render(&chars("hi there!"), 0, &Style::default()) {
        assert_eq!(g.font_size, 30);
        assert_eq!(g.color, WHITE);
    }
}

#[test]
fn render_positions_do_not_overflow_at_the_largest_units() {
    let style = Style { margin: u32::MAX, pitch: u32::MAX, ..Style::default() };
    let glyphs = render(&chars("ab"), 0, &style);
    assert_eq!(glyphs[0].x, u32::MAX as u128);
    assert_eq!(glyphs[1].x, 2 * u32::MAX as u128);
}
