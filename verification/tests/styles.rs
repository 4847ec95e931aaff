use momo_ui::app_tile::{
    app_button_surface_colors, overview_apps_button_accent, overview_apps_button_icon_color,
};
use momo_ui::color::Color;
use momo_ui::home::{HeaderButtonState, clock_text_color, header_button_colors};

fn rgb(r: u8, g: u8, b: u8) -> Color {
    Color { r, g, b, a: 255 }
}

fn clear() -> Color {
    Color { r: 0, g: 0, b: 0, a: 0 }
}

fn header_state(is_active: bool, is_pressed: bool, is_hovered: bool, is_focused: bool) -> HeaderButtonState {
    HeaderButtonState { is_active, is_pressed, is_hovered, is_focused }
}

#[test]
fn app_button_focus_wins_over_hover() {
    let accent = rgb(1, 2, 3);
    let colors = app_button_surface_colors(accent, true, true);
    assert_eq!(colors.background, rgb(20, 25, 35));
    assert_eq!(colors.border, accent);
}

#[test]
fn app_button_hover_lightens_border() {
    let colors = app_button_surface_colors(rgb(1, 2, 3), true, false);
    assert_eq!(colors.background, rgb(18, 23, 32));
    assert_eq!(colors.border, rgb(98, 112, 140));
}

#[test]
fn app_button_at_rest_has_dim_surface_and_no_border() {
    let colors = app_button_surface_colors(rgb(1, 2, 3), false, false);
    assert_eq!(colors.background, Color { r: 0, g: 0, b: 0, a: 70 });
    assert_eq!(colors.border, clear());
}

#[test]
fn overview_apps_button_colors() {
    assert_eq!(overview_apps_button_accent(), rgb(88, 112, 138));
    assert_eq!(overview_apps_button_icon_color(), rgb(210, 220, 230));
}

#[test]
fn header_button_without_surface_stays_clear() {
    let colors = header_button_colors(header_state(true, true, true, true), false);
    assert_eq!(colors.background, clear());
    assert_eq!(colors.border, clear());
}

#[test]
fn header_button_pressed_darkens() {
    let colors = header_button_colors(header_state(false, true, false, false), true);
    assert_eq!(colors.background, rgb(204, 210, 216));
    assert_eq!(colors.border, clear());
}

#[test]
fn header_button_hovered_lifts_with_border() {
    let colors = header_button_colors(header_state(false, false, true, false), true);
    assert_eq!(colors.background, rgb(236, 240, 243));
    assert_eq!(colors.border, Color { r: 255, g: 255, b: 255, a: 172 });
}

#[test]
fn header_button_at_rest_is_clear() {
    let colors = header_button_colors(header_state(false, false, false, false), true);
    assert_eq!(colors.background, clear());
    assert_eq!(colors.border, clear());
}

#[test]
fn clock_text_darkens_on_engaged_chip() {
    assert_eq!(clock_text_color(header_state(false, false, false, true)), rgb(10, 13, 18));
    assert_eq!(clock_text_color(header_state(true, false, false, false)), rgb(232, 238, 250));
}
