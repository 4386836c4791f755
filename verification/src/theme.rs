//! The dark theme of the window frame: the colours of the title bar, of its
//! three buttons and of the title text, and the font of the title.

use vstd::prelude::*;

verus! {

/// A colour with an alpha channel.
#[derive(Clone, Copy, Debug, PartialEq, Eq, Structural)]
pub struct Argb {
    pub a: u8,
    pub r: u8,
    pub g: u8,
    pub b: u8,
}

/// Two colours: one for when the window is active, one for when it is not.
#[derive(Clone, Copy, Debug, PartialEq, Eq, Structural)]
pub struct ColorSpec {
    pub active: Argb,
    pub inactive: Argb,
}

/// The colours of a button in each of its three states.
#[derive(Clone, Copy, Debug, PartialEq, Eq, Structural)]
pub struct ButtonColorSpec {
    pub idle: ColorSpec,
    pub hovered: ColorSpec,
    pub disabled: ColorSpec,
}

/// Configuration of the window frame.
#[derive(Debug)]
pub struct FrameConfig {
    /// Colour of the title bar.
    pub primary_color: ColorSpec,
    /// Colour of the line between the title bar and the contents.
    pub secondary_color: ColorSpec,
    /// Icon and background of the close button; `None` hides the button.
    pub close_button: Option<(ButtonColorSpec, ButtonColorSpec)>,
    /// Icon and background of the maximize button.
    pub maximize_button: Option<(ButtonColorSpec, ButtonColorSpec)>,
    /// Icon and background of the minimize button.
    pub minimize_button: Option<(ButtonColorSpec, ButtonColorSpec)>,
    /// Name and size in points of the title font; `None` hides the title.
    pub title_font: Option<(String, u32)>,
    /// Colour of the title text.
    pub title_color: ColorSpec,
}

/// The fully opaque colour with the given channels.
pub open spec fn opaque(r: u8, g: u8, b: u8) -> Argb {
    Argb { a: 0xFF, r, g, b }
}

/// The colour that shows nothing.
pub open spec fn transparent() -> Argb {
    Argb { a: 0, r: 0, g: 0, b: 0 }
}

/// The same colour whether the window is active or not.
pub open spec fn uniform(color: Argb) -> ColorSpec {
    ColorSpec { active: color, inactive: color }
}

/// A button that has one colour when hovered, another when idle, and is
/// not drawn when disabled.
pub open spec fn button(hovered: Argb, idle: Argb) -> ButtonColorSpec {
    ButtonColorSpec { idle: uniform(idle), hovered: uniform(hovered), disabled: uniform(transparent()) }
}

/// The icon of every button: white, and dark grey under the pointer.
pub open spec fn icon() -> ButtonColorSpec {
    button(opaque(0x22, 0x22, 0x22), opaque(0xFF, 0xFF, 0xFF))
}

/// `ARGBColor::from` of smithay-client-toolkit on an array of four bytes:
/// the bytes are alpha, red, green and blue, in this order.
#[verifier::external_body]
fn argb(array: [u8; 4]) -> (color: Argb)
    ensures
        color == (Argb { a: array[0], r: array[1], g: array[2], b: array[3] }),
{
    let c = smithay_client_toolkit::window::ARGBColor::from(array);
    Argb { a: c.a, r: c.r, g: c.g, b: c.b }
}

/// `ColorSpec::identical` of smithay-client-toolkit: both colours of the
/// result are the one given.
#[verifier::external_body]
fn identical(color: Argb) -> (spec: ColorSpec)
    ensures
        spec == uniform(color),
{
    let c = smithay_client_toolkit::window::ARGBColor { a: color.a, r: color.r, g: color.g, b: color.b };
    let s = smithay_client_toolkit::window::ColorSpec::identical(c);
    ColorSpec {
        active: Argb { a: s.active.a, r: s.active.r, g: s.active.g, b: s.active.b },
        inactive: Argb { a: s.inactive.a, r: s.inactive.r, g: s.inactive.g, b: s.inactive.b },
    }
}

/// `ColorSpec::invisible` of smithay-client-toolkit: both colours of the
/// result have all four channels at zero.
#[verifier::external_body]
fn invisible() -> (spec: ColorSpec)
    ensures
        spec == uniform(transparent()),
{
    let s = smithay_client_toolkit::window::ColorSpec::invisible();
    ColorSpec {
        active: Argb { a: s.active.a, r: s.active.r, g: s.active.g, b: s.active.b },
        inactive: Argb { a: s.inactive.a, r: s.inactive.r, g: s.inactive.g, b: s.inactive.b },
    }
}

/// The frame configuration of the demo: a dark title bar with a white
/// separation line, a red close button, a green maximize button, a blue
/// minimize button, and a light grey title in the font "sans" at 17 points.
pub fn create_frame_config() -> (config: FrameConfig)
    ensures
        config.primary_color == (ColorSpec {
            active: opaque(0x22, 0x22, 0x22),
            inactive: opaque(0x33, 0x33, 0x33),
        }),
        config.secondary_color == uniform(opaque(0xFF, 0xFF, 0xFF)),
        config.close_button == Some(
            (icon(), button(opaque(0xFF, 0x00, 0x00), opaque(0x88, 0x00, 0x00))),
        ),
        config.maximize_button == Some(
            (icon(), button(opaque(0x00, 0xFF, 0x00), opaque(0x00, 0x88, 0x00))),
        ),
        config.minimize_button == Some(
            (icon(), button(opaque(0x00, 0x00, 0xFF), opaque(0x00, 0x00, 0x88))),
        ),
        config.title_font matches Some((name, size)) && name@ == "sans"@ && size == 17,
        config.title_color == uniform(opaque(0xD0, 0xD0, 0xD0)),
{
    let icon_spec = ButtonColorSpec {
        hovered: identical(argb([0xFF, 0x22, 0x22, 0x22])),
        idle: identical(argb([0xFF, 0xff, 0xff, 0xff])),
        disabled: invisible(),
    };

    FrameConfig {
        // dark theme
        primary_color: ColorSpec {
            active: argb([0xFF, 0x22, 0x22, 0x22]),
            inactive: argb([0xFF, 0x33, 0x33, 0x33]),
        },
        // white separation line
        secondary_color: identical(argb([0xFF, 0xFF, 0xFF, 0xFF])),
        // red close button
        close_button: Some(
            (
                icon_spec,
                ButtonColorSpec {
                    hovered: identical(argb([0xFF, 0xFF, 0x00, 0x00])),
                    idle: identical(argb([0xFF, 0x88, 0x00, 0x00])),
                    disabled: invisible(),
                },
            ),
        ),
        // green maximize button
        maximize_button: Some(
            (
                icon_spec,
                ButtonColorSpec {
                    hovered: identical(argb([0xFF, 0x00, 0xFF, 0x00])),
                    idle: identical(argb([0xFF, 0x00, 0x88, 0x00])),
                    disabled: invisible(),
                },
            ),
        ),
        // blue minimize button
        minimize_button: Some(
            (
                icon_spec,
                ButtonColorSpec {
                    hovered: identical(argb([0xFF, 0x00, 0x00, 0xFF])),
                    idle: identical(argb([0xFF, 0x00, 0x00, 0x88])),
                    disabled: invisible(),
                },
            ),
        ),
        title_font: Some(("sans".to_owned(), 17)),
        // clear text over dark background
        title_color: identical(argb([0xFF, 0xD0, 0xD0, 0xD0])),
    }
}

} // verus!
