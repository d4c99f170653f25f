use css_colors::{rgb, rgba, RGB, RGBA};

/// The encoding under which the library holds an alpha fraction.
fn bits(alpha: f32) -> u32 {
    alpha.to_bits()
}

/// The text under which an alpha fraction appears in CSS.
fn text(alpha: f32) -> String {
    alpha.to_string()
}

#[test]
fn can_create_color_structs() {
    assert_eq!(rgb(5, 10, 15), RGB { r: 5, g: 10, b: 15 });
    assert_eq!(
        rgba(5, 10, 15, bits(1.0)),
        RGBA {
            r: 5,
            g: 10,
            b: 15,
            a: bits(1.0)
        }
    );
}

#[test]
fn can_convert_between_rgb_notations() {
    let rgb_color = RGB { r: 5, g: 10, b: 15 };
    let rgba_color = RGBA {
        r: 5,
        g: 10,
        b: 15,
        a: bits(1.0),
    };

    assert_eq!(
        rgb_color.to_rgba(),
        RGBA {
            r: 5,
            g: 10,
            b: 15,
            a: bits(1.0)
        }
    );
    assert_eq!(rgba_color.to_rgb(), RGB { r: 5, g: 10, b: 15 });
}

#[test]
fn can_clone() {
    let rgb_color = RGB { r: 5, g: 10, b: 15 };
    let rgba_color = RGBA {
        r: 5,
        g: 10,
        b: 15,
        a: bits(1.0),
    };

    assert_eq!(rgb_color, rgb_color.clone());
    assert_eq!(rgba_color, rgba_color.clone());
}

#[test]
fn can_copy() {
    let rgb_color = RGBA {
        r: 5,
        g: 10,
        b: 15,
        a: bits(1.0),
    };
    let copied_rgb_color = rgb_color;
    let rgba_color = RGBA {
        r: 5,
        g: 10,
        b: 15,
        a: bits(1.0),
    };
    let copied_rgba_color = rgba_color;

    assert_eq!(rgb_color, copied_rgb_color);
    assert_eq!(rgba_color, copied_rgba_color);
}

#[test]
fn can_debug() {
    let rgb_value = format!("{:?}", RGB { r: 5, g: 10, b: 15 });

    assert_eq!(rgb_value, "RGB { r: 5, g: 10, b: 15 }");
}

#[test]
fn debug_shows_the_alpha_encoding() {
    let rgba_value = format!(
        "{:?}",
        RGBA {
            r: 5,
            g: 10,
            b: 15,
            a: bits(1.0)
        }
    );

    assert_eq!(rgba_value, "RGBA { r: 5, g: 10, b: 15, a: 1065353216 }");
}

#[test]
fn can_convert_to_css() {
    let rgb = RGB {
        r: 5,
        g: 10,
        b: 255,
    };
    let rgba = RGBA {
        r: 5,
        g: 10,
        b: 255,
        a: bits(1.0),
    };

    assert_eq!(rgb.to_css(), "rgb(5, 10, 255)");
    assert_eq!(rgba.to_css(&text(1.0)), "rgba(5, 10, 255, 1)");
}

#[test]
fn can_print_in_css() {
    let printed_rgb = RGB {
        r: 5,
        g: 10,
        b: 255,
    }
    .to_css();
    let printed_rgba = RGBA {
        r: 5,
        g: 10,
        b: 255,
        a: bits(1.0),
    }
    .to_css(&text(1.0));

    assert_eq!(printed_rgb, "rgb(5, 10, 255)");
    assert_eq!(printed_rgba, "rgba(5, 10, 255, 1)");
}

#[test]
fn can_be_displayed() {
    let rgb = RGB {
        r: 5,
        g: 10,
        b: 255,
    };
    let rgba = RGBA {
        r: 5,
        g: 10,
        b: 255,
        a: bits(0.75),
    };

    assert_eq!("rgb(5, 10, 255)".to_owned(), rgb.to_css());
    assert_eq!("rgba(5, 10, 255, 0.75)".to_owned(), rgba.to_css(&text(0.75)));
}

#[test]
fn can_be_stringified() {
    let rgb = RGB {
        r: 5,
        g: 10,
        b: 255,
    };
    let rgba = RGBA {
        r: 5,
        g: 10,
        b: 255,
        a: bits(0.5),
    };

    assert_eq!(String::from("rgb(5, 10, 255)"), rgb.to_css());
    assert_eq!(String::from("rgba(5, 10, 255, 0.5)"), rgba.to_css(&text(0.5)));
}

#[test]
fn salmon_renders_as_rgb() {
    assert_eq!(rgb(250, 128, 114).to_css(), "rgb(250, 128, 114)");
}

#[test]
fn light_salmon_renders_as_rgba() {
    assert_eq!(
        rgba(250, 128, 114, bits(0.5)).to_css(&text(0.5)),
        "rgba(250, 128, 114, 0.5)"
    );
}

#[test]
fn whole_alpha_renders_without_a_fraction() {
    assert_eq!(
        rgba(5, 10, 255, bits(1.0)).to_css(&text(1.0)),
        "rgba(5, 10, 255, 1)"
    );
}

#[test]
fn tomato_with_alpha_is_opaque_tomato() {
    assert_eq!(rgb(255, 99, 71).to_rgba(), rgba(255, 99, 71, bits(1.0)));
    assert_eq!(
        RGBA {
            r: 255,
            g: 99,
            b: 71,
            a: bits(1.0)
        }
        .to_rgb(),
        RGB {
            r: 255,
            g: 99,
            b: 71
        }
    );
}

#[test]
fn constructors_pass_their_arguments_through() {
    let c = rgb(0, 128, 255);
    assert_eq!((c.r, c.g, c.b), (0, 128, 255));
    let t = rgba(255, 0, 7, bits(0.25));
    assert_eq!((t.r, t.g, t.b, t.a), (255, 0, 7, 0x3e80_0000));
}

#[test]
fn alpha_out_of_range_is_kept() {
    for alpha in [1.5f32, -0.25, 300.0, f32::INFINITY, f32::MIN_POSITIVE] {
        let t = rgba(1, 2, 3, bits(alpha));
        assert_eq!(f32::from_bits(t.a), alpha);
        assert_eq!(
            t.to_css(&text(alpha)),
            format!("rgba(1, 2, 3, {})", alpha)
        );
    }
    assert_eq!(
        rgba(1, 2, 3, bits(1.5)).to_css(&text(1.5)),
        "rgba(1, 2, 3, 1.5)"
    );
    assert_eq!(
        rgba(1, 2, 3, bits(-0.25)).to_css(&text(-0.25)),
        "rgba(1, 2, 3, -0.25)"
    );
}
