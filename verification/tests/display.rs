use icon_grid::display::{DisplayIcon, DisplayIconKind};

const ALL: [DisplayIconKind; 5] = [
    DisplayIconKind::Off,
    DisplayIconKind::Icon,
    DisplayIconKind::Static,
    DisplayIconKind::Template,
    DisplayIconKind::StaticTemplate,
];

#[test]
fn each_mode_has_its_text() {
    assert_eq!(DisplayIconKind::Off.value(), "");
    assert_eq!(DisplayIconKind::Icon.value(), "icon");
    assert_eq!(DisplayIconKind::Static.value(), "static");
    assert_eq!(DisplayIconKind::Template.value(), "template");
    assert_eq!(DisplayIconKind::StaticTemplate.value(), "static-template");
}

#[test]
fn each_text_is_read_as_its_mode() {
    assert_eq!(DisplayIconKind::from_value(""), Some(DisplayIconKind::Off));
    assert_eq!(DisplayIconKind::from_value("icon"), Some(DisplayIconKind::Icon));
    assert_eq!(DisplayIconKind::from_value("static"), Some(DisplayIconKind::Static));
    assert_eq!(DisplayIconKind::from_value("template"), Some(DisplayIconKind::Template));
    assert_eq!(
        DisplayIconKind::from_value("static-template"),
        Some(DisplayIconKind::StaticTemplate)
    );
}

#[test]
fn other_texts_are_no_mode() {
    for text in [
        "none",
        "Icon",
        "icon ",
        " icon",
        "ico",
        "icons",
        "static_template",
        "static-templat",
        "static-templates",
        "templatf",
        "\u{e9}",
        "ic\u{f6}n",
    ] {
        assert_eq!(DisplayIconKind::from_value(text), None);
    }
}

#[test]
fn text_and_mode_round_trip() {
    for kind in ALL {
        assert_eq!(DisplayIconKind::from_value(kind.value()), Some(kind));
    }
    for a in ALL {
        for b in ALL {
            assert_eq!(a.value() == b.value(), a == b);
        }
    }
}

#[test]
fn only_off_draws_nothing() {
    assert!(!DisplayIconKind::Off.renders_icon());
    assert!(DisplayIconKind::Icon.renders_icon());
    assert!(DisplayIconKind::Static.renders_icon());
    assert!(DisplayIconKind::Template.renders_icon());
    assert!(DisplayIconKind::StaticTemplate.renders_icon());
}

#[test]
fn display_starts_off_and_holds_what_was_set() {
    let mut display = DisplayIcon::new();
    assert_eq!(display.get(), DisplayIconKind::Off);
    for kind in ALL {
        display.set(kind);
        assert_eq!(display.get(), kind);
        assert_eq!(display.get(), kind);
    }
}
