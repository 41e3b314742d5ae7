use rust_tk::commands::{
    aspect_command, aspect_query, attribute_query, decimal, flag_argument, order_ratios,
    parse_flag, parse_types, types_argument,
};
use rust_tk::window_manager::{WMAspectRatio, X11WMAttrType};

#[test]
fn aspect_ratio_parts() {
    let r = WMAspectRatio::specified(16, 9);
    assert_eq!(r.width(), 16);
    assert_eq!(r.height(), 9);
    assert!(!r.is_unspecified());
    let u = WMAspectRatio::unspecified();
    assert!(u.is_unspecified());
    assert_eq!((u.width(), u.height()), (0, 0));
}

#[test]
fn aspect_ratios_compare_as_fractions() {
    let half = WMAspectRatio::specified(1, 2);
    let also_half = WMAspectRatio::specified(2, 4);
    let wide = WMAspectRatio::specified(16, 9);
    assert_eq!(half.compare(&wide), std::cmp::Ordering::Less);
    assert_eq!(wide.compare(&half), std::cmp::Ordering::Greater);
    assert_eq!(half.compare(&also_half), std::cmp::Ordering::Equal);
    assert!(half < wide);
    let big = WMAspectRatio::specified(u32::MAX, 1);
    let bigger = WMAspectRatio::specified(u32::MAX, u32::MAX - 1);
    assert_eq!(big.compare(&bigger), std::cmp::Ordering::Greater);
}

#[test]
fn ratios_are_ordered() {
    let wide = WMAspectRatio::specified(16, 9);
    let square = WMAspectRatio::specified(1, 1);
    assert_eq!(order_ratios(wide, square), (square, wide));
    assert_eq!(order_ratios(square, wide), (square, wide));
}

#[test]
fn decimal_notation() {
    assert_eq!(decimal(0), "0");
    assert_eq!(decimal(7), "7");
    assert_eq!(decimal(10), "10");
    assert_eq!(decimal(4096), "4096");
    assert_eq!(decimal(u32::MAX), "4294967295");
}

#[test]
fn aspect_commands() {
    assert_eq!(aspect_query("."), "wm aspect . ");
    let lo = WMAspectRatio::specified(1, 1);
    let hi = WMAspectRatio::specified(16, 9);
    assert_eq!(aspect_command(".", lo, hi), "wm aspect . 1 1 16 9");
    let u = WMAspectRatio::unspecified();
    assert_eq!(aspect_command(".", u, u), "wm aspect . \"\" \"\" \"\" \"\"");
}

#[test]
fn attribute_commands() {
    assert_eq!(attribute_query(".", "-topmost"), "wm attributes . -topmost ");
    assert_eq!(flag_argument(true), "1");
    assert_eq!(flag_argument(false), "0");
    let types = vec![X11WMAttrType::Dialog, X11WMAttrType::DropdownMenu];
    assert_eq!(types_argument(&types), "{dialog dropdown_menu}");
    assert_eq!(types_argument(&vec![]), "{}");
}

#[test]
fn flags_are_read() {
    assert_eq!(parse_flag("1"), Some(true));
    assert_eq!(parse_flag("0"), Some(false));
    assert_eq!(parse_flag("+2"), Some(true));
    assert_eq!(parse_flag("256"), None);
    assert_eq!(parse_flag("yes"), None);
    assert_eq!(parse_flag(""), None);
}

#[test]
fn window_types_are_read() {
    assert_eq!(
        parse_types("  dialog\tnormal \n"),
        Some(vec![X11WMAttrType::Dialog, X11WMAttrType::Normal])
    );
    assert_eq!(parse_types(""), Some(vec![]));
    assert_eq!(parse_types("dialog bogus"), None);
}

#[test]
fn window_type_names_round_trip() {
    let all = [
        X11WMAttrType::Desktop,
        X11WMAttrType::Dock,
        X11WMAttrType::Toolbar,
        X11WMAttrType::Menu,
        X11WMAttrType::Utility,
        X11WMAttrType::Splash,
        X11WMAttrType::Dialog,
        X11WMAttrType::DropdownMenu,
        X11WMAttrType::PopupMenu,
        X11WMAttrType::Tooltip,
        X11WMAttrType::Notification,
        X11WMAttrType::Combo,
        X11WMAttrType::DnD,
        X11WMAttrType::Normal,
    ];
    for t in all {
        assert_eq!(X11WMAttrType::from_str(&t.name()), t);
    }
    assert_eq!(X11WMAttrType::from_str("popup_menu"), X11WMAttrType::PopupMenu);
    assert_eq!(X11WMAttrType::from_name("Dock"), None);
}

#[test]
fn checked_aspect_ratio() {
    assert_eq!(WMAspectRatio::try_specified(4, 3), Some(WMAspectRatio::specified(4, 3)));
    assert_eq!(WMAspectRatio::try_specified(0, 3), None);
    assert_eq!(WMAspectRatio::try_specified(4, 0), None);
}
