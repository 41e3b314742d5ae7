//! Values that the window-manager commands take and return.
use vstd::prelude::*;

verus! {

/// Either a request for the current value of an option, or a new value for it.
pub enum TkOption<T> {
    Get,
    SetTo(T),
}

/// The numerator and denominator of an aspect ratio: both zero when the ratio
/// is unspecified, both positive otherwise.
#[derive(Debug, PartialEq, Eq, Copy, Clone, Structural)]
pub struct WMAspectRatio {
    width: u32,
    height: u32,
}

/// How the ratio `a.width / a.height` compares with `b.width / b.height`,
/// by cross-multiplication.
pub open spec fn ratio_order(a: WMAspectRatio, b: WMAspectRatio) -> core::cmp::Ordering {
    let l = a.spec_width() * b.spec_height();
    let r = a.spec_height() * b.spec_width();
    if l < r {
        core::cmp::Ordering::Less
    } else if l == r {
        core::cmp::Ordering::Equal
    } else {
        core::cmp::Ordering::Greater
    }
}

impl WMAspectRatio {
    pub closed spec fn spec_width(&self) -> u32 {
        self.width
    }

    pub closed spec fn spec_height(&self) -> u32 {
        self.height
    }

    /// Either both parts are zero or neither is.
    pub open spec fn wf(&self) -> bool {
        (self.spec_width() == 0) == (self.spec_height() == 0)
    }

    /// The ratio `width / height`; both must be positive.
    pub fn specified(width: u32, height: u32) -> (r: WMAspectRatio)
        requires
            width != 0,
            height != 0,
        ensures
            r.spec_width() == width,
            r.spec_height() == height,
            r.wf(),
    {
        WMAspectRatio { width: width, height: height }
    }

    /// The ratio `width / height`, or `None` when a part is zero.
    pub fn try_specified(width: u32, height: u32) -> (r: Option<WMAspectRatio>)
        ensures
            r is Some <==> (width != 0 && height != 0),
            r matches Some(a) ==> a.spec_width() == width && a.spec_height() == height,
    {
        if width == 0 || height == 0 {
            None
        } else {
            Some(WMAspectRatio::specified(width, height))
        }
    }

    /// The ratio that leaves the aspect unconstrained.
    pub fn unspecified() -> (r: WMAspectRatio)
        ensures
            r.spec_width() == 0,
            r.spec_height() == 0,
            r.wf(),
    {
        WMAspectRatio { width: 0, height: 0 }
    }

    pub fn is_unspecified(&self) -> (r: bool)
        ensures
            r == (self.spec_width() == 0 && self.spec_height() == 0),
    {
        self.width == 0 && self.height == 0
    }

    pub fn width(&self) -> (r: u32)
        ensures
            r == self.spec_width(),
    {
        self.width
    }

    pub fn height(&self) -> (r: u32)
        ensures
            r == self.spec_height(),
    {
        self.height
    }

    /// Compares the two ratios as fractions.
    pub fn compare(&self, other: &WMAspectRatio) -> (r: core::cmp::Ordering)
        ensures
            r == ratio_order(*self, *other),
    {
        let (a, b, c, d) = (self.width as u64, other.height as u64, self.height as u64, other.width as u64);
        assert(a * b <= 0xffff_ffffu64 * 0xffff_ffffu64) by (nonlinear_arith)
            requires a <= 0xffff_ffffu64, b <= 0xffff_ffffu64;
        assert(c * d <= 0xffff_ffffu64 * 0xffff_ffffu64) by (nonlinear_arith)
            requires c <= 0xffff_ffffu64, d <= 0xffff_ffffu64;
        let l = a * b;
        let r = c * d;
        if l < r {
            core::cmp::Ordering::Less
        } else if l == r {
            core::cmp::Ordering::Equal
        } else {
            core::cmp::Ordering::Greater
        }
    }
}

impl PartialOrd for WMAspectRatio {
    fn partial_cmp(&self, other: &WMAspectRatio) -> (r: Option<core::cmp::Ordering>) {
        Some(self.compare(other))
    }
}

impl vstd::std_specs::cmp::PartialOrdSpecImpl for WMAspectRatio {
    open spec fn obeys_partial_cmp_spec() -> bool {
        true
    }

    open spec fn partial_cmp_spec(&self, other: &WMAspectRatio) -> Option<core::cmp::Ordering> {
        Some(ratio_order(*self, *other))
    }
}

/// The window types that an X11 window manager distinguishes.
#[derive(Debug, Clone, Copy, PartialEq, Eq, Structural)]
pub enum X11WMAttrType {
    Desktop,
    Dock,
    Toolbar,
    Menu,
    Utility,
    Splash,
    Dialog,
    DropdownMenu,
    PopupMenu,
    Tooltip,
    Notification,
    Combo,
    DnD,
    Normal,
}

/// The name under which the window manager knows each window type.
pub open spec fn window_type_name(t: X11WMAttrType) -> Seq<char> {
    match t {
        X11WMAttrType::Desktop => "desktop"@,
        X11WMAttrType::Dock => "dock"@,
        X11WMAttrType::Toolbar => "toolbar"@,
        X11WMAttrType::Menu => "menu"@,
        X11WMAttrType::Utility => "utility"@,
        X11WMAttrType::Splash => "splash"@,
        X11WMAttrType::Dialog => "dialog"@,
        X11WMAttrType::DropdownMenu => "dropdown_menu"@,
        X11WMAttrType::PopupMenu => "popup_menu"@,
        X11WMAttrType::Tooltip => "tooltip"@,
        X11WMAttrType::Notification => "notification"@,
        X11WMAttrType::Combo => "combo"@,
        X11WMAttrType::DnD => "dnd"@,
        X11WMAttrType::Normal => "normal"@,
    }
}

/// Whether `s` holds exactly the characters of `lit`.
fn holds(s: &String, lit: &str) -> (r: bool)
    ensures
        r == (s@ == lit@),
{
    let l = String::from_str(lit);
    s.eq(&l)
}

impl X11WMAttrType {
    /// The window type of the given name, which must be one of the names.
    pub fn from_str(string: &str) -> (r: X11WMAttrType)
        requires
            exists|t: X11WMAttrType| window_type_name(t) == string@,
        ensures
            window_type_name(r) == string@,
    {
        let r = X11WMAttrType::from_name(string);
        r.unwrap()
    }

    /// The window type of the given name, or `None` when no type has it.
    pub fn from_name(string: &str) -> (r: Option<X11WMAttrType>)
        ensures
            r matches Some(t) ==> window_type_name(t) == string@,
            r is None ==> forall|t: X11WMAttrType| window_type_name(t) != string@,
    {
        let s = String::from_str(string);
        if holds(&s, "desktop") {
            return Some(X11WMAttrType::Desktop);
        }
        if holds(&s, "dock") {
            return Some(X11WMAttrType::Dock);
        }
        if holds(&s, "toolbar") {
            return Some(X11WMAttrType::Toolbar);
        }
        if holds(&s, "menu") {
            return Some(X11WMAttrType::Menu);
        }
        if holds(&s, "utility") {
            return Some(X11WMAttrType::Utility);
        }
        if holds(&s, "splash") {
            return Some(X11WMAttrType::Splash);
        }
        if holds(&s, "dialog") {
            return Some(X11WMAttrType::Dialog);
        }
        if holds(&s, "dropdown_menu") {
            return Some(X11WMAttrType::DropdownMenu);
        }
        if holds(&s, "popup_menu") {
            return Some(X11WMAttrType::PopupMenu);
        }
        if holds(&s, "tooltip") {
            return Some(X11WMAttrType::Tooltip);
        }
        if holds(&s, "notification") {
            return Some(X11WMAttrType::Notification);
        }
        if holds(&s, "combo") {
            return Some(X11WMAttrType::Combo);
        }
        if holds(&s, "dnd") {
            return Some(X11WMAttrType::DnD);
        }
        if holds(&s, "normal") {
            return Some(X11WMAttrType::Normal);
        }
        None
    }

    /// The name of this window type.
    pub fn name(&self) -> (r: String)
        ensures
            r@ == window_type_name(*self),
    {
        match self {
            X11WMAttrType::Desktop => String::from_str("desktop"),
            X11WMAttrType::Dock => String::from_str("dock"),
            X11WMAttrType::Toolbar => String::from_str("toolbar"),
            X11WMAttrType::Menu => String::from_str("menu"),
            X11WMAttrType::Utility => String::from_str("utility"),
            X11WMAttrType::Splash => String::from_str("splash"),
            X11WMAttrType::Dialog => String::from_str("dialog"),
            X11WMAttrType::DropdownMenu => String::from_str("dropdown_menu"),
            X11WMAttrType::PopupMenu => String::from_str("popup_menu"),
            X11WMAttrType::Tooltip => String::from_str("tooltip"),
            X11WMAttrType::Notification => String::from_str("notification"),
            X11WMAttrType::Combo => String::from_str("combo"),
            X11WMAttrType::DnD => String::from_str("dnd"),
            X11WMAttrType::Normal => String::from_str("normal"),
        }
    }
}

} // verus!
