//! Plain data describing windows: identifiers, geometry, snapshots and handles.

use vstd::prelude::*;

verus! {

/// Identifier of a window inside one backend's namespace.
#[derive(Debug, Eq, Hash)]
pub enum PlatformWindowId {
    /// A numeric protocol handle.
    X11(u32),
    /// An opaque handle of a compositor-native protocol.
    Wayland(String),
}

/// Mathematical value of a [`PlatformWindowId`].
pub ghost enum PlatformKey {
    X11(u32),
    Wayland(Seq<char>),
}

impl View for PlatformWindowId {
    type V = PlatformKey;

    open spec fn view(&self) -> PlatformKey {
        match self {
            PlatformWindowId::X11(n) => PlatformKey::X11(*n),
            PlatformWindowId::Wayland(s) => PlatformKey::Wayland(s@),
        }
    }
}

impl PartialEq for PlatformWindowId {
    fn eq(&self, other: &PlatformWindowId) -> (r: bool) {
        match self {
            PlatformWindowId::X11(a) => match other {
                PlatformWindowId::X11(b) => *a == *b,
                PlatformWindowId::Wayland(_) => false,
            },
            PlatformWindowId::Wayland(a) => match other {
                PlatformWindowId::X11(_) => false,
                PlatformWindowId::Wayland(b) => a.eq(b),
            },
        }
    }
}

impl vstd::std_specs::cmp::PartialEqSpecImpl for PlatformWindowId {
    open spec fn obeys_eq_spec() -> bool {
        true
    }

    open spec fn eq_spec(&self, other: &PlatformWindowId) -> bool {
        self@ == other@
    }
}

impl Clone for PlatformWindowId {
    fn clone(&self) -> (r: Self)
        ensures
            r == *self,
    {
        match self {
            PlatformWindowId::X11(n) => PlatformWindowId::X11(*n),
            PlatformWindowId::Wayland(s) => PlatformWindowId::Wayland(s.clone()),
        }
    }
}

/// Screen position of a window's top-left corner and its extent.
#[derive(Debug, Clone, Copy, PartialEq, Eq, Structural)]
pub struct Geometry {
    pub x: i32,
    pub y: i32,
    pub width: u32,
    pub height: u32,
}

impl Geometry {
    /// The zero rectangle, used when a window's geometry cannot be read.
    pub open spec fn zero() -> Geometry {
        Geometry { x: 0, y: 0, width: 0, height: 0 }
    }
}

impl Default for Geometry {
    fn default() -> (r: Geometry)
        ensures
            r == Geometry::zero(),
    {
        Geometry { x: 0, y: 0, width: 0, height: 0 }
    }
}

/// One window as a backend saw it at one instant.
#[derive(Debug)]
pub struct WindowInfo {
    pub platform_id: PlatformWindowId,
    pub title: String,
    pub class: String,
    pub geometry: Geometry,
    pub focused: bool,
    pub visible: bool,
}

/// Mathematical value of a [`WindowInfo`].
pub ghost struct WindowInfoView {
    pub platform_id: PlatformKey,
    pub title: Seq<char>,
    pub class: Seq<char>,
    pub geometry: Geometry,
    pub focused: bool,
    pub visible: bool,
}

impl View for WindowInfo {
    type V = WindowInfoView;

    open spec fn view(&self) -> WindowInfoView {
        WindowInfoView {
            platform_id: self.platform_id@,
            title: self.title@,
            class: self.class@,
            geometry: self.geometry,
            focused: self.focused,
            visible: self.visible,
        }
    }
}

impl Clone for WindowInfo {
    fn clone(&self) -> (r: Self)
        ensures
            r == *self,
    {
        WindowInfo {
            platform_id: self.platform_id.clone(),
            title: self.title.clone(),
            class: self.class.clone(),
            geometry: self.geometry,
            focused: self.focused,
            visible: self.visible,
        }
    }
}

/// A window as the registry tracks it, under its stable reference.
#[derive(Debug)]
pub struct WindowHandle {
    /// Stable reference, `w` followed by a decimal number.
    pub ref_id: String,
    pub platform_id: PlatformWindowId,
    pub title: String,
    pub class: String,
    pub geometry: Geometry,
    pub focused: bool,
    pub visible: bool,
}

/// Mathematical value of a [`WindowHandle`].
pub ghost struct WindowHandleView {
    pub ref_id: Seq<char>,
    pub platform_id: PlatformKey,
    pub title: Seq<char>,
    pub class: Seq<char>,
    pub geometry: Geometry,
    pub focused: bool,
    pub visible: bool,
}

impl WindowHandleView {
    /// The handle's observable attributes are those of the snapshot.
    pub open spec fn shows(self, s: WindowInfoView) -> bool {
        &&& self.platform_id == s.platform_id
        &&& self.title == s.title
        &&& self.class == s.class
        &&& self.geometry == s.geometry
        &&& self.focused == s.focused
        &&& self.visible == s.visible
    }
}

impl View for WindowHandle {
    type V = WindowHandleView;

    open spec fn view(&self) -> WindowHandleView {
        WindowHandleView {
            ref_id: self.ref_id@,
            platform_id: self.platform_id@,
            title: self.title@,
            class: self.class@,
            geometry: self.geometry,
            focused: self.focused,
            visible: self.visible,
        }
    }
}

impl Clone for WindowHandle {
    fn clone(&self) -> (r: Self)
        ensures
            r == *self,
    {
        WindowHandle {
            ref_id: self.ref_id.clone(),
            platform_id: self.platform_id.clone(),
            title: self.title.clone(),
            class: self.class.clone(),
            geometry: self.geometry,
            focused: self.focused,
            visible: self.visible,
        }
    }
}

} // verus!
