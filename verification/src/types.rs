//! Plain option and state types that travel in request params and stored
//! state. Enum values carry their wire spellings — the driver's casing —
//! through `wire_name`.
use vstd::prelude::*;

verus! {

/// A fixed page viewport, in CSS pixels.
#[derive(Clone, Copy, PartialEq, Eq, Structural, Debug)]
pub struct Viewport {
    pub width: i32,
    pub height: i32,
}

/// Proxy to route browser traffic through.
#[derive(Debug)]
pub struct ProxySettings {
    pub server: String,
    pub bypass: Option<String>,
    pub username: Option<String>,
    pub password: Option<String>,
}

/// Credentials for HTTP authentication.
#[derive(Debug)]
pub struct HttpCredentials {
    pub username: String,
    pub password: String,
}

/// The emulated `prefers-color-scheme` media value.
#[derive(Clone, Copy, PartialEq, Eq, Structural, Debug)]
pub enum ColorScheme {
    Dark,
    Light,
    NoPreference,
}

/// A cookie's SameSite attribute. `NoneValue` is the attribute value the
/// wire spells "None".
#[derive(Clone, Copy, PartialEq, Eq, Structural, Debug)]
pub enum SameSite {
    Lax,
    NoneValue,
    Strict,
}

/// Stored state of one origin: its local-storage entries.
#[derive(Debug)]
pub struct OriginState {
    pub origin: String,
    pub local_storage: Vec<LocalStorageEntry>,
}

/// One local-storage key/value pair.
#[derive(Debug)]
pub struct LocalStorageEntry {
    pub name: String,
    pub value: String,
}

/// When a navigation is considered done.
#[derive(Clone, Copy, PartialEq, Eq, Structural, Debug)]
pub enum DocumentLoadState {
    DomContentLoaded,
    Load,
    NetworkIdle,
}

/// A key held down while another input fires.
#[derive(Clone, Copy, PartialEq, Eq, Structural, Debug)]
pub enum KeyboardModifier {
    Alt,
    Control,
    Meta,
    Shift,
}

/// Which mouse button clicks.
#[derive(Clone, Copy, PartialEq, Eq, Structural, Debug)]
pub enum MouseButton {
    Left,
    Middle,
    Right,
}

/// Screenshot image format.
#[derive(Clone, Copy, PartialEq, Eq, Structural, Debug)]
pub enum ScreenshotType {
    Jpeg,
    Png,
}

/// The state a selector wait resolves on.
#[derive(Clone, Copy, PartialEq, Eq, Structural, Debug)]
pub enum ElementState {
    Disabled,
    Editable,
    Enabled,
    Hidden,
    Stable,
    Visible,
}

/// One HTTP header.
#[derive(Debug)]
pub struct Header {
    name: String,
    value: String,
}

impl Header {
    /// A header from its name and value.
    pub fn new(name: String, value: String) -> (r: Header)
        ensures
            r.name_chars() == name@,
            r.value_chars() == value@,
    {
        Header { name, value }
    }

    /// The header's name, as characters.
    pub closed spec fn name_chars(&self) -> Seq<char> {
        self.name@
    }

    /// The header's value, as characters.
    pub closed spec fn value_chars(&self) -> Seq<char> {
        self.value@
    }

    /// Splits the header into its name and value.
    pub fn into_pair(self) -> (r: (String, String))
        ensures
            r.0@ == self.name_chars(),
            r.1@ == self.value_chars(),
    {
        (self.name, self.value)
    }
}

/// Wire spelling of a load state: lowercase.
pub open spec fn load_state_wire(s: DocumentLoadState) -> Seq<char> {
    match s {
        DocumentLoadState::DomContentLoaded => "domcontentloaded"@,
        DocumentLoadState::Load => "load"@,
        DocumentLoadState::NetworkIdle => "networkidle"@,
    }
}

/// Wire spelling of a color scheme: snake case.
pub open spec fn color_scheme_wire(s: ColorScheme) -> Seq<char> {
    match s {
        ColorScheme::Dark => "dark"@,
        ColorScheme::Light => "light"@,
        ColorScheme::NoPreference => "no_preference"@,
    }
}

/// Wire spelling of a mouse button: lowercase.
pub open spec fn mouse_button_wire(b: MouseButton) -> Seq<char> {
    match b {
        MouseButton::Left => "left"@,
        MouseButton::Middle => "middle"@,
        MouseButton::Right => "right"@,
    }
}

/// Wire spelling of a screenshot type: lowercase.
pub open spec fn screenshot_type_wire(t: ScreenshotType) -> Seq<char> {
    match t {
        ScreenshotType::Jpeg => "jpeg"@,
        ScreenshotType::Png => "png"@,
    }
}

/// Wire spelling of an element state: lowercase.
pub open spec fn element_state_wire(s: ElementState) -> Seq<char> {
    match s {
        ElementState::Disabled => "disabled"@,
        ElementState::Editable => "editable"@,
        ElementState::Enabled => "enabled"@,
        ElementState::Hidden => "hidden"@,
        ElementState::Stable => "stable"@,
        ElementState::Visible => "visible"@,
    }
}

/// Wire spelling of a keyboard modifier: the driver keeps the capitalized
/// names.
pub open spec fn keyboard_modifier_wire(m: KeyboardModifier) -> Seq<char> {
    match m {
        KeyboardModifier::Alt => "Alt"@,
        KeyboardModifier::Control => "Control"@,
        KeyboardModifier::Meta => "Meta"@,
        KeyboardModifier::Shift => "Shift"@,
    }
}

impl DocumentLoadState {
    /// The name this value takes on the wire.
    pub fn wire_name(&self) -> (r: &'static str)
        ensures
            r@ == load_state_wire(*self),
    {
        match self {
            DocumentLoadState::DomContentLoaded => "domcontentloaded",
            DocumentLoadState::Load => "load",
            DocumentLoadState::NetworkIdle => "networkidle",
        }
    }
}

impl ColorScheme {
    /// The name this value takes on the wire.
    pub fn wire_name(&self) -> (r: &'static str)
        ensures
            r@ == color_scheme_wire(*self),
    {
        match self {
            ColorScheme::Dark => "dark",
            ColorScheme::Light => "light",
            ColorScheme::NoPreference => "no_preference",
        }
    }
}

impl MouseButton {
    /// The name this value takes on the wire.
    pub fn wire_name(&self) -> (r: &'static str)
        ensures
            r@ == mouse_button_wire(*self),
    {
        match self {
            MouseButton::Left => "left",
            MouseButton::Middle => "middle",
            MouseButton::Right => "right",
        }
    }
}

impl ScreenshotType {
    /// The name this value takes on the wire.
    pub fn wire_name(&self) -> (r: &'static str)
        ensures
            r@ == screenshot_type_wire(*self),
    {
        match self {
            ScreenshotType::Jpeg => "jpeg",
            ScreenshotType::Png => "png",
        }
    }
}

impl ElementState {
    /// The name this value takes on the wire.
    pub fn wire_name(&self) -> (r: &'static str)
        ensures
            r@ == element_state_wire(*self),
    {
        match self {
            ElementState::Disabled => "disabled",
            ElementState::Editable => "editable",
            ElementState::Enabled => "enabled",
            ElementState::Hidden => "hidden",
            ElementState::Stable => "stable",
            ElementState::Visible => "visible",
        }
    }
}

impl KeyboardModifier {
    /// The name this value takes on the wire.
    pub fn wire_name(&self) -> (r: &'static str)
        ensures
            r@ == keyboard_modifier_wire(*self),
    {
        match self {
            KeyboardModifier::Alt => "Alt",
            KeyboardModifier::Control => "Control",
            KeyboardModifier::Meta => "Meta",
            KeyboardModifier::Shift => "Shift",
        }
    }
}

} // verus!
