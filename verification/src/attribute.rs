//! Styling attributes and the value types they carry.
//!
//! An attribute describes one styling facet (color, weight, underline, ...)
//! applied to a half-open byte range of a text buffer.  A value may be given
//! directly or as a key into an [`Env`](crate::env::Env), resolved when the
//! attributes are emitted for layout.

use vstd::prelude::*;

verus! {

/// A packed RGBA color value.  Opaque to the core; only carried through.
#[derive(Clone, Copy, Debug, PartialEq, Eq, Structural)]
pub struct Color(pub u32);

/// Identifier of a font family known to the platform text system.
#[derive(Clone, Copy, Debug, PartialEq, Eq, Structural)]
pub struct FontFamily(pub u64);

/// A font weight, on the usual 100..=900 scale.
#[derive(Clone, Copy, Debug, PartialEq, Eq, Structural)]
pub struct FontWeight(pub u16);

impl FontWeight {
    /// The regular weight.
    pub fn regular() -> (w: FontWeight)
        ensures
            w == (FontWeight(400u16)),
    {
        FontWeight(400)
    }

    /// The bold weight.
    pub fn bold() -> (w: FontWeight)
        ensures
            w == (FontWeight(700u16)),
    {
        FontWeight(700)
    }
}

/// A font style.
#[derive(Clone, Copy, Debug, PartialEq, Eq, Structural)]
pub enum FontStyle {
    Regular,
    Italic,
}

/// A full font description: family, weight, style and size in layout units.
#[derive(Clone, Copy, Debug, PartialEq, Eq, Structural)]
pub struct FontDescriptor {
    pub family: FontFamily,
    pub weight: FontWeight,
    pub style: FontStyle,
    pub size: u64,
}

/// A key naming a themeable value in an environment.
#[derive(Clone, Copy, Debug, PartialEq, Eq, Structural)]
pub struct EnvKey(pub u64);

/// Either a concrete value or a key resolved against an environment at
/// emission time.
#[derive(Clone, Copy, Debug, PartialEq, Eq, Structural)]
pub enum KeyOrValue<T> {
    Concrete(T),
    Key(EnvKey),
}

/// An opaque command payload carried by a hyperlink.
#[derive(Clone, Copy, Debug, PartialEq, Eq, Structural)]
pub struct Command(pub u64);

/// A hyperlink: a byte range of the owning buffer and a command payload.
#[derive(Clone, Copy, Debug, PartialEq, Eq, Structural)]
pub struct Link {
    pub start: usize,
    pub end: usize,
    pub command: Command,
}

impl Link {
    /// A link over the byte range `[start, end)` carrying `command`.
    pub fn new(start: usize, end: usize, command: Command) -> (l: Link)
        ensures
            l == (Link { start, end, command }),
    {
        Link { start, end, command }
    }
}

/// One styling facet applied to a byte range.
#[derive(Clone, Copy, Debug, PartialEq, Eq, Structural)]
pub enum Attribute {
    FontSize(KeyOrValue<u64>),
    TextColor(KeyOrValue<Color>),
    FontFamily(FontFamily),
    Weight(FontWeight),
    Style(FontStyle),
    Underline(bool),
    FontDescriptor(KeyOrValue<FontDescriptor>),
}

/// The kind of an attribute: two attributes of the same kind over overlapping
/// ranges are resolved by last-writer-wins.
#[derive(Clone, Copy, Debug, PartialEq, Eq, Structural)]
pub enum AttrKind {
    FontSize,
    TextColor,
    FontFamily,
    Weight,
    Style,
    Underline,
    FontDescriptor,
}

/// The kind of `a`.
pub open spec fn kind_of(a: Attribute) -> AttrKind {
    match a {
        Attribute::FontSize(_) => AttrKind::FontSize,
        Attribute::TextColor(_) => AttrKind::TextColor,
        Attribute::FontFamily(_) => AttrKind::FontFamily,
        Attribute::Weight(_) => AttrKind::Weight,
        Attribute::Style(_) => AttrKind::Style,
        Attribute::Underline(_) => AttrKind::Underline,
        Attribute::FontDescriptor(_) => AttrKind::FontDescriptor,
    }
}

impl Attribute {
    /// The kind of this attribute.
    pub fn kind(&self) -> (k: AttrKind)
        ensures
            k == kind_of(*self),
    {
        match self {
            Attribute::FontSize(_) => AttrKind::FontSize,
            Attribute::TextColor(_) => AttrKind::TextColor,
            Attribute::FontFamily(_) => AttrKind::FontFamily,
            Attribute::Weight(_) => AttrKind::Weight,
            Attribute::Style(_) => AttrKind::Style,
            Attribute::Underline(_) => AttrKind::Underline,
            Attribute::FontDescriptor(_) => AttrKind::FontDescriptor,
        }
    }

    /// A font size attribute, concrete or keyed.
    pub fn size(size: KeyOrValue<u64>) -> (a: Attribute)
        ensures
            a == Attribute::FontSize(size),
    {
        Attribute::FontSize(size)
    }

    /// A foreground color attribute, concrete or keyed.
    pub fn text_color(color: KeyOrValue<Color>) -> (a: Attribute)
        ensures
            a == Attribute::TextColor(color),
    {
        Attribute::TextColor(color)
    }

    /// A font family attribute.
    pub fn font_family(family: FontFamily) -> (a: Attribute)
        ensures
            a == Attribute::FontFamily(family),
    {
        Attribute::FontFamily(family)
    }

    /// A font weight attribute.
    pub fn weight(weight: FontWeight) -> (a: Attribute)
        ensures
            a == Attribute::Weight(weight),
    {
        Attribute::Weight(weight)
    }

    /// A font style attribute.
    pub fn style(style: FontStyle) -> (a: Attribute)
        ensures
            a == Attribute::Style(style),
    {
        Attribute::Style(style)
    }

    /// An underline attribute.
    pub fn underline(underline: bool) -> (a: Attribute)
        ensures
            a == Attribute::Underline(underline),
    {
        Attribute::Underline(underline)
    }

    /// A font descriptor attribute, concrete or keyed.
    pub fn font_descriptor(font: KeyOrValue<FontDescriptor>) -> (a: Attribute)
        ensures
            a == Attribute::FontDescriptor(font),
    {
        Attribute::FontDescriptor(font)
    }
}

/// A fully resolved attribute, ready to hand to a text layout builder.
#[derive(Clone, Copy, Debug, PartialEq, Eq, Structural)]
pub enum TextAttribute {
    FontSize(u64),
    TextColor(Color),
    FontFamily(FontFamily),
    Weight(FontWeight),
    Style(FontStyle),
    Underline(bool),
    FontDescriptor(FontDescriptor),
}

/// The kind of a resolved attribute.
pub open spec fn kind_of_resolved(a: TextAttribute) -> AttrKind {
    match a {
        TextAttribute::FontSize(_) => AttrKind::FontSize,
        TextAttribute::TextColor(_) => AttrKind::TextColor,
        TextAttribute::FontFamily(_) => AttrKind::FontFamily,
        TextAttribute::Weight(_) => AttrKind::Weight,
        TextAttribute::Style(_) => AttrKind::Style,
        TextAttribute::Underline(_) => AttrKind::Underline,
        TextAttribute::FontDescriptor(_) => AttrKind::FontDescriptor,
    }
}

} // verus!
