//! Rich text with style spans: an immutable-after-build buffer with attribute
//! spans and hyperlinks, and the builder that composes one incrementally.

use vstd::prelude::*;
use vstd::string::StringExecFns;
use vstd::utf8::encode_utf8;

use core::ops::Range;
use std::fmt::Write;
use crate::attribute::{kind_of, kind_of_resolved, AttrKind, Attribute, Color, Command,
    FontDescriptor, FontFamily, FontStyle, FontWeight, KeyOrValue, Link, TextAttribute};
use crate::env::{Env, EnvUpdateCtx};
use crate::spans::{covered_from, entry_covers, entry_valid, lemma_add_winner, span_covers,
    spans_keys_present, spans_triggered, winner, AttributeSpans, LayoutAttr, Span};

verus! {

/// The length in bytes of the UTF-8 encoding of `text`.
pub open spec fn byte_len(text: Seq<char>) -> nat {
    encode_utf8(text).len()
}

/// Encoding to UTF-8 distributes over concatenation, so byte lengths add up.
pub proof fn lemma_byte_len_concat(a: Seq<char>, b: Seq<char>)
    ensures
        encode_utf8(a + b) == encode_utf8(a) + encode_utf8(b),
        byte_len(a + b) == byte_len(a) + byte_len(b),
    decreases a.len(),
{
    if a.len() == 0 {
        assert(a + b =~= b);
        assert(encode_utf8(a) + encode_utf8(b) =~= encode_utf8(b));
    } else {
        assert((a + b).len() > 0);
        assert((a + b)[0] == a[0]);
        assert((a + b).drop_first() =~= a.drop_first() + b);
        lemma_byte_len_concat(a.drop_first(), b);
        assert(encode_utf8(a + b) =~= encode_utf8(a) + encode_utf8(b));
    }
}

/// Relies on `str::len`: the length of a string slice in bytes, which equals
/// the length of the UTF-8 encoding of its characters and, for any `str` std
/// can represent, fits in `usize`.
#[verifier::external_body]
fn str_byte_len(s: &str) -> (r: usize)
    ensures
        r == byte_len(s@),
{
    s.len()
}

/// `core::fmt::Arguments`: pre-formatted arguments produced by the formatting
/// machinery; opaque here and only carried through to the buffer.
#[verifier::external_type_specification]
#[verifier::external_body]
pub struct ExArguments<'a>(core::fmt::Arguments<'a>);

/// Relies on `core::fmt::Write::write_fmt` for `String`: formatting streams
/// characters onto the end of the buffer, leaving the old contents as a
/// prefix.  `String`'s writer itself cannot fail; a formatting implementation
/// that reports an error is a programmer error and aborts here.
#[verifier::external_body]
fn append_fmt(buffer: &mut String, fmt: core::fmt::Arguments<'_>)
    ensures
        exists|t: Seq<char>| final(buffer)@ == old(buffer)@ + t,
{
    buffer.write_fmt(fmt).expect("a formatting trait implementation returned an error");
}

/// The model of a [`RichText`] or [`RichTextBuilder`]: the buffer's
/// characters, the recorded attribute spans, and the links.
pub struct RichTextView {
    pub text: Seq<char>,
    pub attrs: Seq<Span>,
    pub links: Seq<Link>,
}

/// Copy-on-write isolation: let `clone` share `orig`'s model; adding a span to
/// the clone gives the clone a new winner only on the added span's own kind
/// and range, while every emission of the untouched original still answers
/// from `orig.attrs` exactly as before.
pub proof fn lemma_copy_on_write_isolation(
    orig: RichTextView,
    clone: RichTextView,
    s: Span,
    k: AttrKind,
    p: int,
)
    requires
        clone == orig,
    ensures
        winner(clone.attrs.push(s), k, p) == if kind_of(s.attr) == k && span_covers(s, p) {
            Some(s.attr)
        } else {
            winner(orig.attrs, k, p)
        },
{
    lemma_add_winner(orig.attrs, s, k, p);
}

/// A sink for the emitted layout description: collects `(range, concrete
/// attribute)` entries in the order a text layout consumes them.
pub struct LayoutBuilder {
    attrs: Vec<LayoutAttr>,
}

impl View for LayoutBuilder {
    type V = Seq<LayoutAttr>;

    closed spec fn view(&self) -> Seq<LayoutAttr> {
        self.attrs@
    }
}

impl LayoutBuilder {
    /// A builder with no entries.
    pub fn new() -> (b: LayoutBuilder)
        ensures
            b@.len() == 0,
    {
        LayoutBuilder { attrs: Vec::new() }
    }

    /// Records that the concrete attribute `attr` applies over `range`.
    pub fn range_attribute(self, range: Range<usize>, attr: TextAttribute) -> (b: LayoutBuilder)
        ensures
            b@ == self@.push(LayoutAttr { start: range.start, end: range.end, attr }),
    {
        let mut attrs = self.attrs;
        attrs.push(LayoutAttr { start: range.start, end: range.end, attr });
        LayoutBuilder { attrs }
    }

    /// The collected entries, in emission order.
    pub fn entries(&self) -> (r: &[LayoutAttr])
        ensures
            r@ == self@,
    {
        self.attrs.as_slice()
    }
}

/// Text with optional style spans and hyperlinks.  Built once, then read by
/// the layout pass; adding an attribute to one value never disturbs any other
/// value.
#[derive(Debug, Clone)]
pub struct RichText {
    buffer: String,
    attrs: AttributeSpans,
    links: Vec<Link>,
}

impl View for RichText {
    type V = RichTextView;

    closed spec fn view(&self) -> RichTextView {
        RichTextView { text: self.buffer@, attrs: self.attrs@, links: self.links@ }
    }
}

impl RichText {
    /// Text with no attributes and no links.
    pub fn new(buffer: String) -> (r: RichText)
        ensures
            r@.text == buffer@,
            r@.attrs.len() == 0,
            r@.links.len() == 0,
    {
        RichText::new_with_attributes(buffer, AttributeSpans::new())
    }

    /// Text with the provided attribute spans and no links.
    pub fn new_with_attributes(buffer: String, attributes: AttributeSpans) -> (r: RichText)
        ensures
            r@.text == buffer@,
            r@.attrs == attributes@,
            r@.links.len() == 0,
    {
        RichText { buffer, attrs: attributes, links: Vec::new() }
    }

    /// Builder-style form of [`RichText::add_attribute`].
    pub fn with_attribute(self, range: Range<usize>, attr: Attribute) -> (r: RichText)
        requires
            range.start <= range.end,
            range.end <= byte_len(self@.text),
        ensures
            r@.text == self@.text,
            r@.links == self@.links,
            r@.attrs == self@.attrs.push(Span { start: range.start, end: range.end, attr }),
    {
        let mut this = self;
        this.add_attribute(range, attr);
        this
    }

    /// The length of the buffer, in UTF-8 code units.
    pub fn len(&self) -> (r: usize)
        ensures
            r == byte_len(self@.text),
    {
        str_byte_len(self.buffer.as_str())
    }

    /// True iff the underlying buffer is empty.
    pub fn is_empty(&self) -> (r: bool)
        ensures
            r == (byte_len(self@.text) == 0),
    {
        str_byte_len(self.buffer.as_str()) == 0
    }

    /// Records that `attr` applies over the byte range `range`.  A range past
    /// the end of the buffer is a programmer error and is ruled out here; the
    /// buffer and the links are untouched, and no other value is affected.
    pub fn add_attribute(&mut self, range: Range<usize>, attr: Attribute)
        requires
            range.start <= range.end,
            range.end <= byte_len(old(self)@.text),
        ensures
            final(self)@.text == old(self)@.text,
            final(self)@.links == old(self)@.links,
            final(self)@.attrs == old(self)@.attrs.push(
                Span { start: range.start, end: range.end, attr },
            ),
    {
        self.attrs.add(range, attr);
    }

    /// Borrows the buffer.
    pub fn as_str(&self) -> (r: &str)
        ensures
            r@ == self@.text,
    {
        self.buffer.as_str()
    }

    /// Feeds every emitted `(range, concrete attribute)` entry into `builder`,
    /// in emission order, and returns it.  The entries appended are exactly
    /// the layout description of this text's spans under `env`.
    pub fn add_attributes(&self, builder: LayoutBuilder, env: &Env) -> (r: LayoutBuilder)
        requires
            spans_keys_present(self@.attrs, env@),
        ensures
            r@.len() >= builder@.len(),
            forall|i: int| 0 <= i < builder@.len() ==> r@[i] == builder@[i],
            forall|i: int|
                builder@.len() <= i < r@.len() ==> entry_valid(#[trigger] r@[i], self@.attrs, env@),
            forall|k: AttrKind, p: int|
                #[trigger] winner(self@.attrs, k, p) is Some ==> covered_from(
                    r@,
                    builder@.len() as int,
                    k,
                    p,
                ),
            forall|i: int, j: int|
                builder@.len() <= i < j < r@.len() && kind_of_resolved((#[trigger] r@[i]).attr)
                    == kind_of_resolved((#[trigger] r@[j]).attr) ==> r@[i].end <= r@[j].start,
    {
        let out = self.attrs.to_layout_attrs(env);
        let ghost base = builder@;
        let mut b = builder;
        let mut i: usize = 0;
        while i < out.len()
            invariant
                i <= out@.len(),
                forall|j: int| 0 <= j < out@.len() ==> entry_valid(#[trigger] out@[j], self@.attrs, env@),
                crate::spans::entries_complete(out@, self@.attrs),
                b@.len() == base.len() + i,
                forall|j: int| 0 <= j < base.len() ==> b@[j] == base[j],
                forall|j: int| 0 <= j < i ==> b@[base.len() + j] == out@[j],
            decreases out@.len() - i,
        {
            let e = out[i];
            b = b.range_attribute(e.start..e.end, e.attr);
            i = i + 1;
        }
        proof {
            assert forall|i: int|
                base.len() <= i < b@.len() implies entry_valid(#[trigger] b@[i], self@.attrs, env@) by {
                assert(b@[i] == out@[i - base.len()]);
            }
            assert forall|i: int, j: int|
                base.len() <= i < j < b@.len() && kind_of_resolved((#[trigger] b@[i]).attr)
                    == kind_of_resolved((#[trigger] b@[j]).attr) implies b@[i].end <= b@[j].start by {
                assert(b@[i] == out@[i - base.len()]);
                assert(b@[j] == out@[j - base.len()]);
            }
            assert forall|k: AttrKind, p: int|
                #[trigger] winner(self@.attrs, k, p) is Some implies covered_from(
                b@,
                base.len() as int,
                k,
                p,
            ) by {
                let j = choose|j: int| 0 <= j < out@.len() && #[trigger] entry_covers(out@[j], k, p);
                assert(b@[base.len() + j] == out@[j]);
                assert(entry_covers(b@[base.len() + j], k, p));
            }
        }
        b
    }

    /// True iff any attribute of this text defers to a key that `ctx` reports
    /// as changed; a cached layout must then be rebuilt.
    pub fn env_update(&self, ctx: &EnvUpdateCtx) -> (r: bool)
        ensures
            r == spans_triggered(self@.attrs, ctx@),
    {
        self.attrs.env_update(ctx)
    }

    /// Borrows the links.
    pub fn links(&self) -> (r: &[Link])
        ensures
            r@ == self@.links,
    {
        self.links.as_slice()
    }
}

/// A builder for [`RichText`]: pushes styled sub-strings onto a growing
/// buffer, records attributes over the pushed ranges, and is consumed by
/// [`RichTextBuilder::build`].
#[derive(Debug)]
pub struct RichTextBuilder {
    buffer: String,
    attrs: AttributeSpans,
    links: Vec<Link>,
}

impl View for RichTextBuilder {
    type V = RichTextView;

    closed spec fn view(&self) -> RichTextView {
        RichTextView { text: self.buffer@, attrs: self.attrs@, links: self.links@ }
    }
}

impl RichTextBuilder {
    /// An empty builder.
    pub fn new() -> (b: RichTextBuilder)
        ensures
            b@.text.len() == 0,
            b@.attrs.len() == 0,
            b@.links.len() == 0,
    {
        RichTextBuilder { buffer: String::new(), attrs: AttributeSpans::new(), links: Vec::new() }
    }

    /// Appends `string` to the buffer and returns an adder scoped to the byte
    /// range the appended text occupies.
    pub fn push(&mut self, string: &str) -> (a: AttributesAdder)
        ensures
            final(self)@.text == old(self)@.text + string@,
            final(self)@.attrs == old(self)@.attrs,
            final(self)@.links == old(self)@.links,
            a.start == byte_len(old(self)@.text),
            a.end == byte_len(final(self)@.text),
            a.end == a.start + byte_len(string@),
    {
        let start = str_byte_len(self.buffer.as_str());
        proof {
            lemma_byte_len_concat(self@.text, string@);
        }
        self.buffer.append(string);
        let end = str_byte_len(self.buffer.as_str());
        self.add_attributes_for_range(start..end)
    }

    /// Appends formatted text to the buffer, as `write!` does, and returns an
    /// adder scoped to the appended byte range.  A formatting implementation
    /// that reports an error is a programmer error and aborts.
    pub fn write_fmt(&mut self, fmt: core::fmt::Arguments<'_>) -> (a: AttributesAdder)
        ensures
            old(self)@.text.is_prefix_of(final(self)@.text),
            final(self)@.attrs == old(self)@.attrs,
            final(self)@.links == old(self)@.links,
            a.start == byte_len(old(self)@.text),
            a.end == byte_len(final(self)@.text),
            a.start <= a.end,
    {
        let start = str_byte_len(self.buffer.as_str());
        let ghost old_text = self.buffer@;
        append_fmt(&mut self.buffer, fmt);
        proof {
            let t = choose|t: Seq<char>| self.buffer@ == old_text + t;
            lemma_byte_len_concat(old_text, t);
            assert(old_text.is_prefix_of(old_text + t)) by {
                assert((old_text + t).take(old_text.len() as int) =~= old_text);
            }
        }
        let end = str_byte_len(self.buffer.as_str());
        self.add_attributes_for_range(start..end)
    }

    /// An adder for an explicit byte range of the current buffer, usable to
    /// restyle text that was pushed earlier.
    pub fn add_attributes_for_range(&mut self, range: Range<usize>) -> (a: AttributesAdder)
        requires
            range.start <= range.end,
            range.end <= byte_len(old(self)@.text),
        ensures
            *final(self) == *old(self),
            a.start == range.start,
            a.end == range.end,
    {
        AttributesAdder { start: range.start, end: range.end }
    }

    /// Consumes the builder and yields the finished text.
    pub fn build(self) -> (r: RichText)
        ensures
            r@ == self@,
    {
        RichText { buffer: self.buffer, attrs: self.attrs, links: self.links }
    }
}

/// A transient handle that styles one byte range of a [`RichTextBuilder`].
///
/// Each method records one attribute (or link) over the captured range on the
/// builder passed in, and hands the adder back for chaining.
#[derive(Clone, Copy, Debug, PartialEq, Eq, Structural)]
pub struct AttributesAdder {
    pub start: usize,
    pub end: usize,
}

impl AttributesAdder {
    /// Records `attr` over the captured range.
    pub fn add_attr(&self, b: &mut RichTextBuilder, attr: Attribute) -> (r: &Self)
        requires
            self.start <= self.end,
            self.end <= byte_len(old(b)@.text),
        ensures
            final(b)@.text == old(b)@.text,
            final(b)@.links == old(b)@.links,
            final(b)@.attrs == old(b)@.attrs.push(
                Span { start: self.start, end: self.end, attr },
            ),
            r == self,
    {
        b.attrs.add(self.start..self.end, attr);
        self
    }

    /// Records a font size attribute over the captured range.
    pub fn size(&self, b: &mut RichTextBuilder, size: KeyOrValue<u64>) -> (r: &Self)
        requires
            self.start <= self.end,
            self.end <= byte_len(old(b)@.text),
        ensures
            final(b)@.text == old(b)@.text,
            final(b)@.links == old(b)@.links,
            final(b)@.attrs == old(b)@.attrs.push(
                Span { start: self.start, end: self.end, attr: Attribute::FontSize(size) },
            ),
            r == self,
    {
        self.add_attr(b, Attribute::size(size))
    }

    /// Records a foreground color attribute over the captured range.
    pub fn text_color(&self, b: &mut RichTextBuilder, color: KeyOrValue<Color>) -> (r: &Self)
        requires
            self.start <= self.end,
            self.end <= byte_len(old(b)@.text),
        ensures
            final(b)@.text == old(b)@.text,
            final(b)@.links == old(b)@.links,
            final(b)@.attrs == old(b)@.attrs.push(
                Span { start: self.start, end: self.end, attr: Attribute::TextColor(color) },
            ),
            r == self,
    {
        self.add_attr(b, Attribute::text_color(color))
    }

    /// Records a font family attribute over the captured range.
    pub fn font_family(&self, b: &mut RichTextBuilder, family: FontFamily) -> (r: &Self)
        requires
            self.start <= self.end,
            self.end <= byte_len(old(b)@.text),
        ensures
            final(b)@.text == old(b)@.text,
            final(b)@.links == old(b)@.links,
            final(b)@.attrs == old(b)@.attrs.push(
                Span { start: self.start, end: self.end, attr: Attribute::FontFamily(family) },
            ),
            r == self,
    {
        self.add_attr(b, Attribute::font_family(family))
    }

    /// Records a font weight attribute over the captured range.
    pub fn weight(&self, b: &mut RichTextBuilder, weight: FontWeight) -> (r: &Self)
        requires
            self.start <= self.end,
            self.end <= byte_len(old(b)@.text),
        ensures
            final(b)@.text == old(b)@.text,
            final(b)@.links == old(b)@.links,
            final(b)@.attrs == old(b)@.attrs.push(
                Span { start: self.start, end: self.end, attr: Attribute::Weight(weight) },
            ),
            r == self,
    {
        self.add_attr(b, Attribute::weight(weight))
    }

    /// Records a font style attribute over the captured range.
    pub fn style(&self, b: &mut RichTextBuilder, style: FontStyle) -> (r: &Self)
        requires
            self.start <= self.end,
            self.end <= byte_len(old(b)@.text),
        ensures
            final(b)@.text == old(b)@.text,
            final(b)@.links == old(b)@.links,
            final(b)@.attrs == old(b)@.attrs.push(
                Span { start: self.start, end: self.end, attr: Attribute::Style(style) },
            ),
            r == self,
    {
        self.add_attr(b, Attribute::style(style))
    }

    /// Records an underline attribute over the captured range.
    pub fn underline(&self, b: &mut RichTextBuilder, underline: bool) -> (r: &Self)
        requires
            self.start <= self.end,
            self.end <= byte_len(old(b)@.text),
        ensures
            final(b)@.text == old(b)@.text,
            final(b)@.links == old(b)@.links,
            final(b)@.attrs == old(b)@.attrs.push(
                Span { start: self.start, end: self.end, attr: Attribute::Underline(underline) },
            ),
            r == self,
    {
        self.add_attr(b, Attribute::underline(underline))
    }

    /// Records a font descriptor attribute over the captured range.
    pub fn font_descriptor(&self, b: &mut RichTextBuilder, font: KeyOrValue<FontDescriptor>) -> (r:
        &Self)
        requires
            self.start <= self.end,
            self.end <= byte_len(old(b)@.text),
        ensures
            final(b)@.text == old(b)@.text,
            final(b)@.links == old(b)@.links,
            final(b)@.attrs == old(b)@.attrs.push(
                Span { start: self.start, end: self.end, attr: Attribute::FontDescriptor(font) },
            ),
            r == self,
    {
        self.add_attr(b, Attribute::font_descriptor(font))
    }

    /// Appends a link carrying `command` over the captured range.
    pub fn link(&self, b: &mut RichTextBuilder, command: Command) -> (r: &Self)
        requires
            self.start <= self.end,
            self.end <= byte_len(old(b)@.text),
        ensures
            final(b)@.text == old(b)@.text,
            final(b)@.attrs == old(b)@.attrs,
            final(b)@.links == old(b)@.links.push(
                Link { start: self.start, end: self.end, command },
            ),
            r == self,
    {
        b.links.push(Link::new(self.start, self.end, command));
        self
    }
}

} // verus!
