use druidinho::attribute::{Attribute, AttrKind, Color, Command, EnvKey, FontDescriptor,
    FontFamily, FontStyle, FontWeight, KeyOrValue, Link, TextAttribute};
use druidinho::env::{Env, EnvUpdateCtx};
use druidinho::rich_text::{AttributesAdder, LayoutBuilder, RichText, RichTextBuilder};
use druidinho::spans::{AttributeSpans, LayoutAttr};

fn emit(rt: &RichText, env: &Env) -> Vec<LayoutAttr> {
    let b = rt.add_attributes(LayoutBuilder::new(), env);
    b.entries().to_vec()
}

#[test]
fn builder_weight_over_second_push() {
    let mut b = RichTextBuilder::new();
    b.push("Hello ");
    let a = b.push("World!");
    a.weight(&mut b, FontWeight::bold());
    let rt = b.build();
    assert_eq!(rt.as_str(), "Hello World!");
    assert_eq!(rt.len(), 12);
    let out = emit(&rt, &Env::new());
    assert_eq!(out.len(), 1);
    assert_eq!(out[0].start, 6);
    assert_eq!(out[0].end, 12);
    assert_eq!(out[0].attr, TextAttribute::Weight(FontWeight(700)));
}

#[test]
fn clone_then_override_middle() {
    let mut rt = RichText::new("abc".to_string());
    rt.add_attribute(0..3, Attribute::underline(true));
    let mut clone = rt.clone();
    clone.add_attribute(1..2, Attribute::underline(false));

    let env = Env::new();
    let orig_out = emit(&rt, &env);
    assert_eq!(orig_out.len(), 1);
    assert_eq!((orig_out[0].start, orig_out[0].end), (0, 3));
    assert_eq!(orig_out[0].attr, TextAttribute::Underline(true));

    let clone_out = emit(&clone, &env);
    assert_eq!(clone_out.len(), 3);
    assert_eq!((clone_out[0].start, clone_out[0].end), (0, 1));
    assert_eq!(clone_out[0].attr, TextAttribute::Underline(true));
    assert_eq!((clone_out[1].start, clone_out[1].end), (1, 2));
    assert_eq!(clone_out[1].attr, TextAttribute::Underline(false));
    assert_eq!((clone_out[2].start, clone_out[2].end), (2, 3));
    assert_eq!(clone_out[2].attr, TextAttribute::Underline(true));
}

#[test]
fn link_covers_pushed_range() {
    let mut b = RichTextBuilder::new();
    let cmd = Command(42);
    let a = b.push("link me");
    a.link(&mut b, cmd);
    let rt = b.build();
    assert_eq!(rt.links().len(), 1);
    assert_eq!(rt.links()[0], Link { start: 0, end: 7, command: cmd });
}

#[test]
fn keyed_color_follows_environment() {
    let k = EnvKey(9);
    let mut rt = RichText::new("themed".to_string());
    rt.add_attribute(0..6, Attribute::text_color(KeyOrValue::Key(k)));

    let red = Color(0xff0000ff);
    let blue = Color(0x0000ffff);

    let mut env_red = Env::new();
    env_red.set_color(k, red);
    let out = emit(&rt, &env_red);
    assert_eq!(out.len(), 1);
    assert_eq!(out[0].attr, TextAttribute::TextColor(red));
    assert_eq!((out[0].start, out[0].end), (0, 6));

    let mut env_blue = Env::new();
    env_blue.set_color(k, blue);
    let out = emit(&rt, &env_blue);
    assert_eq!(out.len(), 1);
    assert_eq!(out[0].attr, TextAttribute::TextColor(blue));
}

#[test]
fn env_update_reports_referenced_keys_only() {
    let k = EnvKey(7);
    let other = EnvKey(8);
    let mut rt = RichText::new("watch".to_string());
    rt.add_attribute(0..5, Attribute::text_color(KeyOrValue::Key(k)));

    let ctx_k = EnvUpdateCtx::new(vec![k]);
    assert!(rt.env_update(&ctx_k));

    let ctx_other = EnvUpdateCtx::new(vec![other]);
    assert!(!rt.env_update(&ctx_other));

    let concrete = RichText::new("plain".to_string())
        .with_attribute(0..5, Attribute::text_color(KeyOrValue::Concrete(Color(1))));
    assert!(!concrete.env_update(&ctx_k));
}

#[test]
fn len_is_byte_length() {
    let mut b = RichTextBuilder::new();
    b.push("h\u{e9}llo");
    let rt = b.build();
    assert_eq!(rt.len(), 6);
    assert_eq!(rt.len(), rt.as_str().len());
    assert!(!rt.is_empty());
    assert!(RichText::new(String::new()).is_empty());
}

#[test]
fn last_writer_wins_on_overlap() {
    let w1 = FontWeight(300);
    let w2 = FontWeight(900);
    let mut rt = RichText::new("overlap!".to_string());
    rt.add_attribute(0..5, Attribute::weight(w1));
    rt.add_attribute(2..8, Attribute::weight(w2));
    let out = emit(&rt, &Env::new());
    assert_eq!(out.len(), 2);
    assert_eq!((out[0].start, out[0].end), (0, 2));
    assert_eq!(out[0].attr, TextAttribute::Weight(w1));
    assert_eq!((out[1].start, out[1].end), (2, 8));
    assert_eq!(out[1].attr, TextAttribute::Weight(w2));
}

#[test]
fn clone_is_isolated_from_later_adds() {
    let mut r1 = RichText::new("hold".to_string());
    r1.add_attribute(0..4, Attribute::style(FontStyle::Italic));
    let env = Env::new();
    let before = emit(&r1, &env);
    let mut r2 = r1.clone();
    r2.add_attribute(0..4, Attribute::style(FontStyle::Regular));
    r2.add_attribute(1..3, Attribute::underline(true));
    let after = emit(&r1, &env);
    assert_eq!(before, after);
}

#[test]
fn pushes_concatenate() {
    let mut b = RichTextBuilder::new();
    b.push("one");
    b.push(", two");
    b.push(" and three");
    let rt = b.build();
    assert_eq!(rt.as_str(), "one, two and three");
    assert_eq!(rt.len(), "one, two and three".len());
}

#[test]
fn empty_range_produces_no_output() {
    let mut rt = RichText::new("edge".to_string());
    rt.add_attribute(2..2, Attribute::underline(true));
    let out = emit(&rt, &Env::new());
    assert!(out.is_empty());
}

#[test]
fn range_to_buffer_end_is_valid() {
    let mut rt = RichText::new("edge".to_string());
    rt.add_attribute(1..4, Attribute::font_family(FontFamily(3)));
    let out = emit(&rt, &Env::new());
    assert_eq!(out.len(), 1);
    assert_eq!((out[0].start, out[0].end), (1, 4));
    assert_eq!(out[0].attr, TextAttribute::FontFamily(FontFamily(3)));
}

#[test]
fn adder_styles_every_kind() {
    let mut b = RichTextBuilder::new();
    let a = b.push("styled");
    a.size(&mut b, KeyOrValue::Concrete(14));
    a.text_color(&mut b, KeyOrValue::Concrete(Color(5)));
    a.font_family(&mut b, FontFamily(2));
    a.weight(&mut b, FontWeight::regular());
    a.style(&mut b, FontStyle::Italic);
    a.underline(&mut b, true);
    let fd = FontDescriptor {
        family: FontFamily(2),
        weight: FontWeight(500),
        style: FontStyle::Regular,
        size: 11,
    };
    a.font_descriptor(&mut b, KeyOrValue::Concrete(fd));
    let rt = b.build();
    let out = emit(&rt, &Env::new());
    assert_eq!(out.len(), 7);
    for e in &out {
        assert_eq!((e.start, e.end), (0, 6));
    }
    assert!(out.contains(&LayoutAttr { start: 0, end: 6, attr: TextAttribute::FontSize(14) }));
    assert!(out.contains(&LayoutAttr { start: 0, end: 6, attr: TextAttribute::TextColor(Color(5)) }));
    assert!(out.contains(&LayoutAttr { start: 0, end: 6, attr: TextAttribute::FontFamily(FontFamily(2)) }));
    assert!(out.contains(&LayoutAttr { start: 0, end: 6, attr: TextAttribute::Weight(FontWeight(400)) }));
    assert!(out.contains(&LayoutAttr { start: 0, end: 6, attr: TextAttribute::Style(FontStyle::Italic) }));
    assert!(out.contains(&LayoutAttr { start: 0, end: 6, attr: TextAttribute::Underline(true) }));
    assert!(out.contains(&LayoutAttr { start: 0, end: 6, attr: TextAttribute::FontDescriptor(fd) }));
}

#[test]
fn keyed_size_and_font_resolve() {
    let ks = EnvKey(1);
    let kf = EnvKey(2);
    let fd = FontDescriptor {
        family: FontFamily(9),
        weight: FontWeight(700),
        style: FontStyle::Italic,
        size: 20,
    };
    let mut env = Env::new();
    env.set_size(ks, 18);
    env.set_font(kf, fd);
    assert_eq!(env.size(ks), Some(18));
    assert_eq!(env.font(kf), Some(fd));
    assert_eq!(env.size(kf), None);

    let mut rt = RichText::new("kv".to_string());
    rt.add_attribute(0..2, Attribute::size(KeyOrValue::Key(ks)));
    rt.add_attribute(0..2, Attribute::font_descriptor(KeyOrValue::Key(kf)));
    let out = emit(&rt, &env);
    assert_eq!(out.len(), 2);
    assert!(out.contains(&LayoutAttr { start: 0, end: 2, attr: TextAttribute::FontSize(18) }));
    assert!(out.contains(&LayoutAttr { start: 0, end: 2, attr: TextAttribute::FontDescriptor(fd) }));
}

#[test]
fn later_env_entry_shadows_earlier() {
    let k = EnvKey(4);
    let mut env = Env::new();
    env.set_color(k, Color(1));
    env.set_color(k, Color(2));
    assert_eq!(env.color(k), Some(Color(2)));
    assert_eq!(env.color(EnvKey(5)), None);
}

#[test]
fn add_attributes_for_range_restyles_earlier_text() {
    let mut b = RichTextBuilder::new();
    b.push("first second");
    let a = b.add_attributes_for_range(0..5);
    a.underline(&mut b, true);
    let rt = b.build();
    let out = emit(&rt, &Env::new());
    assert_eq!(out.len(), 1);
    assert_eq!((out[0].start, out[0].end), (0, 5));
}

#[test]
fn adder_reports_pushed_byte_range() {
    let mut b = RichTextBuilder::new();
    let a1 = b.push("ab");
    assert_eq!(a1, AttributesAdder { start: 0, end: 2 });
    let a2 = b.push("\u{e9}\u{e9}");
    assert_eq!(a2, AttributesAdder { start: 2, end: 6 });
}

#[test]
fn new_with_attributes_keeps_spans() {
    let mut spans = AttributeSpans::new();
    spans.add(0..3, Attribute::underline(true));
    let rt = RichText::new_with_attributes("pre".to_string(), spans);
    assert_eq!(rt.links().len(), 0);
    let out = emit(&rt, &Env::new());
    assert_eq!(out.len(), 1);
    assert_eq!(out[0].attr, TextAttribute::Underline(true));
}

#[test]
fn layout_builder_collects_in_order() {
    let b = LayoutBuilder::new();
    let b = b.range_attribute(0..1, TextAttribute::Underline(true));
    let b = b.range_attribute(1..2, TextAttribute::FontSize(10));
    let entries = b.entries();
    assert_eq!(entries.len(), 2);
    assert_eq!(entries[0], LayoutAttr { start: 0, end: 1, attr: TextAttribute::Underline(true) });
    assert_eq!(entries[1], LayoutAttr { start: 1, end: 2, attr: TextAttribute::FontSize(10) });
}

#[test]
fn attribute_kinds() {
    assert_eq!(Attribute::underline(true).kind(), AttrKind::Underline);
    assert_eq!(Attribute::weight(FontWeight(100)).kind(), AttrKind::Weight);
    assert_eq!(Attribute::size(KeyOrValue::Key(EnvKey(0))).kind(), AttrKind::FontSize);
    assert_eq!(Attribute::text_color(KeyOrValue::Concrete(Color(0))).kind(), AttrKind::TextColor);
    assert_eq!(Attribute::font_family(FontFamily(0)).kind(), AttrKind::FontFamily);
    assert_eq!(Attribute::style(FontStyle::Regular).kind(), AttrKind::Style);
    assert_eq!(
        Attribute::font_descriptor(KeyOrValue::Key(EnvKey(1))).kind(),
        AttrKind::FontDescriptor
    );
}

#[test]
fn spans_env_update_checks_changed_keys() {
    let mut spans = AttributeSpans::new();
    spans.add(0..2, Attribute::size(KeyOrValue::Key(EnvKey(3))));
    let ctx = EnvUpdateCtx::new(vec![EnvKey(2), EnvKey(3)]);
    assert!(spans.env_update(&ctx));
    let ctx = EnvUpdateCtx::new(vec![EnvKey(2)]);
    assert!(!spans.env_update(&ctx));
    let ctx = EnvUpdateCtx::new(Vec::new());
    assert!(!spans.env_update(&ctx));
}
