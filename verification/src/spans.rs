//! Attribute spans: an ordered record of `(byte range, attribute)` additions,
//! with an emission operation that projects them, kind by kind, onto the
//! buffer and resolves overlaps by last-writer-wins.

use vstd::prelude::*;

use core::ops::Range;
use crate::attribute::{kind_of, kind_of_resolved, AttrKind, Attribute, EnvKey, KeyOrValue,
    TextAttribute};
use crate::env::{assoc_lookup, Env, EnvUpdateCtx, EnvView};

verus! {

/// One recorded addition: `attr` applies over the byte range `[start, end)`.
#[derive(Clone, Copy, Debug, PartialEq, Eq, Structural)]
pub struct Span {
    pub start: usize,
    pub end: usize,
    pub attr: Attribute,
}

/// True iff byte position `p` lies in the span's half-open range.
pub open spec fn span_covers(s: Span, p: int) -> bool {
    s.start <= p < s.end
}

/// The attribute of kind `k` that applies at byte position `p`: the last
/// recorded span of that kind whose range covers `p`, if any.
pub open spec fn winner(spans: Seq<Span>, k: AttrKind, p: int) -> Option<Attribute>
    decreases spans.len(),
{
    if spans.len() == 0 {
        None
    } else if kind_of(spans.last().attr) == k && span_covers(spans.last(), p) {
        Some(spans.last().attr)
    } else {
        winner(spans.drop_last(), k, p)
    }
}

/// The environment key an attribute's value is deferred to, if any.
pub open spec fn attr_key(a: Attribute) -> Option<EnvKey> {
    match a {
        Attribute::FontSize(KeyOrValue::Key(k)) => Some(k),
        Attribute::TextColor(KeyOrValue::Key(k)) => Some(k),
        Attribute::FontDescriptor(KeyOrValue::Key(k)) => Some(k),
        _ => None,
    }
}

/// True iff every key that `a` defers to has a value in `env`.
pub open spec fn attr_keys_present(a: Attribute, env: EnvView) -> bool {
    match a {
        Attribute::FontSize(KeyOrValue::Key(k)) => assoc_lookup(env.sizes, k) is Some,
        Attribute::TextColor(KeyOrValue::Key(k)) => assoc_lookup(env.colors, k) is Some,
        Attribute::FontDescriptor(KeyOrValue::Key(k)) => assoc_lookup(env.fonts, k) is Some,
        _ => true,
    }
}

/// True iff every recorded attribute can be resolved against `env`.
pub open spec fn spans_keys_present(spans: Seq<Span>, env: EnvView) -> bool {
    forall|i: int| 0 <= i < spans.len() ==> attr_keys_present(#[trigger] spans[i].attr, env)
}

/// The concrete form of `a` under `env`: keyed values are replaced by the
/// value recorded for their key.
pub open spec fn resolve_spec(a: Attribute, env: EnvView) -> TextAttribute {
    match a {
        Attribute::FontSize(KeyOrValue::Concrete(v)) => TextAttribute::FontSize(v),
        Attribute::FontSize(KeyOrValue::Key(k)) => TextAttribute::FontSize(
            assoc_lookup(env.sizes, k)->Some_0,
        ),
        Attribute::TextColor(KeyOrValue::Concrete(c)) => TextAttribute::TextColor(c),
        Attribute::TextColor(KeyOrValue::Key(k)) => TextAttribute::TextColor(
            assoc_lookup(env.colors, k)->Some_0,
        ),
        Attribute::FontFamily(f) => TextAttribute::FontFamily(f),
        Attribute::Weight(w) => TextAttribute::Weight(w),
        Attribute::Style(s) => TextAttribute::Style(s),
        Attribute::Underline(u) => TextAttribute::Underline(u),
        Attribute::FontDescriptor(KeyOrValue::Concrete(f)) => TextAttribute::FontDescriptor(f),
        Attribute::FontDescriptor(KeyOrValue::Key(k)) => TextAttribute::FontDescriptor(
            assoc_lookup(env.fonts, k)->Some_0,
        ),
    }
}

/// Resolution never changes an attribute's kind.
pub proof fn lemma_resolve_kind(a: Attribute, env: EnvView)
    ensures
        kind_of_resolved(resolve_spec(a, env)) == kind_of(a),
{
}

/// One emitted entry: the concrete attribute `attr` applies over `[start, end)`.
#[derive(Clone, Copy, Debug, PartialEq, Eq, Structural)]
pub struct LayoutAttr {
    pub start: usize,
    pub end: usize,
    pub attr: TextAttribute,
}

/// True iff `e` speaks the truth about `spans` under `env`: its range is
/// non-empty and at every covered position its attribute is the resolved
/// last-writer of its kind.
pub open spec fn entry_valid(e: LayoutAttr, spans: Seq<Span>, env: EnvView) -> bool {
    &&& e.start < e.end
    &&& forall|p: int|
        e.start <= p < e.end ==> {
            &&& #[trigger] winner(spans, kind_of_resolved(e.attr), p) is Some
            &&& resolve_spec(winner(spans, kind_of_resolved(e.attr), p)->Some_0, env) == e.attr
        }
}

/// True iff some entry of kind `k` in `out` covers position `p`.
pub open spec fn entry_covers(e: LayoutAttr, k: AttrKind, p: int) -> bool {
    kind_of_resolved(e.attr) == k && e.start <= p < e.end
}

/// True iff some entry in `out` covers position `p` with an attribute of kind `k`.
pub open spec fn covered(out: Seq<LayoutAttr>, k: AttrKind, p: int) -> bool {
    exists|i: int| 0 <= i < out.len() && #[trigger] entry_covers(out[i], k, p)
}

/// True iff some entry at index `from` or later covers position `p` with an
/// attribute of kind `k`.
pub open spec fn covered_from(out: Seq<LayoutAttr>, from: int, k: AttrKind, p: int) -> bool {
    exists|i: int| from <= i < out.len() && #[trigger] entry_covers(out[i], k, p)
}

/// True iff some recorded attribute defers to one of the keys in `changed`.
pub open spec fn spans_triggered(spans: Seq<Span>, changed: Seq<EnvKey>) -> bool {
    exists|i: int|
        0 <= i < spans.len() && {
            &&& #[trigger] attr_key(spans[i].attr) is Some
            &&& changed.contains(attr_key(spans[i].attr)->Some_0)
        }
}

/// True iff `out` covers every position at which some attribute applies.
pub open spec fn entries_complete(out: Seq<LayoutAttr>, spans: Seq<Span>) -> bool {
    forall|k: AttrKind, p: int| #[trigger] winner(spans, k, p) is Some ==> covered(out, k, p)
}

/// A winning attribute is one of the recorded attributes, and of the kind
/// asked for.
pub proof fn lemma_winner_in_spans(spans: Seq<Span>, k: AttrKind, p: int)
    ensures
        winner(spans, k, p) is Some ==> {
            &&& kind_of(winner(spans, k, p)->Some_0) == k
            &&& exists|i: int|
                0 <= i < spans.len() && #[trigger] spans[i].attr == winner(spans, k, p)->Some_0
        },
    decreases spans.len(),
{
    if spans.len() > 0 {
        let last = spans.last();
        if kind_of(last.attr) == k && span_covers(last, p) {
            assert(spans[spans.len() - 1].attr == winner(spans, k, p)->Some_0);
        } else {
            lemma_winner_in_spans(spans.drop_last(), k, p);
            if winner(spans, k, p) is Some {
                let i = choose|i: int|
                    0 <= i < spans.drop_last().len() && #[trigger] spans.drop_last()[i].attr
                        == winner(spans.drop_last(), k, p)->Some_0;
                assert(spans[i].attr == winner(spans, k, p)->Some_0);
            }
        }
    }
}

/// No attribute of kind `k` applies at a position outside `[0, bound)`, where
/// `bound` is past the end of every recorded span of kind `k`.
pub proof fn lemma_winner_none_outside(spans: Seq<Span>, k: AttrKind, bound: int, p: int)
    requires
        forall|i: int|
            0 <= i < spans.len() && kind_of(#[trigger] spans[i].attr) == k ==> spans[i].end
                <= bound,
        !(0 <= p < bound),
    ensures
        winner(spans, k, p) is None,
    decreases spans.len(),
{
    if spans.len() > 0 {
        assert(spans[spans.len() - 1] == spans.last());
        assert forall|i: int|
            0 <= i < spans.drop_last().len() && kind_of(
                #[trigger] spans.drop_last()[i].attr,
            ) == k implies spans.drop_last()[i].end <= bound by {
            assert(spans.drop_last()[i] == spans[i]);
        }
        lemma_winner_none_outside(spans.drop_last(), k, bound, p);
    }
}

/// Last writer wins: if the span at index `j` is of kind `k`, covers `p`, and
/// no later span of kind `k` covers `p`, then it is the winner at `p`.
pub proof fn lemma_last_writer_wins(spans: Seq<Span>, k: AttrKind, p: int, j: int)
    requires
        0 <= j < spans.len(),
        kind_of(spans[j].attr) == k,
        span_covers(spans[j], p),
        forall|i: int|
            j < i < spans.len() && kind_of(#[trigger] spans[i].attr) == k ==> !span_covers(
                spans[i],
                p,
            ),
    ensures
        winner(spans, k, p) == Some(spans[j].attr),
    decreases spans.len(),
{
    if j == spans.len() - 1 {
        assert(spans.last() == spans[j]);
    } else {
        assert(spans.last() == spans[spans.len() - 1]);
        assert forall|i: int|
            j < i < spans.drop_last().len() && kind_of(
                #[trigger] spans.drop_last()[i].attr,
            ) == k implies !span_covers(spans.drop_last()[i], p) by {
            assert(spans.drop_last()[i] == spans[i]);
        }
        assert(spans.drop_last()[j] == spans[j]);
        lemma_last_writer_wins(spans.drop_last(), k, p, j);
    }
}

/// Emission is complete: if the span at index `j` covers `p` and no later
/// same-kind span covers `p`, then any emitted output that is valid and
/// complete holds an entry that covers `p` with exactly that attribute's
/// resolved form.
pub proof fn lemma_emission_complete(
    out: Seq<LayoutAttr>,
    spans: Seq<Span>,
    env: EnvView,
    j: int,
    p: int,
)
    requires
        forall|i: int| 0 <= i < out.len() ==> entry_valid(#[trigger] out[i], spans, env),
        entries_complete(out, spans),
        0 <= j < spans.len(),
        span_covers(spans[j], p),
        forall|i: int|
            j < i < spans.len() && kind_of(#[trigger] spans[i].attr) == kind_of(spans[j].attr)
                ==> !span_covers(spans[i], p),
    ensures
        exists|i: int|
            0 <= i < out.len() && (#[trigger] out[i]).start <= p < out[i].end && out[i].attr
                == resolve_spec(spans[j].attr, env),
{
    let k = kind_of(spans[j].attr);
    lemma_last_writer_wins(spans, k, p, j);
    assert(covered(out, k, p));
    let i = choose|i: int| 0 <= i < out.len() && #[trigger] entry_covers(out[i], k, p);
    assert(entry_valid(out[i], spans, env));
    assert(out[i].attr == resolve_spec(spans[j].attr, env));
}

/// Recording one more span changes the applicable attribute exactly on the
/// new span's range and kind, and nowhere else.
pub proof fn lemma_add_winner(spans: Seq<Span>, s: Span, k: AttrKind, p: int)
    ensures
        winner(spans.push(s), k, p) == if kind_of(s.attr) == k && span_covers(s, p) {
            Some(s.attr)
        } else {
            winner(spans, k, p)
        },
{
    assert(spans.push(s).last() == s);
    assert(spans.push(s).drop_last() =~= spans);
}

/// An index for each attribute kind, fixing the order in which kinds are
/// emitted.
pub open spec fn kind_index(k: AttrKind) -> int {
    match k {
        AttrKind::FontSize => 0,
        AttrKind::TextColor => 1,
        AttrKind::FontFamily => 2,
        AttrKind::Weight => 3,
        AttrKind::Style => 4,
        AttrKind::Underline => 5,
        AttrKind::FontDescriptor => 6,
    }
}

fn kind_at(i: usize) -> (k: AttrKind)
    requires
        i < 7,
    ensures
        kind_index(k) == i,
{
    if i == 0 {
        AttrKind::FontSize
    } else if i == 1 {
        AttrKind::TextColor
    } else if i == 2 {
        AttrKind::FontFamily
    } else if i == 3 {
        AttrKind::Weight
    } else if i == 4 {
        AttrKind::Style
    } else if i == 5 {
        AttrKind::Underline
    } else {
        AttrKind::FontDescriptor
    }
}

/// Resolves `a` against `env`.
fn resolve(a: &Attribute, env: &Env) -> (r: TextAttribute)
    requires
        attr_keys_present(*a, env@),
    ensures
        r == resolve_spec(*a, env@),
{
    match a {
        Attribute::FontSize(KeyOrValue::Concrete(v)) => TextAttribute::FontSize(*v),
        Attribute::FontSize(KeyOrValue::Key(k)) => TextAttribute::FontSize(env.size(*k).unwrap()),
        Attribute::TextColor(KeyOrValue::Concrete(c)) => TextAttribute::TextColor(*c),
        Attribute::TextColor(KeyOrValue::Key(k)) => TextAttribute::TextColor(
            env.color(*k).unwrap(),
        ),
        Attribute::FontFamily(f) => TextAttribute::FontFamily(*f),
        Attribute::Weight(w) => TextAttribute::Weight(*w),
        Attribute::Style(s) => TextAttribute::Style(*s),
        Attribute::Underline(u) => TextAttribute::Underline(*u),
        Attribute::FontDescriptor(KeyOrValue::Concrete(f)) => TextAttribute::FontDescriptor(*f),
        Attribute::FontDescriptor(KeyOrValue::Key(k)) => TextAttribute::FontDescriptor(
            env.font(*k).unwrap(),
        ),
    }
}

fn opt_attr_eq(a: &Option<Attribute>, b: &Option<Attribute>) -> (r: bool)
    ensures
        r == (a == b),
{
    match (a, b) {
        (Option::None, Option::None) => true,
        (Option::Some(x), Option::Some(y)) => *x == *y,
        _ => false,
    }
}

/// The winner of kind `k` at byte position `p`.
fn winner_at(spans: &Vec<Span>, k: AttrKind, p: usize) -> (r: Option<Attribute>)
    ensures
        r == winner(spans@, k, p as int),
{
    let mut i: usize = spans.len();
    proof {
        assert(spans@.take(spans@.len() as int) =~= spans@);
    }
    while i > 0
        invariant
            i <= spans.len(),
            winner(spans@, k, p as int) == winner(spans@.take(i as int), k, p as int),
        decreases i,
    {
        i = i - 1;
        let s = spans[i];
        proof {
            assert(spans@.take(i + 1).drop_last() =~= spans@.take(i as int));
            assert(spans@.take(i + 1).last() == spans@[i as int]);
        }
        if s.attr.kind() == k && s.start <= p && p < s.end {
            return Some(s.attr);
        }
    }
    None
}

fn max_end_for_kind(spans: &Vec<Span>, k: AttrKind) -> (m: usize)
    ensures
        forall|i: int|
            0 <= i < spans@.len() && kind_of(#[trigger] spans@[i].attr) == k ==> spans@[i].end
                <= m,
{
    let mut m: usize = 0;
    let mut i: usize = 0;
    while i < spans.len()
        invariant
            i <= spans.len(),
            forall|j: int|
                0 <= j < i && kind_of(#[trigger] spans@[j].attr) == k ==> spans@[j].end <= m,
        decreases spans.len() - i,
    {
        let s = spans[i];
        if s.attr.kind() == k && s.end > m {
            m = s.end;
        }
        i = i + 1;
    }
    m
}

proof fn lemma_covered_push(out: Seq<LayoutAttr>, e: LayoutAttr, k: AttrKind, p: int)
    requires
        covered(out, k, p),
    ensures
        covered(out.push(e), k, p),
{
    let i = choose|i: int| 0 <= i < out.len() && #[trigger] entry_covers(out[i], k, p);
    assert(out.push(e)[i] == out[i]);
    assert(entry_covers(out.push(e)[i], k, p));
}

/// Emits the flattened runs of kind `k`: maximal runs of positions that share
/// one winning attribute become one entry each.
fn emit_kind(spans: &Vec<Span>, k: AttrKind, env: &Env) -> (part: Vec<LayoutAttr>)
    requires
        spans_keys_present(spans@, env@),
    ensures
        forall|i: int|
            0 <= i < part@.len() ==> entry_valid(#[trigger] part@[i], spans@, env@)
                && kind_of_resolved(part@[i].attr) == k,
        forall|p: int| #[trigger] winner(spans@, k, p) is Some ==> covered(part@, k, p),
        forall|i: int, j: int| 0 <= i < j < part@.len() ==> (#[trigger] part@[i]).end <= (#[trigger] part@[j]).start,
{
    let max_e = max_end_for_kind(spans, k);
    let mut part: Vec<LayoutAttr> = Vec::new();
    let mut run_start: usize = 0;
    let mut cur: Option<Attribute> = None;
    let mut p: usize = 0;
    while p < max_e
        invariant
            spans_keys_present(spans@, env@),
            run_start <= p <= max_e,
            cur is Some ==> run_start < p,
            forall|q: int| run_start <= q < p ==> #[trigger] winner(spans@, k, q) == cur,
            forall|q: int|
                0 <= q < run_start && #[trigger] winner(spans@, k, q) is Some ==> covered(
                    part@,
                    k,
                    q,
                ),
            forall|i: int|
                0 <= i < part@.len() ==> entry_valid(#[trigger] part@[i], spans@, env@)
                    && kind_of_resolved(part@[i].attr) == k,
            forall|i: int, j: int|
                0 <= i < j < part@.len() ==> (#[trigger] part@[i]).end <= (#[trigger] part@[j]).start,
            part@.len() > 0 ==> part@.last().end <= run_start,
        decreases max_e - p,
    {
        let w = winner_at(spans, k, p);
        if !opt_attr_eq(&w, &cur) {
            match cur {
                Option::Some(a) => {
                    proof {
                        assert(winner(spans@, k, run_start as int) == Some(a));
                        lemma_winner_in_spans(spans@, k, run_start as int);
                        let i = choose|i: int|
                            0 <= i < spans@.len() && #[trigger] spans@[i].attr == a;
                        assert(attr_keys_present(spans@[i].attr, env@));
                        lemma_resolve_kind(a, env@);
                    }
                    let resolved = resolve(&a, env);
                    let e = LayoutAttr { start: run_start, end: p, attr: resolved };
                    let ghost old_part = part@;
                    part.push(e);
                    proof {
                        assert forall|q: int|
                            0 <= q < p && #[trigger] winner(spans@, k, q) is Some implies covered(
                            part@,
                            k,
                            q,
                        ) by {
                            if q < run_start {
                                lemma_covered_push(old_part, e, k, q);
                            } else {
                                assert(entry_covers(part@[part@.len() - 1], k, q));
                            }
                        }
                    }
                },
                Option::None => {},
            }
            run_start = p;
            cur = w;
        }
        p = p + 1;
    }
    match cur {
        Option::Some(a) => {
            proof {
                assert(winner(spans@, k, run_start as int) == Some(a));
                lemma_winner_in_spans(spans@, k, run_start as int);
                let i = choose|i: int| 0 <= i < spans@.len() && #[trigger] spans@[i].attr == a;
                assert(attr_keys_present(spans@[i].attr, env@));
                lemma_resolve_kind(a, env@);
            }
            let resolved = resolve(&a, env);
            let e = LayoutAttr { start: run_start, end: max_e, attr: resolved };
            let ghost old_part = part@;
            part.push(e);
            proof {
                assert forall|q: int|
                    0 <= q < max_e && #[trigger] winner(spans@, k, q) is Some implies covered(
                    part@,
                    k,
                    q,
                ) by {
                    if q < run_start {
                        lemma_covered_push(old_part, e, k, q);
                    } else {
                        assert(entry_covers(part@[part@.len() - 1], k, q));
                    }
                }
            }
        },
        Option::None => {},
    }
    proof {
        assert forall|q: int| #[trigger] winner(spans@, k, q) is Some implies covered(
            part@,
            k,
            q,
        ) by {
            if !(0 <= q < max_e) {
                lemma_winner_none_outside(spans@, k, max_e as int, q);
            }
        }
    }
    part
}

/// An ordered record of attribute additions over byte ranges of one buffer.
///
/// Additions are kept in order; overlaps between same-kind attributes are
/// resolved by last-writer-wins when the spans are emitted for layout.
#[derive(Debug, Clone)]
pub struct AttributeSpans {
    spans: Vec<Span>,
}

impl View for AttributeSpans {
    type V = Seq<Span>;

    closed spec fn view(&self) -> Seq<Span> {
        self.spans@
    }
}

impl Default for AttributeSpans {
    /// An empty record.
    fn default() -> (s: AttributeSpans)
        ensures
            s@.len() == 0,
    {
        AttributeSpans { spans: Vec::new() }
    }
}

impl AttributeSpans {
    /// An empty record.
    pub fn new() -> (s: AttributeSpans)
        ensures
            s@.len() == 0,
    {
        AttributeSpans { spans: Vec::new() }
    }

    /// Records that `attr` applies over `range`.  Ranges may overlap earlier
    /// additions; an empty range covers no position and produces no output.
    pub fn add(&mut self, range: Range<usize>, attr: Attribute)
        ensures
            final(self)@ == old(self)@.push(Span { start: range.start, end: range.end, attr }),
    {
        self.spans.push(Span { start: range.start, end: range.end, attr });
    }

    /// Emits the layout-ready description of the recorded attributes: every
    /// keyed value is resolved against `env`, and for each kind the recorded
    /// ranges are projected onto the buffer with later additions overriding
    /// earlier ones where they overlap.
    ///
    /// Every emitted entry reports, over its whole range, the resolved
    /// last-added attribute of its kind, and every position at which an
    /// attribute of some kind applies is covered by an entry of that kind.
    pub fn to_layout_attrs(&self, env: &Env) -> (out: Vec<LayoutAttr>)
        requires
            spans_keys_present(self@, env@),
        ensures
            forall|i: int| 0 <= i < out@.len() ==> entry_valid(#[trigger] out@[i], self@, env@),
            entries_complete(out@, self@),
            forall|i: int, j: int|
                0 <= i < j < out@.len() && kind_of_resolved((#[trigger] out@[i]).attr)
                    == kind_of_resolved((#[trigger] out@[j]).attr) ==> out@[i].end <= out@[j].start,
            forall|i: int, j: int|
                0 <= i < j < out@.len() ==> kind_index(kind_of_resolved((#[trigger] out@[i]).attr))
                    <= kind_index(kind_of_resolved((#[trigger] out@[j]).attr)),
    {
        let mut out: Vec<LayoutAttr> = Vec::new();
        let mut ki: usize = 0;
        while ki < 7
            invariant
                ki <= 7,
                spans_keys_present(self@, env@),
                forall|i: int| 0 <= i < out@.len() ==> entry_valid(#[trigger] out@[i], self@, env@),
                forall|k: AttrKind, p: int|
                    kind_index(k) < ki && #[trigger] winner(self@, k, p) is Some ==> covered(
                        out@,
                        k,
                        p,
                    ),
                forall|i: int|
                    0 <= i < out@.len() ==> kind_index(kind_of_resolved((#[trigger] out@[i]).attr))
                        < ki,
                forall|i: int, j: int|
                    0 <= i < j < out@.len() && kind_of_resolved((#[trigger] out@[i]).attr)
                        == kind_of_resolved((#[trigger] out@[j]).attr) ==> out@[i].end
                        <= out@[j].start,
                forall|i: int, j: int|
                    0 <= i < j < out@.len() ==> kind_index(
                        kind_of_resolved((#[trigger] out@[i]).attr),
                    ) <= kind_index(kind_of_resolved((#[trigger] out@[j]).attr)),
            decreases 7 - ki,
        {
            let k = kind_at(ki);
            let part = emit_kind(&self.spans, k, env);
            let ghost old_out = out@;
            let ghost part_snap = part@;
            let mut part_mut = part;
            out.append(&mut part_mut);
            proof {
                assert forall|i: int|
                    0 <= i < out@.len() implies kind_index(
                    kind_of_resolved((#[trigger] out@[i]).attr),
                ) < ki + 1 by {
                    if i >= old_out.len() {
                        assert(out@[i] == part_snap[i - old_out.len()]);
                    }
                }
                assert forall|i: int, j: int|
                    0 <= i < j < out@.len() && kind_of_resolved((#[trigger] out@[i]).attr)
                        == kind_of_resolved((#[trigger] out@[j]).attr) implies out@[i].end
                    <= out@[j].start by {
                    if j < old_out.len() {
                        assert(out@[i] == old_out[i] && out@[j] == old_out[j]);
                    } else if i >= old_out.len() {
                        assert(out@[i] == part_snap[i - old_out.len()]);
                        assert(out@[j] == part_snap[j - old_out.len()]);
                    } else {
                        assert(out@[i] == old_out[i]);
                        assert(out@[j] == part_snap[j - old_out.len()]);
                        assert(kind_index(kind_of_resolved(out@[i].attr)) < ki as int);
                        assert(kind_of_resolved(out@[j].attr) == k);
                    }
                }
                assert forall|i: int, j: int|
                    0 <= i < j < out@.len() implies kind_index(
                    kind_of_resolved((#[trigger] out@[i]).attr),
                ) <= kind_index(kind_of_resolved((#[trigger] out@[j]).attr)) by {
                    if j < old_out.len() {
                        assert(out@[i] == old_out[i] && out@[j] == old_out[j]);
                    } else if i >= old_out.len() {
                        assert(out@[i] == part_snap[i - old_out.len()]);
                        assert(out@[j] == part_snap[j - old_out.len()]);
                    } else {
                        assert(out@[i] == old_out[i]);
                        assert(out@[j] == part_snap[j - old_out.len()]);
                        assert(kind_index(kind_of_resolved(out@[i].attr)) < ki as int);
                        assert(kind_of_resolved(out@[j].attr) == k);
                    }
                }
                assert forall|k2: AttrKind, p: int|
                    kind_index(k2) < ki + 1 && #[trigger] winner(self@, k2, p) is Some implies
                    covered(out@, k2, p) by {
                    if kind_index(k2) < ki as int {
                        let i = choose|i: int|
                            0 <= i < old_out.len() && #[trigger] entry_covers(old_out[i], k2, p);
                        assert(out@[i] == old_out[i]);
                        assert(entry_covers(out@[i], k2, p));
                    } else {
                        assert(k2 == k) by {
                            lemma_kind_index_injective(k2, k);
                        }
                        let i = choose|i: int|
                            0 <= i < part_snap.len() && #[trigger] entry_covers(
                                part_snap[i],
                                k2,
                                p,
                            );
                        assert(out@[old_out.len() + i] == part_snap[i]);
                        assert(entry_covers(out@[old_out.len() + i], k2, p));
                    }
                }
            }
            ki = ki + 1;
        }
        proof {
            assert forall|k: AttrKind| kind_index(k) < 7 by {}
        }
        out
    }

    /// True iff any recorded attribute defers to a key that `ctx` reports as
    /// changed.
    pub fn env_update(&self, ctx: &EnvUpdateCtx) -> (r: bool)
        ensures
            r == spans_triggered(self@, ctx@),
    {
        let mut i: usize = 0;
        while i < self.spans.len()
            invariant
                i <= self.spans.len(),
                forall|j: int|
                    0 <= j < i ==> !(#[trigger] attr_key(self@[j].attr) is Some && ctx@.contains(
                        attr_key(self@[j].attr)->Some_0,
                    )),
            decreases self.spans.len() - i,
        {
            let s = self.spans[i];
            let key = match s.attr {
                Attribute::FontSize(KeyOrValue::Key(k)) => Some(k),
                Attribute::TextColor(KeyOrValue::Key(k)) => Some(k),
                Attribute::FontDescriptor(KeyOrValue::Key(k)) => Some(k),
                _ => None,
            };
            match key {
                Option::Some(k) => {
                    if ctx.key_changed(k) {
                        assert(attr_key(self@[i as int].attr) == Some(k));
                        return true;
                    }
                },
                Option::None => {},
            }
            i = i + 1;
        }
        false
    }
}

proof fn lemma_kind_index_injective(k1: AttrKind, k2: AttrKind)
    requires
        kind_index(k1) == kind_index(k2),
    ensures
        k1 == k2,
{
}

} // verus!
