//! The environment: a key-value lookup for themeable attribute values, and
//! the update context that reports which keys changed in a batch of updates.

use vstd::prelude::*;

use crate::attribute::{Color, EnvKey, FontDescriptor};

verus! {

/// The last value recorded for `k` in `entries`, if any.
pub open spec fn assoc_lookup<V>(entries: Seq<(EnvKey, V)>, k: EnvKey) -> Option<V>
    decreases entries.len(),
{
    if entries.len() == 0 {
        None
    } else if entries.last().0 == k {
        Some(entries.last().1)
    } else {
        assoc_lookup(entries.drop_last(), k)
    }
}

/// The model of an [`Env`]: the recorded key-value entries, latest last.
pub struct EnvView {
    pub colors: Seq<(EnvKey, Color)>,
    pub sizes: Seq<(EnvKey, u64)>,
    pub fonts: Seq<(EnvKey, FontDescriptor)>,
}

/// A key-value lookup used to resolve keyed attribute values at emission
/// time.  Values set later shadow earlier ones under the same key.
pub struct Env {
    colors: Vec<(EnvKey, Color)>,
    sizes: Vec<(EnvKey, u64)>,
    fonts: Vec<(EnvKey, FontDescriptor)>,
}

impl View for Env {
    type V = EnvView;

    closed spec fn view(&self) -> EnvView {
        EnvView { colors: self.colors@, sizes: self.sizes@, fonts: self.fonts@ }
    }
}

impl Env {
    /// An environment with no entries.
    pub fn new() -> (e: Env)
        ensures
            e@.colors.len() == 0,
            e@.sizes.len() == 0,
            e@.fonts.len() == 0,
    {
        Env { colors: Vec::new(), sizes: Vec::new(), fonts: Vec::new() }
    }

    /// Records a color value for `k`, shadowing any earlier entry.
    pub fn set_color(&mut self, k: EnvKey, c: Color)
        ensures
            final(self)@.colors == old(self)@.colors.push((k, c)),
            final(self)@.sizes == old(self)@.sizes,
            final(self)@.fonts == old(self)@.fonts,
    {
        self.colors.push((k, c));
    }

    /// Records a font size value for `k`, shadowing any earlier entry.
    pub fn set_size(&mut self, k: EnvKey, s: u64)
        ensures
            final(self)@.sizes == old(self)@.sizes.push((k, s)),
            final(self)@.colors == old(self)@.colors,
            final(self)@.fonts == old(self)@.fonts,
    {
        self.sizes.push((k, s));
    }

    /// Records a font descriptor value for `k`, shadowing any earlier entry.
    pub fn set_font(&mut self, k: EnvKey, f: FontDescriptor)
        ensures
            final(self)@.fonts == old(self)@.fonts.push((k, f)),
            final(self)@.colors == old(self)@.colors,
            final(self)@.sizes == old(self)@.sizes,
    {
        self.fonts.push((k, f));
    }

    /// The color recorded for `k`, if any.
    pub fn color(&self, k: EnvKey) -> (r: Option<Color>)
        ensures
            r == assoc_lookup(self@.colors, k),
    {
        lookup_color(&self.colors, k)
    }

    /// The font size recorded for `k`, if any.
    pub fn size(&self, k: EnvKey) -> (r: Option<u64>)
        ensures
            r == assoc_lookup(self@.sizes, k),
    {
        lookup_size(&self.sizes, k)
    }

    /// The font descriptor recorded for `k`, if any.
    pub fn font(&self, k: EnvKey) -> (r: Option<FontDescriptor>)
        ensures
            r == assoc_lookup(self@.fonts, k),
    {
        lookup_font(&self.fonts, k)
    }
}

fn lookup_color(entries: &Vec<(EnvKey, Color)>, k: EnvKey) -> (r: Option<Color>)
    ensures
        r == assoc_lookup(entries@, k),
{
    let mut i: usize = entries.len();
    proof {
        assert(entries@.take(entries@.len() as int) =~= entries@);
    }
    while i > 0
        invariant
            i <= entries.len(),
            assoc_lookup(entries@, k) == assoc_lookup(entries@.take(i as int), k),
        decreases i,
    {
        i = i - 1;
        let (ek, v) = entries[i];
        proof {
            assert(entries@.take(i + 1).drop_last() =~= entries@.take(i as int));
            assert(entries@.take(i + 1).last() == entries@[i as int]);
        }
        if ek.0 == k.0 {
            return Some(v);
        }
    }
    proof {
        assert(entries@.take(0).len() == 0);
    }
    None
}

fn lookup_size(entries: &Vec<(EnvKey, u64)>, k: EnvKey) -> (r: Option<u64>)
    ensures
        r == assoc_lookup(entries@, k),
{
    let mut i: usize = entries.len();
    proof {
        assert(entries@.take(entries@.len() as int) =~= entries@);
    }
    while i > 0
        invariant
            i <= entries.len(),
            assoc_lookup(entries@, k) == assoc_lookup(entries@.take(i as int), k),
        decreases i,
    {
        i = i - 1;
        let (ek, v) = entries[i];
        proof {
            assert(entries@.take(i + 1).drop_last() =~= entries@.take(i as int));
            assert(entries@.take(i + 1).last() == entries@[i as int]);
        }
        if ek.0 == k.0 {
            return Some(v);
        }
    }
    proof {
        assert(entries@.take(0).len() == 0);
    }
    None
}

fn lookup_font(entries: &Vec<(EnvKey, FontDescriptor)>, k: EnvKey) -> (r: Option<FontDescriptor>)
    ensures
        r == assoc_lookup(entries@, k),
{
    let mut i: usize = entries.len();
    proof {
        assert(entries@.take(entries@.len() as int) =~= entries@);
    }
    while i > 0
        invariant
            i <= entries.len(),
            assoc_lookup(entries@, k) == assoc_lookup(entries@.take(i as int), k),
        decreases i,
    {
        i = i - 1;
        let (ek, v) = entries[i];
        proof {
            assert(entries@.take(i + 1).drop_last() =~= entries@.take(i as int));
            assert(entries@.take(i + 1).last() == entries@[i as int]);
        }
        if ek.0 == k.0 {
            return Some(v);
        }
    }
    proof {
        assert(entries@.take(0).len() == 0);
    }
    None
}

/// Reports which environment keys changed in a batch of updates; used to
/// decide whether a cached text layout must be rebuilt.
pub struct EnvUpdateCtx {
    changed: Vec<EnvKey>,
}

impl View for EnvUpdateCtx {
    type V = Seq<EnvKey>;

    closed spec fn view(&self) -> Seq<EnvKey> {
        self.changed@
    }
}

impl EnvUpdateCtx {
    /// An update context reporting `changed` as the changed keys.
    pub fn new(changed: Vec<EnvKey>) -> (c: EnvUpdateCtx)
        ensures
            c@ == changed@,
    {
        EnvUpdateCtx { changed }
    }

    /// True iff `k` is one of the changed keys.
    pub fn key_changed(&self, k: EnvKey) -> (r: bool)
        ensures
            r == self@.contains(k),
    {
        let mut i: usize = 0;
        while i < self.changed.len()
            invariant
                i <= self.changed.len(),
                forall|j: int| 0 <= j < i ==> self@[j] != k,
            decreases self.changed.len() - i,
        {
            if self.changed[i].0 == k.0 {
                return true;
            }
            i = i + 1;
        }
        false
    }
}

} // verus!
