//! Glyph metrics and the immutable font catalog.
//!
//! The catalog maps characters to atlas-space glyph metrics. Lookup is a
//! total function: a character absent from the table resolves to a
//! placeholder glyph whose fields are all zero, so a missing glyph degrades
//! to an invisible zero-area quad instead of an error.

use vstd::prelude::*;

verus! {

/// Atlas-space metrics for one character of a bitmap font.
///
/// `x`, `y`, `width`, `height` describe the glyph's rectangle inside the
/// atlas texture, in pixels. `xoffset`/`yoffset` displace the quad from the
/// text cursor, and `xadvance` is how far the cursor moves right after the
/// glyph is emitted.
#[derive(Clone, Copy, PartialEq, Eq, Debug)]
pub struct Glyph {
    pub x: u32,
    pub y: u32,
    pub width: u32,
    pub height: u32,
    pub xoffset: i32,
    pub yoffset: i32,
    pub xadvance: i32,
}

impl Glyph {
    /// The placeholder returned for characters missing from a catalog:
    /// zero width, zero height, zero advance.
    pub open spec fn spec_placeholder() -> Glyph {
        Glyph { x: 0, y: 0, width: 0, height: 0, xoffset: 0, yoffset: 0, xadvance: 0 }
    }

    pub fn placeholder() -> (g: Glyph)
        ensures
            g == Glyph::spec_placeholder(),
    {
        Glyph { x: 0, y: 0, width: 0, height: 0, xoffset: 0, yoffset: 0, xadvance: 0 }
    }
}

impl Default for Glyph {
    fn default() -> (g: Glyph)
        ensures
            g == Glyph::spec_placeholder(),
    {
        Glyph::placeholder()
    }
}

/// First glyph in `s` registered under character `c`, if any.
pub open spec fn spec_find(s: Seq<(char, Glyph)>, c: char) -> Option<Glyph>
    decreases s.len(),
{
    if s.len() == 0 {
        None
    } else if s[0].0 == c {
        Some(s[0].1)
    } else {
        spec_find(s.drop_first(), c)
    }
}

/// Glyph-metrics table for one font atlas.
///
/// `scale_w`/`scale_h` are the atlas dimensions in pixels; texture
/// coordinates stored in the batch are atlas pixels and are normalized by
/// these dimensions only at the device boundary.
pub struct FontCatalog {
    pub scale_w: u32,
    pub scale_h: u32,
    pub entries: Vec<(char, Glyph)>,
}

impl FontCatalog {
    /// Whether `c` has an entry of its own in the table.
    pub open spec fn contains_glyph(&self, c: char) -> bool {
        spec_find(self.entries@, c) is Some
    }

    /// The glyph `lookup` resolves for `c`: the registered entry, or the
    /// all-zero placeholder when `c` is absent.
    pub open spec fn spec_lookup(&self, c: char) -> Glyph {
        match spec_find(self.entries@, c) {
            Some(g) => g,
            None => Glyph::spec_placeholder(),
        }
    }

    /// An empty catalog for an atlas of the given dimensions.
    pub fn new(scale_w: u32, scale_h: u32) -> (cat: FontCatalog)
        ensures
            cat.scale_w == scale_w,
            cat.scale_h == scale_h,
            forall|c: char| !cat.contains_glyph(c),
            forall|c: char| cat.spec_lookup(c) == Glyph::spec_placeholder(),
    {
        FontCatalog { scale_w, scale_h, entries: Vec::new() }
    }

    /// Register the metrics for `c`, replacing any earlier entry for `c`
    /// and leaving every other character's resolution unchanged.
    pub fn add_glyph(&mut self, c: char, g: Glyph)
        ensures
            final(self).scale_w == old(self).scale_w,
            final(self).scale_h == old(self).scale_h,
            final(self).contains_glyph(c),
            final(self).spec_lookup(c) == g,
            forall|d: char|
                d != c ==> final(self).contains_glyph(d) == old(self).contains_glyph(d),
            forall|d: char|
                d != c ==> final(self).spec_lookup(d) == old(self).spec_lookup(d),
    {
        let ghost s0 = self.entries@;
        let n = self.entries.len();
        let mut i: usize = 0;
        while i < n
            invariant
                i <= n,
                n == self.entries@.len(),
                self.entries@ == s0,
                s0 == old(self).entries@,
                self.scale_w == old(self).scale_w,
                self.scale_h == old(self).scale_h,
                forall|j: int| 0 <= j < i ==> (#[trigger] s0[j]).0 != c,
            decreases n - i,
        {
            let (ch, _) = self.entries[i];
            if ch == c {
                self.entries[i] = (c, g);
                proof {
                    lemma_find_first_hit(self.entries@, c, i as int);
                    assert forall|d: char| d != c implies spec_find(self.entries@, d)
                        == spec_find(s0, d) by {
                        lemma_find_update_same_key(s0, i as int, (c, g), d);
                    }
                }
                return ;
            }
            i += 1;
        }
        self.entries.push((c, g));
        proof {
            assert forall|d: char| spec_find(self.entries@, d) == (if spec_find(s0, d) is Some {
                spec_find(s0, d)
            } else if d == c {
                Some(g)
            } else {
                None
            }) by {
            lemma_find_push(s0, (c, g), d);
            }
            lemma_find_all_miss(s0, c);
        }
    }

    /// Resolve the glyph for `c`. Total: absent characters resolve to the
    /// all-zero placeholder, so callers never special-case missing glyphs.
    pub fn lookup(&self, c: char) -> (g: Glyph)
        ensures
            g == self.spec_lookup(c),
            !self.contains_glyph(c) ==> g == Glyph::spec_placeholder(),
    {
        let n = self.entries.len();
        let mut i: usize = 0;
        while i < n
            invariant
                i <= n,
                n == self.entries@.len(),
                forall|j: int| 0 <= j < i ==> (#[trigger] self.entries@[j]).0 != c,
            decreases n - i,
        {
            let (ch, g) = self.entries[i];
            if ch == c {
                proof {
                    lemma_find_first_hit(self.entries@, c, i as int);
                }
                return g;
            }
            i += 1;
        }
        proof {
            lemma_find_all_miss(self.entries@, c);
        }
        Glyph::placeholder()
    }
}

/// If the first entry keyed `c` stands at index `i`, the scan result is
/// that entry's glyph.
proof fn lemma_find_first_hit(s: Seq<(char, Glyph)>, c: char, i: int)
    requires
        0 <= i < s.len(),
        forall|j: int| 0 <= j < i ==> (#[trigger] s[j]).0 != c,
        s[i].0 == c,
    ensures
        spec_find(s, c) == Some(s[i].1),
    decreases i,
{
    if i > 0 {
        lemma_find_first_hit(s.drop_first(), c, i - 1);
    }
}

/// A scan over entries none of which is keyed `c` finds nothing.
proof fn lemma_find_all_miss(s: Seq<(char, Glyph)>, c: char)
    requires
        forall|j: int| 0 <= j < s.len() ==> (#[trigger] s[j]).0 != c,
    ensures
        spec_find(s, c) is None,
    decreases s.len(),
{
    if s.len() > 0 {
        lemma_find_all_miss(s.drop_first(), c);
    }
}

/// Replacing an entry by one under the same key leaves every other key's
/// scan result unchanged.
proof fn lemma_find_update_same_key(s: Seq<(char, Glyph)>, i: int, p: (char, Glyph), d: char)
    requires
        0 <= i < s.len(),
        s[i].0 != d,
        p.0 != d,
    ensures
        spec_find(s.update(i, p), d) == spec_find(s, d),
    decreases s.len(),
{
    let u = s.update(i, p);
    if i == 0 {
        assert(u.drop_first() =~= s.drop_first());
    } else {
        if s[0].0 != d {
            lemma_find_update_same_key(s.drop_first(), i - 1, p, d);
            assert(u.drop_first() =~= s.drop_first().update(i - 1, p));
        }
    }
}

/// Appending an entry changes the scan result only for its key, and for
/// that key only when the key was absent before.
proof fn lemma_find_push(s: Seq<(char, Glyph)>, p: (char, Glyph), d: char)
    ensures
        spec_find(s.push(p), d) == (if spec_find(s, d) is Some {
            spec_find(s, d)
        } else if p.0 == d {
            Some(p.1)
        } else {
            None
        }),
    decreases s.len(),
{
    let u = s.push(p);
    if s.len() == 0 {
        assert(u.len() == 1);
        assert(u[0] == p);
        assert(u.drop_first() =~= Seq::<(char, Glyph)>::empty());
        assert(spec_find(u.drop_first(), d) is None);
        assert(spec_find(s, d) is None);
        if p.0 == d {
            assert(spec_find(u, d) == Some(p.1));
        } else {
            assert(spec_find(u, d) == spec_find(u.drop_first(), d));
        }
    } else {
        assert(u[0] == s[0]);
        lemma_find_push(s.drop_first(), p, d);
        assert(u.drop_first() =~= s.drop_first().push(p));
        if s[0].0 == d {
            assert(spec_find(u, d) == Some(s[0].1));
            assert(spec_find(s, d) == Some(s[0].1));
        } else {
            assert(spec_find(u, d) == spec_find(u.drop_first(), d));
            assert(spec_find(s, d) == spec_find(s.drop_first(), d));
        }
    }
}

} // verus!
