//! The slice of a theme the window core consumes: the font set handed to
//! the host shell when the window is created. The theme format itself is an
//! external collaborator; the core only carries these values through.

use vstd::prelude::*;

verus! {

/// One font a theme declares: a family name and where to load it from.
pub struct FontDef {
    pub family: String,
    pub source: String,
}

impl FontDef {
    /// An element-wise copy.
    pub fn duplicate(&self) -> (r: FontDef)
        ensures
            r.family@ == self.family@,
            r.source@ == self.source@,
    {
        FontDef { family: self.family.clone(), source: self.source.clone() }
    }
}

/// Two font sequences agree entry for entry.
pub open spec fn fonts_eq(a: Seq<FontDef>, b: Seq<FontDef>) -> bool {
    &&& a.len() == b.len()
    &&& forall|i: int|
        0 <= i < a.len() ==> (#[trigger] a[i]).family@ == b[i].family@ && a[i].source@
            == b[i].source@
}

/// Entry-for-entry font agreement is transitive.
pub proof fn lemma_fonts_eq_trans(a: Seq<FontDef>, b: Seq<FontDef>, c: Seq<FontDef>)
    requires
        fonts_eq(a, b),
        fonts_eq(b, c),
    ensures
        fonts_eq(a, c),
{
    assert forall|i: int|
        0 <= i < a.len() implies (#[trigger] a[i]).family@ == c[i].family@ && a[i].source@
        == c[i].source@ by {
        assert(a[i].family@ == b[i].family@);
        assert(b[i].family@ == c[i].family@);
        assert(a[i].source@ == b[i].source@);
        assert(b[i].source@ == c[i].source@);
    }
}

/// The theme data the core reads: its declared fonts.
pub struct Theme {
    pub fonts: Vec<FontDef>,
}

impl Theme {
    pub fn new(fonts: Vec<FontDef>) -> (r: Theme)
        ensures
            r.fonts@ == fonts@,
    {
        Theme { fonts }
    }

    /// An element-wise copy of the theme.
    pub fn duplicate(&self) -> (r: Theme)
        ensures
            fonts_eq(r.fonts@, self.fonts@),
    {
        let mut fonts: Vec<FontDef> = Vec::new();
        let mut i: usize = 0;
        while i < self.fonts.len()
            invariant
                i <= self.fonts.len(),
                fonts@.len() == i,
                forall|k: int|
                    0 <= k < i ==> (#[trigger] fonts@[k]).family@ == self.fonts@[k].family@
                        && fonts@[k].source@ == self.fonts@[k].source@,
            decreases self.fonts.len() - i,
        {
            fonts.push(self.fonts[i].duplicate());
            i = i + 1;
        }
        Theme { fonts }
    }
}

} // verus!
