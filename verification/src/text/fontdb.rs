//! The fonts that are known, by description.

use vstd::prelude::*;
use vstd::string::*;
use crate::error::ErrorKind;
use crate::text::{FontStyle, Weight, WidthClass};

verus! {

/// The number of a font in a [`FontDb`].
#[derive(Copy, Clone, Debug, Default, Hash, Eq, PartialEq, Structural)]
pub struct FontId(pub usize);

/// What is asked of a font, or known of one.
#[derive(Clone, Debug, Hash, Eq, PartialEq)]
pub struct FontDescription {
    pub family_name: String,
    pub weight: Weight,
    pub font_style: FontStyle,
    pub width_class: WidthClass,
}

/// A description as mathematical values.
pub struct FontDescriptionView {
    pub family_name: Seq<char>,
    pub weight: Weight,
    pub font_style: FontStyle,
    pub width_class: WidthClass,
}

impl View for FontDescription {
    type V = FontDescriptionView;

    open spec fn view(&self) -> FontDescriptionView {
        FontDescriptionView {
            family_name: self.family_name@,
            weight: self.weight,
            font_style: self.font_style,
            width_class: self.width_class,
        }
    }
}

/// Whether a character parts the words of a family name.
pub open spec fn parts_words(c: char) -> bool {
    c == ' ' || c == '-'
}

/// Whether `i` is the place of the first character of `name` that parts
/// words.
pub open spec fn first_break(name: Seq<char>, i: int) -> bool {
    &&& 0 <= i < name.len()
    &&& parts_words(name[i])
    &&& forall|k: int| 0 <= k < i ==> !parts_words(name[k])
}

/// The family name that is tried after `name`: its first word, if it has
/// more than one; nothing, if it has one.
pub open spec fn shorter_family(name: Seq<char>) -> Seq<char> {
    if exists|i: int| first_break(name, i) {
        name.take(choose|i: int| first_break(name, i))
    } else {
        Seq::empty()
    }
}

impl FontDescriptionView {
    /// Whether anything can be given up: the description asks for a
    /// family or for something other than normal.
    pub open spec fn can_degrade(self) -> bool {
        self.family_name.len() > 0 || self.weight != Weight::Normal || self.width_class
            != WidthClass::Normal || self.font_style != FontStyle::Normal
    }

    /// The next less demanding description. A family name of several
    /// words is cut to its first, a single word is dropped; then the
    /// weight becomes normal, then the width, then the style.
    pub open spec fn degraded(self) -> FontDescriptionView {
        if self.family_name.len() > 0 {
            FontDescriptionView { family_name: shorter_family(self.family_name), ..self }
        } else if self.weight != Weight::Normal {
            FontDescriptionView { weight: Weight::Normal, ..self }
        } else if self.width_class != WidthClass::Normal {
            FontDescriptionView { width_class: WidthClass::Normal, ..self }
        } else if self.font_style != FontStyle::Normal {
            FontDescriptionView { font_style: FontStyle::Normal, ..self }
        } else {
            self
        }
    }

    /// How many times the description can be degraded at most.
    pub open spec fn demands(self) -> nat {
        self.family_name.len() + (if self.family_name.len() > 0 {
            1nat
        } else {
            0nat
        }) + (if self.weight != Weight::Normal {
            1nat
        } else {
            0nat
        }) + (if self.width_class != WidthClass::Normal {
            1nat
        } else {
            0nat
        }) + (if self.font_style != FontStyle::Normal {
            1nat
        } else {
            0nat
        })
    }
}

/// One break is the first: two places that both are the first break of a
/// name are the same place.
proof fn lemma_first_break_unique(name: Seq<char>, i: int, j: int)
    requires
        first_break(name, i),
        first_break(name, j),
    ensures
        i == j,
{
    if i < j {
        assert(!parts_words(name[i]));
    }
    if j < i {
        assert(!parts_words(name[j]));
    }
}

/// Degrading makes a description less demanding, so it cannot go on for
/// ever; and a description that cannot be degraded stays as it is.
pub proof fn lemma_degrade_ends(d: FontDescriptionView)
    ensures
        d.can_degrade() ==> d.degraded().demands() < d.demands(),
        !d.can_degrade() ==> d.degraded() == d,
{
    if d.family_name.len() > 0 {
        if exists|i: int| first_break(d.family_name, i) {
            let i = choose|i: int| first_break(d.family_name, i);
            assert(d.family_name.take(i).len() == i);
        }
    }
}

impl FontDescription {
    /// Makes the description less demanding by one step. Returns whether
    /// there was anything to give up.
    pub fn degrade(&mut self) -> (changed: bool)
        ensures
            changed == old(self)@.can_degrade(),
            final(self)@ == old(self)@.degraded(),
    {
        let len = self.family_name.as_str().unicode_len();
        if len > 0 {
            let mut i: usize = 0;
            while i < len
                invariant
                    0 <= i <= len,
                    len == self.family_name@.len(),
                    *self == *old(self),
                    forall|k: int| 0 <= k < i ==> !parts_words(self.family_name@[k]),
                decreases len - i,
            {
                let c = self.family_name.as_str().get_char(i);
                if c == ' ' || c == '-' {
                    proof {
                        let name = self.family_name@;
                        assert(first_break(name, i as int));
                        let j = choose|j: int| first_break(name, j);
                        lemma_first_break_unique(name, i as int, j);
                        assert(name.subrange(0, i as int) == name.take(i as int));
                    }
                    self.family_name = self.family_name.as_str().substring_char(0, i).to_owned();
                    return true;
                }
                i += 1;
            }
            proof {
                let name = self.family_name@;
                assert forall|j: int| !first_break(name, j) by {
                    if first_break(name, j) {
                        assert(!parts_words(name[j]));
                    }
                }
            }
            self.family_name = String::new();
            true
        } else if self.weight != Weight::Normal {
            self.weight = Weight::Normal;
            true
        } else if self.width_class != WidthClass::Normal {
            self.width_class = WidthClass::Normal;
            true
        } else if self.font_style != FontStyle::Normal {
            self.font_style = FontStyle::Normal;
            true
        } else {
            false
        }
    }

    /// The description of a font from what its tables say: the family
    /// name, the numbers of weight and width, and whether it is oblique
    /// or italic. A font without a family name cannot be described.
    pub fn from_tables(family_name: Option<String>, weight: u16, width: u16, oblique: bool, italic: bool) -> (result:
        Result<Self, ErrorKind>)
        ensures
            family_name is None ==> result == Err::<Self, ErrorKind>(
                ErrorKind::FontInfoExtracionError,
            ),
            family_name matches Some(name) ==> (result matches Ok(d) && d.family_name == name
                && d.weight == Weight::spec_from_value(weight) && d.width_class
                == WidthClass::spec_from_value(width) && d.font_style == if oblique {
                FontStyle::Oblique
            } else if italic {
                FontStyle::Italic
            } else {
                FontStyle::Normal
            }),
    {
        let family_name = match family_name {
            Some(name) => name,
            None => {
                return Err(ErrorKind::FontInfoExtracionError);
            },
        };
        let font_style = if oblique {
            FontStyle::Oblique
        } else if italic {
            FontStyle::Italic
        } else {
            FontStyle::Normal
        };
        Ok(
            Self {
                family_name,
                weight: Weight::from_value(weight),
                font_style,
                width_class: WidthClass::from_value(width),
            },
        )
    }

    /// Whether two descriptions ask for the same.
    pub fn same(&self, other: &FontDescription) -> (same: bool)
        ensures
            same == (self@ == other@),
    {
        self.family_name == other.family_name && self.weight == other.weight && self.font_style
            == other.font_style && self.width_class == other.width_class
    }
}

/// The descriptions of the fonts that are known. A font's number is its
/// place in the order of arrival, and no two fonts have the same
/// description.
pub struct FontDb {
    font_descr: Vec<FontDescription>,
}

impl View for FontDb {
    type V = Seq<FontDescriptionView>;

    closed spec fn view(&self) -> Seq<FontDescriptionView> {
        Seq::new(self.font_descr@.len(), |i: int| self.font_descr@[i]@)
    }
}

/// Whether one of `fonts` has the description `d`.
pub open spec fn described(fonts: Seq<FontDescriptionView>, d: FontDescriptionView) -> bool {
    exists|i: int| 0 <= i < fonts.len() && fonts[i] == d
}

/// The first description in the chain of degradations of `d`, `d`
/// itself included, that one of `fonts` has; `None` if the chain ends
/// without one.
pub open spec fn first_described(fonts: Seq<FontDescriptionView>, d: FontDescriptionView) -> Option<
    FontDescriptionView,
>
    decreases d.demands(),
{
    if described(fonts, d) {
        Some(d)
    } else if d.can_degrade() {
        if d.degraded().demands() < d.demands() {
            first_described(fonts, d.degraded())
        } else {
            None
        }
    } else {
        None
    }
}

impl FontDb {
    /// Whether no two fonts have the same description.
    pub open spec fn wf(&self) -> bool {
        forall|i: int, j: int| 0 <= i < j < self@.len() ==> self@[i] != self@[j]
    }

    /// The number of the font with description `d`.
    pub open spec fn id_of(&self, d: FontDescriptionView) -> int {
        choose|i: int| 0 <= i < self@.len() && self@[i] == d
    }

    pub fn new() -> (db: Self)
        ensures
            db@ == Seq::<FontDescriptionView>::empty(),
            db.wf(),
    {
        let db = Self { font_descr: Vec::new() };
        assert(db@ =~= Seq::<FontDescriptionView>::empty());
        db
    }

    /// Number of fonts.
    pub fn len(&self) -> (len: usize)
        ensures
            len == self@.len(),
    {
        self.font_descr.len()
    }

    /// The description of a font; `None` for a number that names none.
    pub fn get(&self, id: FontId) -> (found: Option<&FontDescription>)
        ensures
            id.0 < self@.len() ==> found is Some && found.unwrap()@ == self@[id.0 as int],
            id.0 >= self@.len() ==> found is None,
    {
        if id.0 < self.font_descr.len() {
            Some(&self.font_descr[id.0])
        } else {
            None
        }
    }

    /// The font with exactly this description.
    pub fn lookup(&self, description: &FontDescription) -> (found: Option<FontId>)
        requires
            self.wf(),
        ensures
            described(self@, description@) ==> found == Some(FontId(self.id_of(description@) as usize)),
            !described(self@, description@) ==> found is None,
            found matches Some(id) ==> id.0 < self@.len() && self@[id.0 as int] == description@,
    {
        let mut i: usize = 0;
        while i < self.font_descr.len()
            invariant
                0 <= i <= self.font_descr@.len(),
                self.wf(),
                forall|k: int| 0 <= k < i ==> self@[k] != description@,
            decreases self.font_descr@.len() - i,
        {
            if self.font_descr[i].same(description) {
                proof {
                    assert(self@[i as int] == description@);
                    let c = self.id_of(description@);
                    if c < i as int {
                        assert(self@[c] != self@[i as int]);
                    }
                    if (i as int) < c {
                        assert(self@[i as int] != self@[c]);
                    }
                }
                return Some(FontId(i));
            }
            i += 1;
        }
        None
    }

    /// Takes in a font by its description. A description that is known
    /// gives the number it has; a new one gets the next number.
    pub fn add_font(&mut self, description: FontDescription) -> (id: FontId)
        requires
            old(self).wf(),
        ensures
            final(self).wf(),
            described(old(self)@, description@) ==> final(self)@ == old(self)@ && id.0
                == old(self).id_of(description@),
            !described(old(self)@, description@) ==> final(self)@ == old(self)@.push(description@)
                && id.0 == old(self)@.len(),
    {
        match self.lookup(&description) {
            Some(id) => id,
            None => {
                let id = FontId(self.font_descr.len());
                self.font_descr.push(description);
                assert(self@ =~= old(self)@.push(description@));
                id
            },
        }
    }

    /// Finds the font for a description: the description is degraded
    /// step by step until it is one that a font has. On success the
    /// description is left as it was found, so that a caller who is not
    /// content with the font can degrade it and ask again.
    pub fn find_font(&self, description: &mut FontDescription) -> (found: Option<FontId>)
        requires
            self.wf(),
        ensures
            match first_described(self@, old(description)@) {
                Some(d) => final(description)@ == d && found == Some(
                    FontId(self.id_of(d) as usize),
                ),
                None => found is None,
            },
    {
        loop
            invariant
                self.wf(),
                first_described(self@, description@) == first_described(self@, old(description)@),
            decreases description@.demands(),
        {
            proof {
                lemma_degrade_ends(description@);
            }
            match self.lookup(description) {
                Some(id) => {
                    return Some(id);
                },
                None => {
                    if !description.degrade() {
                        return None;
                    }
                },
            }
        }
    }
}

} // verus!
