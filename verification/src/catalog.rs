//! The fixed catalog of collection-bin categories.

use vstd::prelude::*;

verus! {

/// How many bin categories the catalog holds.
pub const BIN_COUNT: usize = 3;

/// One of the three kinds of waste-collection bin.
///
/// The catalog is ordered: `Grey` is entry 0, `Green` entry 1 and `Sorted`
/// entry 2. Each entry carries the label shown in the picker and the key of
/// the image the host draws for it.
#[derive(Clone, Copy, Debug, PartialEq, Eq, Structural, Hash)]
pub enum BinCategory {
    Grey,
    Green,
    Sorted,
}

impl BinCategory {
    /// Position of the category in the catalog.
    pub open spec fn spec_index(self) -> nat {
        match self {
            BinCategory::Grey => 0,
            BinCategory::Green => 1,
            BinCategory::Sorted => 2,
        }
    }

    /// Text shown for the category in the picker.
    pub open spec fn spec_display_label(self) -> Seq<char> {
        match self {
            BinCategory::Grey => "Grijze bak"@,
            BinCategory::Green => "Groene bak"@,
            BinCategory::Sorted => "Sorti bak"@,
        }
    }

    /// Key under which the host finds the category's image.
    pub open spec fn spec_icon_key(self) -> Seq<char> {
        match self {
            BinCategory::Grey => "grijs.png"@,
            BinCategory::Green => "groen.png"@,
            BinCategory::Sorted => "sorti.png"@,
        }
    }

    /// Position of the category in the catalog, from 0.
    pub fn index(self) -> (index: usize)
        ensures
            index == self.spec_index(),
            index < BIN_COUNT,
    {
        match self {
            BinCategory::Grey => 0,
            BinCategory::Green => 1,
            BinCategory::Sorted => 2,
        }
    }

    /// Text shown for the category in the picker.
    pub fn display_label(self) -> (label: &'static str)
        ensures
            label@ == self.spec_display_label(),
    {
        match self {
            BinCategory::Grey => "Grijze bak",
            BinCategory::Green => "Groene bak",
            BinCategory::Sorted => "Sorti bak",
        }
    }

    /// Key under which the host finds the category's image.
    pub fn icon_key(self) -> (key: &'static str)
        ensures
            key@ == self.spec_icon_key(),
    {
        match self {
            BinCategory::Grey => "grijs.png",
            BinCategory::Green => "groen.png",
            BinCategory::Sorted => "sorti.png",
        }
    }
}

/// The catalog entry at `index`, meant for `0 <= index < BIN_COUNT`.
pub open spec fn spec_lookup(index: int) -> BinCategory
    recommends
        0 <= index < BIN_COUNT,
{
    if index == 0 {
        BinCategory::Grey
    } else if index == 1 {
        BinCategory::Green
    } else {
        BinCategory::Sorted
    }
}

/// Returns the catalog entry at `index`.
///
/// The catalog has no entry outside `0..BIN_COUNT`; a caller that holds an
/// index it has not checked resolves it through
/// [`SelectionState::resolved_bin_category`](crate::selection::SelectionState::resolved_bin_category)
/// instead.
pub fn lookup(index: usize) -> (category: BinCategory)
    requires
        index < BIN_COUNT,
    ensures
        category == spec_lookup(index as int),
        category.spec_index() == index,
{
    if index == 0 {
        BinCategory::Grey
    } else if index == 1 {
        BinCategory::Green
    } else {
        BinCategory::Sorted
    }
}

/// The display labels of all categories, in catalog order.
pub fn display_labels() -> (labels: Vec<&'static str>)
    ensures
        labels@.len() == BIN_COUNT,
        forall|i: int| 0 <= i < BIN_COUNT ==> labels@[i]@ == #[trigger] spec_lookup(i).spec_display_label(),
{
    let mut labels: Vec<&'static str> = Vec::new();
    let mut i: usize = 0;
    while i < BIN_COUNT
        invariant
            i <= BIN_COUNT,
            labels@.len() == i,
            forall|j: int| 0 <= j < i ==> labels@[j]@ == #[trigger] spec_lookup(j).spec_display_label(),
        decreases BIN_COUNT - i,
    {
        labels.push(lookup(i).display_label());
        i = i + 1;
    }
    labels
}

/// Looking a category up by its own index gives the category back, and every
/// index in range is the index of the entry found there.
pub proof fn lemma_lookup_index_inverse(category: BinCategory, index: int)
    ensures
        spec_lookup(category.spec_index() as int) == category,
        0 <= index < BIN_COUNT ==> spec_lookup(index).spec_index() == index,
{
}

/// No two categories share an icon key, and no two share a display label: a
/// key or a label names one category.
pub proof fn lemma_keys_and_labels_name_one_category(first: BinCategory, second: BinCategory)
    requires
        first != second,
    ensures
        first.spec_icon_key() != second.spec_icon_key(),
        first.spec_display_label() != second.spec_display_label(),
{
    reveal_strlit("grijs.png");
    reveal_strlit("groen.png");
    reveal_strlit("sorti.png");
    reveal_strlit("Grijze bak");
    reveal_strlit("Groene bak");
    reveal_strlit("Sorti bak");
    assert("grijs.png"@[2] == 'i' && "groen.png"@[2] == 'o' && "sorti.png"@[2] == 'r');
    assert("Grijze bak"@[2] == 'i' && "Groene bak"@[2] == 'o' && "Sorti bak"@[2] == 'r');
}

} // verus!
