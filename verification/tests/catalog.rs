use garbage_app::catalog::{display_labels, lookup, BinCategory, BIN_COUNT};

#[test]
fn catalog_has_three_entries() {
    assert_eq!(BIN_COUNT, 3);
    assert_eq!(display_labels().len(), 3);
}

#[test]
fn lookup_gives_the_entries_in_order() {
    assert_eq!(lookup(0), BinCategory::Grey);
    assert_eq!(lookup(1), BinCategory::Green);
    assert_eq!(lookup(2), BinCategory::Sorted);
}

#[test]
fn lookup_and_index_are_inverse() {
    for index in 0..BIN_COUNT {
        assert_eq!(lookup(index).index(), index);
    }
    for category in [BinCategory::Grey, BinCategory::Green, BinCategory::Sorted] {
        assert_eq!(lookup(category.index()), category);
    }
}

#[test]
fn entries_carry_their_labels() {
    assert_eq!(BinCategory::Grey.display_label(), "Grijze bak");
    assert_eq!(BinCategory::Green.display_label(), "Groene bak");
    assert_eq!(BinCategory::Sorted.display_label(), "Sorti bak");
}

#[test]
fn entries_carry_their_icon_keys() {
    assert_eq!(BinCategory::Grey.icon_key(), "grijs.png");
    assert_eq!(BinCategory::Green.icon_key(), "groen.png");
    assert_eq!(BinCategory::Sorted.icon_key(), "sorti.png");
}

#[test]
fn entries_carry_their_indices() {
    assert_eq!(BinCategory::Grey.index(), 0);
    assert_eq!(BinCategory::Green.index(), 1);
    assert_eq!(BinCategory::Sorted.index(), 2);
}

#[test]
fn display_labels_follow_the_catalog_order() {
    assert_eq!(display_labels(), vec!["Grijze bak", "Groene bak", "Sorti bak"]);
    for index in 0..BIN_COUNT {
        assert_eq!(display_labels()[index], lookup(index).display_label());
    }
}

#[test]
fn keys_and_labels_name_one_category() {
    let all = [BinCategory::Grey, BinCategory::Green, BinCategory::Sorted];
    for first in all {
        for second in all {
            if first != second {
                assert_ne!(first.icon_key(), second.icon_key());
                assert_ne!(first.display_label(), second.display_label());
            }
        }
    }
}
