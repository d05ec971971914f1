use text_position_rs::position::max_position;
use text_position_rs::position::min_position;
use text_position_rs::CompositePosition;
use text_position_rs::PositionOrder;
use text_position_rs::TextPosition;
use text_position_rs::Utf16Position;
use text_position_rs::Utf8Index;
use text_position_rs::Utf8Position;

#[test]
fn zero_positions() {
    assert_eq!(Utf8Index::zero(), Utf8Index::new(0));
    assert_eq!(Utf8Position::zero(), Utf8Position::new(0, 0));
    assert_eq!(Utf16Position::zero(), Utf16Position::new(0, 0));
    assert_eq!(CompositePosition::zero(), CompositePosition::new(0, 0, 0, 0));
    assert_eq!(Utf8Index::default(), Utf8Index::zero());
    assert_eq!(Utf8Position::default(), Utf8Position::zero());
    assert_eq!(Utf16Position::default(), Utf16Position::zero());
    assert_eq!(CompositePosition::default(), CompositePosition::zero());
}

#[test]
fn offsets_add_and_subtract() {
    assert_eq!(Utf8Index::new(2) + Utf8Index::new(5), Utf8Index::new(7));
    assert_eq!(
        Utf8Index::new(7).saturating_sub(Utf8Index::new(2)),
        Utf8Index::new(5)
    );
    assert_eq!(
        Utf8Index::new(2).saturating_sub(Utf8Index::new(7)),
        Utf8Index::new(0)
    );
    assert_eq!(
        Utf8Index::new(u32::MAX - 1) + Utf8Index::new(1),
        Utf8Index::new(u32::MAX)
    );
}

#[test]
fn rows_and_columns_add() {
    assert_eq!(
        Utf8Position::new(1, 5) + Utf8Position::new(0, 3),
        Utf8Position::new(1, 8)
    );
    assert_eq!(
        Utf8Position::new(1, 5) + Utf8Position::new(2, 3),
        Utf8Position::new(3, 3)
    );
    assert_eq!(
        Utf16Position::new(4, 0) + Utf16Position::new(1, 0),
        Utf16Position::new(5, 0)
    );
    assert_eq!(
        Utf8Position::new(7, u32::MAX) + Utf8Position::new(1, 2),
        Utf8Position::new(8, 2)
    );
}

#[test]
fn rows_and_columns_subtract() {
    assert_eq!(
        Utf8Position::new(3, 3).saturating_sub(Utf8Position::new(1, 5)),
        Utf8Position::new(2, 3)
    );
    assert_eq!(
        Utf8Position::new(1, 8).saturating_sub(Utf8Position::new(1, 5)),
        Utf8Position::new(0, 3)
    );
    assert_eq!(
        Utf8Position::new(1, 2).saturating_sub(Utf8Position::new(1, 5)),
        Utf8Position::new(0, 0)
    );
    assert_eq!(
        Utf8Position::new(0, 9).saturating_sub(Utf8Position::new(1, 0)),
        Utf8Position::new(0, 0)
    );
    assert_eq!(
        Utf16Position::new(2, 1).saturating_sub(Utf16Position::new(2, 1)),
        Utf16Position::new(0, 0)
    );
}

#[test]
fn composite_positions_add_and_subtract() {
    let a = CompositePosition::new(10, 1, 4, 2);
    let same_line = CompositePosition::new(3, 0, 3, 1);
    let next_line = CompositePosition::new(7, 2, 1, 1);
    assert_eq!(a + same_line, CompositePosition::new(13, 1, 7, 3));
    assert_eq!(a + next_line, CompositePosition::new(17, 3, 1, 1));
    assert_eq!((a + same_line).saturating_sub(a), same_line);
    assert_eq!((a + next_line).saturating_sub(a), next_line);
    assert_eq!(a.saturating_sub(a + same_line), CompositePosition::zero());
    assert_eq!(a.saturating_sub(a), CompositePosition::zero());
}

#[test]
fn composite_difference_is_zero_where_measures_disagree() {
    let a = CompositePosition::new(2, 2, 0, 0);
    let b = CompositePosition::new(3, 0, 3, 3);
    assert!(a.at_or_before(&b));
    assert!(!a.is_preceding(&b));
    assert!(!b.is_preceding(&a));
    assert_eq!(b.saturating_sub(a), CompositePosition::zero());
    assert_eq!(a.saturating_sub(b), CompositePosition::zero());
    let c = CompositePosition::new(5, 1, 4, 1);
    let d = CompositePosition::new(9, 1, 6, 0);
    assert_eq!(d.saturating_sub(c), CompositePosition::zero());
}

#[test]
fn order_of_one_representation() {
    assert!(Utf8Index::new(2).at_or_before(&Utf8Index::new(2)));
    assert!(Utf8Index::new(2).at_or_before(&Utf8Index::new(3)));
    assert!(!Utf8Index::new(3).at_or_before(&Utf8Index::new(2)));
    assert!(Utf8Index::new(3).at_or_after(&Utf8Index::new(2)));
    assert!(Utf8Position::new(1, 9).at_or_before(&Utf8Position::new(2, 0)));
    assert!(!Utf8Position::new(2, 0).at_or_before(&Utf8Position::new(1, 9)));
    assert!(Utf8Position::new(2, 0).at_or_after(&Utf8Position::new(1, 9)));
    assert!(Utf16Position::new(1, 1).at_or_before(&Utf16Position::new(1, 1)));
    assert!(Utf16Position::new(1, 1).at_or_after(&Utf16Position::new(1, 1)));
    assert!(!Utf16Position::new(1, 2).at_or_before(&Utf16Position::new(1, 1)));
}

#[test]
fn order_agrees_with_derived_order() {
    let mut composites = Vec::new();
    for index in 0..3u32 {
        for row in 0..2u32 {
            for column8 in 0..3u32 {
                for column16 in 0..2u32 {
                    composites.push(CompositePosition::new(index, row, column8, column16));
                }
            }
        }
    }
    for a in composites.iter() {
        for b in composites.iter() {
            assert_eq!(a.at_or_before(b), a <= b);
            assert_eq!(a.at_or_after(b), a >= b);
            assert_eq!(min_position(*a, *b), *a.min(b));
            assert_eq!(max_position(*a, *b), *a.max(b));
        }
    }
    for r1 in 0..3u32 {
        for c1 in 0..3u32 {
            for r2 in 0..3u32 {
                for c2 in 0..3u32 {
                    let a = Utf8Position::new(r1, c1);
                    let b = Utf8Position::new(r2, c2);
                    assert_eq!(a.at_or_before(&b), a <= b);
                    assert_eq!(a.at_or_after(&b), a >= b);
                    let x = Utf16Position::new(r1, c1);
                    let y = Utf16Position::new(r2, c2);
                    assert_eq!(x.at_or_before(&y), x <= y);
                    assert_eq!(x.at_or_after(&y), x >= y);
                }
            }
        }
    }
}

#[test]
fn order_across_representations() {
    let wide = CompositePosition::new(9, 1, 4, 2);
    assert!(Utf8Position::new(1, 4).at_or_before(&wide));
    assert!(Utf8Position::new(1, 4).at_or_after(&wide));
    assert!(Utf8Position::new(1, 3).at_or_before(&wide));
    assert!(!Utf8Position::new(1, 3).at_or_after(&wide));
    assert!(Utf16Position::new(1, 2).at_or_before(&wide));
    assert!(Utf16Position::new(1, 3).at_or_after(&wide));
    assert!(!Utf16Position::new(1, 3).at_or_before(&wide));
    assert!(Utf8Index::new(9).at_or_before(&wide));
    assert!(!Utf8Index::new(10).at_or_before(&wide));
    assert!(wide.at_or_before(&Utf8Position::new(1, 4)));
    assert!(wide.at_or_after(&Utf8Position::new(0, 99)));
    assert!(!wide.at_or_before(&Utf16Position::new(1, 1)));
    assert!(wide.at_or_after(&Utf8Index::new(9)));
    assert!(!wide.at_or_after(&Utf8Index::new(10)));
}

#[test]
fn composite_narrows_to_each_measure() {
    let wide = CompositePosition::new(9, 1, 4, 2);
    assert_eq!(wide.utf8_index(), Utf8Index::new(9));
    assert_eq!(wide.utf8_position(), Utf8Position::new(1, 4));
    assert_eq!(wide.utf16_position(), Utf16Position::new(1, 2));
}

#[test]
fn positions_of_plain_text() {
    assert_eq!(Utf8Index::from_str(""), Utf8Index::new(0));
    assert_eq!(Utf8Index::from_str("Hello, "), Utf8Index::new(7));
    assert_eq!(Utf8Position::from_str(""), Utf8Position::new(0, 0));
    assert_eq!(Utf8Position::from_str("Hello, "), Utf8Position::new(0, 7));
    assert_eq!(
        Utf8Position::from_str("Hello, world"),
        Utf8Position::new(0, 12)
    );
    assert_eq!(Utf8Position::from_str("a\nbc"), Utf8Position::new(1, 2));
    assert_eq!(Utf8Position::from_str("a\nbc\n"), Utf8Position::new(2, 0));
    assert_eq!(Utf16Position::from_str("a\n\nbcd"), Utf16Position::new(2, 3));
    assert_eq!(
        CompositePosition::from_str("a\nbc"),
        CompositePosition::new(4, 1, 2, 2)
    );
}

#[test]
fn positions_of_wide_characters() {
    assert_eq!(Utf8Index::from("🐧🐧"), Utf8Index::new(8));
    assert_eq!(Utf8Position::from("🐧🐧"), Utf8Position::new(0, 8));
    assert_eq!(Utf16Position::from("🐧🐧"), Utf16Position::new(0, 4));
    assert_eq!(
        CompositePosition::from("🐧🐧"),
        CompositePosition::new(8, 0, 8, 4)
    );
    assert_eq!(
        CompositePosition::from("🐧\n🐧"),
        CompositePosition::new(9, 1, 4, 2)
    );
    assert_eq!(
        CompositePosition::from("aé€🐧"),
        CompositePosition::new(10, 0, 10, 5)
    );
    assert_eq!(Utf16Position::from("é€"), Utf16Position::new(0, 2));
    assert_eq!(Utf8Position::from("é€"), Utf8Position::new(0, 5));
}

#[test]
fn position_of_joined_text_is_the_sum() {
    let head = "ab\n🐧";
    let tails = ["", "c", "c\nd", "\n", "🐧é\n\nx"];
    for tail in tails {
        let whole = format!("{}{}", head, tail);
        assert_eq!(
            CompositePosition::from(whole.as_str()),
            CompositePosition::from(head) + CompositePosition::from(tail)
        );
        assert_eq!(
            Utf8Position::from(whole.as_str()),
            Utf8Position::from(head) + Utf8Position::from(tail)
        );
        assert_eq!(
            Utf16Position::from(whole.as_str()),
            Utf16Position::from(head) + Utf16Position::from(tail)
        );
        assert_eq!(
            Utf8Index::from(whole.as_str()),
            Utf8Index::from(head) + Utf8Index::from(tail)
        );
    }
}
