use text_position_rs::CompositePosition;
use text_position_rs::TextRange;
use text_position_rs::Utf8Index;
use text_position_rs::Utf8Position;

fn sample_offsets() -> Vec<TextRange<Utf8Index>> {
    let mut ranges = Vec::new();
    for index in 0..6u32 {
        for len in 0..5u32 {
            ranges.push(TextRange::at(Utf8Index::new(index), Utf8Index::new(len)));
        }
    }
    ranges
}

fn sample_positions() -> Vec<TextRange<Utf8Position>> {
    let mut ranges = Vec::new();
    for row in 0..3u32 {
        for column in 0..3u32 {
            for rows in 0..3u32 {
                for columns in 0..3u32 {
                    ranges.push(TextRange::at(
                        Utf8Position::new(row, column),
                        Utf8Position::new(rows, columns),
                    ));
                }
            }
        }
    }
    ranges
}

fn composite_prefixes() -> Vec<CompositePosition> {
    let text = "ab\n🐧c\n\nd";
    let mut positions = Vec::new();
    for (at, _) in text.char_indices() {
        positions.push(CompositePosition::from(&text[..at]));
    }
    positions.push(CompositePosition::from(text));
    positions
}

fn sample_composites() -> Vec<TextRange<CompositePosition>> {
    let positions = composite_prefixes();
    let mut ranges = Vec::new();
    for i in 0..positions.len() {
        for j in i..positions.len() {
            ranges.push(TextRange::from(positions[i]..positions[j]));
        }
    }
    ranges
}

#[test]
fn ranges_contain_their_ends() {
    for r in sample_offsets() {
        assert!(r.contains_inclusive(r.start()));
        assert!(r.contains_inclusive(r.end()));
    }
    for r in sample_positions() {
        assert!(r.contains_inclusive(r.start()));
        assert!(r.contains_inclusive(r.end()));
    }
    for r in sample_composites() {
        assert!(r.contains_inclusive(r.start()));
        assert!(r.contains_inclusive(r.end()));
    }
}

#[test]
fn intervals_round_trip() {
    for r in sample_positions() {
        let interval = r.to_range();
        assert_eq!(TextRange::from(interval.clone()).to_range(), interval);
        assert_eq!(TextRange::from(interval), r);
    }
    let positions = composite_prefixes();
    for i in 0..positions.len() {
        for j in i..positions.len() {
            let interval = positions[i]..positions[j];
            assert_eq!(TextRange::from(interval.clone()).to_range(), interval);
        }
    }
}

#[test]
fn join_is_commutative_and_idempotent() {
    let ranges = sample_positions();
    for a in ranges.iter() {
        assert_eq!(a.join(*a), *a);
        for b in ranges.iter() {
            assert_eq!(a.join(*b), b.join(*a));
        }
    }
}

#[test]
fn join_spans_from_min_start_to_max_end() {
    let ranges = sample_positions();
    for a in ranges.iter() {
        for b in ranges.iter() {
            let joined = a.join(*b);
            assert_eq!(joined.start(), a.start().min(b.start()));
            assert_eq!(joined.end(), a.end().max(b.end()));
            assert!(joined.covers(*a));
            assert!(joined.covers(*b));
        }
    }
}

#[test]
fn join_is_associative() {
    let ranges = sample_offsets();
    for a in ranges.iter() {
        for b in ranges.iter() {
            for c in ranges.iter() {
                assert_eq!(a.join(*b).join(*c), a.join(b.join(*c)));
            }
        }
    }
    let composites = sample_composites();
    for a in composites.iter().step_by(5) {
        for b in composites.iter().step_by(3) {
            for c in composites.iter().step_by(7) {
                assert_eq!(a.join(*b).join(*c), a.join(b.join(*c)));
            }
        }
    }
}

#[test]
fn meet_is_commutative_where_ranges_overlap() {
    let ranges = sample_positions();
    for a in ranges.iter() {
        for b in ranges.iter() {
            let overlap = a.start() <= b.end() && b.start() <= a.end();
            if overlap {
                assert_eq!(a.meet(*b), b.meet(*a));
            }
        }
    }
}

#[test]
fn meet_is_covered_by_both() {
    let ranges = sample_positions();
    for a in ranges.iter() {
        for b in ranges.iter() {
            let overlap = a.start() <= b.end() && b.start() <= a.end();
            if overlap {
                let met = a.meet(*b);
                assert!(a.covers(met));
                assert!(b.covers(met));
                assert_eq!(met.start(), a.start().max(b.start()));
                assert_eq!(met.end(), a.end().min(b.end()));
            }
        }
    }
}

#[test]
fn meet_of_disjoint_is_empty() {
    let ranges = sample_offsets();
    for a in ranges.iter() {
        for b in ranges.iter() {
            let overlap = a.start() <= b.end() && b.start() <= a.end();
            if !overlap {
                let met = a.meet(*b);
                assert!(met.is_empty());
                assert_eq!(met, TextRange::empty(a.start()));
            }
        }
    }
}

#[test]
fn covers_is_reflexive_and_transitive() {
    let ranges = sample_offsets();
    for a in ranges.iter() {
        assert!(a.covers(*a));
        for b in ranges.iter() {
            for c in ranges.iter() {
                if a.covers(*b) && b.covers(*c) {
                    assert!(a.covers(*c));
                }
            }
        }
    }
}

#[test]
fn composite_ranges_of_one_text_behave_as_intervals() {
    let ranges = sample_composites();
    for a in ranges.iter() {
        for b in ranges.iter() {
            let joined = a.join(*b);
            assert_eq!(joined.start(), a.start().min(b.start()));
            assert_eq!(joined.end(), a.end().max(b.end()));
            let overlap = a.start() <= b.end() && b.start() <= a.end();
            let met = a.meet(*b);
            if overlap {
                assert_eq!(met.start(), a.start().max(b.start()));
                assert_eq!(met.end(), a.end().min(b.end()));
                assert_eq!(met, b.meet(*a));
            } else {
                assert_eq!(met, TextRange::empty(a.start()));
            }
        }
    }
}

#[test]
fn composite_positions_of_two_texts_may_disagree() {
    let a = CompositePosition::from("\n\n");
    let b = CompositePosition::from("abc");
    assert!(a < b);
    let r = TextRange::from(a..b);
    assert_eq!(r, TextRange::empty(a));
    assert_eq!(r.end(), a);
}
