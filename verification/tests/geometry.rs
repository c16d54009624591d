use alula::{Alignment, BoxConstraints, Offset, Size};

#[test]
fn tight_has_min_equal_max_equal_size() {
    let c = BoxConstraints::tight(Size { width: 640, height: 480 });
    assert_eq!(
        c,
        BoxConstraints { min_width: 640, max_width: 640, min_height: 480, max_height: 480 }
    );
    assert!(c.is_well_formed());
}

#[test]
fn loose_has_zero_min_and_size_max() {
    let c = BoxConstraints::loose(Size { width: 640, height: 480 });
    assert_eq!(
        c,
        BoxConstraints { min_width: 0, max_width: 640, min_height: 0, max_height: 480 }
    );
    assert!(c.is_well_formed());
}

#[test]
fn tight_and_loose_of_the_zero_size() {
    let zero = Size { width: 0, height: 0 };
    assert_eq!(BoxConstraints::tight(zero), BoxConstraints::loose(zero));
    assert!(BoxConstraints::tight(zero).is_satisfied_by(zero));
}

#[test]
fn tight_admits_only_its_size() {
    let c = BoxConstraints::tight(Size { width: 10, height: 20 });
    assert!(c.is_satisfied_by(Size { width: 10, height: 20 }));
    assert!(!c.is_satisfied_by(Size { width: 9, height: 20 }));
    assert!(!c.is_satisfied_by(Size { width: 11, height: 20 }));
    assert!(!c.is_satisfied_by(Size { width: 10, height: 19 }));
    assert!(!c.is_satisfied_by(Size { width: 10, height: 21 }));
}

#[test]
fn loose_admits_everything_up_to_its_size() {
    let c = BoxConstraints::loose(Size { width: 10, height: 20 });
    assert!(c.is_satisfied_by(Size { width: 0, height: 0 }));
    assert!(c.is_satisfied_by(Size { width: 10, height: 20 }));
    assert!(!c.is_satisfied_by(Size { width: 11, height: 20 }));
    assert!(!c.is_satisfied_by(Size { width: 10, height: 21 }));
}

#[test]
fn well_formed_needs_min_at_most_max_on_both_axes() {
    let good = BoxConstraints { min_width: 5, max_width: 5, min_height: 0, max_height: 9 };
    let wide = BoxConstraints { min_width: 6, max_width: 5, min_height: 0, max_height: 9 };
    let tall = BoxConstraints { min_width: 5, max_width: 5, min_height: 10, max_height: 9 };
    assert!(good.is_well_formed());
    assert!(!wide.is_well_formed());
    assert!(!tall.is_well_formed());
    assert!(!wide.is_satisfied_by(Size { width: 5, height: 5 }));
    assert!(!wide.is_satisfied_by(Size { width: 6, height: 5 }));
}

#[test]
fn deflate_takes_the_inset_off_every_bound() {
    let c = BoxConstraints { min_width: 30, max_width: 200, min_height: 12, max_height: 100 };
    assert_eq!(
        c.deflate(10),
        Some(BoxConstraints { min_width: 20, max_width: 190, min_height: 2, max_height: 90 })
    );
    assert_eq!(c.deflate(0), Some(c));
}

#[test]
fn deflate_stops_a_minimum_at_zero() {
    let c = BoxConstraints { min_width: 4, max_width: 200, min_height: 10, max_height: 100 };
    assert_eq!(
        c.deflate(10),
        Some(BoxConstraints { min_width: 0, max_width: 190, min_height: 0, max_height: 90 })
    );
}

#[test]
fn deflate_down_to_nothing_still_has_room() {
    let c = BoxConstraints { min_width: 0, max_width: 20, min_height: 0, max_height: 20 };
    assert_eq!(
        c.deflate(20),
        Some(BoxConstraints { min_width: 0, max_width: 0, min_height: 0, max_height: 0 })
    );
}

#[test]
fn deflate_without_room_is_none() {
    let c = BoxConstraints { min_width: 0, max_width: 20, min_height: 0, max_height: 40 };
    assert_eq!(c.deflate(21), None);
    assert_eq!(c.deflate(41), None);
    assert_eq!(c.deflate(u64::MAX), None);
    let narrow = BoxConstraints { min_width: 0, max_width: 40, min_height: 0, max_height: 20 };
    assert_eq!(narrow.deflate(21), None);
}

#[test]
fn deflate_at_the_largest_extent() {
    let c = BoxConstraints {
        min_width: u32::MAX,
        max_width: u32::MAX,
        min_height: 0,
        max_height: u32::MAX,
    };
    assert_eq!(
        c.deflate(u32::MAX as u64),
        Some(BoxConstraints { min_width: 0, max_width: 0, min_height: 0, max_height: 0 })
    );
    assert_eq!(c.deflate(u32::MAX as u64 + 1), None);
}

#[test]
fn offsets_and_alignments_are_plain_values() {
    let o = Offset { x: -3, y: 7 };
    let copy = o;
    assert_eq!(o, copy);
    let all = [
        Alignment::TopLeft,
        Alignment::TopCenter,
        Alignment::TopRight,
        Alignment::CenterLeft,
        Alignment::Center,
        Alignment::CenterRight,
        Alignment::BottomLeft,
        Alignment::BottomCenter,
        Alignment::BottomRight,
    ];
    for (i, a) in all.iter().enumerate() {
        for (j, b) in all.iter().enumerate() {
            assert_eq!(a == b, i == j);
        }
    }
}
