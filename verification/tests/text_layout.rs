use copper::text_layout::{text_alignment, HorizontalAlign, Justify, TextAlignment, VerticalAlign};

#[test]
fn horizontal_justifications() {
    assert_eq!(text_alignment(Justify::Left, Justify::Left).horizontal, Some(HorizontalAlign::Left));
    assert_eq!(text_alignment(Justify::Right, Justify::Left).horizontal, Some(HorizontalAlign::Right));
    assert_eq!(text_alignment(Justify::Center, Justify::Left).horizontal, Some(HorizontalAlign::Center));
    assert_eq!(text_alignment(Justify::Top, Justify::Left).horizontal, None);
}

#[test]
fn vertical_justifications_all_align_top() {
    for v in [Justify::Top, Justify::Bottom, Justify::Center] {
        assert_eq!(text_alignment(Justify::Left, v).vertical, Some(VerticalAlign::Top));
    }
    assert_eq!(text_alignment(Justify::Left, Justify::Right).vertical, None);
}

#[test]
fn both_directions() {
    assert_eq!(
        text_alignment(Justify::Right, Justify::Bottom),
        TextAlignment { horizontal: Some(HorizontalAlign::Right), vertical: Some(VerticalAlign::Top) }
    );
}
