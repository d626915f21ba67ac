use vstd::prelude::*;

verus! {

/// How a text of the schema is justified against its anchor.
#[derive(Clone, Copy, Debug, PartialEq, Eq, Structural)]
pub enum Justify {
    Left,
    Right,
    Center,
    Top,
    Bottom,
}

/// Horizontal alignment of a laid-out text.
#[derive(Clone, Copy, Debug, PartialEq, Eq, Structural)]
pub enum HorizontalAlign {
    Left,
    Center,
    Right,
}

/// Vertical alignment of a laid-out text; the glyph layout aligns texts to
/// their top only.
#[derive(Clone, Copy, Debug, PartialEq, Eq, Structural)]
pub enum VerticalAlign {
    Top,
}

/// The alignments that a text's justifications select; `None` keeps the
/// layout's own default in that direction.
#[derive(Clone, Copy, Debug, PartialEq, Eq, Structural)]
pub struct TextAlignment {
    pub horizontal: Option<HorizontalAlign>,
    pub vertical: Option<VerticalAlign>,
}

/// The horizontal alignment that a horizontal justification selects: a
/// vertical justification selects none.
pub open spec fn spec_horizontal(justify: Justify) -> Option<HorizontalAlign> {
    match justify {
        Justify::Left => Some(HorizontalAlign::Left),
        Justify::Right => Some(HorizontalAlign::Right),
        Justify::Center => Some(HorizontalAlign::Center),
        Justify::Top | Justify::Bottom => None,
    }
}

/// The vertical alignment that a vertical justification selects: top,
/// bottom and center all align to the top; left and right select none.
pub open spec fn spec_vertical(justify: Justify) -> Option<VerticalAlign> {
    match justify {
        Justify::Top | Justify::Bottom | Justify::Center => Some(VerticalAlign::Top),
        Justify::Left | Justify::Right => None,
    }
}

/// The alignments with which a text is laid out, given its horizontal and its
/// vertical justification.
pub fn text_alignment(hjustify: Justify, vjustify: Justify) -> (a: TextAlignment)
    ensures
        a.horizontal == spec_horizontal(hjustify),
        a.vertical == spec_vertical(vjustify),
{
    let horizontal = match hjustify {
        Justify::Left => Some(HorizontalAlign::Left),
        Justify::Right => Some(HorizontalAlign::Right),
        Justify::Center => Some(HorizontalAlign::Center),
        _ => None,
    };
    let vertical = match vjustify {
        Justify::Top => Some(VerticalAlign::Top),
        Justify::Bottom => Some(VerticalAlign::Top),
        Justify::Center => Some(VerticalAlign::Top),
        _ => None,
    };
    TextAlignment { horizontal, vertical }
}

/// A horizontal justification selects the horizontal alignment of the same
/// name, and a vertical one selects none; every vertical justification
/// (top, bottom, center) aligns to the top, and a horizontal-only one (left,
/// right) selects no vertical alignment.
pub proof fn lemma_alignment_of_justifications(justify: Justify)
    ensures
        spec_horizontal(Justify::Left) == Some(HorizontalAlign::Left),
        spec_horizontal(Justify::Right) == Some(HorizontalAlign::Right),
        spec_horizontal(Justify::Center) == Some(HorizontalAlign::Center),
        spec_horizontal(justify) is None <==> ((justify is Top) || (justify is Bottom)),
        spec_vertical(justify) is Some <==> ((justify is Top) || (justify is Bottom) || (
        justify is Center)),
        spec_vertical(justify) is Some ==> spec_vertical(justify) == Some(VerticalAlign::Top),
{
}

} // verus!
