use copper::group::GroupDrawable;

#[test]
fn empty_group_has_no_members() {
    let g: GroupDrawable<u32> = GroupDrawable::default();
    assert!(g.drawables().is_empty());
}

#[test]
fn members_keep_insertion_order() {
    let mut g = GroupDrawable::default();
    g.add("wire");
    g.add("pin");
    g.add("label");
    assert_eq!(g.drawables(), &vec!["wire", "pin", "label"]);
}

#[test]
fn built_group_draws_members_in_order() {
    let g = GroupDrawable::with_members(vec![3, 1, 2]);
    assert_eq!(g.drawables(), &vec![3, 1, 2]);
    let e: GroupDrawable<u8> = GroupDrawable::with_members(vec![]);
    assert!(e.drawables().is_empty());
}
