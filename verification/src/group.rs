use vstd::prelude::*;

verus! {

/// A group of drawables that is drawn as one: its members are drawn in the
/// order in which they were added.
pub struct GroupDrawable<D> {
    drawables: Vec<D>,
}

impl<D> View for GroupDrawable<D> {
    type V = Seq<D>;

    /// The members, in drawing order.
    closed spec fn view(&self) -> Seq<D> {
        self.drawables@
    }
}

impl<D> GroupDrawable<D> {
    /// An empty group.
    pub fn default() -> (g: Self)
        ensures
            g@ == Seq::<D>::empty(),
    {
        GroupDrawable { drawables: Vec::new() }
    }

    /// Adds a member; it is drawn after all members added before it.
    pub fn add(&mut self, drawable: D)
        ensures
            final(self)@ == old(self)@.push(drawable),
    {
        self.drawables.push(drawable);
    }

    /// The members, in drawing order.
    pub fn drawables(&self) -> (members: &Vec<D>)
        ensures
            members@ == self@,
    {
        &self.drawables
    }
}

impl<D> GroupDrawable<D> {
    /// The group that adding each of `members` in turn to an empty group
    /// gives: it draws exactly `members`, in their order.
    pub fn with_members(members: Vec<D>) -> (g: Self)
        ensures
            g@ == members@,
    {
        let mut rest = members;
        let mut group = GroupDrawable::default();
        while rest.len() > 0
            invariant
                group@ + rest@ == members@,
            decreases rest@.len(),
        {
            let d = rest.remove(0);
            group.add(d);
        }
        group
    }
}

} // verus!
