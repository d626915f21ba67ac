use vstd::prelude::*;

verus! {

/// The ids under which loading a schema registers its objects in the
/// collision world: the components get `0, 1, ...` in the order of the
/// schema file, and the wires continue the count after the last component.
pub open spec fn spec_component_ids(n_components: nat) -> Seq<u32> {
    Seq::new(n_components, |i: int| i as u32)
}

/// See `spec_component_ids`: the wire ids follow the component ids.
pub open spec fn spec_wire_ids(n_components: nat, n_wires: nat) -> Seq<u32> {
    Seq::new(n_wires, |j: int| (n_components + j) as u32)
}

/// The index of the drawable under the cursor: the object whose leaf the
/// collision query met first, if it met any.
pub open spec fn spec_hovered(hits: Seq<u32>) -> Option<usize> {
    if hits.len() == 0 {
        None
    } else {
        Some(hits[0] as usize)
    }
}

/// Assigns the collision ids of the components and wires of a schema with
/// `n_components` components and `n_wires` wires, in the order in which
/// loading registers them.
pub fn assign_leaf_ids(n_components: usize, n_wires: usize) -> (ids: (Vec<u32>, Vec<u32>))
    requires
        n_components + n_wires <= u32::MAX,
    ensures
        ids.0@ == spec_component_ids(n_components as nat),
        ids.1@ == spec_wire_ids(n_components as nat, n_wires as nat),
{
    let mut component_count: u32 = 0;
    let mut components: Vec<u32> = Vec::new();
    let mut i: usize = 0;
    while i < n_components
        invariant
            i <= n_components,
            n_components + n_wires <= u32::MAX,
            component_count == i,
            components@ == spec_component_ids(i as nat),
        decreases n_components - i,
    {
        components.push(component_count);
        component_count = component_count + 1;
        i = i + 1;
    }
    let mut wires: Vec<u32> = Vec::new();
    let mut j: usize = 0;
    while j < n_wires
        invariant
            j <= n_wires,
            n_components + n_wires <= u32::MAX,
            component_count == n_components + j,
            wires@ == spec_wire_ids(n_components as nat, j as nat),
        decreases n_wires - j,
    {
        wires.push(component_count);
        component_count = component_count + 1;
        j = j + 1;
    }
    (components, wires)
}

/// The drawable under the cursor, given the ids of the leaves that the
/// collision query met, in the order it met them. The first id met has to
/// be that of a drawable component.
pub fn hovered_component(hits: &Vec<u32>, n_drawables: usize) -> (hovered: Option<usize>)
    requires
        hits@.len() > 0 ==> hits@[0] < n_drawables,
    ensures
        hovered == spec_hovered(hits@),
        hovered matches Some(i) ==> i < n_drawables,
{
    if hits.len() == 0 {
        None
    } else {
        Some(hits[0] as usize)
    }
}

/// The position of the first component whose reference designator equals
/// `reference`, if there is one.
pub fn find_component(references: &Vec<String>, reference: &String) -> (found: Option<usize>)
    ensures
        match found {
            Some(i) => {
                &&& i < references@.len()
                &&& references@[i as int]@ == reference@
                &&& forall|k: int| 0 <= k < i ==> references@[k]@ != reference@
            },
            None => forall|k: int| 0 <= k < references@.len() ==> references@[k]@ != reference@,
        },
{
    let mut i: usize = 0;
    while i < references.len()
        invariant
            i <= references@.len(),
            forall|k: int| 0 <= k < i ==> references@[k]@ != reference@,
        decreases references@.len() - i,
    {
        if references[i] == *reference {
            return Some(i);
        }
        i = i + 1;
    }
    None
}

/// The position of the first component whose bounding box has a positive
/// width, given for each component whether its box has one.
pub fn first_selected(has_width: &Vec<bool>) -> (selected: Option<usize>)
    ensures
        match selected {
            Some(i) => {
                &&& i < has_width@.len()
                &&& has_width@[i as int]
                &&& forall|k: int| 0 <= k < i ==> !has_width@[k]
            },
            None => forall|k: int| 0 <= k < has_width@.len() ==> !has_width@[k],
        },
{
    let mut i: usize = 0;
    while i < has_width.len()
        invariant
            i <= has_width@.len(),
            forall|k: int| 0 <= k < i ==> !has_width@[k],
        decreases has_width@.len() - i,
    {
        if has_width[i] {
            return Some(i);
        }
        i = i + 1;
    }
    None
}

/// No two objects of a loaded schema share a collision id, and each
/// component's id is its position among the drawables.
pub proof fn lemma_leaf_ids_distinct(n_components: nat, n_wires: nat)
    requires
        n_components + n_wires <= u32::MAX,
    ensures
        forall|i: int|
            0 <= i < n_components ==> #[trigger] spec_component_ids(n_components)[i] == i,
        forall|i: int, j: int|
            0 <= i < n_components && 0 <= j < n_wires ==> #[trigger] spec_component_ids(
                n_components,
            )[i] != #[trigger] spec_wire_ids(n_components, n_wires)[j],
        forall|i: int, j: int|
            0 <= i < j < n_wires ==> #[trigger] spec_wire_ids(n_components, n_wires)[i]
                != #[trigger] spec_wire_ids(n_components, n_wires)[j],
        forall|j: int|
            0 <= j < n_wires ==> #[trigger] spec_wire_ids(n_components, n_wires)[j]
                >= n_components,
{
}

/// When the collision query first meets the leaf of a component, the hovered
/// drawable is that component.
pub proof fn lemma_hovered_is_hit_component(n_components: nat, n_wires: nat, hits: Seq<u32>, i: int)
    requires
        n_components + n_wires <= u32::MAX,
        0 <= i < n_components,
        hits.len() > 0,
        hits[0] == spec_component_ids(n_components)[i],
    ensures
        spec_hovered(hits) == Some(i as usize),
{
}

/// Loading numbers the objects in load order with one running count: the
/// `i`-th component gets id `i`, and the `j`-th wire gets id
/// `n_components + j`, right after the last component.
pub proof fn lemma_leaf_ids_count_in_load_order(n_components: nat, n_wires: nat)
    requires
        n_components + n_wires <= u32::MAX,
    ensures
        spec_component_ids(n_components).len() == n_components,
        spec_wire_ids(n_components, n_wires).len() == n_wires,
        forall|i: int| 0 <= i < n_components ==> #[trigger] spec_component_ids(n_components)[i] == i,
        forall|j: int|
            0 <= j < n_wires ==> #[trigger] spec_wire_ids(n_components, n_wires)[j] == n_components
                + j,
        forall|j: int|
            0 <= j < n_wires - 1 ==> #[trigger] spec_wire_ids(n_components, n_wires)[j + 1]
                == spec_wire_ids(n_components, n_wires)[j] + 1,
{
}

/// The hovered drawable is the first object that the query met, and there is
/// none exactly when the query met nothing.
pub proof fn lemma_hovered_is_first_hit(hits: Seq<u32>)
    ensures
        hits.len() == 0 <==> spec_hovered(hits) is None,
        hits.len() > 0 ==> spec_hovered(hits) == Some(hits[0] as usize),
{
}

} // verus!
