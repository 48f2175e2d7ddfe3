use vstd::prelude::*;
use std::collections::HashSet;
use crate::error::{AppError, ErrorKind};
use crate::text::text_eq;

verus! {

broadcast use vstd::std_specs::hash::group_hash_axioms;

/// The item that an item hangs under in the item tree, and whether that item is the
/// tree's root (the item with visible id `ROOT`).
#[derive(Clone, Copy, Debug, PartialEq, Eq, Structural)]
pub struct ParentId {
    pub actual_parent_id: i64,
    pub is_actual_root: bool,
}

/// A top-level item under the root, with the ids found on the paths that end at it.
#[derive(Clone, Debug)]
pub struct AllIds {
    pub actual_route_id: i32,
    pub descendants: Vec<i32>,
}

/// The node ids of the paths that the graph answered, one sequence per path.
pub open spec fn rows_view(rows: Seq<Vec<i64>>) -> Seq<Seq<i64>> {
    rows.map_values(|row: Vec<i64>| row@)
}

/// The path from an item up the tree: the last path that the graph answered. An answer
/// without any path is refused.
pub fn path_from_rows(rows: Vec<Vec<i64>>) -> (r: Result<Vec<i64>, AppError>)
    ensures
        rows.len() == 0 ==> r == Err::<Vec<i64>, AppError>(AppError(ErrorKind::RowObjectNotFound)),
        rows.len() > 0 ==> (r matches Ok(path) && path@ == rows@.last()@),
{
    let mut rows = rows;
    match rows.pop() {
        Some(last) => Ok(last),
        None => Err(AppError(ErrorKind::RowObjectNotFound)),
    }
}

/// The candidate parent of an item, read from the first one-step path that the graph
/// answered: the second node of that path. No path, or a path of the item alone, is refused.
pub fn parent_from_first_row(first_row: Option<Vec<i64>>) -> (r: Result<i64, AppError>)
    requires
        first_row matches Some(ids) ==> ids.len() > 0,
    ensures
        first_row is None ==> r == Err::<i64, AppError>(AppError(ErrorKind::RowNotFound)),
        first_row matches Some(ids) ==> (ids.len() == 1 ==> r == Err::<i64, AppError>(
            AppError(ErrorKind::RootItemCannotBeChanged),
        )),
        first_row matches Some(ids) ==> (ids.len() > 1 ==> r == Ok::<i64, AppError>(ids@[1])),
{
    match first_row {
        None => Err(AppError(ErrorKind::RowNotFound)),
        Some(ids) => {
            if ids.len() == 1 {
                Err(AppError(ErrorKind::RootItemCannotBeChanged))
            } else {
                Ok(ids[1])
            }
        },
    }
}

/// The parent of an item once the parent's stored visible id was looked up: a parent that
/// is not stored is refused, and the parent is the root when its visible id is `ROOT`.
pub fn parent_id_from_lookup(parent_id: i64, parent_visible_id: Option<String>) -> (r: Result<ParentId, AppError>)
    ensures
        parent_visible_id is None ==> r == Err::<ParentId, AppError>(
            AppError(ErrorKind::RootItemNotFound),
        ),
        parent_visible_id matches Some(v) ==> r == Ok::<ParentId, AppError>(
            ParentId { actual_parent_id: parent_id, is_actual_root: v@ == "ROOT"@ },
        ),
{
    match parent_visible_id {
        None => Err(AppError(ErrorKind::RootItemNotFound)),
        Some(v) => Ok(ParentId { actual_parent_id: parent_id, is_actual_root: text_eq(v.as_str(), "ROOT") }),
    }
}

/// The node ids of all paths, one path after the other.
pub open spec fn flatten_rows(rows: Seq<Seq<i64>>) -> Seq<i64>
    decreases rows.len(),
{
    if rows.len() == 0 {
        Seq::empty()
    } else {
        flatten_rows(rows.drop_last()) + rows.last()
    }
}

/// The ids on the paths that end at an item, in the order the graph answered them; an id
/// is listed once for each path that holds it.
pub fn descendants_from_rows(rows: &Vec<Vec<i64>>) -> (r: Vec<i64>)
    ensures
        r@ == flatten_rows(rows_view(rows@)),
{
    let ghost all = rows_view(rows@);
    let mut out: Vec<i64> = Vec::new();
    let mut k: usize = 0;
    while k < rows.len()
        invariant
            k <= rows.len(),
            all == rows_view(rows@),
            out@ == flatten_rows(all.take(k as int)),
        decreases rows.len() - k,
    {
        let row = &rows[k];
        let ghost before = out@;
        let mut i: usize = 0;
        while i < row.len()
            invariant
                i <= row.len(),
                out@ == before + row@.take(i as int),
            decreases row.len() - i,
        {
            out.push(row[i]);
            assert(row@.take(i + 1) == row@.take(i as int).push(row@[i as int]));
            i = i + 1;
        }
        assert(row@.take(row.len() as int) == row@);
        assert(all.take(k + 1).drop_last() == all.take(k as int));
        assert(all.take(k + 1).last() == row@);
        k = k + 1;
    }
    assert(all.take(rows.len() as int) == all);
    out
}

proof fn lemma_push_to_set(s: Seq<i64>, x: i64)
    ensures
        s.push(x).to_set() == s.to_set().insert(x),
{
    assert forall|a: i64| s.push(x).contains(a) <==> (s.contains(a) || a == x) by {
        if s.push(x).contains(a) {
            let i = choose|i: int| 0 <= i < s.push(x).len() && s.push(x)[i] == a;
            if i < s.len() {
                assert(s[i] == a);
            }
        }
        if s.contains(a) {
            let i = choose|i: int| 0 <= i < s.len() && s[i] == a;
            assert(s.push(x)[i] == a);
        }
        if a == x {
            assert(s.push(x)[s.len() as int] == x);
        }
    }
    assert forall|a: i64| #[trigger] s.push(x).to_set().contains(a) <==> s.to_set().insert(x).contains(a) by {
        assert(s.push(x).contains(a) <==> (s.contains(a) || a == x));
    }
    assert(s.push(x).to_set() =~= s.to_set().insert(x));
}

/// The ids on the paths that end at an item, each once.
pub fn descendant_set_from_rows(rows: &Vec<Vec<i64>>) -> (r: HashSet<i64>)
    ensures
        r@ == flatten_rows(rows_view(rows@)).to_set(),
{
    let listed = descendants_from_rows(rows);
    let mut set: HashSet<i64> = HashSet::new();
    let mut i: usize = 0;
    while i < listed.len()
        invariant
            i <= listed.len(),
            set@ == listed@.take(i as int).to_set(),
        decreases listed.len() - i,
    {
        set.insert(listed[i]);
        assert(listed@.take(i + 1) == listed@.take(i as int).push(listed@[i as int]));
        proof {
            lemma_push_to_set(listed@.take(i as int), listed@[i as int]);
        }
        i = i + 1;
    }
    assert(listed@.take(listed.len() as int) == listed@);
    set
}

/// The children that a one-step path contributes: the path without its last node (the item
/// itself) when it has at most two nodes, and nothing for a longer path.
pub open spec fn child_part(row: Seq<i64>) -> Seq<i64> {
    if row.len() == 0 {
        row
    } else if row.len() <= 2 {
        row.drop_last()
    } else {
        Seq::empty()
    }
}

/// The children of an item read from the one-step paths that end at it.
pub open spec fn children_of_rows(rows: Seq<Seq<i64>>) -> Seq<i64>
    decreases rows.len(),
{
    if rows.len() == 0 {
        Seq::empty()
    } else {
        children_of_rows(rows.drop_last()) + child_part(rows.last())
    }
}

/// The children of an item, from the paths that the graph answered for them.
pub fn children_from_rows(rows: &Vec<Vec<i64>>) -> (r: Vec<i64>)
    ensures
        r@ == children_of_rows(rows_view(rows@)),
{
    let ghost all = rows_view(rows@);
    let mut children: Vec<i64> = Vec::new();
    let mut k: usize = 0;
    while k < rows.len()
        invariant
            k <= rows.len(),
            all == rows_view(rows@),
            children@ == children_of_rows(all.take(k as int)),
        decreases rows.len() - k,
    {
        let row = &rows[k];
        if row.len() <= 2 && row.len() > 0 {
            let ghost before = children@;
            let mut i: usize = 0;
            while i + 1 < row.len()
                invariant
                    i < row.len(),
                    row.len() <= 2,
                    children@ == before + row@.take(i as int),
                decreases row.len() - i,
            {
                children.push(row[i]);
                assert(row@.take(i + 1) == row@.take(i as int).push(row@[i as int]));
                i = i + 1;
            }
            assert(row@.take(i as int) == row@.drop_last());
        }
        assert(all.take(k + 1).drop_last() == all.take(k as int));
        assert(all.take(k + 1).last() == row@);
        k = k + 1;
    }
    assert(all.take(rows.len() as int) == all);
    children
}

impl AllIds {
    /// The ids of a top-level item and of the items below it, as the stored items are keyed.
    #[verifier::truncate]
    pub fn new(actual_route_id: i64, descendants: &Vec<i64>) -> (r: AllIds)
        ensures
            r.actual_route_id == actual_route_id as i32,
            r.descendants@ == descendants@.map_values(|id: i64| id as i32),
    {
        let mut keys: Vec<i32> = Vec::new();
        let mut i: usize = 0;
        while i < descendants.len()
            invariant
                i <= descendants.len(),
                keys@ == descendants@.take(i as int).map_values(|id: i64| id as i32),
            decreases descendants.len() - i,
        {
            keys.push(#[verifier::truncate] (descendants[i] as i32));
            assert(descendants@.take(i + 1) == descendants@.take(i as int).push(descendants@[i as int]));
            assert(keys@ =~= descendants@.take(i + 1).map_values(|id: i64| id as i32));
            i = i + 1;
        }
        assert(descendants@.take(descendants.len() as int) == descendants@);
        AllIds { actual_route_id: #[verifier::truncate] (actual_route_id as i32), descendants: keys }
    }
}

/// Whether updating an item with `new_parent_id` as its parent has to move the item in the
/// tree: never for an item directly under the root, and not when the parent stays the same.
pub open spec fn relation_must_move(parent: ParentId, new_parent_id: i64) -> bool {
    !parent.is_actual_root && parent.actual_parent_id != new_parent_id
}

pub fn must_move_relation(parent: &ParentId, new_parent_id: i64) -> (r: bool)
    ensures
        r == relation_must_move(*parent, new_parent_id),
{
    !parent.is_actual_root && parent.actual_parent_id != new_parent_id
}

/// Refuses a new parent that lies on one of the paths that end at the item, that is a
/// descendant of the item. Every such path also holds the item itself, so an item with
/// descendants cannot become its own parent; an item without descendants has no such path,
/// and nothing is refused for it.
pub fn check_new_parent(new_parent_id: i64, descendants: &HashSet<i64>) -> (r: Result<(), AppError>)
    ensures
        descendants@.contains(new_parent_id) ==> r == Err::<(), AppError>(
            AppError(ErrorKind::CannotChangeRelationToDescendants),
        ),
        !descendants@.contains(new_parent_id) ==> r == Ok::<(), AppError>(()),
{
    if descendants.contains(&new_parent_id) {
        Err(AppError(ErrorKind::CannotChangeRelationToDescendants))
    } else {
        Ok(())
    }
}

/// What an item update does next about the item's place in the tree.
#[derive(Clone, Copy, Debug, PartialEq, Eq, Structural)]
pub enum ParentChangeAction {
    /// The item stays under its parent.
    Keep,
    /// Look up the stored id of the requested parent by its visible id.
    LookUpNewParent,
    /// Ask the graph for the paths that end at the item.
    FindDescendants,
    /// Move the item from its parent to the new parent.
    Reconnect { old_parent_id: i64, new_parent_id: i64 },
    /// Refuse the update.
    Refuse(AppError),
}

/// The descendant ids that are known so far, as a set.
pub open spec fn known_descendants(descendants: Option<&HashSet<i64>>) -> Option<Set<i64>> {
    match descendants {
        Some(s) => Some(s@),
        None => None,
    }
}

/// The next step of an item update, from what is known so far: the item's parent; the
/// stored id of the requested parent once it was looked up (`Some(None)` when no item has
/// that visible id); the descendant ids once the graph answered. An item directly under
/// the root stays; an unknown parent is refused; an unchanged parent stays; a descendant
/// is refused as new parent; any other parent is moved to.
pub open spec fn parent_change_decision(
    parent: ParentId,
    new_parent: Option<Option<i64>>,
    descendants: Option<Set<i64>>,
) -> ParentChangeAction {
    if parent.is_actual_root {
        ParentChangeAction::Keep
    } else {
        match new_parent {
            None => ParentChangeAction::LookUpNewParent,
            Some(None) => ParentChangeAction::Refuse(AppError(ErrorKind::ParentItemNotFound)),
            Some(Some(id)) => if !relation_must_move(parent, id) {
                ParentChangeAction::Keep
            } else {
                match descendants {
                    None => ParentChangeAction::FindDescendants,
                    Some(s) => if s.contains(id) {
                        ParentChangeAction::Refuse(AppError(ErrorKind::CannotChangeRelationToDescendants))
                    } else {
                        ParentChangeAction::Reconnect { old_parent_id: parent.actual_parent_id, new_parent_id: id }
                    },
                }
            },
        }
    }
}

/// Decides the next step of an item update; see `parent_change_decision`.
pub fn parent_change_step(
    parent: &ParentId,
    new_parent: Option<Option<i64>>,
    descendants: Option<&HashSet<i64>>,
) -> (r: ParentChangeAction)
    ensures
        r == parent_change_decision(*parent, new_parent, known_descendants(descendants)),
        parent.is_actual_root ==> r == ParentChangeAction::Keep,
        !parent.is_actual_root && new_parent is None ==> r == ParentChangeAction::LookUpNewParent,
        (!parent.is_actual_root && new_parent matches Some(None)) ==> r == ParentChangeAction::Refuse(
            AppError(ErrorKind::ParentItemNotFound),
        ),
        new_parent matches Some(Some(id)) ==> (!parent.is_actual_root && id == parent.actual_parent_id
            ==> r == ParentChangeAction::Keep),
        new_parent matches Some(Some(id)) ==> (!parent.is_actual_root && id != parent.actual_parent_id
            && descendants is None ==> r == ParentChangeAction::FindDescendants),
        new_parent matches Some(Some(id)) ==> (descendants matches Some(s) ==> (!parent.is_actual_root
            && id != parent.actual_parent_id && s@.contains(id) ==> r == ParentChangeAction::Refuse(
            AppError(ErrorKind::CannotChangeRelationToDescendants),
        ))),
        new_parent matches Some(Some(id)) ==> (descendants matches Some(s) ==> (!parent.is_actual_root
            && id != parent.actual_parent_id && !s@.contains(id) ==> r == (ParentChangeAction::Reconnect {
            old_parent_id: parent.actual_parent_id,
            new_parent_id: id,
        }))),
{
    if parent.is_actual_root {
        return ParentChangeAction::Keep;
    }
    match new_parent {
        None => ParentChangeAction::LookUpNewParent,
        Some(None) => ParentChangeAction::Refuse(AppError(ErrorKind::ParentItemNotFound)),
        Some(Some(id)) => {
            if !must_move_relation(parent, id) {
                ParentChangeAction::Keep
            } else {
                match descendants {
                    None => ParentChangeAction::FindDescendants,
                    Some(s) => match check_new_parent(id, s) {
                        Ok(()) => ParentChangeAction::Reconnect {
                            old_parent_id: parent.actual_parent_id,
                            new_parent_id: id,
                        },
                        Err(e) => ParentChangeAction::Refuse(e),
                    },
                }
            }
        },
    }
}

/// An item update moves an item only away from its present parent, to a parent other than
/// it, that the graph does not list among the item's descendants; and it never asks again
/// for something it already knows, so it decides within three steps.
pub proof fn lemma_parent_change_moves_safely(
    parent: ParentId,
    new_parent: Option<Option<i64>>,
    descendants: Option<Set<i64>>,
)
    ensures
        parent_change_decision(parent, new_parent, descendants) matches ParentChangeAction::Reconnect {
            old_parent_id,
            new_parent_id,
        } ==> {
            &&& old_parent_id == parent.actual_parent_id
            &&& new_parent == Some(Some(new_parent_id))
            &&& relation_must_move(parent, new_parent_id)
            &&& descendants matches Some(s) && !s.contains(new_parent_id)
        },
        parent_change_decision(parent, new_parent, descendants) == ParentChangeAction::LookUpNewParent
            ==> new_parent is None,
        parent_change_decision(parent, new_parent, descendants) == ParentChangeAction::FindDescendants
            ==> descendants is None && new_parent matches Some(Some(_)),
{
}

/// The item that the children of a deleted item are attached to: its parent. An item
/// directly under the root cannot be deleted.
pub fn parent_for_removal(parent: &ParentId) -> (r: Result<i64, AppError>)
    ensures
        parent.is_actual_root ==> r == Err::<i64, AppError>(AppError(ErrorKind::RootItemCannotRemove)),
        !parent.is_actual_root ==> r == Ok::<i64, AppError>(parent.actual_parent_id),
{
    if parent.is_actual_root {
        Err(AppError(ErrorKind::RootItemCannotRemove))
    } else {
        Ok(parent.actual_parent_id)
    }
}

/// The relations that keep the children of a deleted item in the tree: each child, in
/// order, is attached to `parent_id`, as a pair (parent, child).
pub fn reattach_links(parent_id: i64, children: &Vec<i64>) -> (r: Vec<(i64, i64)>)
    ensures
        r.len() == children.len(),
        forall|i: int| 0 <= i < children.len() ==> #[trigger] r@[i] == (parent_id, children@[i]),
{
    let mut links: Vec<(i64, i64)> = Vec::new();
    let mut i: usize = 0;
    while i < children.len()
        invariant
            i <= children.len(),
            links.len() == i,
            forall|j: int| 0 <= j < i ==> #[trigger] links@[j] == (parent_id, children@[j]),
        decreases children.len() - i,
    {
        links.push((parent_id, children[i]));
        i = i + 1;
    }
    links
}

/// A new item can only be attached to a parent that the graph holds.
pub fn require_parent_node(parent_exists: bool) -> (r: Result<(), AppError>)
    ensures
        parent_exists ==> r == Ok::<(), AppError>(()),
        !parent_exists ==> r == Err::<(), AppError>(AppError(ErrorKind::ParentItemNotFound)),
{
    if parent_exists {
        Ok(())
    } else {
        Err(AppError(ErrorKind::ParentItemNotFound))
    }
}

proof fn lemma_flatten_contains(rows: Seq<Seq<i64>>, id: i64)
    ensures
        flatten_rows(rows).contains(id) <==> exists|k: int, i: int|
            0 <= k < rows.len() && 0 <= i < rows[k].len() && #[trigger] rows[k][i] == id,
    decreases rows.len(),
{
    if rows.len() > 0 {
        let init = rows.drop_last();
        let last = rows.last();
        lemma_flatten_contains(init, id);
        let f = flatten_rows(rows);
        assert(f == flatten_rows(init) + last);
        if f.contains(id) {
            let p = choose|p: int| 0 <= p < f.len() && f[p] == id;
            if p < flatten_rows(init).len() {
                assert(flatten_rows(init)[p] == id);
                let (k, i) = choose|k: int, i: int|
                    0 <= k < init.len() && 0 <= i < init[k].len() && #[trigger] init[k][i] == id;
                assert(rows[k][i] == id);
            } else {
                let i = p - flatten_rows(init).len();
                assert(rows[rows.len() - 1][i] == id);
            }
        }
        if exists|k: int, i: int| 0 <= k < rows.len() && 0 <= i < rows[k].len() && #[trigger] rows[k][i] == id {
            let (k, i) = choose|k: int, i: int|
                0 <= k < rows.len() && 0 <= i < rows[k].len() && #[trigger] rows[k][i] == id;
            if k < rows.len() - 1 {
                assert(init[k][i] == id);
                let p = choose|p: int| 0 <= p < flatten_rows(init).len() && flatten_rows(init)[p] == id;
                assert(f[p] == id);
            } else {
                assert(f[flatten_rows(init).len() + i] == id);
            }
        }
    }
}

/// An id is in the descendant set of an item exactly when it lies on one of the paths
/// that the graph answered for the item.
pub proof fn lemma_descendant_set_members(rows: Seq<Vec<i64>>, id: i64)
    ensures
        flatten_rows(rows_view(rows)).to_set().contains(id) <==> exists|k: int, i: int|
            0 <= k < rows.len() && 0 <= i < rows[k]@.len() && #[trigger] rows[k]@[i] == id,
{
    let v = rows_view(rows);
    lemma_flatten_contains(v, id);
    if exists|k: int, i: int| 0 <= k < rows.len() && 0 <= i < rows[k]@.len() && #[trigger] rows[k]@[i] == id {
        let (k, i) = choose|k: int, i: int|
            0 <= k < rows.len() && 0 <= i < rows[k]@.len() && #[trigger] rows[k]@[i] == id;
        assert(v[k][i] == id);
    }
    if exists|k: int, i: int| 0 <= k < v.len() && 0 <= i < v[k].len() && #[trigger] v[k][i] == id {
        let (k, i) = choose|k: int, i: int| 0 <= k < v.len() && 0 <= i < v[k].len() && #[trigger] v[k][i] == id;
        assert(rows[k]@[i] == id);
    }
}

/// The list of descendants and the descendant set of an item hold the same ids.
pub proof fn lemma_descendant_list_and_set_agree(rows: Seq<Vec<i64>>, id: i64)
    ensures
        flatten_rows(rows_view(rows)).contains(id) <==> flatten_rows(rows_view(rows)).to_set().contains(id),
{
}

proof fn lemma_children_contains(rows: Seq<Seq<i64>>, id: i64)
    ensures
        children_of_rows(rows).contains(id) <==> exists|k: int|
            0 <= k < rows.len() && (#[trigger] rows[k]).len() == 2 && rows[k][0] == id,
    decreases rows.len(),
{
    if rows.len() > 0 {
        let init = rows.drop_last();
        let last = rows.last();
        lemma_children_contains(init, id);
        let c = children_of_rows(rows);
        let ci = children_of_rows(init);
        assert(c == ci + child_part(last));
        if c.contains(id) {
            let p = choose|p: int| 0 <= p < c.len() && c[p] == id;
            if p < ci.len() {
                assert(ci[p] == id);
                let k = choose|k: int| 0 <= k < init.len() && (#[trigger] init[k]).len() == 2 && init[k][0] == id;
                assert(rows[k] == init[k]);
            } else {
                assert(child_part(last)[p - ci.len()] == id);
                assert(rows[rows.len() - 1] == last);
            }
        }
        if exists|k: int| 0 <= k < rows.len() && (#[trigger] rows[k]).len() == 2 && rows[k][0] == id {
            let k = choose|k: int| 0 <= k < rows.len() && (#[trigger] rows[k]).len() == 2 && rows[k][0] == id;
            if k < rows.len() - 1 {
                assert(init[k] == rows[k]);
                let p = choose|p: int| 0 <= p < ci.len() && ci[p] == id;
                assert(c[p] == id);
            } else {
                assert(child_part(last)[0] == id);
                assert(c[ci.len() as int] == id);
            }
        }
    }
}

/// An id is listed as a child of an item exactly when the graph answered a path of two
/// nodes, that id and the item.
pub proof fn lemma_children_are_one_step_paths(rows: Seq<Vec<i64>>, id: i64)
    ensures
        children_of_rows(rows_view(rows)).contains(id) <==> exists|k: int|
            0 <= k < rows.len() && (#[trigger] rows[k])@.len() == 2 && rows[k]@[0] == id,
{
    let v = rows_view(rows);
    lemma_children_contains(v, id);
    if exists|k: int| 0 <= k < rows.len() && (#[trigger] rows[k])@.len() == 2 && rows[k]@[0] == id {
        let k = choose|k: int| 0 <= k < rows.len() && (#[trigger] rows[k])@.len() == 2 && rows[k]@[0] == id;
        assert(v[k] == rows[k]@);
    }
    if exists|k: int| 0 <= k < v.len() && (#[trigger] v[k]).len() == 2 && v[k][0] == id {
        let k = choose|k: int| 0 <= k < v.len() && (#[trigger] v[k]).len() == 2 && v[k][0] == id;
        assert(v[k] == rows[k]@);
    }
}

/// A new parent that passes the check lies on none of the paths that the graph answered
/// for the item: when those are all the paths that end at the item, the new parent is no
/// descendant of it.
pub proof fn lemma_new_parent_off_answered_paths(rows: Seq<Vec<i64>>, new_parent_id: i64)
    requires
        !flatten_rows(rows_view(rows)).to_set().contains(new_parent_id),
    ensures
        forall|k: int, i: int|
            0 <= k < rows.len() && 0 <= i < rows[k]@.len() ==> #[trigger] rows[k]@[i] != new_parent_id,
{
    lemma_descendant_set_members(rows, new_parent_id);
}

} // verus!
