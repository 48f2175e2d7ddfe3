use server::item_tree::{
    check_new_parent, children_from_rows, descendant_set_from_rows, descendants_from_rows,
    must_move_relation, parent_for_removal, parent_from_first_row, parent_id_from_lookup,
    parent_change_step, path_from_rows, reattach_links, require_parent_node, ParentChangeAction,
};
use server::{AllIds, AppError, ErrorKind, ParentId};
use std::collections::HashSet;

#[test]
fn path_is_the_last_answered_path() {
    let rows = vec![vec![5, 3], vec![5, 3, 1], vec![5, 3, 1, 1]];
    assert_eq!(path_from_rows(rows).unwrap(), vec![5, 3, 1, 1]);
    assert_eq!(path_from_rows(vec![]), Err(AppError(ErrorKind::RowObjectNotFound)));
    assert_eq!(ErrorKind::RowObjectNotFound.message(), "Row Object was not found.");
}

#[test]
fn parent_is_second_node_of_first_path() {
    assert_eq!(parent_from_first_row(Some(vec![7, 4])), Ok(4));
    assert_eq!(parent_from_first_row(None), Err(AppError(ErrorKind::RowNotFound)));
    assert_eq!(
        parent_from_first_row(Some(vec![7])),
        Err(AppError(ErrorKind::RootItemCannotBeChanged))
    );
}

#[test]
fn parent_is_root_when_its_visible_id_is_root() {
    assert_eq!(
        parent_id_from_lookup(1, Some("ROOT".to_string())),
        Ok(ParentId { actual_parent_id: 1, is_actual_root: true })
    );
    assert_eq!(
        parent_id_from_lookup(4, Some("AB12".to_string())),
        Ok(ParentId { actual_parent_id: 4, is_actual_root: false })
    );
    assert_eq!(
        parent_id_from_lookup(4, Some("root".to_string())),
        Ok(ParentId { actual_parent_id: 4, is_actual_root: false })
    );
    assert_eq!(parent_id_from_lookup(4, None), Err(AppError(ErrorKind::RootItemNotFound)));
}

#[test]
fn descendants_list_and_set() {
    let rows = vec![vec![8, 5], vec![9, 8, 5], vec![6, 5]];
    assert_eq!(descendants_from_rows(&rows), vec![8, 5, 9, 8, 5, 6, 5]);
    let set = descendant_set_from_rows(&rows);
    let expected: HashSet<i64> = [5, 6, 8, 9].into_iter().collect();
    assert_eq!(set, expected);
    assert!(descendants_from_rows(&vec![]).is_empty());
    assert!(descendant_set_from_rows(&vec![]).is_empty());
}

#[test]
fn children_come_from_one_step_paths() {
    let rows = vec![vec![8, 5], vec![9, 8, 5], vec![6, 5], vec![5], vec![]];
    assert_eq!(children_from_rows(&rows), vec![8, 6]);
}

#[test]
fn all_ids_are_narrowed_to_item_keys() {
    let ids = AllIds::new(3, &vec![3, 4, (1i64 << 32) + 7]);
    assert_eq!(ids.actual_route_id, 3);
    assert_eq!(ids.descendants, vec![3, 4, 7]);
}

#[test]
fn relation_moves_only_below_top_level_and_on_change() {
    let under_root = ParentId { actual_parent_id: 1, is_actual_root: true };
    let inner = ParentId { actual_parent_id: 4, is_actual_root: false };
    assert!(!must_move_relation(&under_root, 9));
    assert!(!must_move_relation(&inner, 4));
    assert!(must_move_relation(&inner, 9));
}

#[test]
fn new_parent_may_not_be_a_descendant() {
    let set = descendant_set_from_rows(&vec![vec![8, 5], vec![9, 8, 5]]);
    assert_eq!(
        check_new_parent(9, &set),
        Err(AppError(ErrorKind::CannotChangeRelationToDescendants))
    );
    assert_eq!(
        check_new_parent(5, &set),
        Err(AppError(ErrorKind::CannotChangeRelationToDescendants))
    );
    assert_eq!(check_new_parent(2, &set), Ok(()));
}

#[test]
fn deletion_reattaches_children_to_parent() {
    let inner = ParentId { actual_parent_id: 4, is_actual_root: false };
    let p = parent_for_removal(&inner).unwrap();
    assert_eq!(reattach_links(p, &vec![10, 11]), vec![(4, 10), (4, 11)]);
    assert!(reattach_links(p, &vec![]).is_empty());
    let top = ParentId { actual_parent_id: 1, is_actual_root: true };
    assert_eq!(parent_for_removal(&top), Err(AppError(ErrorKind::RootItemCannotRemove)));
    assert_eq!(ErrorKind::RootItemCannotRemove.message(), "Root Item cannot remove.");
}

#[test]
fn registering_needs_parent_node() {
    assert_eq!(require_parent_node(true), Ok(()));
    assert_eq!(require_parent_node(false), Err(AppError(ErrorKind::ParentItemNotFound)));
    assert_eq!(ErrorKind::ParentItemNotFound.message(), "Parent item was not found.");
}

#[test]
fn item_update_decides_the_move_step_by_step() {
    let top = ParentId { actual_parent_id: 1, is_actual_root: true };
    assert_eq!(parent_change_step(&top, None, None), ParentChangeAction::Keep);
    let parent = ParentId { actual_parent_id: 7, is_actual_root: false };
    assert_eq!(parent_change_step(&parent, None, None), ParentChangeAction::LookUpNewParent);
    assert_eq!(
        parent_change_step(&parent, Some(None), None),
        ParentChangeAction::Refuse(AppError(ErrorKind::ParentItemNotFound))
    );
    assert_eq!(parent_change_step(&parent, Some(Some(7)), None), ParentChangeAction::Keep);
    assert_eq!(parent_change_step(&parent, Some(Some(9)), None), ParentChangeAction::FindDescendants);
    let descendants: HashSet<i64> = [3, 4, 9].into_iter().collect();
    assert_eq!(
        parent_change_step(&parent, Some(Some(9)), Some(&descendants)),
        ParentChangeAction::Refuse(AppError(ErrorKind::CannotChangeRelationToDescendants))
    );
    assert_eq!(
        parent_change_step(&parent, Some(Some(5)), Some(&descendants)),
        ParentChangeAction::Reconnect { old_parent_id: 7, new_parent_id: 5 }
    );
}
