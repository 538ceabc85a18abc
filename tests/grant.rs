use std::collections::HashSet;

use core_rust_qti::grant::{
    create_grant, delete_grant, grant_list_statements, parse_grant_ids,
    replace_permission_attributes, Entity, GrantError, GrantLookup, SubjectKind,
};
use core_rust_qti::query::list_window;

fn lookup(granted: bool) -> GrantLookup {
    GrantLookup { subject_found: true, permission_found: true, attribute_found: true, granted }
}

#[test]
fn create_records_actor_and_time() {
    let g = create_grant(SubjectKind::Role, 1, 2, 3, &lookup(false), 9, 77).unwrap();
    assert_eq!((g.subject_id, g.permission_id, g.attribute_id), (1, 2, 3));
    assert_eq!((g.created_by, g.updated_by), (Some(9), Some(9)));
    assert_eq!((g.created_date, g.updated_date), (Some(77), Some(77)));
    assert_eq!(g.kind, SubjectKind::Role);
}

#[test]
fn create_names_the_first_missing_entity() {
    let mut l = lookup(false);
    l.permission_found = false;
    l.attribute_found = false;
    assert_eq!(create_grant(SubjectKind::User, 1, 2, 3, &l, 9, 0), Err(GrantError::NotFound(Entity::Permission)));
    l.subject_found = false;
    assert_eq!(create_grant(SubjectKind::User, 1, 2, 3, &l, 9, 0), Err(GrantError::NotFound(Entity::Subject)));
    let mut l = lookup(true);
    l.attribute_found = false;
    assert_eq!(delete_grant(&l), Err(GrantError::NotFound(Entity::Attribute)));
}

#[test]
fn grant_uniqueness() {
    let mut table: HashSet<(u128, u128, u128)> = HashSet::new();
    let t = (1u128, 2u128, 3u128);
    let g = create_grant(SubjectKind::Group, 1, 2, 3, &lookup(table.contains(&t)), 9, 0).unwrap();
    table.insert((g.subject_id, g.permission_id, g.attribute_id));
    assert_eq!(
        create_grant(SubjectKind::Group, 1, 2, 3, &lookup(table.contains(&t)), 9, 0),
        Err(GrantError::Conflict)
    );
    assert_eq!(delete_grant(&lookup(table.contains(&t))), Ok(()));
    table.remove(&t);
    assert_eq!(delete_grant(&lookup(table.contains(&t))), Err(GrantError::NotFound(Entity::Grant)));
    assert!(create_grant(SubjectKind::Group, 1, 2, 3, &lookup(table.contains(&t)), 9, 0).is_ok());
}

#[test]
fn grant_ids_must_be_uuids() {
    let s = "01923f4e-5a6b-7c8d-9eaf-b0c1d2e3f405";
    let p = "00000000-0000-0000-0000-000000000002";
    assert_eq!(parse_grant_ids("nope", p, s), Err(GrantError::NotFound(Entity::Subject)));
    assert_eq!(parse_grant_ids(s, "nope", s), Err(GrantError::NotFound(Entity::Permission)));
    assert_eq!(parse_grant_ids(s, p, ""), Err(GrantError::NotFound(Entity::Attribute)));
    assert_eq!(parse_grant_ids(s, p, p), Ok((0x01923f4e_5a6b_7c8d_9eaf_b0c1d2e3f405, 2, 2)));
}

#[test]
fn attribute_list_replace_is_total() {
    let (p, x, y, z) = (1u128, 10u128, 11u128, 12u128);
    let mut assoc: HashSet<(u128, u128)> = [(p, x), (p, y), (2, x)].into_iter().collect();
    let rows = replace_permission_attributes(p, &vec![z]);
    assoc.retain(|r| r.0 != p);
    for r in &rows {
        assoc.insert((r.permission_id, r.attribute_id));
    }
    let of_p: HashSet<u128> = assoc.iter().filter(|r| r.0 == p).map(|r| r.1).collect();
    assert_eq!(of_p, [z].into_iter().collect());
    assert!(assoc.contains(&(2, x)));
    assert!(replace_permission_attributes(p, &vec![]).is_empty());
}

#[test]
fn grant_list_statements_page_and_all() {
    let (rows, count) = grant_list_statements(SubjectKind::Role, &list_window(Some(2), Some(10), None));
    assert_eq!(
        rows,
        "SELECT  * FROM public.role_permissions WHERE  role_id = $1 ORDER BY updated_date DESC LIMIT 10 OFFSET 10"
    );
    assert_eq!(count, "SELECT count(*) FROM public.role_permissions WHERE  role_id = $1");
    let (rows, _) = grant_list_statements(SubjectKind::User, &list_window(None, None, Some(true)));
    assert_eq!(rows, "SELECT  * FROM public.user_permission WHERE  user_id = $1 ORDER BY updated_date DESC");
}
