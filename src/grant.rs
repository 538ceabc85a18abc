//! Permission grants to users, roles and groups, and the attribute lists of
//! permissions: the rules for creating, deleting, listing and replacing them.

use vstd::prelude::*;
use crate::ident::{id_of_text, parse_id};
use crate::model::{
    GROUP_PERMISSION_TABLE, PermissionAttributeList, ROLE_PERMISSION_TABLE,
    USER_PERMISSION_TABLE,
};
use crate::query::{ListWindow, query_builder, query_text, texts};

verus! {

/// The kinds of subject that can hold a grant.
#[derive(Clone, Copy, Debug, PartialEq, Eq, Structural)]
pub enum SubjectKind {
    User,
    Role,
    Group,
}

/// An entity that a grant refers to.
#[derive(Clone, Copy, Debug, PartialEq, Eq, Structural)]
pub enum Entity {
    Subject,
    Permission,
    Attribute,
    Grant,
}

/// Why a grant could not be created or deleted.
#[derive(Clone, Copy, Debug, PartialEq, Eq, Structural)]
pub enum GrantError {
    /// The named entity does not exist (or is soft-deleted).
    NotFound(Entity),
    /// The grant exists already.
    Conflict,
}

/// What the store reported for the three ids of a grant and for the grant.
#[derive(Clone, Copy, Debug, PartialEq, Eq, Structural)]
pub struct GrantLookup {
    pub subject_found: bool,
    pub permission_found: bool,
    pub attribute_found: bool,
    pub granted: bool,
}

/// A grant row: a subject holds a permission scoped by an attribute.
#[derive(Clone, Copy, Debug, PartialEq, Eq, Structural)]
pub struct Grant {
    pub kind: SubjectKind,
    pub subject_id: u128,
    pub permission_id: u128,
    pub attribute_id: u128,
    pub created_by: Option<u128>,
    pub updated_by: Option<u128>,
    pub created_date: Option<i64>,
    pub updated_date: Option<i64>,
}

/// The first of the three referenced entities that is missing.
pub open spec fn missing_reference(l: GrantLookup) -> Option<Entity> {
    if !l.subject_found {
        Some(Entity::Subject)
    } else if !l.permission_found {
        Some(Entity::Permission)
    } else if !l.attribute_found {
        Some(Entity::Attribute)
    } else {
        None
    }
}

/// Whether a grant may be created, given what the store reported.
pub open spec fn create_outcome(l: GrantLookup) -> Result<(), GrantError> {
    match missing_reference(l) {
        Some(e) => Err(GrantError::NotFound(e)),
        None => if l.granted {
            Err(GrantError::Conflict)
        } else {
            Ok(())
        },
    }
}

/// Whether a grant may be deleted, given what the store reported.
pub open spec fn delete_outcome(l: GrantLookup) -> Result<(), GrantError> {
    match missing_reference(l) {
        Some(e) => Err(GrantError::NotFound(e)),
        None => if l.granted {
            Ok(())
        } else {
            Err(GrantError::NotFound(Entity::Grant))
        },
    }
}

fn first_missing(l: &GrantLookup) -> (r: Option<Entity>)
    ensures
        r == missing_reference(*l),
{
    if !l.subject_found {
        Some(Entity::Subject)
    } else if !l.permission_found {
        Some(Entity::Permission)
    } else if !l.attribute_found {
        Some(Entity::Attribute)
    } else {
        None
    }
}

/// The grant to insert: subject, permission and attribute must each exist
/// and the triple must not be granted yet. `actor` is recorded as creator
/// and last updater, `now` as both dates.
pub fn create_grant(
    kind: SubjectKind,
    subject_id: u128,
    permission_id: u128,
    attribute_id: u128,
    lookup: &GrantLookup,
    actor: u128,
    now: i64,
) -> (r: Result<Grant, GrantError>)
    ensures
        match create_outcome(*lookup) {
            Err(e) => r == Err::<Grant, GrantError>(e),
            Ok(_) => r == Ok::<Grant, GrantError>(
                Grant {
                    kind,
                    subject_id,
                    permission_id,
                    attribute_id,
                    created_by: Some(actor),
                    updated_by: Some(actor),
                    created_date: Some(now),
                    updated_date: Some(now),
                },
            ),
        },
{
    if let Some(e) = first_missing(lookup) {
        return Err(GrantError::NotFound(e));
    }
    if lookup.granted {
        return Err(GrantError::Conflict);
    }
    Ok(Grant {
        kind,
        subject_id,
        permission_id,
        attribute_id,
        created_by: Some(actor),
        updated_by: Some(actor),
        created_date: Some(now),
        updated_date: Some(now),
    })
}

/// Whether the grant may be deleted: the three entities must exist and the
/// exact triple must be granted.
pub fn delete_grant(lookup: &GrantLookup) -> (r: Result<(), GrantError>)
    ensures
        r == delete_outcome(*lookup),
{
    if let Some(e) = first_missing(lookup) {
        return Err(GrantError::NotFound(e));
    }
    if lookup.granted {
        Ok(())
    } else {
        Err(GrantError::NotFound(Entity::Grant))
    }
}

/// A grant's key: subject, permission, attribute.
pub type Triple = (u128, u128, u128);

/// What the grant relation of one subject kind holds after a create.
pub open spec fn after_create(grants: Set<Triple>, t: Triple, outcome: Result<(), GrantError>) -> Set<Triple> {
    if outcome is Ok {
        grants.insert(t)
    } else {
        grants
    }
}

/// What the grant relation holds after a delete.
pub open spec fn after_delete(grants: Set<Triple>, t: Triple, outcome: Result<(), GrantError>) -> Set<Triple> {
    if outcome is Ok {
        grants.remove(t)
    } else {
        grants
    }
}

/// The lookup for a triple whose three entities exist, against a relation.
pub open spec fn lookup_in(grants: Set<Triple>, t: Triple) -> GrantLookup {
    GrantLookup {
        subject_found: true,
        permission_found: true,
        attribute_found: true,
        granted: grants.contains(t),
    }
}

/// A triple is granted at most once: after creating it (whether or not it
/// was there), creating it again is a conflict; after deleting it, creating
/// it again succeeds.
pub proof fn lemma_grant_uniqueness(grants: Set<Triple>, t: Triple)
    ensures
        ({
            let g1 = after_create(grants, t, create_outcome(lookup_in(grants, t)));
            let g2 = after_delete(g1, t, delete_outcome(lookup_in(g1, t)));
            &&& create_outcome(lookup_in(g1, t)) == Err::<(), GrantError>(GrantError::Conflict)
            &&& delete_outcome(lookup_in(g1, t)) == Ok::<(), GrantError>(())
            &&& create_outcome(lookup_in(g2, t)) == Ok::<(), GrantError>(())
            &&& after_create(g2, t, create_outcome(lookup_in(g2, t))).contains(t)
        }),
{
}

/// Reads the three ids of a grant request; one that is not a UUID counts as
/// a missing entity.
pub fn parse_grant_ids(subject_id: &str, permission_id: &str, attribute_id: &str) -> (r: Result<Triple, GrantError>)
    ensures
        match (id_of_text(subject_id@), id_of_text(permission_id@), id_of_text(attribute_id@)) {
            (None, _, _) => r == Err::<Triple, GrantError>(GrantError::NotFound(Entity::Subject)),
            (Some(_), None, _) => r == Err::<Triple, GrantError>(GrantError::NotFound(Entity::Permission)),
            (Some(_), Some(_), None) => r == Err::<Triple, GrantError>(GrantError::NotFound(Entity::Attribute)),
            (Some(s), Some(p), Some(a)) => r == Ok::<Triple, GrantError>((s, p, a)),
        },
{
    let s = match parse_id(subject_id) {
        Some(v) => v,
        None => return Err(GrantError::NotFound(Entity::Subject)),
    };
    let p = match parse_id(permission_id) {
        Some(v) => v,
        None => return Err(GrantError::NotFound(Entity::Permission)),
    };
    let a = match parse_id(attribute_id) {
        Some(v) => v,
        None => return Err(GrantError::NotFound(Entity::Attribute)),
    };
    Ok((s, p, a))
}


/// The table that holds the grants of a subject kind.
pub fn grant_table(kind: SubjectKind) -> (r: &'static str)
    ensures
        r@ == grant_table_name(kind),
{
    match kind {
        SubjectKind::User => USER_PERMISSION_TABLE,
        SubjectKind::Role => ROLE_PERMISSION_TABLE,
        SubjectKind::Group => GROUP_PERMISSION_TABLE,
    }
}

/// The name of the table that holds the grants of a subject kind.
pub open spec fn grant_table_name(kind: SubjectKind) -> Seq<char> {
    match kind {
        SubjectKind::User => USER_PERMISSION_TABLE@,
        SubjectKind::Role => ROLE_PERMISSION_TABLE@,
        SubjectKind::Group => GROUP_PERMISSION_TABLE@,
    }
}

/// The column that holds the subject's id in a grant table.
pub open spec fn subject_column_name(kind: SubjectKind) -> Seq<char> {
    match kind {
        SubjectKind::User => "user_id"@,
        SubjectKind::Role => "role_id"@,
        SubjectKind::Group => "group_id"@,
    }
}

/// The column that holds the subject's id in a grant table.
pub fn subject_column(kind: SubjectKind) -> (r: &'static str)
    ensures
        r@ == subject_column_name(kind),
{
    match kind {
        SubjectKind::User => "user_id",
        SubjectKind::Role => "role_id",
        SubjectKind::Group => "group_id",
    }
}

/// The statements that list a subject's grants: the rows, newest update
/// first and bounded by the window, and their count. The subject's id is
/// the first bound parameter.
pub fn grant_list_statements(kind: SubjectKind, window: &ListWindow) -> (r: (String, String))
    ensures
        r.0@ == query_text(
            None,
            grant_table_name(kind),
            seq![subject_column_name(kind) + " = $1"@],
            seq!["updated_date DESC"@],
            window.limit,
            window.offset,
        ),
        r.1@ == query_text(
            Some("count(*)"@),
            grant_table_name(kind),
            seq![subject_column_name(kind) + " = $1"@],
            Seq::empty(),
            None,
            None,
        ),
{
    let table = grant_table(kind);
    let filter = String::from_str(subject_column(kind)).concat(" = $1");
    let ghost f = filter@;
    let mut filters: Vec<String> = Vec::new();
    filters.push(filter);
    let mut order: Vec<String> = Vec::new();
    order.push(String::from_str("updated_date DESC"));
    let rows = query_builder(None, table, filters.as_slice(), order, window.limit, window.offset);
    let count = query_builder(
        Some(String::from_str("count(*)")),
        table,
        filters.as_slice(),
        Vec::new(),
        None,
        None,
    );
    proof {
        assert(texts(filters@) =~= seq![f]);
        assert(texts(Seq::<String>::empty()) =~= Seq::<Seq<char>>::empty());
    }
    (rows, count)
}

// ------------------------------------------------- permission attributes

/// The attributes that a relation of (permission, attribute) pairs
/// associates with a permission.
pub open spec fn attributes_of(assoc: Set<(u128, u128)>, permission_id: u128) -> Set<u128> {
    Set::new(|a: u128| assoc.contains((permission_id, a)))
}

/// The relation after all pairs of a permission are deleted and `rows`
/// inserted.
pub open spec fn after_replace(assoc: Set<(u128, u128)>, permission_id: u128, rows: Seq<PermissionAttributeList>) -> Set<(u128, u128)> {
    Set::new(
        |r: (u128, u128)|
            (r.0 != permission_id && assoc.contains(r)) || exists|i: int|
                0 <= i < rows.len() && #[trigger] rows[i] == (PermissionAttributeList {
                    permission_id: r.0,
                    attribute_id: r.1,
                }),
    )
}

/// The rows that replace a permission's attribute list once all of its
/// rows are deleted: one per given attribute, in order.
pub fn replace_permission_attributes(permission_id: u128, attribute_ids: &Vec<u128>) -> (r: Vec<PermissionAttributeList>)
    ensures
        r@.len() == attribute_ids@.len(),
        forall|i: int|
            0 <= i < r@.len() ==> #[trigger] r@[i] == (PermissionAttributeList {
                permission_id,
                attribute_id: attribute_ids@[i],
            }),
{
    let mut rows: Vec<PermissionAttributeList> = Vec::new();
    let mut i: usize = 0;
    while i < attribute_ids.len()
        invariant
            i <= attribute_ids@.len(),
            rows@.len() == i,
            forall|j: int|
                0 <= j < i ==> #[trigger] rows@[j] == (PermissionAttributeList {
                    permission_id,
                    attribute_id: attribute_ids@[j],
                }),
        decreases attribute_ids@.len() - i,
    {
        rows.push(PermissionAttributeList { permission_id, attribute_id: attribute_ids[i] });
        i = i + 1;
    }
    rows
}

/// Replacing a permission's attribute list is total: afterwards the
/// permission is associated with exactly the given attributes, and every
/// other permission keeps its own.
pub proof fn lemma_replace_is_total(
    assoc: Set<(u128, u128)>,
    permission_id: u128,
    attribute_ids: Seq<u128>,
    rows: Seq<PermissionAttributeList>,
    other: u128,
)
    requires
        rows.len() == attribute_ids.len(),
        forall|i: int|
            0 <= i < rows.len() ==> #[trigger] rows[i] == (PermissionAttributeList {
                permission_id,
                attribute_id: attribute_ids[i],
            }),
        other != permission_id,
    ensures
        attributes_of(after_replace(assoc, permission_id, rows), permission_id) == attribute_ids.to_set(),
        attributes_of(after_replace(assoc, permission_id, rows), other) == attributes_of(assoc, other),
{
    let after = after_replace(assoc, permission_id, rows);
    assert forall|a: u128| attributes_of(after, permission_id).contains(a) <==> attribute_ids.to_set().contains(a) by {
        if attribute_ids.contains(a) {
            let i = choose|i: int| 0 <= i < attribute_ids.len() && attribute_ids[i] == a;
            assert(rows[i] == PermissionAttributeList { permission_id, attribute_id: a });
        }
        if after.contains((permission_id, a)) {
            let i = choose|i: int| 0 <= i < rows.len() && #[trigger] rows[i] == (PermissionAttributeList {
                permission_id,
                attribute_id: a,
            });
            assert(attribute_ids[i] == a);
        }
    }
    assert(attributes_of(after, permission_id) =~= attribute_ids.to_set());
    assert forall|a: u128| attributes_of(after, other).contains(a) <==> attributes_of(assoc, other).contains(a) by {
        if after.contains((other, a)) && !assoc.contains((other, a)) {
            let i = choose|i: int| 0 <= i < rows.len() && #[trigger] rows[i] == (PermissionAttributeList {
                permission_id: other,
                attribute_id: a,
            });
            assert(rows[i].permission_id == permission_id);
        }
    }
    assert(attributes_of(after, other) =~= attributes_of(assoc, other));
}

} // verus!
