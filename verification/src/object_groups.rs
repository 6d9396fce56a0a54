//! The sidebar's grouping of objects by schema: schemas in order of their
//! names, and in each schema the tables before the views, by name regardless
//! of case, ties kept in the order they came.

use vstd::prelude::*;
use crate::models::{DatabaseObject, DatabaseObjectKind};
use crate::sidebar::object_kind_order;
use crate::text::{chars_of, lowercase, to_lowercase};

verus! {

/// The order of texts by code point, as `String` compares them (UTF-8 keeps
/// the order of code points): a proper prefix comes first, otherwise the
/// first differing character decides.
pub open spec fn text_before(a: Seq<char>, b: Seq<char>) -> bool
    decreases a.len(),
{
    if a.len() == 0 {
        b.len() > 0
    } else if b.len() == 0 {
        false
    } else if a[0] != b[0] {
        a[0] < b[0]
    } else {
        text_before(a.drop_first(), b.drop_first())
    }
}

proof fn lemma_text_before_irreflexive(a: Seq<char>)
    ensures
        !text_before(a, a),
    decreases a.len(),
{
    if a.len() > 0 {
        lemma_text_before_irreflexive(a.drop_first());
    }
}

proof fn lemma_text_before_total(a: Seq<char>, b: Seq<char>)
    ensures
        text_before(a, b) || text_before(b, a) || a == b,
    decreases a.len(),
{
    if a.len() > 0 && b.len() > 0 && a[0] == b[0] {
        lemma_text_before_total(a.drop_first(), b.drop_first());
        if a.drop_first() == b.drop_first() {
            assert(a =~= seq![a[0]] + a.drop_first());
            assert(b =~= seq![b[0]] + b.drop_first());
        }
    } else if a.len() == 0 && b.len() == 0 {
        assert(a =~= b);
    }
}

proof fn lemma_text_before_transitive(a: Seq<char>, b: Seq<char>, c: Seq<char>)
    requires
        text_before(a, b),
        text_before(b, c),
    ensures
        text_before(a, c),
    decreases a.len(),
{
    if a.len() > 0 && b.len() > 0 && c.len() > 0 && a[0] == b[0] && b[0] == c[0] {
        lemma_text_before_transitive(a.drop_first(), b.drop_first(), c.drop_first());
    }
}

proof fn lemma_text_before_asymmetric(a: Seq<char>, b: Seq<char>)
    requires
        text_before(a, b),
    ensures
        !text_before(b, a),
{
    if text_before(b, a) {
        lemma_text_before_transitive(a, b, a);
        lemma_text_before_irreflexive(a);
    }
}

/// Whether `a` comes before `b` by code point.
pub fn text_is_before(a: &Vec<char>, b: &Vec<char>) -> (r: bool)
    ensures
        r == text_before(a@, b@),
{
    let mut i: usize = 0;
    proof {
        assert(a@.skip(0) =~= a@);
        assert(b@.skip(0) =~= b@);
    }
    while i < a.len() && i < b.len() && a[i] == b[i]
        invariant
            i <= a.len(),
            i <= b.len(),
            text_before(a@, b@) == text_before(a@.skip(i as int), b@.skip(i as int)),
        decreases a.len() - i,
    {
        proof {
            assert(a@.skip(i as int).drop_first() =~= a@.skip(i + 1));
            assert(b@.skip(i as int).drop_first() =~= b@.skip(i + 1));
        }
        i = i + 1;
    }
    if i == a.len() {
        i < b.len()
    } else if i == b.len() {
        false
    } else {
        a[i] < b[i]
    }
}

/// The rank of a kind in a schema: tables before views.
pub open spec fn kind_rank(kind: DatabaseObjectKind) -> int {
    if kind == DatabaseObjectKind::Table {
        0
    } else {
        1
    }
}

/// Object `p` is listed before object `q`: by kind, then by lower-case
/// name, then by position.
pub open spec fn listed_before(objects: Seq<&DatabaseObject>, p: int, q: int) -> bool {
    let a = objects[p];
    let b = objects[q];
    ||| kind_rank(a.kind) < kind_rank(b.kind)
    ||| kind_rank(a.kind) == kind_rank(b.kind) && text_before(
        lowercase(a.name@),
        lowercase(b.name@),
    )
    ||| kind_rank(a.kind) == kind_rank(b.kind) && lowercase(a.name@) == lowercase(b.name@) && p < q
}

proof fn lemma_listed_total(objects: Seq<&DatabaseObject>, p: int, q: int)
    requires
        p != q,
    ensures
        listed_before(objects, p, q) || listed_before(objects, q, p),
{
    lemma_text_before_total(lowercase(objects[p].name@), lowercase(objects[q].name@));
}

proof fn lemma_listed_transitive(objects: Seq<&DatabaseObject>, p: int, q: int, r: int)
    requires
        listed_before(objects, p, q),
        listed_before(objects, q, r),
    ensures
        listed_before(objects, p, r),
{
    let a = lowercase(objects[p].name@);
    let b = lowercase(objects[q].name@);
    let c = lowercase(objects[r].name@);
    if text_before(a, b) && text_before(b, c) {
        lemma_text_before_transitive(a, b, c);
    }
}

/// The positions are listed in order and each one indexes `objects`.
pub open spec fn listed_in_order(objects: Seq<&DatabaseObject>, positions: Seq<usize>) -> bool {
    &&& forall|k: int| 0 <= k < positions.len() ==> #[trigger] positions[k] < objects.len()
    &&& forall|k: int, l: int|
        0 <= k < l < positions.len() ==> listed_before(
            objects,
            #[trigger] positions[k] as int,
            #[trigger] positions[l] as int,
        )
}

/// The schemas are in order of their names, none twice.
pub open spec fn schemas_in_order(schemas: Seq<Seq<char>>) -> bool {
    forall|i: int, j: int| 0 <= i < j < schemas.len() ==> text_before(#[trigger] schemas[i], #[trigger] schemas[j])
}

/// The objects of one schema: their positions, listed in order.
#[derive(Debug)]
pub struct SchemaGroup<'a> {
    pub schema: String,
    pub positions: Vec<usize>,
    pub objects: Vec<&'a DatabaseObject>,
}

/// The schema names of the groups.
pub open spec fn group_schemas(groups: Seq<SchemaGroup>) -> Seq<Seq<char>> {
    groups.map_values(|g: SchemaGroup| g.schema@)
}

/// What `objects_by_schema` returns for `objects`: one group per schema that
/// occurs, in order of the schema names; each group holds exactly the
/// positions of that schema's objects, listed in order, and those objects.
pub open spec fn grouped_by_schema(objects: Seq<&DatabaseObject>, groups: Seq<SchemaGroup>) -> bool {
    &&& schemas_in_order(group_schemas(groups))
    &&& forall|g: int| 0 <= g < groups.len() ==> {
        let group = #[trigger] groups[g];
        &&& group.positions@.len() > 0
        &&& listed_in_order(objects, group.positions@)
        &&& group.objects@.len() == group.positions@.len()
        &&& forall|k: int|
            0 <= k < group.positions@.len() ==> group.objects@[k] == objects[#[trigger] group.positions@[k] as int]
        &&& forall|p: int|
            0 <= p < objects.len() ==> (group.positions@.contains(p as usize) <==> #[trigger] objects[p].schema@
                == group.schema@)
    }
    &&& forall|p: int| 0 <= p < objects.len() ==> schema_listed(groups, (#[trigger] objects[p]).schema@)
}

/// Within each schema group every table is listed before every view.
pub proof fn groups_list_tables_before_views(objects: Seq<&DatabaseObject>, groups: Seq<SchemaGroup>)
    requires
        grouped_by_schema(objects, groups),
    ensures
        forall|g: int, k: int, l: int|
            0 <= g < groups.len() && 0 <= k < l < groups[g].objects@.len() && (
            #[trigger] groups[g].objects@[k]).kind == DatabaseObjectKind::View ==> (
            #[trigger] groups[g].objects@[l]).kind == DatabaseObjectKind::View,
{
    assert forall|g: int, k: int, l: int|
        0 <= g < groups.len() && 0 <= k < l < groups[g].objects@.len() && (
        #[trigger] groups[g].objects@[k]).kind == DatabaseObjectKind::View implies (
        #[trigger] groups[g].objects@[l]).kind == DatabaseObjectKind::View by {
        let group = groups[g];
        let p = group.positions@[k] as int;
        let q = group.positions@[l] as int;
        assert(group.objects@[k] == objects[p]);
        assert(group.objects@[l] == objects[q]);
        assert(listed_before(objects, p, q));
    }
}

/// Within each schema group, objects of one kind are listed by their
/// lower-case names: a later object's name never comes first in text order.
pub proof fn groups_list_each_kind_by_name(objects: Seq<&DatabaseObject>, groups: Seq<SchemaGroup>)
    requires
        grouped_by_schema(objects, groups),
    ensures
        forall|g: int, k: int, l: int|
            0 <= g < groups.len() && 0 <= k < l < groups[g].objects@.len() && (#[trigger] groups[g].objects@[k]).kind
                == (#[trigger] groups[g].objects@[l]).kind ==> !text_before(
                lowercase(groups[g].objects@[l].name@),
                lowercase(groups[g].objects@[k].name@),
            ),
{
    assert forall|g: int, k: int, l: int|
        0 <= g < groups.len() && 0 <= k < l < groups[g].objects@.len() && (#[trigger] groups[g].objects@[k]).kind
            == (#[trigger] groups[g].objects@[l]).kind implies !text_before(
            lowercase(groups[g].objects@[l].name@),
            lowercase(groups[g].objects@[k].name@),
        ) by {
        let group = groups[g];
        let p = group.positions@[k] as int;
        let q = group.positions@[l] as int;
        assert(group.objects@[k] == objects[p]);
        assert(group.objects@[l] == objects[q]);
        assert(listed_before(objects, p, q));
        let a = lowercase(objects[p].name@);
        let b = lowercase(objects[q].name@);
        if text_before(b, a) {
            if text_before(a, b) {
                lemma_text_before_asymmetric(a, b);
            } else {
                lemma_text_before_irreflexive(a);
            }
        }
    }
}

/// Some group is of schema `schema`.
pub open spec fn schema_listed(groups: Seq<SchemaGroup>, schema: Seq<char>) -> bool {
    exists|g: int| 0 <= g < groups.len() && #[trigger] groups[g].schema@ == schema
}

/// Inserts `p` into a list kept in order.
fn insert_in_order(
    list: Vec<usize>,
    p: usize,
    objects: &Vec<&DatabaseObject>,
    lowered: &Vec<Vec<char>>,
) -> (r: Vec<usize>)
    requires
        p < objects@.len(),
        lowered@.len() == objects@.len(),
        forall|i: int| 0 <= i < lowered@.len() ==> (#[trigger] lowered@[i])@ == lowercase(objects@[i].name@),
        listed_in_order(objects@, list@),
        !list@.contains(p),
    ensures
        listed_in_order(objects@, r@),
        forall|q: usize| r@.contains(q) <==> (list@.contains(q) || q == p),
{
    let mut k: usize = 0;
    while k < list.len() && !listed_before_exec(objects, lowered, p, list[k])
        invariant
            k <= list@.len(),
            p < objects@.len(),
            lowered@.len() == objects@.len(),
            forall|i: int| 0 <= i < lowered@.len() ==> (#[trigger] lowered@[i])@ == lowercase(objects@[i].name@),
            listed_in_order(objects@, list@),
            forall|i: int| 0 <= i < k ==> !listed_before(objects@, p as int, #[trigger] list@[i] as int),
        decreases list@.len() - k,
    {
        k = k + 1;
    }
    let ghost old_list = list@;
    let mut r = list;
    r.insert(k, p);
    proof {
        assert(r@ == old_list.insert(k as int, p));
        assert forall|i: int| 0 <= i < r@.len() implies #[trigger] r@[i] < objects@.len() by {
            if i < k {
                assert(r@[i] == old_list[i]);
            } else if i > k {
                assert(r@[i] == old_list[i - 1]);
            }
        }
        assert forall|a: int, b: int| 0 <= a < b < r@.len() implies listed_before(
            objects@,
            #[trigger] r@[a] as int,
            #[trigger] r@[b] as int,
        ) by {
            if b < k {
                assert(r@[a] == old_list[a] && r@[b] == old_list[b]);
            } else if b == k {
                assert(r@[a] == old_list[a]);
                assert(old_list[a] != p) by {
                    assert(old_list.contains(old_list[a]));
                }
                lemma_listed_total(objects@, p as int, old_list[a] as int);
            } else if a == k {
                assert(r@[b] == old_list[b - 1]);
                assert(listed_before(objects@, p as int, old_list[k as int] as int));
                if b - 1 > k {
                    assert(listed_before(objects@, old_list[k as int] as int, old_list[b - 1] as int));
                    lemma_listed_transitive(
                        objects@,
                        p as int,
                        old_list[k as int] as int,
                        old_list[b - 1] as int,
                    );
                }
            } else if a < k {
                assert(r@[a] == old_list[a] && r@[b] == old_list[b - 1]);
            } else {
                assert(r@[a] == old_list[a - 1] && r@[b] == old_list[b - 1]);
            }
        }
        assert forall|q: usize| r@.contains(q) <==> (old_list.contains(q) || q == p) by {
            if r@.contains(q) {
                let i = choose|i: int| 0 <= i < r@.len() && r@[i] == q;
                if i < k {
                    assert(old_list[i] == q);
                } else if i > k {
                    assert(old_list[i - 1] == q);
                }
            }
            if old_list.contains(q) {
                let i = choose|i: int| 0 <= i < old_list.len() && old_list[i] == q;
                if i < k {
                    assert(r@[i] == q);
                } else {
                    assert(r@[i + 1] == q);
                }
            }
            if q == p {
                assert(r@[k as int] == q);
            }
        }
    }
    r
}

/// Whether object `p` is listed before object `q`.
fn listed_before_exec(objects: &Vec<&DatabaseObject>, lowered: &Vec<Vec<char>>, p: usize, q: usize) -> (r:
    bool)
    requires
        p < objects@.len(),
        q < objects@.len(),
        lowered@.len() == objects@.len(),
        forall|i: int| 0 <= i < lowered@.len() ==> (#[trigger] lowered@[i])@ == lowercase(objects@[i].name@),
    ensures
        r == listed_before(objects@, p as int, q as int),
{
    let a = object_kind_order(objects[p].kind);
    let b = object_kind_order(objects[q].kind);
    if a != b {
        return a < b;
    }
    assert(lowered@[p as int]@ == lowercase(objects@[p as int].name@));
    assert(lowered@[q as int]@ == lowercase(objects@[q as int].name@));
    if text_is_before(&lowered[p], &lowered[q]) {
        return true;
    }
    if text_is_before(&lowered[q], &lowered[p]) {
        proof {
            lemma_text_before_asymmetric(lowered@[q as int]@, lowered@[p as int]@);
        }
        return false;
    }
    proof {
        lemma_text_before_total(lowered@[p as int]@, lowered@[q as int]@);
    }
    p < q
}

/// Some object lies in schema `schema`.
pub open spec fn schema_occurs(objects: Seq<&DatabaseObject>, schema: Seq<char>) -> bool {
    exists|p: int| 0 <= p < objects.len() && #[trigger] objects[p].schema@ == schema
}

/// The distinct schemas of the objects, in order of their names.
fn schemas_of(objects: &Vec<&DatabaseObject>) -> (r: Vec<Vec<char>>)
    ensures
        schemas_in_order(r@.map_values(|s: Vec<char>| s@)),
        forall|p: int|
            0 <= p < objects@.len() ==> r@.map_values(|s: Vec<char>| s@).contains(
                (#[trigger] objects@[p]).schema@,
            ),
        forall|g: int| 0 <= g < r@.len() ==> schema_occurs(objects@, (#[trigger] r@[g])@),
{
    let mut schemas: Vec<Vec<char>> = Vec::new();
    let mut p: usize = 0;
    while p < objects.len()
        invariant
            p <= objects@.len(),
            schemas_in_order(schemas@.map_values(|s: Vec<char>| s@)),
            forall|q: int|
                0 <= q < p ==> schemas@.map_values(|s: Vec<char>| s@).contains(
                    (#[trigger] objects@[q]).schema@,
                ),
            forall|g: int| 0 <= g < schemas@.len() ==> schema_occurs(objects@, (#[trigger] schemas@[g])@),
        decreases objects@.len() - p,
    {
        let schema = chars_of(objects[p].schema.as_str());
        let ghost names = schemas@.map_values(|s: Vec<char>| s@);
        let mut k: usize = 0;
        while k < schemas.len() && text_is_before(&schemas[k], &schema)
            invariant
                k <= schemas@.len(),
                names == schemas@.map_values(|s: Vec<char>| s@),
                forall|i: int| 0 <= i < k ==> text_before(#[trigger] names[i], schema@),
            decreases schemas@.len() - k,
        {
            k = k + 1;
        }
        let present = k < schemas.len() && same_chars(&schemas[k], &schema);
        if !present {
            let ghost before = schemas@;
            schemas.insert(k, schema);
            proof {
                let after = schemas@.map_values(|s: Vec<char>| s@);
                assert(after =~= names.insert(k as int, objects@[p as int].schema@));
                if k < names.len() {
                    lemma_text_before_total(names[k as int], objects@[p as int].schema@);
                    assert(!text_before(names[k as int], objects@[p as int].schema@));
                }
                assert forall|i: int, j: int| 0 <= i < j < after.len() implies text_before(
                    #[trigger] after[i],
                    #[trigger] after[j],
                ) by {
                    if j < k {
                        assert(after[i] == names[i] && after[j] == names[j]);
                    } else if j == k {
                        assert(after[i] == names[i]);
                    } else if i == k {
                        assert(after[j] == names[j - 1]);
                        if j - 1 > k {
                            assert(text_before(names[k as int], names[j - 1]));
                            lemma_text_before_transitive(
                                objects@[p as int].schema@,
                                names[k as int],
                                names[j - 1],
                            );
                        }
                    } else if i < k {
                        assert(after[i] == names[i] && after[j] == names[j - 1]);
                    } else {
                        assert(after[i] == names[i - 1] && after[j] == names[j - 1]);
                    }
                }
                assert forall|q: int| 0 <= q < p + 1 implies after.contains(
                    (#[trigger] objects@[q]).schema@,
                ) by {
                    if q == p {
                        assert(after[k as int] == objects@[q].schema@);
                    } else {
                        assert(names.contains(objects@[q].schema@));
                        let i = choose|i: int| 0 <= i < names.len() && names[i] == objects@[q].schema@;
                        if i < k {
                            assert(after[i] == names[i]);
                        } else {
                            assert(after[i + 1] == names[i]);
                        }
                    }
                }
                assert forall|g: int| 0 <= g < schemas@.len() implies schema_occurs(objects@, (#[trigger] schemas@[g])@) by {
                    if g < k {
                        assert(schemas@[g] == before[g]);
                    } else if g == k {
                        assert(objects@[p as int].schema@ == schemas@[g]@);
                    } else {
                        assert(schemas@[g] == before[g - 1]);
                    }
                }
            }
        } else {
            proof {
                assert(names[k as int] == objects@[p as int].schema@);
                assert forall|q: int| 0 <= q < p + 1 implies names.contains(
                    (#[trigger] objects@[q]).schema@,
                ) by {
                    if q == p {
                        assert(names[k as int] == objects@[q].schema@);
                    }
                }
            }
        }
        p = p + 1;
    }
    schemas
}

/// Whether two texts are equal.
fn same_chars(a: &Vec<char>, b: &Vec<char>) -> (r: bool)
    ensures
        r == (a@ == b@),
{
    if a.len() != b.len() {
        return false;
    }
    let mut i: usize = 0;
    while i < a.len()
        invariant
            i <= a@.len(),
            a@.len() == b@.len(),
            forall|j: int| 0 <= j < i ==> a@[j] == b@[j],
        decreases a@.len() - i,
    {
        if a[i] != b[i] {
            return false;
        }
        i = i + 1;
    }
    assert(a@ =~= b@);
    true
}

/// The objects grouped by schema: the schemas in order of their names, and
/// in each schema the tables before the views, by lower-case name, ties in
/// the order the objects came.
pub fn objects_by_schema<'a>(objects: &Vec<&'a DatabaseObject>) -> (r: Vec<SchemaGroup<'a>>)
    ensures
        grouped_by_schema(objects@, r@),
{
    let mut lowered: Vec<Vec<char>> = Vec::new();
    let mut i: usize = 0;
    while i < objects.len()
        invariant
            i <= objects@.len(),
            lowered@.len() == i,
            forall|j: int| 0 <= j < i ==> (#[trigger] lowered@[j])@ == lowercase(objects@[j].name@),
        decreases objects@.len() - i,
    {
        let l = to_lowercase(objects[i].name.as_str());
        lowered.push(chars_of(l.as_str()));
        i = i + 1;
    }
    let schemas = schemas_of(objects);
    let ghost names = schemas@.map_values(|s: Vec<char>| s@);
    let mut groups: Vec<SchemaGroup<'a>> = Vec::new();
    let mut g: usize = 0;
    while g < schemas.len()
        invariant
            g <= schemas@.len(),
            names == schemas@.map_values(|s: Vec<char>| s@),
            schemas_in_order(names),
            forall|p: int| 0 <= p < objects@.len() ==> names.contains((#[trigger] objects@[p]).schema@),
            forall|h: int| 0 <= h < schemas@.len() ==> schema_occurs(objects@, (#[trigger] schemas@[h])@),
            lowered@.len() == objects@.len(),
            forall|j: int| 0 <= j < lowered@.len() ==> (#[trigger] lowered@[j])@ == lowercase(objects@[j].name@),
            groups@.len() == g,
            forall|h: int| 0 <= h < g ==> (#[trigger] groups@[h]).schema@ == names[h],
            forall|h: int| 0 <= h < g ==> {
                let group = #[trigger] groups@[h];
                &&& group.positions@.len() > 0
                &&& listed_in_order(objects@, group.positions@)
                &&& group.objects@.len() == group.positions@.len()
                &&& forall|k: int|
                    0 <= k < group.positions@.len() ==> group.objects@[k] == objects@[#[trigger] group.positions@[k] as int]
                &&& forall|p: int|
                    0 <= p < objects@.len() ==> (group.positions@.contains(p as usize) <==> #[trigger] objects@[p].schema@
                        == group.schema@)
            },
        decreases schemas@.len() - g,
    {
        let group = group_of(objects, &lowered, &schemas[g]);
        proof {
            assert(schema_occurs(objects@, schemas@[g as int]@));
            let w = choose|p: int| 0 <= p < objects@.len() && #[trigger] objects@[p].schema@ == schemas@[g as int]@;
            assert(group.positions@.contains(w as usize));
        }
        groups.push(group);
        g = g + 1;
    }
    proof {
        assert(group_schemas(groups@) =~= names);
        assert forall|h: int| 0 <= h < groups@.len() implies {
            let group = #[trigger] groups@[h];
            &&& group.positions@.len() > 0
            &&& listed_in_order(objects@, group.positions@)
            &&& group.objects@.len() == group.positions@.len()
            &&& forall|k: int|
                0 <= k < group.positions@.len() ==> group.objects@[k] == objects@[#[trigger] group.positions@[k] as int]
            &&& forall|p: int|
                0 <= p < objects@.len() ==> (group.positions@.contains(p as usize) <==> #[trigger] objects@[p].schema@
                    == group.schema@)
        } by {
        }
        assert forall|p: int| 0 <= p < objects@.len() implies schema_listed(groups@, (#[trigger] objects@[p]).schema@) by {
            assert(names.contains(objects@[p].schema@));
            let h = choose|h: int| 0 <= h < names.len() && names[h] == objects@[p].schema@;
            assert(groups@[h].schema@ == names[h]);
        }
    }
    groups
}

/// The group of one schema.
fn group_of<'a>(objects: &Vec<&'a DatabaseObject>, lowered: &Vec<Vec<char>>, schema: &Vec<char>) -> (r:
    SchemaGroup<'a>)
    requires
        lowered@.len() == objects@.len(),
        forall|j: int| 0 <= j < lowered@.len() ==> (#[trigger] lowered@[j])@ == lowercase(objects@[j].name@),
    ensures
        r.schema@ == schema@,
        listed_in_order(objects@, r.positions@),
        r.objects@.len() == r.positions@.len(),
        forall|k: int|
            0 <= k < r.positions@.len() ==> r.objects@[k] == objects@[#[trigger] r.positions@[k] as int],
        forall|p: int|
            0 <= p < objects@.len() ==> (r.positions@.contains(p as usize) <==> #[trigger] objects@[p].schema@
                == schema@),
{
    let mut positions: Vec<usize> = Vec::new();
    let mut p: usize = 0;
    while p < objects.len()
        invariant
            p <= objects@.len(),
            lowered@.len() == objects@.len(),
            forall|j: int| 0 <= j < lowered@.len() ==> (#[trigger] lowered@[j])@ == lowercase(objects@[j].name@),
            listed_in_order(objects@, positions@),
            forall|q: usize| positions@.contains(q) <==> (q < p && objects@[q as int].schema@ == schema@),
        decreases objects@.len() - p,
    {
        let name = chars_of(objects[p].schema.as_str());
        if same_chars(&name, schema) {
            positions = insert_in_order(positions, p, objects, lowered);
        }
        p = p + 1;
    }
    let mut members: Vec<&'a DatabaseObject> = Vec::new();
    let mut k: usize = 0;
    while k < positions.len()
        invariant
            k <= positions@.len(),
            listed_in_order(objects@, positions@),
            members@.len() == k,
            forall|j: int| 0 <= j < k ==> members@[j] == objects@[#[trigger] positions@[j] as int],
        decreases positions@.len() - k,
    {
        members.push(objects[positions[k]]);
        k = k + 1;
    }
    SchemaGroup { schema: string_of(schema), positions, objects: members }
}

fn string_of(chars: &Vec<char>) -> (r: String)
    ensures
        r@ == chars@,
{
    crate::text::string_from_chars(chars)
}

} // verus!
