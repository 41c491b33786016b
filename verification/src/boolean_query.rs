//! The statements that find and read the elements whose geometry is cut
//! by negative geometry, and how the rows read for many elements are put
//! together.
use vstd::prelude::*;
use crate::geom::{get_inst_relate_keys, inst_relate_source};
use crate::refno::{inst_relate_key_text, join_pe_keys, pe_key_text, pe_keys_of, RefnoEnum};
use crate::text::{join_with, owned, push_str};

verus! {

/// Base of one element to cut: head before its `inst_relate` key.
pub const TARGET_BASE_HEAD: &'static str = r#"
        SELECT 
            in AS refno,
            in.sesno AS sesno,
            in.noun AS noun,
            world_trans.d AS wt,
            ((select value (out.d ?? NONE) from in->inst_relate_aabb where out.d != NONE limit 1)[0] ?? NONE) AS aabb
        FROM "#;

/// Base of one element to cut: what follows the key.
pub const TARGET_BASE_TAIL: &'static str = r#"
        WHERE in.id != NONE
            AND (bool_status != 'Success' OR bool_status = NONE)
            AND array::len(in->inst_relate_aabb) > 0
        LIMIT 1
        "#;

/// Positive geometry of one element: head before its reference number.
pub const TARGET_GEOS_HEAD: &'static str = r#"
        SELECT out AS id, trans.d AS trans
        FROM inst_relate:"#;

/// Positive geometry of one element: what follows the reference number.
pub const TARGET_GEOS_TAIL: &'static str = r#"->out->geo_relate
        WHERE geo_type IN ["Compound", "Pos"] AND trans.d != NONE
        "#;

/// Cutting geometry: head before the key it is read from.
pub const CUT_HEAD: &'static str = r#"
        SELECT 
            in.out AS id,
            in.geo_type AS geo_type,
            in.para_type ?? "" AS para_type,
            in.trans.d AS trans,
            in.out.aabb.d AS aabb,
            array::first(in.in<-inst_relate).world_trans.d AS carrier_wt
        FROM "#;

/// Cutting geometry through `neg_relate`: what follows the key.
pub const NEG_CUT_TAIL: &'static str = r#"<-neg_relate
        WHERE in.trans.d != NONE
        "#;

/// Cutting geometry through `ngmr_relate`: what follows the key.
pub const NGMR_CUT_TAIL: &'static str = r#"<-ngmr_relate
        WHERE in.trans.d != NONE
        "#;

/// Bases of many elements to cut: head before their keys.
pub const BATCH_BASE_HEAD: &'static str = r#"
        SELECT 
            in AS refno,
            in.sesno AS sesno,
            in.noun AS noun,
            type::record("pe_transform", record::id(in)).world_trans.d AS wt,
            type::record("inst_relate_aabb", record::id(in)).out.d AS aabb
        FROM "#;

/// Bases of many elements to cut: what follows the keys.
pub const BATCH_BASE_TAIL: &'static str = r#"
        WHERE in.id != NONE
            AND (bool_status != 'Success' OR bool_status = NONE)
            AND type::record("pe_transform", record::id(in)).world_trans != NONE
            AND type::record("inst_relate_aabb", record::id(in)).out.d != NONE
        "#;

/// Positive geometry of many elements: head before their keys.
pub const BATCH_GEOS_HEAD: &'static str = r#"
        SELECT 
            in as refno,
            (SELECT out AS id, trans.d AS trans FROM out->geo_relate WHERE geo_type IN ["Compound", "Pos"] AND trans.d != NONE) AS geos
        FROM "#;

/// Positive geometry of many elements: what follows the keys.
pub const BATCH_GEOS_TAIL: &'static str = r#"
        "#;

/// Catalogue cutting groups: head before the keys.
pub const CATA_NEG_HEAD: &'static str = r#" select in as refno, (->inst_info)[0] as inst_info_id, (select value array::flatten([geom_refno, cata_neg])
            from ->inst_info->geo_relate where visible and !out.bad and cata_neg!=none) as boolean_group
            from "#;

/// Catalogue cutting groups: what follows the keys.
pub const CATA_NEG_TAIL: &'static str = r#" where in.id != none and (->inst_info)[0]!=none and has_cata_neg "#;

/// Catalogue cutting groups: the condition that leaves out elements already cut.
pub const CATA_NEG_PENDING: &'static str = r#"and (bool_status != 'Success' or bool_status = none)"#;

/// Geometry meshes of an element: head before its key.
pub const MESH_HEAD: &'static str = r#"
        select out as id, geom_refno, trans.d as trans, out.param as param, out.aabb as aabb_id
        from "#;

/// Geometry meshes of an element: between its key and the geometry keys.
pub const MESH_MIDDLE: &'static str = r#"->inst_relate->inst_info->geo_relate
        where !out.bad and geom_refno in ["#;

/// Geometry meshes of an element: what follows the geometry keys.
pub const MESH_TAIL: &'static str = r#"]  and out.aabb!=none and out.param!=none"#;

/// Negative elements of one element: head before its key.
pub const NEGATIVES_HEAD: &'static str = r#"RETURN fn::query_negative_entities("#;

/// Negative elements of one element: what follows the key.
pub const NEGATIVES_TAIL: &'static str = r#")"#;

/// Negative elements of many elements: head before their keys.
pub const NEGATIVES_BATCH_HEAD: &'static str = r#"
        SELECT id AS pos, fn::query_negative_entities(id) AS negs
        FROM ["#;

/// Negative elements of many elements: what follows the keys.
pub const NEGATIVES_BATCH_TAIL: &'static str = r#"]
        WHERE array::len(fn::query_negative_entities(id)) > 0
        "#;

/// Every element with negative elements.
pub const ALL_TARGETS_SQL: &'static str = r#"
            SELECT VALUE id FROM pe
            WHERE array::len(fn::query_negative_entities(id)) > 0
        "#;

/// Elements with negative elements among given ones: head before their keys.
pub const TARGETS_HEAD: &'static str = r#"
        SELECT VALUE id FROM ["#;

/// Elements with negative elements among given ones: what follows the keys.
pub const TARGETS_TAIL: &'static str = r#"]
        WHERE array::len(fn::query_negative_entities(id)) > 0
        "#;

/// The relation a cutting geometry is read through.
#[derive(Clone, Copy, Debug, PartialEq, Eq, Structural)]
pub enum CutRelation {
    /// Negative geometry (`neg_relate`).
    Neg,
    /// Catalogue cross negative geometry (`ngmr_relate`).
    Ngmr,
}

/// The key a cutting geometry is read from: the element's `pe` key, or,
/// as a fallback, its `inst_relate` key.
#[derive(Clone, Copy, Debug, PartialEq, Eq, Structural)]
pub enum CutSource {
    Pe,
    Inst,
}

/// The statement that reads the base of one element to cut.
pub open spec fn target_base_sql_of(r: RefnoEnum) -> Seq<char> {
    TARGET_BASE_HEAD@ + inst_relate_key_text(r.spec_refno()) + TARGET_BASE_TAIL@
}

/// The statement that reads the positive geometry of one element.
pub open spec fn target_geos_sql_of(r: RefnoEnum) -> Seq<char> {
    TARGET_GEOS_HEAD@ + r.spec_refno().refno_text() + TARGET_GEOS_TAIL@
}

/// The statement that reads the cutting geometry of one element.
pub open spec fn cut_sql_of(r: RefnoEnum, relation: CutRelation, source: CutSource) -> Seq<char> {
    let key = match source {
        CutSource::Pe => pe_key_text(r.spec_refno()),
        CutSource::Inst => inst_relate_key_text(r.spec_refno()),
    };
    let tail = match relation {
        CutRelation::Neg => NEG_CUT_TAIL@,
        CutRelation::Ngmr => NGMR_CUT_TAIL@,
    };
    CUT_HEAD@ + key + tail
}

/// The statement that reads the base of one element to cut: its session,
/// type, world transform and first bounding box, if it is not cut yet.
pub fn target_base_sql(r: &RefnoEnum) -> (s: String)
    ensures
        s@ == target_base_sql_of(*r),
{
    let mut s = owned(TARGET_BASE_HEAD);
    let k = r.to_inst_relate_key();
    push_str(&mut s, k.as_str());
    push_str(&mut s, TARGET_BASE_TAIL);
    s
}

/// The statement that reads the positive (compound and positive) geometry
/// of one element.
pub fn target_geos_sql(r: &RefnoEnum) -> (s: String)
    ensures
        s@ == target_geos_sql_of(*r),
{
    let mut s = owned(TARGET_GEOS_HEAD);
    let t = r.to_refno_str();
    push_str(&mut s, t.as_str());
    push_str(&mut s, TARGET_GEOS_TAIL);
    s
}

/// The statement that reads the cutting geometry of one element through
/// `relation`, from the key that `source` names.
pub fn cut_sql(r: &RefnoEnum, relation: CutRelation, source: CutSource) -> (s: String)
    ensures
        s@ == cut_sql_of(*r, relation, source),
{
    let mut s = owned(CUT_HEAD);
    let key = match source {
        CutSource::Pe => r.to_pe_key(),
        CutSource::Inst => r.to_inst_relate_key(),
    };
    push_str(&mut s, key.as_str());
    match relation {
        CutRelation::Neg => push_str(&mut s, NEG_CUT_TAIL),
        CutRelation::Ngmr => push_str(&mut s, NGMR_CUT_TAIL),
    }
    s
}

/// Where to read cutting geometry next after reading `found` rows from
/// `source`: the `inst_relate` key when the `pe` key gave nothing, else
/// nowhere.
pub fn next_cut_source(source: CutSource, found: usize) -> (r: Option<CutSource>)
    ensures
        r == (if source == CutSource::Pe && found == 0 {
            Some(CutSource::Inst)
        } else {
            None
        }),
{
    match source {
        CutSource::Pe => if found == 0 {
            Some(CutSource::Inst)
        } else {
            None
        },
        CutSource::Inst => None,
    }
}

/// The statement that reads the bases of many elements to cut.
pub open spec fn batch_base_sql_of(refnos: Seq<RefnoEnum>) -> Seq<char> {
    BATCH_BASE_HEAD@ + inst_relate_source(refnos) + BATCH_BASE_TAIL@
}

/// The statement that reads the bases of many elements to cut: those not
/// cut yet that have a world transform and a bounding box.
pub fn batch_base_sql(refnos: &[RefnoEnum]) -> (s: String)
    ensures
        s@ == batch_base_sql_of(refnos@),
{
    let mut s = owned(BATCH_BASE_HEAD);
    let k = get_inst_relate_keys(refnos);
    push_str(&mut s, k.as_str());
    push_str(&mut s, BATCH_BASE_TAIL);
    s
}

/// The statement that reads the positive geometry of many elements.
pub open spec fn batch_geos_sql_of(refnos: Seq<RefnoEnum>) -> Seq<char> {
    BATCH_GEOS_HEAD@ + inst_relate_source(refnos) + BATCH_GEOS_TAIL@
}

/// The statement that reads the positive geometry of many elements, grouped
/// by element.
pub fn batch_geos_sql(refnos: &[RefnoEnum]) -> (s: String)
    ensures
        s@ == batch_geos_sql_of(refnos@),
{
    let mut s = owned(BATCH_GEOS_HEAD);
    let k = get_inst_relate_keys(refnos);
    push_str(&mut s, k.as_str());
    push_str(&mut s, BATCH_GEOS_TAIL);
    s
}

/// The statement that reads catalogue cutting groups.
pub open spec fn cata_neg_groups_sql_of(refnos: Seq<RefnoEnum>, replace_exist: bool) -> Seq<char> {
    let base = CATA_NEG_HEAD@ + inst_relate_source(refnos) + CATA_NEG_TAIL@;
    if replace_exist {
        base
    } else {
        base + CATA_NEG_PENDING@
    }
}

/// The statement that reads the catalogue cutting groups of the elements
/// (all elements when none are given); without `replace_exist` only those
/// not cut yet.
pub fn query_cata_neg_boolean_groups_sql(refnos: &[RefnoEnum], replace_exist: bool) -> (s: String)
    ensures
        s@ == cata_neg_groups_sql_of(refnos@, replace_exist),
{
    let mut s = owned(CATA_NEG_HEAD);
    let k = get_inst_relate_keys(refnos);
    push_str(&mut s, k.as_str());
    push_str(&mut s, CATA_NEG_TAIL);
    if !replace_exist {
        push_str(&mut s, CATA_NEG_PENDING);
    }
    s
}

/// The statement that reads the meshes of the geometries `geoms` of `r`.
pub open spec fn geom_mesh_sql_of(r: RefnoEnum, geoms: Seq<RefnoEnum>) -> Seq<char> {
    MESH_HEAD@ + pe_key_text(r.spec_refno()) + MESH_MIDDLE@ + join_with(pe_keys_of(geoms), ","@)
        + MESH_TAIL@
}

/// The statement that reads the meshes of the geometries `geoms` of `r`:
/// those that are sound and have a bounding box and parameters.
pub fn query_geom_mesh_data_sql(r: &RefnoEnum, geoms: &[RefnoEnum]) -> (s: String)
    ensures
        s@ == geom_mesh_sql_of(*r, geoms@),
{
    let mut s = owned(MESH_HEAD);
    let k = r.to_pe_key();
    push_str(&mut s, k.as_str());
    push_str(&mut s, MESH_MIDDLE);
    let keys = join_pe_keys(geoms);
    push_str(&mut s, keys.as_str());
    push_str(&mut s, MESH_TAIL);
    s
}

/// The statement that reads the negative elements of `r`.
pub open spec fn negatives_sql_of(r: RefnoEnum) -> Seq<char> {
    NEGATIVES_HEAD@ + pe_key_text(r.spec_refno()) + NEGATIVES_TAIL@
}

/// The statement that reads the negative elements of `r`.
pub fn query_negative_entities_sql(r: &RefnoEnum) -> (s: String)
    ensures
        s@ == negatives_sql_of(*r),
{
    let mut s = owned(NEGATIVES_HEAD);
    let k = r.to_pe_key();
    push_str(&mut s, k.as_str());
    push_str(&mut s, NEGATIVES_TAIL);
    s
}

/// The statement that reads the negative elements of each of `refnos`
/// that has some; none for no elements (the answer is then empty).
pub fn query_negative_entities_batch_sql(refnos: &[RefnoEnum]) -> (s: Option<String>)
    ensures
        refnos@.len() == 0 <==> s is None,
        s matches Some(t) ==> t@ == NEGATIVES_BATCH_HEAD@ + join_with(pe_keys_of(refnos@), ","@)
            + NEGATIVES_BATCH_TAIL@,
{
    if refnos.len() == 0 {
        return None;
    }
    let mut s = owned(NEGATIVES_BATCH_HEAD);
    let keys = join_pe_keys(refnos);
    push_str(&mut s, keys.as_str());
    push_str(&mut s, NEGATIVES_BATCH_TAIL);
    Some(s)
}

/// The statement that reads which of `refnos` have negative elements;
/// with no elements, every element of the database is read.
pub fn query_boolean_targets_sql(refnos: &[RefnoEnum]) -> (s: String)
    ensures
        refnos@.len() == 0 ==> s@ == ALL_TARGETS_SQL@,
        refnos@.len() > 0 ==> s@ == TARGETS_HEAD@ + join_with(pe_keys_of(refnos@), ","@)
            + TARGETS_TAIL@,
{
    if refnos.len() == 0 {
        return owned(ALL_TARGETS_SQL);
    }
    let mut s = owned(TARGETS_HEAD);
    let keys = join_pe_keys(refnos);
    push_str(&mut s, keys.as_str());
    push_str(&mut s, TARGETS_TAIL);
    s
}

/// Some relation of `rels` is keyed by `r`.
pub open spec fn has_key(rels: Seq<(RefnoEnum, Vec<RefnoEnum>)>, r: RefnoEnum) -> bool {
    exists|k: int| 0 <= k < rels.len() && (#[trigger] rels[k]).0 == r
}

/// The relations with one entry per element: the last one read for it, in
/// the order of those last entries.
pub open spec fn negative_map_of(rels: Seq<(RefnoEnum, Vec<RefnoEnum>)>) -> Seq<
    (RefnoEnum, Vec<RefnoEnum>),
>
    decreases rels.len(),
{
    if rels.len() == 0 {
        Seq::empty()
    } else {
        let rest = negative_map_of(rels.drop_first());
        if has_key(rest, rels[0].0) {
            rest
        } else {
            seq![rels[0]] + rest
        }
    }
}

/// The negative elements of each element, one entry per element (a later
/// relation for an element replaces an earlier one).
pub fn negative_entity_map(rels: Vec<(RefnoEnum, Vec<RefnoEnum>)>) -> (r: Vec<
    (RefnoEnum, Vec<RefnoEnum>),
>)
    ensures
        r@ == negative_map_of(rels@),
{
    let ghost orig = rels@;
    let mut rels = rels;
    let mut out: Vec<(RefnoEnum, Vec<RefnoEnum>)> = Vec::new();
    assert(orig.skip(orig.len() as int) =~= Seq::<(RefnoEnum, Vec<RefnoEnum>)>::empty());
    while rels.len() > 0
        invariant
            rels.len() <= orig.len(),
            rels@ == orig.take(rels.len() as int),
            out@ == negative_map_of(orig.skip(rels.len() as int)),
        decreases rels.len(),
    {
        let n = rels.len();
        let x = rels.pop().unwrap();
        assert(x == orig[n - 1]);
        assert(rels@ =~= orig.take(n - 1));
        assert(orig.skip(n - 1).drop_first() =~= orig.skip(n as int));
        assert(orig.skip(n - 1)[0] == x);
        let mut seen = false;
        let mut k: usize = 0;
        while k < out.len()
            invariant
                k <= out.len(),
                seen <==> exists|j: int| 0 <= j < k && (#[trigger] out@[j]).0 == x.0,
            decreases out.len() - k,
        {
            if out[k].0 == x.0 {
                seen = true;
            }
            k = k + 1;
        }
        if !seen {
            let ghost prev = out@;
            out.insert(0, x);
            assert(out@ =~= seq![x] + prev);
        }
    }
    assert(orig.skip(0) =~= orig);
    out
}

/// How the pieces read for many elements go together: the base row, the
/// positive geometry rows and the cutting geometry entry of each element.
#[derive(Clone, Debug, PartialEq, Eq)]
pub struct TargetPlan {
    pub refno: RefnoEnum,
    /// Index of the base row.
    pub base: usize,
    /// Indices of the positive geometry rows, in order.
    pub geos: Vec<usize>,
    /// Index of the cutting geometry entry, if there is one.
    pub cuts: Option<usize>,
}

/// The last index of `s` keyed by `r` whose flag is set.
pub open spec fn last_flagged(s: Seq<(RefnoEnum, bool)>, r: RefnoEnum) -> Option<int>
    decreases s.len(),
{
    if s.len() == 0 {
        None
    } else if s.last().0 == r && s.last().1 {
        Some(s.len() - 1)
    } else {
        last_flagged(s.drop_last(), r)
    }
}

/// The indices of `s` that hold `r`, in order.
pub open spec fn indices_with(s: Seq<RefnoEnum>, r: RefnoEnum) -> Seq<usize>
    decreases s.len(),
{
    if s.len() == 0 {
        Seq::empty()
    } else {
        let rest = indices_with(s.drop_last(), r);
        if s.last() == r {
            rest.push((s.len() - 1) as usize)
        } else {
            rest
        }
    }
}

/// The targets of many elements: each element once, at its first place,
/// when some base row with a bounding box was read for it; its base is the
/// last such row, its positive geometry every row read for it, its cutting
/// geometry the last non-empty entry read for it.
pub open spec fn target_plan_of(
    refnos: Seq<RefnoEnum>,
    bases: Seq<(RefnoEnum, bool)>,
    geos: Seq<RefnoEnum>,
    cuts: Seq<(RefnoEnum, bool)>,
) -> Seq<(RefnoEnum, usize, Seq<usize>, Option<usize>)>
    decreases refnos.len(),
{
    if refnos.len() == 0 {
        Seq::empty()
    } else {
        let rest = target_plan_of(refnos.drop_last(), bases, geos, cuts);
        let r = refnos.last();
        if !refnos.drop_last().contains(r) && last_flagged(bases, r) is Some {
            rest.push(
                (
                    r,
                    last_flagged(bases, r)->0 as usize,
                    indices_with(geos, r),
                    match last_flagged(cuts, r) {
                        Some(k) => Some(k as usize),
                        None => None,
                    },
                ),
            )
        } else {
            rest
        }
    }
}

/// The plan as plain values.
pub open spec fn target_view(t: TargetPlan) -> (RefnoEnum, usize, Seq<usize>, Option<usize>) {
    (t.refno, t.base, t.geos@, t.cuts)
}

/// The last index of `s` keyed by `r` with its flag set.
fn find_last_flagged(s: &Vec<(RefnoEnum, bool)>, r: RefnoEnum) -> (k: Option<usize>)
    ensures
        k == (match last_flagged(s@, r) {
            Some(i) => Some(i as usize),
            None => None,
        }),
        k matches Some(i) ==> i < s.len(),
{
    let mut found: Option<usize> = None;
    let mut i: usize = 0;
    while i < s.len()
        invariant
            i <= s.len(),
            found == (match last_flagged(s@.take(i as int), r) {
                Some(j) => Some(j as usize),
                None => None,
            }),
            found matches Some(j) ==> j < i,
        decreases s.len() - i,
    {
        assert(s@.take(i + 1).drop_last() =~= s@.take(i as int));
        if s[i].0 == r && s[i].1 {
            found = Some(i);
        }
        i = i + 1;
    }
    assert(s@.take(s.len() as int) =~= s@);
    found
}

/// The indices of `s` that hold `r`.
fn find_all(s: &Vec<RefnoEnum>, r: RefnoEnum) -> (v: Vec<usize>)
    ensures
        v@ == indices_with(s@, r),
{
    let mut v: Vec<usize> = Vec::new();
    let mut i: usize = 0;
    while i < s.len()
        invariant
            i <= s.len(),
            v@ == indices_with(s@.take(i as int), r),
        decreases s.len() - i,
    {
        assert(s@.take(i + 1).drop_last() =~= s@.take(i as int));
        if s[i] == r {
            v.push(i);
        }
        i = i + 1;
    }
    assert(s@.take(s.len() as int) =~= s@);
    v
}

/// How the rows read for `refnos` go together: `bases` holds the element
/// of each base row and whether it has a bounding box, `geos` the element
/// of each positive geometry row, `cuts` the element of each cutting
/// geometry entry and whether it is non-empty.
pub fn target_plan(
    refnos: &Vec<RefnoEnum>,
    bases: &Vec<(RefnoEnum, bool)>,
    geos: &Vec<RefnoEnum>,
    cuts: &Vec<(RefnoEnum, bool)>,
) -> (r: Vec<TargetPlan>)
    ensures
        r@.map_values(|t: TargetPlan| target_view(t)) == target_plan_of(refnos@, bases@, geos@, cuts@),
{
    let mut out: Vec<TargetPlan> = Vec::new();
    let mut i: usize = 0;
    while i < refnos.len()
        invariant
            i <= refnos.len(),
            out@.map_values(|t: TargetPlan| target_view(t)) == target_plan_of(
                refnos@.take(i as int),
                bases@,
                geos@,
                cuts@,
            ),
        decreases refnos.len() - i,
    {
        let r = refnos[i];
        let mut seen = false;
        let mut j: usize = 0;
        while j < i
            invariant
                j <= i,
                i < refnos.len(),
                seen <==> exists|k: int| 0 <= k < j && refnos@[k] == r,
                r == refnos@[i as int],
            decreases i - j,
        {
            if refnos[j] == r {
                seen = true;
            }
            j = j + 1;
        }
        let ghost prefix = refnos@.take(i as int);
        assert(refnos@.take(i + 1).drop_last() =~= prefix);
        assert(refnos@.take(i + 1).last() == r);
        assert(seen <==> prefix.contains(r)) by {
            if seen {
                let k = choose|k: int| 0 <= k < i && refnos@[k] == r;
                assert(prefix[k] == r);
            }
            if prefix.contains(r) {
                let k = choose|k: int| 0 <= k < prefix.len() && prefix[k] == r;
                assert(refnos@[k] == r);
            }
        }
        let ghost prev = out@;
        if !seen {
            match find_last_flagged(bases, r) {
                Some(b) => {
                    let g = find_all(geos, r);
                    let c = find_last_flagged(cuts, r);
                    out.push(TargetPlan { refno: r, base: b, geos: g, cuts: c });
                    assert(out@.map_values(|t: TargetPlan| target_view(t)) =~= prev.map_values(
                        |t: TargetPlan| target_view(t),
                    ).push(target_view(out@[out@.len() - 1])));
                },
                None => {},
            }
        }
        i = i + 1;
    }
    assert(refnos@.take(refnos.len() as int) =~= refnos@);
    out
}

/// The negative map holds each element once, and each entry is one of the
/// relations read.
pub proof fn lemma_negative_map_unique(rels: Seq<(RefnoEnum, Vec<RefnoEnum>)>)
    ensures
        forall|i: int, j: int|
            0 <= i < j < negative_map_of(rels).len() ==> (#[trigger] negative_map_of(rels)[i]).0
                != (#[trigger] negative_map_of(rels)[j]).0,
        forall|i: int|
            0 <= i < negative_map_of(rels).len() ==> rels.contains(#[trigger] negative_map_of(rels)[i]),
    decreases rels.len(),
{
    if rels.len() > 0 {
        let rest = negative_map_of(rels.drop_first());
        lemma_negative_map_unique(rels.drop_first());
        assert forall|i: int| 0 <= i < rest.len() implies rels.contains(#[trigger] rest[i]) by {
            let w = choose|m: int| 0 <= m < rels.drop_first().len() && rels.drop_first()[m] == rest[i];
            assert(rels[w + 1] == rest[i]);
        }
        if !has_key(rest, rels[0].0) {
            let r = seq![rels[0]] + rest;
            assert(r == negative_map_of(rels));
            assert forall|i: int, j: int| 0 <= i < j < r.len() implies (#[trigger] r[i]).0
                != (#[trigger] r[j]).0 by {
                if i == 0 {
                    assert(rest[j - 1] == r[j]);
                    if r[j].0 == rels[0].0 {
                        assert(has_key(rest, rels[0].0));
                    }
                } else {
                    assert(r[i] == rest[i - 1] && r[j] == rest[j - 1]);
                }
            }
            assert forall|i: int| 0 <= i < r.len() implies rels.contains(#[trigger] r[i]) by {
                if i > 0 {
                    assert(r[i] == rest[i - 1]);
                } else {
                    assert(rels[0] == r[0]);
                }
            }
        }
    }
}

} // verus!
