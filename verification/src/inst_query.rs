//! The statements that read and delete geometry instances: chunks of
//! elements, cut results first, then the plain instances of the rest.
use vstd::prelude::*;
use crate::refno::{
    inst_relate_key_text, inst_relate_keys_of, join_inst_relate_keys, pe_key_text, RefnoEnum,
};
use crate::text::{join_with, owned, push_str};

verus! {

/// Pipe runs of a branch: head before the branch key.
pub const TUBI_BY_BRAN_HEAD: &'static str = r#"
            SELECT
                id[0] as refno,
                in as leave,
                id[0].old_pe as old_refno,
                id[0].owner.noun as generic,
                aabb.d as world_aabb,
                world_trans.d as world_trans,
                record::id(geo) as geo_hash,
                date,
                spec_value
            FROM tubi_relate:["#;

/// Pipe runs of a branch: between the two branch keys of the range.
pub const TUBI_BY_BRAN_MIDDLE: &'static str = r#", 0]..["#;

/// Pipe runs of a branch: what follows the range.
pub const TUBI_BY_BRAN_TAIL: &'static str = r#", 999999]
            }
            "#;

/// Pipe runs at an element: head before its key.
pub const TUBI_BY_FLOW_HEAD: &'static str = r#"
            SELECT
                id[0] as refno,
                in as leave,
                id[0].old_pe as old_refno,
                id[0].owner.noun as generic,
                aabb.d as world_aabb,
                world_trans.d as world_trans,
                record::id(geo) as geo_hash,
                id[0].dt as date,
                spec_value
            FROM tubi_relate
            WHERE (in = "#;

/// Pipe runs at an element: between the two uses of its key.
pub const TUBI_BY_FLOW_MIDDLE: &'static str = r#" OR out = "#;

/// Pipe runs at an element: what follows.
pub const TUBI_BY_FLOW_TAIL: &'static str = r#")
            "#;

/// Exported instances with a cut result: head before the result keys.
pub const EXPORT_BOOL_HEAD: &'static str = r#"
                SELECT
                    refno,
                    refno.owner as owner,
                    record::id((refno->inst_relate_aabb[0].out)) as world_aabb_hash,
                    record::id(type::record("pe_transform", record::id(refno)).world_trans) as world_trans_hash,
                    [{ "geo_hash": mesh_id, "trans_hash": "0", "unit_flag": false }] as insts,
                    true as has_neg
                FROM ["#;

/// Exported instances with a cut result: what follows the keys.
pub const EXPORT_BOOL_TAIL: &'static str = r#"]
                WHERE status = 'Success' AND type::record("pe_transform", record::id(refno)).world_trans.d != NONE
                "#;

/// Exported instances without a cut result: head before their keys.
pub const EXPORT_GEO_HEAD: &'static str = r#"
                    SELECT
                        in as refno,
                        in.owner ?? in as owner,
                        record::id((in->inst_relate_aabb[0].out)) as world_aabb_hash,
                        record::id(type::record("pe_transform", record::id(in)).world_trans) as world_trans_hash,
                        (SELECT record::id(trans) as trans_hash, record::id(out) as geo_hash, out.unit_flag ?? false as unit_flag
                         FROM out->geo_relate
                         WHERE visible && (out.meshed || out.unit_flag || record::id(out) IN ['1','2','3'])
                           && (trans.d ?? NONE) != NONE
                           && geo_type IN ['Pos', 'DesiPos', 'CatePos']) as insts,
                        false as has_neg
                    FROM ["#;

/// Exported instances without a cut result: what follows the keys.
pub const EXPORT_GEO_TAIL: &'static str = r#"]
                    WHERE type::record("pe_transform", record::id(in)).world_trans.d != NONE
                    "#;

/// Exported instances, cuts ignored: head before their keys.
pub const EXPORT_PLAIN_HEAD: &'static str = r#"
                SELECT
                    in as refno,
                    in.owner ?? in as owner,
                    record::id((in->inst_relate_aabb[0].out)) as world_aabb_hash,
                    record::id(type::record("pe_transform", record::id(in)).world_trans) as world_trans_hash,
                    (SELECT record::id(trans) as trans_hash, record::id(out) as geo_hash, out.unit_flag ?? false as unit_flag
                     FROM out->geo_relate
                     WHERE visible && (out.meshed || out.unit_flag || record::id(out) IN ['1','2','3'])
                       && (trans.d ?? NONE) != NONE
                       && geo_type IN ['Pos', 'DesiPos', 'CatePos']) as insts,
                    false as has_neg
                FROM ["#;

/// Exported instances, cuts ignored: what follows the keys.
pub const EXPORT_PLAIN_TAIL: &'static str = r#"]
                WHERE type::record("pe_transform", record::id(in)).world_trans.d != NONE
                "#;

/// Instances with a cut result: head before the result keys.
pub const BATCH_BOOL_HEAD: &'static str = r#"
                SELECT
                    refno,
                    refno.owner ?? refno as owner,
                    type::record("pe_transform", record::id(refno)).world_trans.d as world_trans,
                    (refno->inst_relate_aabb[0].out).d as world_aabb,
                    [{ "transform": type::record("pe_transform", record::id(refno)).world_trans.d, "geo_hash": mesh_id, "is_tubi": false, "unit_flag": false }] as insts,
                    true as has_neg
                FROM ["#;

/// Instances with a cut result: what follows the keys.
pub const BATCH_BOOL_TAIL: &'static str = r#"]
                WHERE status = 'Success' AND type::record("pe_transform", record::id(refno)).world_trans.d != NONE
                "#;

/// Instances without a cut result: head before their keys.
pub const BATCH_GEO_HEAD: &'static str = r#"
                    SELECT
                        in as refno,
                        in.owner ?? in as owner,
                        type::record("pe_transform", record::id(in)).world_trans.d as world_trans,
                        (in->inst_relate_aabb[0].out).d as world_aabb,
                        (SELECT trans.d as transform, record::id(out) as geo_hash, false as is_tubi, out.unit_flag ?? false as unit_flag
                         FROM out->geo_relate
                         WHERE visible && (out.meshed || out.unit_flag || record::id(out) IN ['1','2','3'])
                           && (trans.d ?? NONE) != NONE
                           && geo_type IN ['Pos', 'CatePos']) as insts,
                        false as has_neg
                    FROM ["#;

/// Instances without a cut result: what follows the keys.
pub const BATCH_GEO_TAIL: &'static str = r#"]
                    WHERE type::record("pe_transform", record::id(in)).world_trans.d != NONE
                    "#;

/// Instances, cuts ignored: head before their keys.
pub const BATCH_PLAIN_HEAD: &'static str = r#"
                SELECT
                    in as refno,
                    in.owner ?? in as owner,
                    type::record("pe_transform", record::id(in)).world_trans.d as world_trans,
                    (in->inst_relate_aabb[0].out).d as world_aabb,
                    (SELECT trans.d as transform, record::id(out) as geo_hash, false as is_tubi, out.unit_flag ?? false as unit_flag
                     FROM out->geo_relate
                     WHERE visible && (out.meshed || out.unit_flag || record::id(out) IN ['1','2','3'])
                       && (trans.d ?? NONE) != NONE
                       && geo_type IN ['Pos', 'DesiPos', 'CatePos']) as insts,
                    false as has_neg
                FROM ["#;

/// Instances, cuts ignored: what follows the keys.
pub const BATCH_PLAIN_TAIL: &'static str = r#"]
                WHERE type::record("pe_transform", record::id(in)).world_trans.d != NONE
                "#;

/// Deleting the geometry of an instance: head before its key.
pub const CASCADE_HEAD: &'static str = r#"
                    delete array::flatten(select value [out, id, in] from "#;

/// Deleting the geometry of an instance: what follows its key.
pub const CASCADE_TAIL: &'static str = r#"->inst_info->geo_relate);
                "#;

/// Elements handled per statement when no batch size is given.
pub const DEFAULT_INST_BATCH: usize = 50;

/// The batch size in use: the one given (at least one), else the default.
pub open spec fn inst_batch_size_of(batch_size: Option<usize>) -> usize {
    match batch_size {
        Some(n) => if n == 0 {
            1
        } else {
            n
        },
        None => DEFAULT_INST_BATCH,
    }
}

/// The batch size in use for `batch_size`.
pub fn inst_batch_size(batch_size: Option<usize>) -> (r: usize)
    ensures
        r == inst_batch_size_of(batch_size),
        r >= 1,
{
    match batch_size {
        Some(n) => if n == 0 {
            1
        } else {
            n
        },
        None => DEFAULT_INST_BATCH,
    }
}

/// The chunks of `len` items from `start` on, `size` at a time (the last
/// one may be shorter), as index ranges.
pub open spec fn chunks_from(start: nat, len: nat, size: nat) -> Seq<(nat, nat)>
    decreases len - start,
{
    if start >= len || size == 0 {
        Seq::empty()
    } else {
        let end = if start + size < len {
            start + size
        } else {
            len
        };
        seq![(start, end)] + chunks_from(end, len, size)
    }
}

/// The index ranges of the chunks of `len` items, `size` at a time.
pub fn chunk_ranges(len: usize, size: usize) -> (r: Vec<(usize, usize)>)
    requires
        size > 0,
    ensures
        r@.map_values(|p: (usize, usize)| (p.0 as nat, p.1 as nat)) == chunks_from(
            0,
            len as nat,
            size as nat,
        ),
{
    let mut r: Vec<(usize, usize)> = Vec::new();
    let mut start: usize = 0;
    while start < len
        invariant
            start <= len,
            size > 0,
            r@.map_values(|p: (usize, usize)| (p.0 as nat, p.1 as nat)) + chunks_from(
                start as nat,
                len as nat,
                size as nat,
            ) == chunks_from(0, len as nat, size as nat),
        decreases len - start,
    {
        let end = if size < len - start {
            start + size
        } else {
            len
        };
        let ghost prev = r@;
        r.push((start, end));
        assert(r@.map_values(|p: (usize, usize)| (p.0 as nat, p.1 as nat)) =~= prev.map_values(
            |p: (usize, usize)| (p.0 as nat, p.1 as nat),
        ).push((start as nat, end as nat)));
        assert(chunks_from(start as nat, len as nat, size as nat) == seq![
            (start as nat, end as nat),
        ] + chunks_from(end as nat, len as nat, size as nat));
        assert(prev.map_values(|p: (usize, usize)| (p.0 as nat, p.1 as nat)).push(
            (start as nat, end as nat),
        ) + chunks_from(end as nat, len as nat, size as nat) =~= prev.map_values(
            |p: (usize, usize)| (p.0 as nat, p.1 as nat),
        ) + (seq![(start as nat, end as nat)] + chunks_from(end as nat, len as nat, size as nat)));
        start = end;
    }
    assert(r@.map_values(|p: (usize, usize)| (p.0 as nat, p.1 as nat)) + chunks_from(
        start as nat,
        len as nat,
        size as nat,
    ) =~= r@.map_values(|p: (usize, usize)| (p.0 as nat, p.1 as nat)));
    r
}

/// The chunks cover the items from `start` to `len` exactly once and in
/// order: each chunk is non-empty and at most `size` long, each starts
/// where the one before it ends, the first starts at `start` and the last
/// ends at `len`.
pub proof fn lemma_chunks_cover(start: nat, len: nat, size: nat)
    requires
        size > 0,
    ensures
        ({
            let c = chunks_from(start, len, size);
            &&& forall|k: int|
                0 <= k < c.len() ==> (#[trigger] c[k]).0 < c[k].1 && c[k].1 <= c[k].0 + size
            &&& forall|k: int| 0 <= k < c.len() - 1 ==> (#[trigger] c[k]).1 == c[k + 1].0
            &&& start < len ==> c.len() > 0 && c[0].0 == start && c[c.len() - 1].1 == len
            &&& start >= len ==> c.len() == 0
        }),
    decreases len - start,
{
    if start < len {
        let end = if start + size < len {
            start + size
        } else {
            len
        };
        lemma_chunks_cover(end, len, size);
        let rest = chunks_from(end, len, size);
        let c = chunks_from(start, len, size);
        assert(c == seq![(start, end)] + rest);
        assert forall|k: int| 0 <= k < c.len() - 1 implies (#[trigger] c[k]).1 == c[k + 1].0 by {
            if k > 0 {
                assert(c[k] == rest[k - 1] && c[k + 1] == rest[k]);
            }
        }
        assert forall|k: int| 0 <= k < c.len() implies (#[trigger] c[k]).0 < c[k].1 && c[k].1
            <= c[k].0 + size by {
            if k > 0 {
                assert(c[k] == rest[k - 1]);
            }
        }
        if end < len {
            assert(c[c.len() - 1] == rest[rest.len() - 1]);
        }
    }
}

/// The key `inst_relate_bool:ref0_ref1` of an element's cut result.
pub open spec fn bool_key_text(r: RefnoEnum) -> Seq<char> {
    "inst_relate_bool:"@ + r.spec_refno().refno_text()
}

/// The cut result keys of `refnos`.
pub open spec fn bool_keys_of(refnos: Seq<RefnoEnum>) -> Seq<Seq<char>> {
    refnos.map_values(|r: RefnoEnum| bool_key_text(r))
}

/// The cut result keys of `refnos`, separated by commas.
pub fn join_bool_keys(refnos: &[RefnoEnum]) -> (s: String)
    ensures
        s@ == join_with(bool_keys_of(refnos@), ","@),
{
    let ghost keys = bool_keys_of(refnos@);
    let mut s = String::new();
    let mut i: usize = 0;
    while i < refnos.len()
        invariant
            i <= refnos.len(),
            keys == bool_keys_of(refnos@),
            s@ == join_with(keys.take(i as int), ","@),
        decreases refnos.len() - i,
    {
        assert(keys.take(i + 1).drop_last() =~= keys.take(i as int));
        if i > 0 {
            push_str(&mut s, ",");
        }
        push_str(&mut s, "inst_relate_bool:");
        let t = refnos[i].to_refno_str();
        push_str(&mut s, t.as_str());
        i = i + 1;
    }
    assert(keys.take(refnos.len() as int) =~= keys);
    s
}

/// The elements of `chunk` that have no cut result among `done`, in order.
pub open spec fn without_results_of(chunk: Seq<RefnoEnum>, done: Seq<RefnoEnum>) -> Seq<RefnoEnum>
    decreases chunk.len(),
{
    if chunk.len() == 0 {
        Seq::empty()
    } else {
        let rest = without_results_of(chunk.drop_last(), done);
        if done.contains(chunk.last()) {
            rest
        } else {
            rest.push(chunk.last())
        }
    }
}

/// The elements of `chunk` whose cut result was not among those read
/// (`done`), in order.
pub fn without_bool_results(chunk: &[RefnoEnum], done: &Vec<RefnoEnum>) -> (r: Vec<RefnoEnum>)
    ensures
        r@ == without_results_of(chunk@, done@),
{
    let mut r: Vec<RefnoEnum> = Vec::new();
    let mut i: usize = 0;
    while i < chunk.len()
        invariant
            i <= chunk.len(),
            r@ == without_results_of(chunk@.take(i as int), done@),
        decreases chunk.len() - i,
    {
        assert(chunk@.take(i + 1).drop_last() =~= chunk@.take(i as int));
        let x = chunk[i];
        let mut found = false;
        let mut k: usize = 0;
        while k < done.len()
            invariant
                k <= done.len(),
                found <==> exists|j: int| 0 <= j < k && done@[j] == x,
            decreases done.len() - k,
        {
            if done[k] == x {
                found = true;
            }
            k = k + 1;
        }
        assert(found <==> done@.contains(x));
        if !found {
            r.push(x);
        }
        i = i + 1;
    }
    assert(chunk@.take(chunk.len() as int) =~= chunk@);
    r
}

/// What an instance read is for: export (hashes only) or drawing
/// (transforms and boxes).
#[derive(Clone, Copy, Debug, PartialEq, Eq, Structural)]
pub enum InstRead {
    Export,
    Draw,
}

/// The statement that reads the cut results of a chunk.
pub open spec fn bool_insts_sql_of(read: InstRead, chunk: Seq<RefnoEnum>) -> Seq<char> {
    let (head, tail) = match read {
        InstRead::Export => (EXPORT_BOOL_HEAD@, EXPORT_BOOL_TAIL@),
        InstRead::Draw => (BATCH_BOOL_HEAD@, BATCH_BOOL_TAIL@),
    };
    head + join_with(bool_keys_of(chunk), ","@) + tail
}

/// The statement that reads the instances of a chunk without cut results.
pub open spec fn geo_insts_sql_of(read: InstRead, refnos: Seq<RefnoEnum>) -> Seq<char> {
    let (head, tail) = match read {
        InstRead::Export => (EXPORT_GEO_HEAD@, EXPORT_GEO_TAIL@),
        InstRead::Draw => (BATCH_GEO_HEAD@, BATCH_GEO_TAIL@),
    };
    head + join_with(inst_relate_keys_of(refnos), ","@) + tail
}

/// The statement that reads the instances of a chunk, cuts ignored.
pub open spec fn plain_insts_sql_of(read: InstRead, refnos: Seq<RefnoEnum>) -> Seq<char> {
    let (head, tail) = match read {
        InstRead::Export => (EXPORT_PLAIN_HEAD@, EXPORT_PLAIN_TAIL@),
        InstRead::Draw => (BATCH_PLAIN_HEAD@, BATCH_PLAIN_TAIL@),
    };
    head + join_with(inst_relate_keys_of(refnos), ","@) + tail
}

/// The statement that reads the successful cut results of the elements of
/// a chunk.
pub fn bool_insts_sql(read: InstRead, chunk: &[RefnoEnum]) -> (s: String)
    ensures
        s@ == bool_insts_sql_of(read, chunk@),
{
    let mut s = match read {
        InstRead::Export => owned(EXPORT_BOOL_HEAD),
        InstRead::Draw => owned(BATCH_BOOL_HEAD),
    };
    let keys = join_bool_keys(chunk);
    push_str(&mut s, keys.as_str());
    match read {
        InstRead::Export => push_str(&mut s, EXPORT_BOOL_TAIL),
        InstRead::Draw => push_str(&mut s, BATCH_BOOL_TAIL),
    }
    s
}

/// The statement that reads the positive geometry instances of the
/// elements that had no cut result; none when there are no such elements.
pub fn geo_insts_sql(read: InstRead, refnos: &[RefnoEnum]) -> (s: Option<String>)
    ensures
        s is None <==> refnos@.len() == 0,
        s matches Some(t) ==> t@ == geo_insts_sql_of(read, refnos@),
{
    if refnos.len() == 0 {
        return None;
    }
    let mut s = match read {
        InstRead::Export => owned(EXPORT_GEO_HEAD),
        InstRead::Draw => owned(BATCH_GEO_HEAD),
    };
    let keys = join_inst_relate_keys(refnos);
    push_str(&mut s, keys.as_str());
    match read {
        InstRead::Export => push_str(&mut s, EXPORT_GEO_TAIL),
        InstRead::Draw => push_str(&mut s, BATCH_GEO_TAIL),
    }
    Some(s)
}

/// The statement that reads the positive geometry instances of the
/// elements of a chunk, cut results ignored.
pub fn plain_insts_sql(read: InstRead, chunk: &[RefnoEnum]) -> (s: String)
    ensures
        s@ == plain_insts_sql_of(read, chunk@),
{
    let mut s = match read {
        InstRead::Export => owned(EXPORT_PLAIN_HEAD),
        InstRead::Draw => owned(BATCH_PLAIN_HEAD),
    };
    let keys = join_inst_relate_keys(chunk);
    push_str(&mut s, keys.as_str());
    match read {
        InstRead::Export => push_str(&mut s, EXPORT_PLAIN_TAIL),
        InstRead::Draw => push_str(&mut s, BATCH_PLAIN_TAIL),
    }
    s
}

/// The statement that reads the pipe runs of a branch by key range.
pub fn query_tubi_insts_by_bran_sql(bran: &RefnoEnum) -> (s: String)
    ensures
        s@ == TUBI_BY_BRAN_HEAD@ + pe_key_text(bran.spec_refno()) + TUBI_BY_BRAN_MIDDLE@
            + pe_key_text(bran.spec_refno()) + TUBI_BY_BRAN_TAIL@,
{
    let k = bran.to_pe_key();
    let mut s = owned(TUBI_BY_BRAN_HEAD);
    push_str(&mut s, k.as_str());
    push_str(&mut s, TUBI_BY_BRAN_MIDDLE);
    push_str(&mut s, k.as_str());
    push_str(&mut s, TUBI_BY_BRAN_TAIL);
    s
}

/// The statement that reads the pipe runs that arrive at or leave an
/// element.
pub fn query_tubi_insts_by_flow_sql(r: &RefnoEnum) -> (s: String)
    ensures
        s@ == TUBI_BY_FLOW_HEAD@ + pe_key_text(r.spec_refno()) + TUBI_BY_FLOW_MIDDLE@ + pe_key_text(
            r.spec_refno(),
        ) + TUBI_BY_FLOW_TAIL@,
{
    let k = r.to_pe_key();
    let mut s = owned(TUBI_BY_FLOW_HEAD);
    push_str(&mut s, k.as_str());
    push_str(&mut s, TUBI_BY_FLOW_MIDDLE);
    push_str(&mut s, k.as_str());
    push_str(&mut s, TUBI_BY_FLOW_TAIL);
    s
}

/// The statements that delete the geometry of each element's instance,
/// one after the other.
pub open spec fn cascade_deletes(chunk: Seq<RefnoEnum>) -> Seq<char>
    decreases chunk.len(),
{
    if chunk.len() == 0 {
        Seq::empty()
    } else {
        cascade_deletes(chunk.drop_last()) + CASCADE_HEAD@ + inst_relate_key_text(
            chunk.last().spec_refno(),
        ) + CASCADE_TAIL@
    }
}

/// The transaction that deletes the instances of a chunk with their
/// geometry.
pub open spec fn cascade_sql_of(chunk: Seq<RefnoEnum>) -> Seq<char> {
    "BEGIN TRANSACTION;\n"@ + cascade_deletes(chunk) + "delete "@ + join_with(
        inst_relate_keys_of(chunk),
        ","@,
    ) + ";"@ + "\nCOMMIT TRANSACTION;"@
}

/// The transaction that deletes the instances of the elements of a chunk,
/// with their geometry; none for an empty chunk.
pub fn delete_inst_relate_cascade_sql(chunk: &[RefnoEnum]) -> (s: Option<String>)
    ensures
        s is None <==> chunk@.len() == 0,
        s matches Some(t) ==> t@ == cascade_sql_of(chunk@),
{
    if chunk.len() == 0 {
        return None;
    }
    let mut deletes = String::new();
    let mut i: usize = 0;
    while i < chunk.len()
        invariant
            i <= chunk.len(),
            deletes@ == cascade_deletes(chunk@.take(i as int)),
        decreases chunk.len() - i,
    {
        assert(chunk@.take(i + 1).drop_last() =~= chunk@.take(i as int));
        push_str(&mut deletes, CASCADE_HEAD);
        let k = chunk[i].to_inst_relate_key();
        push_str(&mut deletes, k.as_str());
        push_str(&mut deletes, CASCADE_TAIL);
        i = i + 1;
    }
    assert(chunk@.take(chunk.len() as int) =~= chunk@);
    let mut s = owned("BEGIN TRANSACTION;\n");
    push_str(&mut s, deletes.as_str());
    push_str(&mut s, "delete ");
    let keys = join_inst_relate_keys(chunk);
    push_str(&mut s, keys.as_str());
    push_str(&mut s, ";");
    push_str(&mut s, "\nCOMMIT TRANSACTION;");
    Some(s)
}

/// The tables whose rows make up the model data.
pub open spec fn model_tables() -> Seq<Seq<char>> {
    seq![
        "inst_relate"@,
        "inst_geo"@,
        "inst_info"@,
        "tubi_relate"@,
        "geo_relate"@,
        "neg_relate"@,
        "ngmr_relate"@,
    ]
}

/// One `delete` line per table.
pub open spec fn delete_lines(tables: Seq<Seq<char>>) -> Seq<char>
    decreases tables.len(),
{
    if tables.len() == 0 {
        Seq::empty()
    } else {
        delete_lines(tables.drop_last()) + "delete "@ + tables.last() + ";\n"@
    }
}

/// The transaction that deletes all model data.
pub fn delete_all_model_data_sql() -> (s: String)
    ensures
        s@ == "BEGIN TRANSACTION;\n"@ + delete_lines(model_tables()) + "COMMIT TRANSACTION;"@,
{
    let tables: [&str; 7] = [
        "inst_relate",
        "inst_geo",
        "inst_info",
        "tubi_relate",
        "geo_relate",
        "neg_relate",
        "ngmr_relate",
    ];
    let ghost names = seq![
        "inst_relate"@,
        "inst_geo"@,
        "inst_info"@,
        "tubi_relate"@,
        "geo_relate"@,
        "neg_relate"@,
        "ngmr_relate"@,
    ];
    let mut lines = String::new();
    let mut i: usize = 0;
    while i < 7
        invariant
            i <= 7,
            names == model_tables(),
            forall|k: int| 0 <= k < 7 ==> (#[trigger] tables@[k])@ == names[k],
            lines@ == delete_lines(names.take(i as int)),
        decreases 7 - i,
    {
        assert(names.take(i + 1).drop_last() =~= names.take(i as int));
        push_str(&mut lines, "delete ");
        push_str(&mut lines, tables[i]);
        push_str(&mut lines, ";\n");
        i = i + 1;
    }
    assert(names.take(7) =~= names);
    let mut s = owned("BEGIN TRANSACTION;\n");
    push_str(&mut s, lines.as_str());
    push_str(&mut s, "COMMIT TRANSACTION;");
    s
}

/// The elements of a chunk left for the plain read are exactly those
/// without a cut result: with the cut results read first, every element of
/// the chunk is read one way or the other, never both.
pub proof fn lemma_plain_reads_cover(chunk: Seq<RefnoEnum>, done: Seq<RefnoEnum>, x: RefnoEnum)
    ensures
        without_results_of(chunk, done).contains(x) <==> (chunk.contains(x) && !done.contains(x)),
    decreases chunk.len(),
{
    if chunk.len() > 0 {
        let init = chunk.drop_last();
        lemma_plain_reads_cover(init, done, x);
        let rest = without_results_of(init, done);
        if chunk.contains(x) && !done.contains(x) {
            if x != chunk.last() {
                let k = choose|k: int| 0 <= k < chunk.len() && chunk[k] == x;
                assert(k < chunk.len() - 1);
                assert(init[k] == x);
            }
        }
        if init.contains(x) {
            let k = choose|k: int| 0 <= k < init.len() && init[k] == x;
            assert(chunk[k] == x);
        }
        if !done.contains(chunk.last()) {
            assert(rest.push(chunk.last()).contains(x) <==> (rest.contains(x) || x == chunk.last())) by {
                if rest.push(chunk.last()).contains(x) && x != chunk.last() {
                    let k = choose|k: int| 0 <= k < rest.push(chunk.last()).len() && rest.push(chunk.last())[k] == x;
                    assert(rest[k] == x);
                }
                if rest.contains(x) {
                    let k = choose|k: int| 0 <= k < rest.len() && rest[k] == x;
                    assert(rest.push(chunk.last())[k] == x);
                }
                if x == chunk.last() {
                    assert(rest.push(chunk.last())[rest.len() as int] == x);
                }
            }
            assert(chunk[chunk.len() - 1] == chunk.last());
        }
    }
}

} // verus!
