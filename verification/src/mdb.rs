//! Kinds of PDMS databases inside a multiple-database (MDB) set.
use vstd::prelude::*;
use crate::pe_query::{decimal_list, join_decimals, stored_name};
use crate::refno::{pe_key_text, RefnoEnum};
use crate::text::{decimal, owned, push_decimal, push_str, str_starts_with};

verus! {

/// The kind of a database, stored as a byte.
#[derive(Clone, Copy, Debug, PartialEq, Eq, Structural, Hash)]
pub enum DBType {
    DESI,
    CATA,
    PROP,
    ISOD,
    PADD,
    DICT,
    ENGI,
    SCHE,
    UNSET,
}

/// The byte of each database kind.
pub open spec fn db_type_code(t: DBType) -> u8 {
    match t {
        DBType::DESI => 1,
        DBType::CATA => 2,
        DBType::PROP => 3,
        DBType::ISOD => 4,
        DBType::PADD => 5,
        DBType::DICT => 6,
        DBType::ENGI => 7,
        DBType::SCHE => 14,
        DBType::UNSET => 15,
    }
}

impl DBType {
    /// The byte of the kind.
    pub fn to_u8(self) -> (r: u8)
        ensures
            r == db_type_code(self),
    {
        match self {
            DBType::DESI => 1,
            DBType::CATA => 2,
            DBType::PROP => 3,
            DBType::ISOD => 4,
            DBType::PADD => 5,
            DBType::DICT => 6,
            DBType::ENGI => 7,
            DBType::SCHE => 14,
            DBType::UNSET => 15,
        }
    }

    /// The kind stored as `raw`; none for a byte that is no kind.
    pub fn try_from_u8(raw: u8) -> (r: Option<DBType>)
        ensures
            r matches Some(t) ==> db_type_code(t) == raw,
            r is None ==> forall|t: DBType| db_type_code(t) != raw,
    {
        match raw {
            1 => Some(DBType::DESI),
            2 => Some(DBType::CATA),
            3 => Some(DBType::PROP),
            4 => Some(DBType::ISOD),
            5 => Some(DBType::PADD),
            6 => Some(DBType::DICT),
            7 => Some(DBType::ENGI),
            14 => Some(DBType::SCHE),
            15 => Some(DBType::UNSET),
            _ => None,
        }
    }
}

/// Distinct kinds have distinct bytes, so a stored kind reads back as itself.
pub proof fn lemma_db_type_code_injective(a: DBType, b: DBType)
    ensures
        db_type_code(a) == db_type_code(b) ==> a == b,
{
}

/// The statements that read the sites of the design databases of an MDB (bound to `$mdb` and `$db_type`), in database order, as tree nodes.
pub const MDB_SITE_NODES_SQL: &'static str = r#"
        let $dbnos = (select dbnos, array::len(dbnos) as n
    from (select (select value DBNO from CURD.refno where STYP = $db_type) as dbnos
          from MDB where NAME = $mdb)
    order by n desc limit 1)[0].dbnos ?? [];
        select refno, noun, name, owner, array::len(select value in from <-pe_owner) as children_count
        from (select id, array::find_index($dbnos, dbnum) as o from pe where noun='SITE' and dbnum in $dbnos order by o).id;
        "#;

/// The statements that read the sites under the worlds of the databases of an MDB (bound to `$mdb` and `$db_type`).
pub const MDB_WORLD_SITES_SQL: &'static str = r#"
            let $dbnos = (select dbnos, array::len(dbnos) as n
    from (select (select value DBNO from CURD.refno where STYP = $db_type) as dbnos
          from MDB where NAME = $mdb)
    order by n desc limit 1)[0].dbnos ?? [];
            let $a = (select value id from (select REFNO.id as id, array::find_index($dbnos, REFNO.dbnum) as o from WORL where REFNO.dbnum in $dbnos order by o));
            array::flatten(select value in.* from $a<-pe_owner[? in.noun='SITE'])
        "#;

/// The statements that read the distinct numbers of the databases of an MDB that hold sites (bound to `$mdb` and `$db_type`).
pub const MDB_DB_NUMS_SQL: &'static str = r#"
            let $dbnos = (select dbnos, array::len(dbnos) as n
    from (select (select value DBNO from CURD.refno where STYP = $db_type) as dbnos
          from MDB where NAME = $mdb)
    order by n desc limit 1)[0].dbnos ?? [];
            array::distinct(select value dbnum from (select dbnum, array::find_index($dbnos, dbnum) as o
                from pe where noun='SITE' and dbnum in $dbnos order by o));
        "#;

/// The statements that read the site elements under the worlds of the databases of an MDB (bound to `$mdb` and `$db_type`).
pub const MDB_WORLD_SITE_PES_SQL: &'static str = r#"
            let $dbnos = (select dbnos, array::len(dbnos) as n
    from (select (select value DBNO from CURD.refno where STYP = $db_type) as dbnos
          from MDB where NAME = $mdb)
    order by n desc limit 1)[0].dbnos ?? [];
            let $a = (select value id from (select REFNO.id as id, array::find_index($dbnos, REFNO.dbnum) as o from WORL where REFNO.dbnum in $dbnos order by o));
            array::flatten(select value in.* from $a<-pe_owner)[?noun = 'SITE']
        "#;

/// The statements that read the first world of the design databases of an MDB (bound to `$mdb` and `$db_type`).
pub const MDB_WORLD_SQL: &'static str = r#"
            let $dbnos = (select dbnos, array::len(dbnos) as n
    from (select (select value DBNO from CURD.refno where STYP = $db_type) as dbnos
          from MDB where NAME = $mdb)
    order by n desc limit 1)[0].dbnos ?? [];
            (select value REFNO.* from (select REFNO, array::find_index($dbnos, REFNO.dbnum) as o
                from WORL where REFNO.dbnum in $dbnos and REFNO.noun='WORL' order by o) limit 1)[0]
        "#;

/// The statements that read the reference number of the first world of the design databases of an MDB (bound to `$mdb` and `$db_type`).
pub const MDB_WORLD_REFNO_SQL: &'static str = r#"
            let $dbnos = (select dbnos, array::len(dbnos) as n
    from (select (select value DBNO from CURD.refno where STYP = $db_type) as dbnos
          from MDB where NAME = $mdb)
    order by n desc limit 1)[0].dbnos ?? [];
            (select value REFNO from (select REFNO, array::find_index($dbnos, REFNO.dbnum) as o
                from WORL where REFNO.dbnum in $dbnos and REFNO.noun='WORL' order by o) limit 1)[0]
        "#;

/// The name of an MDB as stored: with a leading `/`.
pub fn world_mdb_name(mdb: &str) -> (r: String)
    ensures
        r@ == stored_name(mdb@),
{
    if str_starts_with(mdb, "/") {
        owned(mdb)
    } else {
        let mut r = owned("/");
        push_str(&mut r, mdb);
        r
    }
}

/// The name shown for the `i`-th site (from zero): its own, or `SITE n`
/// (counting from one) when it has none.
pub open spec fn site_display_name(i: nat, name: Seq<char>) -> Seq<char> {
    if name.len() == 0 {
        "SITE "@ + decimal(i + 1)
    } else {
        name
    }
}

/// The names shown for sites in order: unnamed sites get `SITE n`.
pub fn site_node_names(names: &Vec<String>) -> (r: Vec<String>)
    requires
        names.len() < u64::MAX,
    ensures
        r@.len() == names@.len(),
        forall|i: int| 0 <= i < names@.len() ==> #[trigger] r@[i]@ == site_display_name(i as nat, names@[i]@),
{
    let mut r: Vec<String> = Vec::new();
    let mut i: usize = 0;
    while i < names.len()
        invariant
            i <= names.len(),
            names.len() < u64::MAX,
            r@.len() == i,
            forall|k: int| 0 <= k < i ==> #[trigger] r@[k]@ == site_display_name(k as nat, names@[k]@),
        decreases names.len() - i,
    {
        let n = names[i].as_str();
        let shown = if crate::text::chars_of(n).len() == 0 {
            let mut t = owned("SITE ");
            push_decimal(&mut t, (i as u64) + 1);
            t
        } else {
            owned(n)
        };
        r.push(shown);
        i = i + 1;
    }
    r
}

/// The relations from each site to the world, numbered in order.
pub open spec fn site_relates(sites: Seq<RefnoEnum>, world: RefnoEnum) -> Seq<char>
    decreases sites.len(),
{
    if sites.len() == 0 {
        Seq::empty()
    } else {
        let i = (sites.len() - 1) as nat;
        site_relates(sites.drop_last(), world) + "relate "@ + pe_key_text(sites.last().spec_refno())
            + "->site_relate:["@ + pe_key_text(world.spec_refno()) + ", "@ + decimal(i) + "]->"@
            + pe_key_text(world.spec_refno()) + ";"@
    }
}

/// The statements that relate each site to the world of its MDB, numbered
/// in order.
pub fn site_relate_sql(sites: &[RefnoEnum], world: &RefnoEnum) -> (s: String)
    ensures
        s@ == site_relates(sites@, *world),
{
    let w = world.to_pe_key();
    let mut s = String::new();
    let mut i: usize = 0;
    while i < sites.len()
        invariant
            i <= sites.len(),
            w@ == pe_key_text(world.spec_refno()),
            s@ == site_relates(sites@.take(i as int), *world),
        decreases sites.len() - i,
    {
        assert(sites@.take(i + 1).drop_last() =~= sites@.take(i as int));
        push_str(&mut s, "relate ");
        let k = sites[i].to_pe_key();
        push_str(&mut s, k.as_str());
        push_str(&mut s, "->site_relate:[");
        push_str(&mut s, w.as_str());
        push_str(&mut s, ", ");
        push_decimal(&mut s, i as u64);
        push_str(&mut s, "]->");
        push_str(&mut s, w.as_str());
        push_str(&mut s, ";");
        i = i + 1;
    }
    assert(sites@.take(sites.len() as int) =~= sites@);
    s
}

/// The statement that reads the elements of type `noun`, in the databases
/// `dbnums` when some are given.
pub fn query_type_refnos_by_dbnums_sql(noun: &str, dbnums: &[u32]) -> (s: String)
    ensures
        s@ == "select value id from "@ + noun@ + (if dbnums@.len() == 0 {
            Seq::empty()
        } else {
            " where REFNO.dbnum in ["@ + decimal_list(dbnums@) + "]"@
        }),
{
    let mut s = owned("select value id from ");
    push_str(&mut s, noun);
    if dbnums.len() > 0 {
        push_str(&mut s, " where REFNO.dbnum in [");
        let l = join_decimals(dbnums);
        push_str(&mut s, l.as_str());
        push_str(&mut s, "]");
    }
    s
}

/// The table of a type: its history table `{noun}_H` when only history
/// is read.
pub open spec fn type_table(noun: Seq<char>, only_history: bool) -> Seq<char> {
    if only_history {
        noun + "_H"@
    } else {
        noun
    }
}

/// The table of a type.
fn type_table_text(noun: &str, only_history: bool) -> (r: String)
    ensures
        r@ == type_table(noun@, only_history),
{
    let mut r = owned(noun);
    if only_history {
        push_str(&mut r, "_H");
    }
    r
}

/// The statement that reads the elements of type `noun` in database
/// `dbnum`: those with children, those without, or all.
pub fn query_type_refnos_by_dbnum_sql(noun: &str, dbnum: u32, has_children: Option<bool>, only_history: bool) -> (s: String)
    ensures
        s@ == "select value id from "@ + type_table(noun@, only_history) + " where REFNO.dbnum="@
            + decimal(dbnum as nat) + (match has_children {
            Some(true) => " and (REFNO<-pe_owner.in)[0] != none"@,
            Some(false) => " and (REFNO<-pe_owner.in)[0] == none"@,
            None => Seq::empty(),
        }),
{
    let mut s = owned("select value id from ");
    let t = type_table_text(noun, only_history);
    push_str(&mut s, t.as_str());
    push_str(&mut s, " where REFNO.dbnum=");
    push_decimal(&mut s, dbnum as u64);
    match has_children {
        Some(true) => push_str(&mut s, " and (REFNO<-pe_owner.in)[0] != none"),
        Some(false) => push_str(&mut s, " and (REFNO<-pe_owner.in)[0] == none"),
        None => {},
    }
    s
}

/// The statement that reads the elements of type `noun` in database
/// `dbnum` that use a catalogue component.
pub fn query_use_cate_refnos_by_dbnum_sql(noun: &str, dbnum: u32, only_history: bool) -> (s: String)
    ensures
        s@ == "select value id from "@ + type_table(noun@, only_history) + " where REFNO.dbnum="@
            + decimal(dbnum as nat) + " and (SPRE != none or CATR != none)"@,
{
    let mut s = owned("select value id from ");
    let t = type_table_text(noun, only_history);
    push_str(&mut s, t.as_str());
    push_str(&mut s, " where REFNO.dbnum=");
    push_decimal(&mut s, dbnum as u64);
    push_str(&mut s, " and (SPRE != none or CATR != none)");
    s
}

} // verus!
