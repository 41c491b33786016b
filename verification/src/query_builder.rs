//! Builders for SurrealQL query text.
//!
//! `QueryBuilder` assembles a statement clause by clause; the element,
//! batch and function builders produce the statements that the query
//! services run for one element, for many elements, or through a stored
//! database function.
use vstd::prelude::*;
use crate::refno::{join_pe_keys, pe_key_text, pe_keys_of, RefnoEnum};
use crate::text::{decimal, join_with, push_decimal, push_str};

verus! {

/// A SurrealQL statement under construction.
pub struct QueryBuilder {
    sql: String,
}

impl View for QueryBuilder {
    type V = Seq<char>;

    closed spec fn view(&self) -> Seq<char> {
        self.sql@
    }
}

impl QueryBuilder {
    /// An empty statement.
    pub fn new() -> (r: Self)
        ensures
            r@ == Seq::<char>::empty(),
    {
        QueryBuilder { sql: String::new() }
    }

    /// A statement with the given text.
    pub fn from_sql(sql: String) -> (r: Self)
        ensures
            r@ == sql@,
    {
        QueryBuilder { sql }
    }

    /// Starts over with `SELECT fields`; what was built before is dropped.
    pub fn select(self, fields: &str) -> (r: Self)
        ensures
            r@ == "SELECT "@ + fields@,
    {
        let mut sql = String::new();
        push_str(&mut sql, "SELECT ");
        push_str(&mut sql, fields);
        QueryBuilder { sql }
    }

    /// Appends ` FROM table`.
    pub fn from(self, table: &str) -> (r: Self)
        ensures
            r@ == self@ + " FROM "@ + table@,
    {
        let mut sql = self.sql;
        push_str(&mut sql, " FROM ");
        push_str(&mut sql, table);
        QueryBuilder { sql }
    }

    /// Appends ` WHERE condition`.
    pub fn where_clause(self, condition: &str) -> (r: Self)
        ensures
            r@ == self@ + " WHERE "@ + condition@,
    {
        let mut sql = self.sql;
        push_str(&mut sql, " WHERE ");
        push_str(&mut sql, condition);
        QueryBuilder { sql }
    }

    /// Appends ` LIMIT count`.
    pub fn limit(self, count: usize) -> (r: Self)
        ensures
            r@ == self@ + " LIMIT "@ + decimal(count as nat),
    {
        let mut sql = self.sql;
        push_str(&mut sql, " LIMIT ");
        push_decimal(&mut sql, count as u64);
        QueryBuilder { sql }
    }

    /// Appends ` ORDER BY field DESC` or ` ORDER BY field ASC`.
    pub fn order_by(self, field: &str, desc: bool) -> (r: Self)
        ensures
            r@ == self@ + " ORDER BY "@ + field@ + " "@ + (if desc {
                "DESC"@
            } else {
                "ASC"@
            }),
    {
        let direction = if desc {
            "DESC"
        } else {
            "ASC"
        };
        let mut sql = self.sql;
        push_str(&mut sql, " ORDER BY ");
        push_str(&mut sql, field);
        push_str(&mut sql, " ");
        push_str(&mut sql, direction);
        QueryBuilder { sql }
    }

    /// The statement built so far.
    pub fn build(&self) -> (r: &str)
        ensures
            r@ == self@,
    {
        self.sql.as_str()
    }
}

/// `prefix key suffix` for the `pe` key of `refno`.
fn wrap_pe_key(prefix: &str, refno: &RefnoEnum, suffix: &str) -> (r: QueryBuilder)
    ensures
        r@ == prefix@ + pe_key_text(refno.spec_refno()) + suffix@,
{
    let mut sql = String::new();
    push_str(&mut sql, prefix);
    let key = refno.to_pe_key();
    push_str(&mut sql, key.as_str());
    push_str(&mut sql, suffix);
    QueryBuilder::from_sql(sql)
}

/// Builds the statements that read one plant element.
pub struct PeQueryBuilder {
    pub refno: RefnoEnum,
}

impl PeQueryBuilder {
    /// A builder for the element `refno`.
    pub fn new(refno: RefnoEnum) -> (r: Self)
        ensures
            r.refno == refno,
    {
        PeQueryBuilder { refno }
    }

    /// The element record without its id.
    pub fn basic_query(&self) -> (r: QueryBuilder)
        ensures
            r@ == "SELECT * OMIT id FROM ONLY "@ + pe_key_text(self.refno.spec_refno())
                + " LIMIT 1"@,
    {
        wrap_pe_key("SELECT * OMIT id FROM ONLY ", &self.refno, " LIMIT 1")
    }

    /// The element's attribute record.
    pub fn attributes_query(&self) -> (r: QueryBuilder)
        ensures
            r@ == "(SELECT * FROM "@ + pe_key_text(self.refno.spec_refno()) + ".refno)[0]"@,
    {
        wrap_pe_key("(SELECT * FROM ", &self.refno, ".refno)[0]")
    }

    /// The live children that point at the element through `pe_owner`.
    pub fn children_query(&self) -> (r: QueryBuilder)
        ensures
            r@ == "SELECT value in FROM "@ + pe_key_text(self.refno.spec_refno())
                + "<-pe_owner WHERE in.id!=none AND record::exists(in.id) AND !in.deleted"@,
    {
        wrap_pe_key(
            "SELECT value in FROM ",
            &self.refno,
            "<-pe_owner WHERE in.id!=none AND record::exists(in.id) AND !in.deleted",
        )
    }

    /// The element's ancestors through the stored `fn::ancestor`.
    pub fn ancestors_query(&self) -> (r: QueryBuilder)
        ensures
            r@ == "RETURN fn::ancestor("@ + pe_key_text(self.refno.spec_refno()) + ").refno"@,
    {
        wrap_pe_key("RETURN fn::ancestor(", &self.refno, ").refno")
    }

    /// The element's type noun.
    pub fn type_query(&self) -> (r: QueryBuilder)
        ensures
            r@ == "SELECT value noun FROM ONLY "@ + pe_key_text(self.refno.spec_refno())
                + " LIMIT 1"@,
    {
        wrap_pe_key("SELECT value noun FROM ONLY ", &self.refno, " LIMIT 1")
    }
}

/// The `pe` keys of `refnos` separated by commas.
pub open spec fn key_list(refnos: Seq<RefnoEnum>) -> Seq<char> {
    join_with(pe_keys_of(refnos), ","@)
}

/// `prefix keys suffix` for a comma list of `pe` keys.
fn wrap_key_list(prefix: &str, refnos: &Vec<RefnoEnum>, suffix: &str) -> (r: QueryBuilder)
    ensures
        r@ == prefix@ + key_list(refnos@) + suffix@,
{
    let mut sql = String::new();
    push_str(&mut sql, prefix);
    let keys = join_pe_keys(refnos.as_slice());
    push_str(&mut sql, keys.as_str());
    push_str(&mut sql, suffix);
    QueryBuilder::from_sql(sql)
}

/// Builds the statements that read many plant elements at once.
pub struct BatchQueryBuilder {
    pub refnos: Vec<RefnoEnum>,
}

impl BatchQueryBuilder {
    /// A builder for the elements `refnos`.
    pub fn new(refnos: Vec<RefnoEnum>) -> (r: Self)
        ensures
            r.refnos@ == refnos@,
    {
        BatchQueryBuilder { refnos }
    }

    /// The type nouns of the elements.
    pub fn types_query(&self) -> (r: QueryBuilder)
        ensures
            r@ == "SELECT value noun FROM ["@ + key_list(self.refnos@) + "]"@,
    {
        wrap_key_list("SELECT value noun FROM [", &self.refnos, "]")
    }

    /// The full names of the elements.
    pub fn full_names_query(&self) -> (r: QueryBuilder)
        ensures
            r@ == "SELECT value fn::default_full_name(id) FROM ["@ + key_list(self.refnos@)
                + "]"@,
    {
        wrap_key_list("SELECT value fn::default_full_name(id) FROM [", &self.refnos, "]")
    }

    /// The live children of all the elements, flattened into one list.
    pub fn all_children_query(&self) -> (r: QueryBuilder)
        ensures
            r@ == "array::flatten(SELECT value in FROM ["@ + key_list(self.refnos@)
                + "]<-pe_owner WHERE record::exists(in.id) AND !in.deleted)"@,
    {
        wrap_key_list(
            "array::flatten(SELECT value in FROM [",
            &self.refnos,
            "]<-pe_owner WHERE record::exists(in.id) AND !in.deleted)",
        )
    }
}

/// Builds calls of the stored database functions.
pub struct FunctionQueryBuilder;

impl FunctionQueryBuilder {
    /// `RETURN fn::default_name(key)`.
    pub fn default_name(refno: RefnoEnum) -> (r: QueryBuilder)
        ensures
            r@ == "RETURN fn::default_name("@ + pe_key_text(refno.spec_refno()) + ")"@,
    {
        wrap_pe_key("RETURN fn::default_name(", &refno, ")")
    }

    /// `RETURN fn::default_full_name(key)`.
    pub fn default_full_name(refno: RefnoEnum) -> (r: QueryBuilder)
        ensures
            r@ == "RETURN fn::default_full_name("@ + pe_key_text(refno.spec_refno()) + ")"@,
    {
        wrap_pe_key("RETURN fn::default_full_name(", &refno, ")")
    }

    /// `RETURN fn::find_ancestor_type(key, 'type')`.
    pub fn find_ancestor_type(refno: RefnoEnum, ancestor_type: &str) -> (r: QueryBuilder)
        ensures
            r@ == "RETURN fn::find_ancestor_type("@ + pe_key_text(refno.spec_refno()) + ", '"@
                + ancestor_type@ + "')"@,
    {
        let mut sql = String::new();
        push_str(&mut sql, "RETURN fn::find_ancestor_type(");
        let key = refno.to_pe_key();
        push_str(&mut sql, key.as_str());
        push_str(&mut sql, ", '");
        push_str(&mut sql, ancestor_type);
        push_str(&mut sql, "')");
        QueryBuilder::from_sql(sql)
    }

    /// `RETURN fn::ses_date(key)`.
    pub fn session_date(refno: RefnoEnum) -> (r: QueryBuilder)
        ensures
            r@ == "RETURN fn::ses_date("@ + pe_key_text(refno.spec_refno()) + ")"@,
    {
        wrap_pe_key("RETURN fn::ses_date(", &refno, ")")
    }

    /// `RETURN fn::get_world(dbnum)`.
    pub fn get_world(dbnum: u32) -> (r: QueryBuilder)
        ensures
            r@ == "RETURN fn::get_world("@ + decimal(dbnum as nat) + ")"@,
    {
        let mut sql = String::new();
        push_str(&mut sql, "RETURN fn::get_world(");
        push_decimal(&mut sql, dbnum as u64);
        push_str(&mut sql, ")");
        QueryBuilder::from_sql(sql)
    }

    /// `RETURN fn::query_sites_of_db(key)`.
    pub fn query_sites_of_db(world_refno: RefnoEnum) -> (r: QueryBuilder)
        ensures
            r@ == "RETURN fn::query_sites_of_db("@ + pe_key_text(world_refno.spec_refno())
                + ")"@,
    {
        wrap_pe_key("RETURN fn::query_sites_of_db(", &world_refno, ")")
    }

    /// `RETURN fn::get_sites_of_dbnum(dbnum)`.
    pub fn get_sites_of_dbnum(dbnum: u32) -> (r: QueryBuilder)
        ensures
            r@ == "RETURN fn::get_sites_of_dbnum("@ + decimal(dbnum as nat) + ")"@,
    {
        let mut sql = String::new();
        push_str(&mut sql, "RETURN fn::get_sites_of_dbnum(");
        push_decimal(&mut sql, dbnum as u64);
        push_str(&mut sql, ")");
        QueryBuilder::from_sql(sql)
    }
}

} // verus!
