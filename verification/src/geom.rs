//! Keys and records of the geometry instances attached to plant elements.
use vstd::prelude::*;
use crate::refno::{inst_relate_keys_of, join_inst_relate_keys, RefnoEnum};
use crate::text::{join_with, owned};

verus! {

/// The instance-link source for a query: the comma list of the elements'
/// `inst_relate` keys, or the whole `inst_relate` table when no element is
/// given.
pub open spec fn inst_relate_source(refnos: Seq<RefnoEnum>) -> Seq<char> {
    if refnos.len() > 0 {
        join_with(inst_relate_keys_of(refnos), ","@)
    } else {
        "inst_relate"@
    }
}

/// The `inst_relate` keys of the elements, separated by commas; the table
/// name `inst_relate` when the list is empty.
pub fn get_inst_relate_keys(refnos: &[RefnoEnum]) -> (r: String)
    ensures
        r@ == inst_relate_source(refnos@),
{
    if refnos.len() > 0 {
        join_inst_relate_keys(refnos)
    } else {
        owned("inst_relate")
    }
}

/// An element with positive geometry and the elements whose negative
/// geometry is cut from it.
pub struct RefnoHasNegPosInfo {
    /// The positive element.
    pub pos: RefnoEnum,
    /// The negative elements.
    pub negs: Vec<RefnoEnum>,
}

/// An exported geometry instance by reference: the geometry hash, the
/// transform hash if any, and whether the mesh is a unit mesh scaled by its
/// transform.
pub struct ExportInstHash {
    pub geo_hash: String,
    pub trans_hash: Option<String>,
    pub unit_flag: bool,
}

} // verus!
