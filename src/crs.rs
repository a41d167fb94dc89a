use vstd::prelude::*;

verus! {

/// The PROJ string that the EPSG reference table holds for `code`, if any.
pub uninterp spec fn proj4_for_code(code: u16) -> Option<Seq<char>>;

/// Relies on `crs_definitions::from_code`: the table's definition of an EPSG
/// code, of which the PROJ string is taken.
#[verifier::external_body]
fn lookup_proj4(code: u16) -> (r: Option<String>)
    ensures
        match r {
            Some(s) => proj4_for_code(code) == Some(s@),
            None => proj4_for_code(code) is None,
        },
{
    match crs_definitions::from_code(code) {
        Some(def) => Some(def.proj4.to_string()),
        None => None,
    }
}

/// A coordinate reference system: its EPSG code and the PROJ string that
/// parameterises a projection pipeline.
#[derive(Debug, Clone, PartialEq, Eq)]
pub struct CrsDef {
    pub code: u16,
    pub proj4: String,
}

impl CrsDef {
    /// The definition of `code` from the static reference table, or `None`
    /// where the table has no such code.
    pub fn from_code(code: u16) -> (r: Option<CrsDef>)
        ensures
            match proj4_for_code(code) {
                Some(p) => r matches Some(d) && d.code == code && d.proj4@ == p,
                None => r is None,
            },
    {
        match lookup_proj4(code) {
            Some(proj4) => Some(CrsDef { code, proj4 }),
            None => None,
        }
    }
}

} // verus!
