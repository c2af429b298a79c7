//! The champion catalog, read from the application database.
use vstd::prelude::*;

verus! {

/// Where the champion catalog is read from.
#[derive(Debug, Clone)]
pub struct CatalogService {
    source_database: String,
}

impl CatalogService {
    pub closed spec fn source(&self) -> Seq<char> {
        self.source_database@
    }

    pub fn new(source_database: String) -> (r: Self)
        ensures
            r.source() == source_database@,
    {
        CatalogService { source_database }
    }

    /// The database the catalog is read from.
    pub fn source_database(&self) -> (r: &str)
        ensures
            r@ == self.source(),
    {
        self.source_database.as_str()
    }
}

} // verus!
