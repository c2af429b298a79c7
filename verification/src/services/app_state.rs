//! The services of the running application, around its storage.
use vstd::prelude::*;

use super::catalog_service::CatalogService;
use super::live_service::LiveService;
use super::recommendation_service::RecommendationService;

verus! {

/// The services of the running application: the storage it opened, the
/// catalog read from the same database, the engines, and the database path.
#[derive(Debug, Clone)]
pub struct AppState<Storage> {
    storage: Storage,
    catalog: CatalogService,
    recommendation: RecommendationService,
    live: LiveService,
    database_path: String,
}

impl<Storage> AppState<Storage> {
    pub closed spec fn storage_of(&self) -> Storage {
        self.storage
    }

    pub closed spec fn path_of(&self) -> Seq<char> {
        self.database_path@
    }

    pub closed spec fn catalog_of(&self) -> CatalogService {
        self.catalog
    }

    /// The state over a storage opened on the database at `database_path`;
    /// the catalog reads the same database.
    pub fn new(storage: Storage, database_path: String) -> (r: Self)
        ensures
            r.storage_of() == storage,
            r.path_of() == database_path@,
            r.catalog_of().source() == database_path@,
    {
        AppState {
            storage,
            catalog: CatalogService::new(database_path.clone()),
            recommendation: RecommendationService,
            live: LiveService,
            database_path,
        }
    }

    pub fn database_path(&self) -> (r: &str)
        ensures
            r@ == self.path_of(),
    {
        self.database_path.as_str()
    }

    pub fn storage(&self) -> (r: &Storage)
        ensures
            *r == self.storage_of(),
    {
        &self.storage
    }

    pub fn catalog(&self) -> (r: &CatalogService)
        ensures
            *r == self.catalog_of(),
    {
        &self.catalog
    }

    pub fn recommendation(&self) -> (r: &RecommendationService) {
        &self.recommendation
    }

    pub fn live(&self) -> (r: &LiveService) {
        &self.live
    }
}

} // verus!
