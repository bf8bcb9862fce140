//! The asset retrieval path: a `(category, filename)` pair maps to
//! the asset's bytes or to a not-found answer. An unknown category is
//! not found, not an error; a nonzero compression level on a found
//! asset answers that the feature is not built.

use vstd::prelude::*;
use crate::params::GetImgParam;
use crate::pipeline::ServerConfig;
use crate::store::AssetStore;
use crate::store::clone_bytes;

verus! {

/// The answer of one retrieval request.
pub enum RetrievalOutcome {
    /// The category is unknown or nothing is committed under the name.
    NotFound,
    /// The asset exists but a nonzero compression level was asked for,
    /// a reserved, unbuilt feature.
    NotImplemented,
    /// The asset's bytes.
    Found(Vec<u8>),
}

impl RetrievalOutcome {
    /// The HTTP status that carries this answer.
    pub open spec fn spec_status(self) -> u16 {
        match self {
            RetrievalOutcome::NotFound => 404,
            RetrievalOutcome::NotImplemented => 501,
            RetrievalOutcome::Found(_) => 200,
        }
    }

    /// The HTTP status that carries this answer.
    pub fn status(&self) -> (r: u16)
        ensures
            r == self.spec_status(),
    {
        match self {
            RetrievalOutcome::NotFound => 404,
            RetrievalOutcome::NotImplemented => 501,
            RetrievalOutcome::Found(_) => 200,
        }
    }
}

/// Answers one retrieval request: the bytes committed under
/// `(category, filename)`, not-found when the category is absent from
/// the policy table or nothing is committed under the name, and
/// not-implemented when the asset exists but a nonzero compression
/// level was asked for.
pub fn get_img(
    config: &ServerConfig,
    store: &AssetStore,
    category: &String,
    file_name: &String,
    param: &GetImgParam,
) -> (r: RetrievalOutcome)
    ensures
        !config.categories@.contains_key(category@) ==> r is NotFound,
        config.categories@.contains_key(category@) && !store@.contains_key(
            (category@, file_name@),
        ) ==> r is NotFound,
        config.categories@.contains_key(category@) && store@.contains_key(
            (category@, file_name@),
        ) && param.compress != 0 ==> r is NotImplemented,
        config.categories@.contains_key(category@) && store@.contains_key(
            (category@, file_name@),
        ) && param.compress == 0 ==> (r matches RetrievalOutcome::Found(data) && data@
            == store@[(category@, file_name@)]),
{
    if !config.categories.contains(category) {
        return RetrievalOutcome::NotFound;
    }
    let data = match store.get(category, file_name) {
        None => {
            return RetrievalOutcome::NotFound;
        },
        Some(data) => data,
    };
    if param.compress() != 0 {
        return RetrievalOutcome::NotImplemented;
    }
    RetrievalOutcome::Found(clone_bytes(data))
}

} // verus!
