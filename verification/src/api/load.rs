//! The response shape of the model-info endpoint: the snapshot's two parts,
//! as the endpoint hands them out.  The load and unload acknowledgments the
//! sibling endpoints answer with are the façade's own.

use vstd::prelude::*;

pub use crate::facade::LoadResponse;
pub use crate::facade::UnloadResponse;

use crate::lifecycle::{ModelMeta, ReloadRequest, RuntimeInfo};

verus! {

/// The answer of the model-info endpoint: the request the model was loaded
/// from, and its metadata.
#[derive(Debug, PartialEq)]
pub struct InfoResponse {
    /// The request the loaded model was built from.
    pub reload: ReloadRequest,
    /// Metadata of the loaded model.
    pub model: ModelMeta,
}

/// Unpacks a snapshot into the info endpoint's answer.
pub fn info_view(info: RuntimeInfo) -> (r: InfoResponse)
    ensures
        r.reload == info.reload,
        r.model == info.model,
{
    InfoResponse { reload: info.reload, model: info.model }
}

} // verus!
