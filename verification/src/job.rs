//! Job intake: the request shape an upstream surface hands over, and the
//! synchronous validation the driver performs before queueing.

use vstd::prelude::*;

use crate::data_uri::DataUri;
use crate::dims::LabelDimensions;

verus! {

/// The content of a print request.
pub enum PrintApiKind {
    /// Vector markup, rasterized by an external collaborator.
    Svg { code: String },
    /// Encoded bitmap data.
    Image { data: DataUri },
    /// Template source, rendered by an external collaborator.
    Typst { code: String },
}

/// A print request as an upstream surface hands it over.
pub struct PrintApi {
    /// A requirement on the label dimensions: the request is rejected unless
    /// the addressed device is configured with (approximately) these, which
    /// guards against a device being physically reconfigured under a stale
    /// name.
    pub dimensions: Option<LabelDimensions>,
    pub kind: PrintApiKind,
}

/// The request's dimension requirement does not match the configured label.
#[derive(Clone, Copy, PartialEq, Eq, Structural, Debug)]
pub struct DimensionMismatch;

impl DimensionMismatch {
    /// The reason reported to the submitter.
    pub fn message(&self) -> (r: &'static str)
        ensures
            r@ == "Dimension mismatch, check physical label configuration"@,
    {
        "Dimension mismatch, check physical label configuration"
    }
}

/// Accepts a request for a device exactly when the request carries no
/// dimension requirement, or its requirement approximately matches the
/// configured dimensions; rejection is synchronous and leaves connection
/// state untouched.
pub fn check_dimensions(api: &PrintApi, configured: &LabelDimensions) -> (r: Result<
    (),
    DimensionMismatch,
>)
    ensures
        r is Ok <==> match api.dimensions {
            Some(d) => d.spec_approx_cmp(*configured),
            None => true,
        },
{
    match &api.dimensions {
        Some(d) => {
            if d.approx_cmp(configured) {
                Ok(())
            } else {
                Err(DimensionMismatch)
            }
        },
        None => Ok(()),
    }
}

} // verus!
