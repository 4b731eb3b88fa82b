//! Where the assets of a task come from.
//!
//! An asset is named by its place below the asset directory and by a
//! source: a `data:` URL that holds its bytes, or an `http:` or `https:`
//! URL from which they are fetched.

use vstd::prelude::*;
use crate::error::{Error, ErrorView};
use crate::text::{copy_str, starts_with};

verus! {

/// What processing `source` as a `data:` URL gives, as the crate
/// `data_url` does it after the Fetch standard: the bytes of the body, or
/// the description of why it is no such URL or its body is no base64.
pub uninterp spec fn data_url_body(source: Seq<char>) -> Result<Seq<u8>, Seq<char>>;

/// Calls `data_url::DataUrl::process` and, on the URL that it read,
/// `decode_to_vec`. The body's bytes, or the error of either written with
/// `{:?}`, are what [`data_url_body`] names.
#[verifier::external_body]
fn decode_data_url(source: &str) -> (r: Result<Vec<u8>, String>)
    ensures
        match r {
            Ok(body) => data_url_body(source@) == Ok::<Seq<u8>, Seq<char>>(body@),
            Err(why) => data_url_body(source@) == Err::<Seq<u8>, Seq<char>>(why@),
        },
{
    let url = match data_url::DataUrl::process(source) {
        Ok(url) => url,
        Err(e) => return Err(format!("{:?}", e)),
    };
    match url.decode_to_vec() {
        Ok((body, _)) => Ok(body),
        Err(e) => Err(format!("{:?}", e)),
    }
}

/// How an asset is brought into the asset directory.
#[derive(Debug)]
pub enum AssetPlan {
    /// Write these bytes.
    Write(Vec<u8>),
    /// Fetch this URL through the cache and copy what was fetched.
    Fetch(String),
}

/// What an [`AssetPlan`] holds.
pub enum AssetPlanView {
    Write(Seq<u8>),
    Fetch(Seq<char>),
}

impl View for AssetPlan {
    type V = AssetPlanView;

    open spec fn view(&self) -> AssetPlanView {
        match self {
            AssetPlan::Write(body) => AssetPlanView::Write(body@),
            AssetPlan::Fetch(url) => AssetPlanView::Fetch(url@),
        }
    }
}

/// The kind of a source, told by how it begins.
pub enum SourceKind {
    Data,
    Http,
    Other,
}

/// The kind of the source `source`.
pub open spec fn kind_of(source: Seq<char>) -> SourceKind {
    if "data:"@.is_prefix_of(source) {
        SourceKind::Data
    } else if "http:"@.is_prefix_of(source) || "https:"@.is_prefix_of(source) {
        SourceKind::Http
    } else {
        SourceKind::Other
    }
}

/// The message for a source of no known kind.
pub open spec fn unknown_source() -> Seq<char> {
    "asset must start with data or http"@
}

/// What the plan for `source` is, given what processing it as a `data:`
/// URL gives: the body where a `data:` URL decodes, a task error with the
/// description where it does not; the URL itself for `http:` and
/// `https:`; and a task error for any other source.
pub open spec fn planned(source: Seq<char>, body: Result<Seq<u8>, Seq<char>>) -> Result<
    AssetPlanView,
    ErrorView,
> {
    match kind_of(source) {
        SourceKind::Data => match body {
            Ok(bytes) => Ok(AssetPlanView::Write(bytes)),
            Err(why) => Err(ErrorView::Spec(why)),
        },
        SourceKind::Http => Ok(AssetPlanView::Fetch(source)),
        SourceKind::Other => Err(ErrorView::Spec(unknown_source())),
    }
}

/// What a result of planning holds.
pub open spec fn outcome(r: Result<AssetPlan, Error>) -> Result<AssetPlanView, ErrorView> {
    match r {
        Ok(plan) => Ok(plan@),
        Err(e) => Err(e@),
    }
}

/// What a result of processing a `data:` URL holds.
pub open spec fn body_of(body: Result<Vec<u8>, String>) -> Result<Seq<u8>, Seq<char>> {
    match body {
        Ok(bytes) => Ok(bytes@),
        Err(why) => Err(why@),
    }
}

/// The plan for `source`, given what processing it as a `data:` URL gave.
/// `body` is looked at for a `data:` URL only.
pub fn plan_with(source: &str, body: Result<Vec<u8>, String>) -> (r: Result<AssetPlan, Error>)
    ensures
        outcome(r) == planned(source@, body_of(body)),
{
    if starts_with(source, "data:") {
        match body {
            Ok(bytes) => Ok(AssetPlan::Write(bytes)),
            Err(why) => Err(Error::SpecError(why)),
        }
    } else if starts_with(source, "http:") || starts_with(source, "https:") {
        Ok(AssetPlan::Fetch(copy_str(source)))
    } else {
        Err(Error::SpecError(copy_str("asset must start with data or http")))
    }
}

/// How the asset with the source `source` is brought into the asset
/// directory.
pub fn plan_asset(source: &str) -> (r: Result<AssetPlan, Error>)
    ensures
        outcome(r) == planned(source@, data_url_body(source@)),
{
    if starts_with(source, "data:") {
        plan_with(source, decode_data_url(source))
    } else {
        plan_with(source, Ok(Vec::new()))
    }
}

} // verus!
