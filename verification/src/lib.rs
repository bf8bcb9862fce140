//! Verified core of a small self-hosted file/image hosting service.
//!
//! The library models the upload ingestion pipeline and the asset
//! retrieval path: the response envelope, the category policy table,
//! the committed asset store, the checks that validate and stage a
//! batch of uploaded file parts, and the all-or-nothing commit that
//! makes them retrievable.

mod client;
mod laws;
mod params;
mod pipeline;
mod policy;
mod response;
mod retrieval;
mod store;
mod text;

pub use response::ResponseCode;
pub use response::RestResponse;
pub use response::response_ok;
pub use response::response_no;
pub use response::response_ok_no_data;
pub use params::UploadImgParam;
pub use params::GetImgParam;
pub use text::contains_substring;
pub use text::is_image_content_type;
pub use text::usize_to_decimal;
pub use text::asset_url;
pub use policy::PolicyTable;
pub use store::AssetStore;
pub use pipeline::ServerConfig;
pub use pipeline::FilePart;
pub use pipeline::upload;
pub use pipeline::part_name;
pub use pipeline::gate_code;
pub use pipeline::first_gate_failure;
pub use pipeline::committed_store;
pub use pipeline::failure_msg;
pub use pipeline::lemma_committed_contains;
pub use retrieval::RetrievalOutcome;
pub use retrieval::get_img;
pub use client::picup_outcome;
pub use laws::lemma_upload_then_retrieve;
pub use laws::lemma_collision_without_override;
pub use laws::lemma_collision_with_override;
pub use laws::lemma_content_policy;
pub use laws::lemma_empty_batch;
