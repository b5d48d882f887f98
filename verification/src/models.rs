//! The records appended to the JSON-backed collections when an upload is
//! persisted.

use vstd::prelude::*;

verus! {

/// A caller-supplied note attached to a reference image.
#[derive(Clone, Debug)]
pub struct ImageNote {
    pub text: String,
    pub updated_at: i64,
}

/// Where a reference image came from, as free text.
#[derive(Clone, Debug)]
pub struct ImageSource {
    pub text: String,
    pub updated_at: i64,
}

/// One reference image's metadata record.
#[derive(Clone, Debug)]
pub struct Reference {
    pub id: String,
    pub filename: String,
    pub original_name: String,
    pub url: String,
    pub created_at: i64,
    pub location: Option<String>,
    pub folder_id: Option<String>,
    pub tags: Vec<String>,
    pub image_note: Option<ImageNote>,
    pub image_source: Option<ImageSource>,
    pub rotation: i32,
}

/// One photo-journal image's metadata record.
#[derive(Clone, Debug)]
pub struct PhotoJournalImage {
    pub id: String,
    pub filename: String,
    pub original_name: String,
    pub url: String,
    pub upload_date: String,
    pub size: u64,
    pub mimetype: String,
    pub prompt: Option<String>,
    pub reference_id: Option<String>,
    pub rotation: i32,
}

} // verus!
