//! Upload-handler logic: caller authorization data, multipart field
//! selection, stored-name generation, record building, and per-item batch
//! accounting.

use vstd::prelude::*;
use vstd::string::*;

use crate::host::{new_id, now_secs};
use crate::models::{PhotoJournalImage, Reference};
use crate::phone_server::PhoneServer;
use crate::text::{extension_of, int_rep, mime_for, spec_extension_of, spec_mime_of};

verus! {

/// The `token` query parameter of an upload request.
pub struct TokenQuery {
    pub token: Option<String>,
}

/// One multipart form field, as read from the request body; `data` is `None`
/// when reading the part failed.
pub struct MultipartField {
    pub name: Option<String>,
    pub file_name: Option<String>,
    pub data: Option<Vec<u8>>,
}

/// Why a single-image upload was refused.
#[derive(Clone, Copy, PartialEq, Eq, Structural, Debug)]
pub enum UploadError {
    InvalidImage,
    MissingFile,
    MissingData,
}

impl UploadError {
    /// The HTTP status reported for this refusal.
    pub fn status_code(&self) -> (r: u16)
        ensures
            r == 400u16,
    {
        400
    }

    /// The message reported for this refusal.
    pub fn message(&self) -> (r: String)
        ensures
            self is InvalidImage ==> r@ == "Invalid image"@,
            self is MissingFile ==> r@ == "Missing file"@,
            self is MissingData ==> r@ == "Missing data"@,
    {
        match self {
            UploadError::InvalidImage => String::from_str("Invalid image"),
            UploadError::MissingFile => String::from_str("Missing file"),
            UploadError::MissingData => String::from_str("Missing data"),
        }
    }
}

/// The field carries the image form name.
pub open spec fn is_image_field(f: MultipartField) -> bool {
    match f.name {
        Some(n) => n@ == "image"@,
        None => false,
    }
}

/// A name of the shape given to an image field that arrived without one:
/// `image-`, a 36-character identifier, `.jpg`.
pub open spec fn is_default_image_name(s: Seq<char>) -> bool {
    &&& s.len() == 46
    &&& s.subrange(0, 6) == "image-"@
    &&& s.subrange(42, 46) == ".jpg"@
}

/// The name given to an image field that arrived without one.
pub fn default_image_name() -> (r: String)
    ensures
        is_default_image_name(r@),
{
    let mut s = String::from_str("image-");
    let id = new_id();
    s.append(id.as_str());
    s.append(".jpg");
    proof {
        reveal_strlit("image-");
        reveal_strlit(".jpg");
        assert(s@.subrange(0, 6) =~= "image-"@);
        assert(s@.subrange(42, 46) =~= ".jpg"@);
    }
    s
}

/// The selected field's original name is what the request carried, or a
/// default-shaped name when it carried none.
pub open spec fn spec_named_from(name: Seq<char>, file_name: Option<String>) -> bool {
    match file_name {
        Some(f) => name == f@,
        None => is_default_image_name(name),
    }
}

/// Whether a field carries the image form name.
pub fn field_is_image(f: &MultipartField) -> (r: bool)
    ensures
        r == is_image_field(*f),
{
    match &f.name {
        Some(nm) => crate::text::str_eq(nm.as_str(), "image"),
        None => false,
    }
}

/// What a batch upload does with one field: fields not named `image` are
/// skipped; an image field that could not be read fails as one item; a
/// readable one is stored under a fresh collision-resistant name. A single
/// item's failure never aborts its siblings.
pub enum BatchItemPlan {
    Skip,
    Failed(String),
    Store(String, String),
}

/// Decides one batch item: skip, fail it, or store it as `Store(original
/// name, stored name)`.
pub fn plan_batch_item(field: &MultipartField, now: i64) -> (r: BatchItemPlan)
    ensures
        (match r {
            BatchItemPlan::Skip => !is_image_field(*field),
            BatchItemPlan::Failed(o) => is_image_field(*field) && field.data is None
                && spec_named_from(o@, field.file_name),
            BatchItemPlan::Store(o, f) => is_image_field(*field) && field.data is Some
                && spec_named_from(o@, field.file_name) && (exists|id: Seq<char>|
                id.len() == 36 && f@ == spec_stored_name(
                    now as int,
                    id,
                    spec_extension_of(o@),
                )),
        }),
{
    if !field_is_image(field) {
        return BatchItemPlan::Skip;
    }
    let original_name = match &field.file_name {
        Some(f) => f.clone(),
        None => default_image_name(),
    };
    match &field.data {
        Some(_) => {
            let (id, filename) = stored_filename(original_name.as_str(), now);
            proof {
                assert(id@.len() == 36 && filename@ == spec_stored_name(
                    now as int,
                    id@,
                    spec_extension_of(original_name@),
                ));
            }
            BatchItemPlan::Store(original_name, filename)
        },
        None => BatchItemPlan::Failed(original_name),
    }
}

/// Selects the image of a single-upload request: the last field named
/// `image` wins; a field that could not be read fails the whole request; a
/// request without an image field is refused.
pub fn select_image_field(fields: &Vec<MultipartField>) -> (r: Result<(String, Vec<u8>), UploadError>)
    ensures
        (exists|i: int|
            0 <= i < fields@.len() && is_image_field(#[trigger] fields@[i]) && fields@[i].data
                is None) ==> r == Err::<(String, Vec<u8>), UploadError>(UploadError::InvalidImage),
        (forall|i: int| 0 <= i < fields@.len() ==> !is_image_field(#[trigger] fields@[i])) ==> r
            == Err::<(String, Vec<u8>), UploadError>(UploadError::MissingFile),
        (exists|i: int| 0 <= i < fields@.len() && is_image_field(#[trigger] fields@[i])) && (
        forall|i: int|
            0 <= i < fields@.len() && is_image_field(#[trigger] fields@[i])
                ==> fields@[i].data is Some) ==> r is Ok,
        r matches Ok(sel) ==> exists|i: int|
            {
                &&& 0 <= i < fields@.len()
                &&& is_image_field(#[trigger] fields@[i])
                &&& forall|j: int| i < j < fields@.len() ==> !is_image_field(#[trigger] fields@[j])
                &&& fields@[i].data matches Some(d) && sel.1@ == d@
                &&& spec_named_from(sel.0@, fields@[i].file_name)
            },
{
    let n = fields.len();
    let mut i: usize = 0;
    let mut selected: Option<(String, Vec<u8>)> = None;
    let ghost mut sel_idx: int = 0;
    while i < n
        invariant
            n == fields@.len(),
            i <= n,
            forall|j: int|
                0 <= j < i ==> !(is_image_field(#[trigger] fields@[j]) && fields@[j].data is None),
            selected is None ==> forall|j: int| 0 <= j < i ==> !is_image_field(
                #[trigger] fields@[j],
            ),
            selected matches Some(sel) ==> {
                &&& 0 <= sel_idx < i
                &&& is_image_field(fields@[sel_idx])
                &&& forall|j: int| sel_idx < j < i ==> !is_image_field(#[trigger] fields@[j])
                &&& fields@[sel_idx].data matches Some(d) && sel.1@ == d@
                &&& spec_named_from(sel.0@, fields@[sel_idx].file_name)
            },
        decreases n - i,
    {
        let is_image = field_is_image(&fields[i]);
        if is_image {
            let fname = match &fields[i].file_name {
                Some(f) => f.clone(),
                None => default_image_name(),
            };
            match &fields[i].data {
                Some(d) => {
                    let bytes = clone_bytes(d);
                    selected = Some((fname, bytes));
                    proof {
                        sel_idx = i as int;
                    }
                },
                None => {
                    return Err(UploadError::InvalidImage);
                },
            }
        }
        i = i + 1;
    }
    match selected {
        Some(sel) => Ok(sel),
        None => Err(UploadError::MissingFile),
    }
}

/// A copy of the raw bytes of one part.
fn clone_bytes(d: &Vec<u8>) -> (r: Vec<u8>)
    ensures
        r@ == d@,
{
    let mut r: Vec<u8> = Vec::new();
    let n = d.len();
    let mut i: usize = 0;
    while i < n
        invariant
            n == d@.len(),
            i <= n,
            r@ == d@.subrange(0, i as int),
        decreases n - i,
    {
        r.push(d[i]);
        assert(r@ =~= d@.subrange(0, i as int + 1));
        i = i + 1;
    }
    assert(r@ =~= d@);
    r
}

/// The name a stored file gets: upload instant, a fresh identifier, and the
/// original name's extension.
pub open spec fn spec_stored_name(now: int, id: Seq<char>, ext: Seq<char>) -> Seq<char> {
    int_rep(now) + "-"@ + id + "."@ + ext
}

/// Generates the collision-resistant name a file is stored under, derived
/// from the upload instant, a fresh 36-character identifier and the original
/// name's extension. Returns the identifier beside the name.
pub fn stored_filename(original_name: &str, now: i64) -> (r: (String, String))
    ensures
        r.0@.len() == 36,
        r.1@ == spec_stored_name(now as int, r.0@, spec_extension_of(original_name@)),
{
    let id = new_id();
    let ext = extension_of(original_name);
    let mut s = crate::text::i64_to_string(now);
    s.append("-");
    s.append(id.as_str());
    s.append(".");
    s.append(ext.as_str());
    (id, s)
}

/// Builds the metadata record for an uploaded reference image: stored under
/// `references/main/`, tagged `main`, newest defaults everywhere else.
pub fn build_reference(filename: String, original_name: String, id: String, created_at: i64) -> (r:
    Reference)
    ensures
        r.id == id,
        r.filename == filename,
        r.original_name == original_name,
        r.url@ == "references/main/"@ + filename@,
        r.created_at == created_at,
        r.location matches Some(l) && l@ == "main"@,
        r.folder_id is None,
        r.tags@.len() == 0,
        r.image_note is None,
        r.image_source is None,
        r.rotation == 0,
{
    let mut url = String::from_str("references/main/");
    url.append(filename.as_str());
    Reference {
        id,
        filename,
        original_name,
        url,
        created_at,
        location: Some(String::from_str("main")),
        folder_id: None,
        tags: Vec::new(),
        image_note: None,
        image_source: None,
        rotation: 0,
    }
}

/// Builds the record for an uploaded reference image with a fresh identifier
/// and the current time.
pub fn create_reference(filename: String, original_name: String) -> (r: Reference)
    ensures
        r.id@.len() == 36,
        r.filename == filename,
        r.original_name == original_name,
        r.url@ == "references/main/"@ + filename@,
        r.location matches Some(l) && l@ == "main"@,
        r.folder_id is None,
        r.tags@.len() == 0,
        r.image_note is None,
        r.image_source is None,
        r.rotation == 0,
{
    let id = new_id();
    let created_at = now_secs();
    build_reference(filename, original_name, id, created_at)
}

/// Builds the metadata record for an uploaded photo-journal image: stored
/// under `artwork_journal/`, its mime type read off the stored name.
pub fn build_photo_journal_image(
    id: String,
    filename: String,
    original_name: String,
    upload_date: String,
    size: u64,
) -> (r: PhotoJournalImage)
    ensures
        r.id == id,
        r.filename == filename,
        r.original_name == original_name,
        r.url@ == "artwork_journal/"@ + filename@,
        r.upload_date == upload_date,
        r.size == size,
        r.mimetype@ == spec_mime_of(filename@),
        r.prompt is None,
        r.reference_id is None,
        r.rotation == 0,
{
    let mut url = String::from_str("artwork_journal/");
    url.append(filename.as_str());
    let mimetype = mime_for(filename.as_str());
    PhotoJournalImage {
        id,
        filename,
        original_name,
        url,
        upload_date,
        size,
        mimetype,
        prompt: None,
        reference_id: None,
        rotation: 0,
    }
}

/// Puts a fresh record first: the collections are kept newest-first.
pub fn prepend_reference(records: &mut Vec<Reference>, r: Reference)
    ensures
        final(records)@ == seq![r] + old(records)@,
{
    records.insert(0, r);
    assert(records@ =~= seq![records@[0]] + old(records)@);
}

/// Puts a fresh record first: the collections are kept newest-first.
pub fn prepend_photo_journal_image(records: &mut Vec<PhotoJournalImage>, r: PhotoJournalImage)
    ensures
        final(records)@ == seq![r] + old(records)@,
{
    records.insert(0, r);
    assert(records@ =~= seq![records@[0]] + old(records)@);
}

/// One successful batch item: its position among the request's image fields,
/// the record's identifier, the stored name and the original name.
pub struct BatchItem {
    pub index: usize,
    pub id: String,
    pub filename: String,
    pub original_name: String,
}

/// One failed batch item: its position, the original name and the reason.
pub struct BatchFailure {
    pub index: usize,
    pub original_name: String,
    pub error: String,
}

/// Per-item accounting of a batch upload: successes and failures collected
/// independently, so one item's failure never aborts its siblings.
pub struct BatchCollector {
    pub successes: Vec<BatchItem>,
    pub failures: Vec<BatchFailure>,
    pub next_index: usize,
}

impl BatchCollector {
    /// Index discipline: every recorded item lies before `next_index`, each
    /// list carries its items in request order, and no position is recorded
    /// both as a success and as a failure.
    pub open spec fn wf(self) -> bool {
        &&& forall|k: int|
            0 <= k < self.successes@.len() ==> (#[trigger] self.successes@[k]).index
                < self.next_index
        &&& forall|k: int|
            0 <= k < self.failures@.len() ==> (#[trigger] self.failures@[k]).index
                < self.next_index
        &&& forall|k: int, l: int|
            0 <= k < l < self.successes@.len() ==> (#[trigger] self.successes@[k]).index < (
            #[trigger] self.successes@[l]).index
        &&& forall|k: int, l: int|
            0 <= k < l < self.failures@.len() ==> (#[trigger] self.failures@[k]).index < (
            #[trigger] self.failures@[l]).index
        &&& forall|k: int, l: int|
            0 <= k < self.successes@.len() && 0 <= l < self.failures@.len() ==> (
            #[trigger] self.successes@[k]).index != (#[trigger] self.failures@[l]).index
    }

    /// An empty collector.
    pub fn new() -> (r: BatchCollector)
        ensures
            r.successes@.len() == 0,
            r.failures@.len() == 0,
            r.next_index == 0,
            r.wf(),
    {
        BatchCollector { successes: Vec::new(), failures: Vec::new(), next_index: 0 }
    }

    /// Records the current item as stored, and moves to the next.
    pub fn record_success(&mut self, id: String, filename: String, original_name: String)
        requires
            old(self).next_index < usize::MAX,
            old(self).wf(),
        ensures
            final(self).successes@ == old(self).successes@.push(
                BatchItem { index: old(self).next_index, id, filename, original_name },
            ),
            final(self).failures@ == old(self).failures@,
            final(self).next_index == old(self).next_index + 1,
            final(self).wf(),
    {
        let index = self.next_index;
        self.successes.push(BatchItem { index, id, filename, original_name });
        self.next_index = self.next_index + 1;
    }

    /// Records the current item as failed, and moves to the next; the batch
    /// goes on.
    pub fn record_failure(&mut self, original_name: String, error: String)
        requires
            old(self).next_index < usize::MAX,
            old(self).wf(),
        ensures
            final(self).failures@ == old(self).failures@.push(
                BatchFailure { index: old(self).next_index, original_name, error },
            ),
            final(self).successes@ == old(self).successes@,
            final(self).next_index == old(self).next_index + 1,
            final(self).wf(),
    {
        let index = self.next_index;
        self.failures.push(BatchFailure { index, original_name, error });
        self.next_index = self.next_index + 1;
    }

    /// How many items were stored.
    pub fn count(&self) -> (r: usize)
        ensures
            r == self.successes@.len(),
    {
        self.successes.len()
    }

    /// The batch counts as successful exactly when at least one item was
    /// stored.
    pub fn succeeded(&self) -> (r: bool)
        ensures
            r == (self.successes@.len() > 0),
    {
        self.successes.len() > 0
    }
}

/// The body of the ping reply: a plain liveness answer naming the port.
pub struct PingResponse {
    pub status: String,
    pub port: u16,
}

/// Answers a ping: status `ok` and the port the server is reached on.
pub fn ping_handler(server: &PhoneServer) -> (r: PingResponse)
    ensures
        r.status@ == "ok"@,
        r.port == (if server.active_port_raw() == 0 {
            crate::DEFAULT_SERVER_PORT
        } else {
            server.active_port_raw()
        }),
{
    PingResponse { status: String::from_str("ok"), port: server.get_active_port() }
}

} // verus!
