//! Attachment models used by inbound and outbound message payloads.

use vstd::prelude::*;
use vstd::string::StringExecFns;
use crate::json::{
    JsonEntry, JsonModel, JsonNumber, JsonValue, NumberModel, clone_value, entries_model,
    find_key, get_key, insert_all, insert_entry, key_index, lemma_entries_model_index,
    lemma_insert_all_concat, lemma_insert_all_keeps_sorted, lemma_insert_all_sorted,
    lemma_lookup_insert, lemma_lookup_insert_all_other, lemma_object_insert_sorted, lookup, model,
    object_insert, push_entry, sorted_entries,
};
use crate::text::{lemma_text_less_irreflexive, lemma_text_less_transitive, text_less};
use crate::text::{blank, is_blank};

verus! {

/// Supported built-in attachment type names.
#[derive(Debug, Clone, Copy, PartialEq, Eq, Structural)]
pub enum KnownAttachmentType {
    /// Image attachment payload.
    Image,
    /// Video attachment payload.
    Video,
    /// Audio attachment payload.
    Audio,
    /// Generic file attachment payload.
    File,
    /// Rich link preview payload.
    Link,
}

/// Canonical API name of a known attachment type.
pub open spec fn known_type_name(kind: KnownAttachmentType) -> Seq<char> {
    match kind {
        KnownAttachmentType::Image => "image"@,
        KnownAttachmentType::Video => "video"@,
        KnownAttachmentType::Audio => "audio"@,
        KnownAttachmentType::File => "file"@,
        KnownAttachmentType::Link => "link"@,
    }
}

impl KnownAttachmentType {
    /// Returns canonical API string value.
    pub fn as_str(self) -> (s: &'static str)
        ensures
            s@ == known_type_name(self),
    {
        match self {
            KnownAttachmentType::Image => "image",
            KnownAttachmentType::Video => "video",
            KnownAttachmentType::Audio => "audio",
            KnownAttachmentType::File => "file",
            KnownAttachmentType::Link => "link",
        }
    }
}

/// Attachment type that keeps unknown values for forward compatibility.
#[derive(Debug, Clone, PartialEq, Eq)]
pub enum AttachmentType {
    /// Known attachment type.
    Known(KnownAttachmentType),
    /// Unknown/custom attachment type from API.
    Custom(String),
}

/// Name of an attachment type.
pub open spec fn attachment_type_name(kind: AttachmentType) -> Seq<char> {
    match kind {
        AttachmentType::Known(k) => known_type_name(k),
        AttachmentType::Custom(s) => s@,
    }
}

impl AttachmentType {
    /// Returns the type as string value.
    pub fn as_str(&self) -> (s: &str)
        ensures
            s@ == attachment_type_name(*self),
    {
        match self {
            AttachmentType::Known(kind) => kind.as_str(),
            AttachmentType::Custom(kind) => kind.as_str(),
        }
    }

    /// Type for an API name: the five known names map to their variants, any
    /// other name is kept as a custom type.
    pub fn from_name(value: String) -> (t: Self)
        ensures
            value@ == "image"@ ==> t == AttachmentType::Known(KnownAttachmentType::Image),
            value@ == "video"@ ==> t == AttachmentType::Known(KnownAttachmentType::Video),
            value@ == "audio"@ ==> t == AttachmentType::Known(KnownAttachmentType::Audio),
            value@ == "file"@ ==> t == AttachmentType::Known(KnownAttachmentType::File),
            value@ == "link"@ ==> t == AttachmentType::Known(KnownAttachmentType::Link),
            value@ != "image"@ && value@ != "video"@ && value@ != "audio"@ && value@ != "file"@
                && value@ != "link"@ ==> (t matches AttachmentType::Custom(s) && s@ == value@),
    {
        proof {
            reveal_strlit("image");
            reveal_strlit("video");
            reveal_strlit("audio");
            reveal_strlit("file");
            reveal_strlit("link");
            assert("image"@[0] == 'i' && "video"@[0] == 'v' && "audio"@[0] == 'a');
            assert("file"@[0] == 'f' && "link"@[0] == 'l');
        }
        if crate::text::str_eq(value.as_str(), "image") {
            AttachmentType::Known(KnownAttachmentType::Image)
        } else if crate::text::str_eq(value.as_str(), "video") {
            AttachmentType::Known(KnownAttachmentType::Video)
        } else if crate::text::str_eq(value.as_str(), "audio") {
            AttachmentType::Known(KnownAttachmentType::Audio)
        } else if crate::text::str_eq(value.as_str(), "file") {
            AttachmentType::Known(KnownAttachmentType::File)
        } else if crate::text::str_eq(value.as_str(), "link") {
            AttachmentType::Known(KnownAttachmentType::Link)
        } else {
            AttachmentType::Custom(value)
        }
    }
}

/// An optional text that is blank counts as absent.
pub open spec fn non_empty(s: Option<Seq<char>>) -> Option<Seq<char>> {
    match s {
        Some(t) => if blank(t) {
            None
        } else {
            Some(t)
        },
        None => None,
    }
}

/// The view of an optional string.
pub open spec fn opt_text(s: Option<String>) -> Option<Seq<char>> {
    match s {
        Some(t) => Some(t@),
        None => None,
    }
}

/// The view of an optional string slice.
pub open spec fn opt_slice(s: Option<&str>) -> Option<Seq<char>> {
    match s {
        Some(t) => Some(t@),
        None => None,
    }
}

/// Returns the text unless it is absent or blank.
pub fn non_empty_str(value: &Option<String>) -> (r: Option<&str>)
    ensures
        opt_slice(r) == non_empty(opt_text(*value)),
{
    match value {
        Some(v) => if is_blank(v.as_str()) {
            None
        } else {
            Some(v.as_str())
        },
        None => None,
    }
}

/// Outcome of reading an optional text field: absent or `null` is `None`,
/// a string is its text, anything else fails.
pub open spec fn text_field(entries: Seq<(Seq<char>, JsonModel)>, key: Seq<char>) -> Option<
    Option<Seq<char>>,
> {
    match lookup(entries, key) {
        None => Some(None),
        Some(JsonModel::Null) => Some(None),
        Some(JsonModel::Text(s)) => Some(Some(s)),
        _ => None,
    }
}

/// Outcome of reading an optional unsigned field bounded by `max`: absent or
/// `null` is `None`, a non-negative integer up to `max` is its value,
/// anything else fails.
pub open spec fn uint_field(entries: Seq<(Seq<char>, JsonModel)>, key: Seq<char>, max: u64) -> Option<
    Option<u64>,
> {
    match lookup(entries, key) {
        None => Some(None),
        Some(JsonModel::Null) => Some(None),
        Some(JsonModel::Number(NumberModel::PosInt(u))) => if u <= max {
            Some(Some(u))
        } else {
            None
        },
        _ => None,
    }
}

/// Entries whose keys are not among `known`, in order.
pub open spec fn other_entries(entries: Seq<(Seq<char>, JsonModel)>, known: Seq<Seq<char>>) -> Seq<
    (Seq<char>, JsonModel),
>
    decreases entries.len(),
{
    if entries.len() == 0 {
        Seq::empty()
    } else {
        let rest = other_entries(entries.drop_last(), known);
        if known.contains(entries.last().0) {
            rest
        } else {
            rest.push(entries.last())
        }
    }
}

/// No entry has a key among `known`.
pub open spec fn avoids_keys(entries: Seq<(Seq<char>, JsonModel)>, known: Seq<Seq<char>>) -> bool {
    forall|i: int| 0 <= i < entries.len() ==> !known.contains(#[trigger] entries[i].0)
}

/// Entries left by `other_entries` avoid the known keys.
pub proof fn lemma_other_entries_avoid(entries: Seq<(Seq<char>, JsonModel)>, known: Seq<Seq<char>>)
    ensures
        avoids_keys(other_entries(entries, known), known),
    decreases entries.len(),
{
    if entries.len() > 0 {
        lemma_other_entries_avoid(entries.drop_last(), known);
    }
}

/// Filtering a concatenation filters each part.
pub proof fn lemma_other_entries_concat(
    a: Seq<(Seq<char>, JsonModel)>,
    b: Seq<(Seq<char>, JsonModel)>,
    known: Seq<Seq<char>>,
)
    ensures
        other_entries(a + b, known) == other_entries(a, known) + other_entries(b, known),
    decreases b.len(),
{
    if b.len() == 0 {
        assert(a + b == a);
    } else {
        lemma_other_entries_concat(a, b.drop_last(), known);
        assert((a + b).drop_last() == a + b.drop_last());
        assert((a + b).last() == b.last());
    }
}

/// Entries that avoid the known keys are all kept.
pub proof fn lemma_other_entries_keep(entries: Seq<(Seq<char>, JsonModel)>, known: Seq<Seq<char>>)
    requires
        avoids_keys(entries, known),
    ensures
        other_entries(entries, known) == entries,
    decreases entries.len(),
{
    if entries.len() > 0 {
        assert(avoids_keys(entries.drop_last(), known)) by {
            assert forall|i: int| 0 <= i < entries.drop_last().len() implies !known.contains(
                #[trigger] entries.drop_last()[i].0,
            ) by {
                assert(entries.drop_last()[i] == entries[i]);
            }
        }
        lemma_other_entries_keep(entries.drop_last(), known);
        assert(!known.contains(entries[entries.len() - 1].0));
        assert(entries.drop_last().push(entries.last()) == entries);
    }
}

/// Reads an optional text field of an object.
fn read_text_field(entries: &Vec<JsonEntry>, key: &str) -> (r: Result<Option<String>, ()>)
    ensures
        r matches Ok(v) ==> text_field(entries_model(entries@), key@) == Some(opt_text(v)),
        r is Err ==> text_field(entries_model(entries@), key@) is None,
{
    proof {
        lemma_entries_model_index(entries@);
    }
    match find_key(entries, key) {
        None => Ok(None),
        Some(i) => match &entries[i].value {
            JsonValue::Null => Ok(None),
            JsonValue::String(s) => Ok(Some(s.clone())),
            _ => Err(()),
        },
    }
}

/// Reads an optional unsigned field of an object.
fn read_uint_field(entries: &Vec<JsonEntry>, key: &str, max: u64) -> (r: Result<Option<u64>, ()>)
    ensures
        r matches Ok(v) ==> uint_field(entries_model(entries@), key@, max) == Some(v),
        r is Err ==> uint_field(entries_model(entries@), key@, max) is None,
{
    proof {
        lemma_entries_model_index(entries@);
    }
    match find_key(entries, key) {
        None => Ok(None),
        Some(i) => match &entries[i].value {
            JsonValue::Null => Ok(None),
            JsonValue::Number(JsonNumber::PosInt(u)) => if *u <= max {
                Ok(Some(*u))
            } else {
                Err(())
            },
            _ => Err(()),
        },
    }
}

/// Whether `key` is one of `known`.
fn is_known_key(known: &Vec<&str>, key: &str) -> (r: bool)
    ensures
        r == known@.map_values(|k: &str| k@).contains(key@),
{
    let ghost known_v = known@.map_values(|k: &str| k@);
    let mut k: usize = 0;
    while k < known.len()
        invariant
            k <= known.len(),
            known_v == known@.map_values(|k: &str| k@),
            forall|j: int| 0 <= j < k ==> known_v[j] != key@,
        decreases known.len() - k,
    {
        if crate::text::str_eq(known[k], key) {
            assert(known_v[k as int] == key@);
            return true;
        }
        k = k + 1;
    }
    false
}

/// Copies of the entries whose keys are not among `known`.
fn copy_other_entries(entries: &Vec<JsonEntry>, known: &Vec<&str>) -> (r: Vec<JsonEntry>)
    ensures
        entries_model(r@) == other_entries(
            entries_model(entries@),
            known@.map_values(|k: &str| k@),
        ),
{
    proof {
        lemma_entries_model_index(entries@);
    }
    let ghost known_v = known@.map_values(|k: &str| k@);
    let ghost em = entries_model(entries@);
    let mut out: Vec<JsonEntry> = Vec::new();
    let mut i: usize = 0;
    while i < entries.len()
        invariant
            i <= entries.len(),
            em == entries_model(entries@),
            em.len() == entries.len(),
            forall|j: int| 0 <= j < entries.len() ==> #[trigger] em[j] == (
                entries@[j].key@,
                model(entries@[j].value),
            ),
            known_v == known@.map_values(|k: &str| k@),
            entries_model(out@) == other_entries(em.take(i as int), known_v),
        decreases entries.len() - i,
    {
        let e = &entries[i];
        let is_known = is_known_key(known, e.key.as_str());
        proof {
            assert(em.take(i + 1).drop_last() == em.take(i as int));
            assert(em.take(i + 1).last() == em[i as int]);
        }
        if !is_known {
            let c = JsonEntry { key: e.key.clone(), value: clone_value(&e.value) };
            let ghost before = out@;
            out.push(c);
            proof {
                assert(out@.drop_last() == before);
            }
        }
        i = i + 1;
    }
    assert(em.take(entries.len() as int) == em);
    out
}

/// Converts an optional `u64` known to fit to an optional `u32`.
pub open spec fn narrow(v: Option<u64>) -> Option<u32> {
    match v {
        Some(u) => Some(u as u32),
        None => None,
    }
}

/// The view of a media payload.
pub struct FilePayloadModel {
    /// Upload token.
    pub token: Option<Seq<char>>,
    /// Attachment URL.
    pub url: Option<Seq<char>>,
    /// File name.
    pub file_name: Option<Seq<char>>,
    /// MIME type.
    pub mime_type: Option<Seq<char>>,
    /// Size in bytes.
    pub size: Option<u64>,
    /// Width in pixels.
    pub width: Option<u32>,
    /// Height in pixels.
    pub height: Option<u32>,
    /// Duration in milliseconds.
    pub duration_ms: Option<u64>,
    /// Entries of the object that are none of the fields above.
    pub extra: Seq<(Seq<char>, JsonModel)>,
}

/// Keys of the modelled media payload fields.
pub open spec fn file_payload_keys() -> Seq<Seq<char>> {
    seq![
        "token"@,
        "url"@,
        "file_name"@,
        "mime_type"@,
        "size"@,
        "width"@,
        "height"@,
        "duration_ms"@,
    ]
}

/// Decoding a JSON value as a media payload: an object whose modelled fields
/// are absent, `null` or of their type (integers within range); other entries
/// are kept as extra. Anything else does not decode.
pub open spec fn decode_file_payload(m: JsonModel) -> Option<FilePayloadModel> {
    match m {
        JsonModel::Object(entries) => {
            let token = text_field(entries, "token"@);
            let url = text_field(entries, "url"@);
            let file_name = text_field(entries, "file_name"@);
            let mime_type = text_field(entries, "mime_type"@);
            let size = uint_field(entries, "size"@, u64::MAX);
            let width = uint_field(entries, "width"@, u32::MAX as u64);
            let height = uint_field(entries, "height"@, u32::MAX as u64);
            let duration_ms = uint_field(entries, "duration_ms"@, u64::MAX);
            if token is Some && url is Some && file_name is Some && mime_type is Some && size is Some
                && width is Some && height is Some && duration_ms is Some {
                Some(
                    FilePayloadModel {
                        token: token->0,
                        url: url->0,
                        file_name: file_name->0,
                        mime_type: mime_type->0,
                        size: size->0,
                        width: narrow(width->0),
                        height: narrow(height->0),
                        duration_ms: duration_ms->0,
                        extra: other_entries(entries, file_payload_keys()),
                    },
                )
            } else {
                None
            }
        },
        _ => None,
    }
}

/// Token-based attachment payload plus optional media metadata.
#[derive(Debug, Clone, PartialEq)]
pub struct AttachmentFilePayload {
    token: Option<String>,
    url: Option<String>,
    file_name: Option<String>,
    mime_type: Option<String>,
    size: Option<u64>,
    width: Option<u32>,
    height: Option<u32>,
    duration_ms: Option<u64>,
    extra: Vec<JsonEntry>,
}

impl View for AttachmentFilePayload {
    type V = FilePayloadModel;

    closed spec fn view(&self) -> FilePayloadModel {
        FilePayloadModel {
            token: opt_text(self.token),
            url: opt_text(self.url),
            file_name: opt_text(self.file_name),
            mime_type: opt_text(self.mime_type),
            size: self.size,
            width: self.width,
            height: self.height,
            duration_ms: self.duration_ms,
            extra: entries_model(self.extra@),
        }
    }
}

impl Default for AttachmentFilePayload {
    fn default() -> (p: Self)
        ensures
            p@ == (FilePayloadModel {
                token: None,
                url: None,
                file_name: None,
                mime_type: None,
                size: None,
                width: None,
                height: None,
                duration_ms: None,
                extra: Seq::empty(),
            }),
    {
        AttachmentFilePayload {
            token: None,
            url: None,
            file_name: None,
            mime_type: None,
            size: None,
            width: None,
            height: None,
            duration_ms: None,
            extra: Vec::new(),
        }
    }
}

impl AttachmentFilePayload {
    /// Decodes a media payload from JSON.
    pub fn from_json(value: &JsonValue) -> (r: Option<Self>)
        ensures
            r matches Some(p) ==> decode_file_payload(model(*value)) == Some(p@),
            r is None ==> decode_file_payload(model(*value)) is None,
    {
        match value {
            JsonValue::Object(entries) => {
                let token = match read_text_field(entries, "token") {
                    Ok(v) => v,
                    Err(()) => return None,
                };
                let url = match read_text_field(entries, "url") {
                    Ok(v) => v,
                    Err(()) => return None,
                };
                let file_name = match read_text_field(entries, "file_name") {
                    Ok(v) => v,
                    Err(()) => return None,
                };
                let mime_type = match read_text_field(entries, "mime_type") {
                    Ok(v) => v,
                    Err(()) => return None,
                };
                let size = match read_uint_field(entries, "size", u64::MAX) {
                    Ok(v) => v,
                    Err(()) => return None,
                };
                let width = match read_uint_field(entries, "width", 4294967295u64) {
                    Ok(Some(w)) => Some(w as u32),
                    Ok(None) => None,
                    Err(()) => return None,
                };
                let height = match read_uint_field(entries, "height", 4294967295u64) {
                    Ok(Some(h)) => Some(h as u32),
                    Ok(None) => None,
                    Err(()) => return None,
                };
                let duration_ms = match read_uint_field(entries, "duration_ms", u64::MAX) {
                    Ok(v) => v,
                    Err(()) => return None,
                };
                let known: Vec<&str> = vec![
                    "token",
                    "url",
                    "file_name",
                    "mime_type",
                    "size",
                    "width",
                    "height",
                    "duration_ms",
                ];
                assert(known@.map_values(|k: &str| k@) == file_payload_keys());
                let extra = copy_other_entries(entries, &known);
                Some(
                    AttachmentFilePayload {
                        token,
                        url,
                        file_name,
                        mime_type,
                        size,
                        width,
                        height,
                        duration_ms,
                        extra,
                    },
                )
            },
            _ => None,
        }
    }

    /// Returns upload token used by send/edit operations.
    pub fn token(&self) -> (r: Option<&str>)
        ensures
            opt_slice(r) == non_empty(self@.token),
    {
        non_empty_str(&self.token)
    }

    /// Returns attachment URL when API includes it.
    pub fn url(&self) -> (r: Option<&str>)
        ensures
            opt_slice(r) == non_empty(self@.url),
    {
        non_empty_str(&self.url)
    }

    /// Returns optional file name.
    pub fn file_name(&self) -> (r: Option<&str>)
        ensures
            opt_slice(r) == non_empty(self@.file_name),
    {
        non_empty_str(&self.file_name)
    }

    /// Returns optional MIME type.
    pub fn mime_type(&self) -> (r: Option<&str>)
        ensures
            opt_slice(r) == non_empty(self@.mime_type),
    {
        non_empty_str(&self.mime_type)
    }

    /// Returns unmodeled fields captured during decoding.
    pub fn extra(&self) -> (r: &Vec<JsonEntry>)
        ensures
            entries_model(r@) == self@.extra,
    {
        &self.extra
    }
}

/// The view of link preview metadata.
pub struct LinkModel {
    /// Link target URL.
    pub url: Option<Seq<char>>,
    /// Link title.
    pub title: Option<Seq<char>>,
    /// Link description.
    pub description: Option<Seq<char>>,
    /// Preview image URL.
    pub preview_url: Option<Seq<char>>,
    /// Entries of the object that are none of the fields above.
    pub extra: Seq<(Seq<char>, JsonModel)>,
}

/// Keys of the modelled link fields.
pub open spec fn link_keys() -> Seq<Seq<char>> {
    seq!["url"@, "title"@, "description"@, "preview_url"@]
}

/// Decoding a JSON value as link metadata: an object whose four text fields
/// are absent, `null` or strings; other entries are kept as extra.
pub open spec fn decode_link(m: JsonModel) -> Option<LinkModel> {
    match m {
        JsonModel::Object(entries) => {
            let url = text_field(entries, "url"@);
            let title = text_field(entries, "title"@);
            let description = text_field(entries, "description"@);
            let preview_url = text_field(entries, "preview_url"@);
            if url is Some && title is Some && description is Some && preview_url is Some {
                Some(
                    LinkModel {
                        url: url->0,
                        title: title->0,
                        description: description->0,
                        preview_url: preview_url->0,
                        extra: other_entries(entries, link_keys()),
                    },
                )
            } else {
                None
            }
        },
        _ => None,
    }
}

/// An optional text as JSON: a string, or `null`.
pub open spec fn text_or_null(t: Option<Seq<char>>) -> JsonModel {
    match t {
        Some(s) => JsonModel::Text(s),
        None => JsonModel::Null,
    }
}

/// The four link fields as entries, in the order they are written.
pub open spec fn link_fields(l: LinkModel) -> Seq<(Seq<char>, JsonModel)> {
    seq![
        ("url"@, text_or_null(l.url)),
        ("title"@, text_or_null(l.title)),
        ("description"@, text_or_null(l.description)),
        ("preview_url"@, text_or_null(l.preview_url)),
    ]
}

/// Link metadata as a JSON object, as serializing it into a
/// `serde_json::Value` gives: the four fields (absent ones as `null`), then
/// the extra entries, each put into the object's map in turn.
pub open spec fn link_json(l: LinkModel) -> JsonModel {
    JsonModel::Object(insert_all(Seq::empty(), link_fields(l) + l.extra))
}

/// Rich link metadata for message preview payloads.
#[derive(Debug, Clone, PartialEq)]
pub struct LinkMetadata {
    url: Option<String>,
    title: Option<String>,
    description: Option<String>,
    preview_url: Option<String>,
    extra: Vec<JsonEntry>,
}

impl View for LinkMetadata {
    type V = LinkModel;

    closed spec fn view(&self) -> LinkModel {
        LinkModel {
            url: opt_text(self.url),
            title: opt_text(self.title),
            description: opt_text(self.description),
            preview_url: opt_text(self.preview_url),
            extra: entries_model(self.extra@),
        }
    }
}

impl Default for LinkMetadata {
    fn default() -> (l: Self)
        ensures
            l@ == (LinkModel {
                url: None,
                title: None,
                description: None,
                preview_url: None,
                extra: Seq::empty(),
            }),
    {
        LinkMetadata { url: None, title: None, description: None, preview_url: None, extra: Vec::new() }
    }
}

/// A text field or `null` as an entry.
fn text_entry(key: &str, value: &Option<String>) -> (e: JsonEntry)
    ensures
        e.key@ == key@,
        model(e.value) == text_or_null(opt_text(*value)),
{
    match value {
        Some(s) => JsonEntry { key: key.to_string(), value: JsonValue::String(s.clone()) },
        None => JsonEntry { key: key.to_string(), value: JsonValue::Null },
    }
}

impl LinkMetadata {
    /// Link metadata with the given fields and no extra entries.
    pub fn from_parts(
        url: Option<String>,
        title: Option<String>,
        description: Option<String>,
        preview_url: Option<String>,
    ) -> (l: Self)
        ensures
            l@ == (LinkModel {
                url: opt_text(url),
                title: opt_text(title),
                description: opt_text(description),
                preview_url: opt_text(preview_url),
                extra: Seq::empty(),
            }),
    {
        LinkMetadata { url, title, description, preview_url, extra: Vec::new() }
    }

    /// Decodes link metadata from JSON.
    pub fn from_json(value: &JsonValue) -> (r: Option<Self>)
        ensures
            r matches Some(l) ==> decode_link(model(*value)) == Some(l@),
            r is None ==> decode_link(model(*value)) is None,
    {
        match value {
            JsonValue::Object(entries) => {
                let url = match read_text_field(entries, "url") {
                    Ok(v) => v,
                    Err(()) => return None,
                };
                let title = match read_text_field(entries, "title") {
                    Ok(v) => v,
                    Err(()) => return None,
                };
                let description = match read_text_field(entries, "description") {
                    Ok(v) => v,
                    Err(()) => return None,
                };
                let preview_url = match read_text_field(entries, "preview_url") {
                    Ok(v) => v,
                    Err(()) => return None,
                };
                let known: Vec<&str> = vec!["url", "title", "description", "preview_url"];
                assert(known@.map_values(|k: &str| k@) == link_keys());
                let extra = copy_other_entries(entries, &known);
                Some(LinkMetadata { url, title, description, preview_url, extra })
            },
            _ => None,
        }
    }

    /// Encodes the metadata as a JSON object.
    pub fn to_json(&self) -> (v: JsonValue)
        ensures
            model(v) == link_json(self@),
    {
        let mut out: Vec<JsonEntry> = Vec::new();
        let ghost fields = link_fields(self@);
        insert_entry(&mut out, text_entry("url", &self.url));
        insert_entry(&mut out, text_entry("title", &self.title));
        insert_entry(&mut out, text_entry("description", &self.description));
        insert_entry(&mut out, text_entry("preview_url", &self.preview_url));
        proof {
            reveal_with_fuel(insert_all, 5);
            assert(fields.drop_last().drop_last().drop_last().drop_last() =~= Seq::<(Seq<char>, JsonModel)>::empty());
            assert(fields.drop_last().drop_last().drop_last().last() == fields[0]);
            assert(fields.drop_last().drop_last().last() == fields[1]);
            assert(fields.drop_last().last() == fields[2]);
            assert(fields.last() == fields[3]);
        }
        assert(entries_model(out@) == insert_all(Seq::empty(), fields));
        proof {
            lemma_entries_model_index(self.extra@);
        }
        let mut i: usize = 0;
        while i < self.extra.len()
            invariant
                i <= self.extra.len(),
                fields == link_fields(self@),
                entries_model(self.extra@).len() == self.extra.len(),
                forall|j: int| 0 <= j < self.extra.len() ==> #[trigger] entries_model(self.extra@)[j] == (
                    self.extra@[j].key@,
                    model(self.extra@[j].value),
                ),
                entries_model(out@) == insert_all(
                    Seq::empty(),
                    fields + entries_model(self.extra@).take(i as int),
                ),
            decreases self.extra.len() - i,
        {
            let e = self.extra[i].clone();
            insert_entry(&mut out, e);
            proof {
                let em = entries_model(self.extra@);
                let next = fields + em.take(i + 1);
                assert(next.drop_last() =~= fields + em.take(i as int));
                assert(next.last() == em[i as int]);
            }
            i = i + 1;
        }
        assert(entries_model(self.extra@).take(self.extra.len() as int) == entries_model(self.extra@));
        JsonValue::Object(out)
    }

    /// Returns link target URL.
    pub fn url(&self) -> (r: Option<&str>)
        ensures
            opt_slice(r) == non_empty(self@.url),
    {
        non_empty_str(&self.url)
    }

    /// Returns optional link title.
    pub fn title(&self) -> (r: Option<&str>)
        ensures
            opt_slice(r) == non_empty(self@.title),
    {
        non_empty_str(&self.title)
    }

    /// Returns optional link description.
    pub fn description(&self) -> (r: Option<&str>)
        ensures
            opt_slice(r) == non_empty(self@.description),
    {
        non_empty_str(&self.description)
    }

    /// Returns optional preview image URL.
    pub fn preview_url(&self) -> (r: Option<&str>)
        ensures
            opt_slice(r) == non_empty(self@.preview_url),
    {
        non_empty_str(&self.preview_url)
    }

    /// Returns unmodeled fields captured during decoding.
    pub fn extra(&self) -> (r: &Vec<JsonEntry>)
        ensures
            entries_model(r@) == self@.extra,
    {
        &self.extra
    }
}

/// Every entry that filtering keeps is an entry of the input.
pub proof fn lemma_other_entries_from(entries: Seq<(Seq<char>, JsonModel)>, known: Seq<Seq<char>>)
    ensures
        forall|i: int|
            0 <= i < other_entries(entries, known).len() ==> exists|j: int|
                0 <= j < entries.len() && #[trigger] other_entries(entries, known)[i] == entries[j],
    decreases entries.len(),
{
    if entries.len() > 0 {
        let front = entries.drop_last();
        lemma_other_entries_from(front, known);
        let r = other_entries(entries, known);
        assert forall|i: int| 0 <= i < r.len() implies exists|j: int|
            0 <= j < entries.len() && #[trigger] r[i] == entries[j] by {
            if i < other_entries(front, known).len() {
                let j = choose|j: int| 0 <= j < front.len() && other_entries(front, known)[i] == front[j];
                assert(entries[j] == front[j]);
            } else {
                assert(r[i] == entries[entries.len() - 1]);
            }
        }
    }
}

proof fn lemma_other_entries_prepend(
    x: (Seq<char>, JsonModel),
    s: Seq<(Seq<char>, JsonModel)>,
    known: Seq<Seq<char>>,
)
    ensures
        other_entries(seq![x] + s, known) == if known.contains(x.0) {
            other_entries(s, known)
        } else {
            seq![x] + other_entries(s, known)
        },
{
    lemma_other_entries_concat(seq![x], s, known);
    reveal_with_fuel(other_entries, 2);
    assert(seq![x].drop_last() =~= Seq::<(Seq<char>, JsonModel)>::empty());
    if known.contains(x.0) {
        assert(Seq::<(Seq<char>, JsonModel)>::empty() + other_entries(s, known) =~= other_entries(s, known));
    } else {
        assert(Seq::<(Seq<char>, JsonModel)>::empty().push(x) =~= seq![x]);
    }
}

/// Inserting a known key leaves the other entries as they were.
proof fn lemma_other_entries_insert_known(
    s: Seq<(Seq<char>, JsonModel)>,
    k: Seq<char>,
    v: JsonModel,
    known: Seq<Seq<char>>,
)
    requires
        known.contains(k),
    ensures
        other_entries(object_insert(s, k, v), known) == other_entries(s, known),
    decreases s.len(),
{
    if s.len() == 0 {
        lemma_other_entries_prepend((k, v), s, known);
        assert(seq![(k, v)] + s =~= seq![(k, v)]);
    } else {
        let rest = s.drop_first();
        assert(s =~= seq![s[0]] + rest);
        lemma_other_entries_prepend(s[0], rest, known);
        if s[0].0 == k {
            lemma_other_entries_prepend((k, v), rest, known);
        } else if text_less(k, s[0].0) {
            lemma_other_entries_prepend((k, v), s, known);
        } else {
            lemma_other_entries_insert_known(rest, k, v, known);
            lemma_other_entries_prepend(s[0], object_insert(rest, k, v), known);
        }
    }
}

/// In a sorted object, inserting a key that is not known and then keeping
/// the other entries is keeping them and then inserting.
proof fn lemma_other_entries_insert_other(
    s: Seq<(Seq<char>, JsonModel)>,
    k: Seq<char>,
    v: JsonModel,
    known: Seq<Seq<char>>,
)
    requires
        !known.contains(k),
        sorted_entries(s),
    ensures
        other_entries(object_insert(s, k, v), known) == object_insert(other_entries(s, known), k, v),
    decreases s.len(),
{
    if s.len() == 0 {
        lemma_other_entries_prepend((k, v), s, known);
        assert(seq![(k, v)] + s =~= seq![(k, v)]);
        assert(seq![(k, v)] + other_entries(s, known) =~= seq![(k, v)]);
    } else {
        let rest = s.drop_first();
        assert(s =~= seq![s[0]] + rest);
        assert(sorted_entries(rest)) by {
            assert forall|i: int, j: int| 0 <= i < j < rest.len() implies text_less(
                #[trigger] rest[i].0,
                #[trigger] rest[j].0,
            ) by {
                assert(text_less(s[i + 1].0, s[j + 1].0));
            }
        }
        lemma_other_entries_prepend(s[0], rest, known);
        let o = other_entries(s, known);
        if s[0].0 == k {
            lemma_other_entries_prepend((k, v), rest, known);
            assert(o == seq![s[0]] + other_entries(rest, known));
            assert(o[0] == s[0]);
            assert(o.drop_first() =~= other_entries(rest, known));
        } else if text_less(k, s[0].0) {
            lemma_other_entries_prepend((k, v), s, known);
            if o.len() > 0 {
                lemma_other_entries_from(s, known);
                let j = choose|j: int| 0 <= j < s.len() && o[0] == s[j];
                if j > 0 {
                    assert(text_less(s[0].0, s[j].0));
                    lemma_text_less_transitive(k, s[0].0, s[j].0);
                }
                lemma_text_less_irreflexive(k);
                assert(o[0].0 != k);
            } else {
                assert(seq![(k, v)] + o =~= seq![(k, v)]);
            }
        } else {
            lemma_other_entries_insert_other(rest, k, v, known);
            lemma_other_entries_prepend(s[0], object_insert(rest, k, v), known);
            if !known.contains(s[0].0) {
                let o2 = seq![s[0]] + other_entries(rest, known);
                assert(o2[0] == s[0]);
                assert(o2.drop_first() =~= other_entries(rest, known));
            }
        }
    }
}

/// In a sorted object, keeping the other entries after inserting entries
/// with other keys is inserting them into the kept entries.
proof fn lemma_other_entries_insert_all(
    m: Seq<(Seq<char>, JsonModel)>,
    e: Seq<(Seq<char>, JsonModel)>,
    known: Seq<Seq<char>>,
)
    requires
        sorted_entries(m),
        avoids_keys(e, known),
    ensures
        other_entries(insert_all(m, e), known) == insert_all(other_entries(m, known), e),
    decreases e.len(),
{
    if e.len() > 0 {
        let front = e.drop_last();
        assert(avoids_keys(front, known)) by {
            assert forall|i: int| 0 <= i < front.len() implies !known.contains(#[trigger] front[i].0) by {
                assert(front[i] == e[i]);
            }
        }
        lemma_other_entries_insert_all(m, front, known);
        lemma_insert_all_keeps_sorted(m, front);
        assert(!known.contains(e[e.len() - 1].0));
        lemma_other_entries_insert_other(insert_all(m, front), e.last().0, e.last().1, known);
    }
}

/// The four fields of encoded link metadata read back as they were, whenever
/// its extra entries use none of the four field names.
pub proof fn lemma_link_fields_read(l: LinkModel)
    requires
        avoids_keys(l.extra, link_keys()),
    ensures
        decode_link(link_json(l)) matches Some(d) && d.url == l.url && d.title == l.title
            && d.description == l.description && d.preview_url == l.preview_url,
{
    reveal_strlit("url");
    reveal_strlit("title");
    reveal_strlit("description");
    reveal_strlit("preview_url");
    let fields = link_fields(l);
    let known = link_keys();
    let empty = Seq::<(Seq<char>, JsonModel)>::empty();
    lemma_insert_all_concat(empty, fields, l.extra);
    let h = insert_all(empty, fields);
    let entries = insert_all(h, l.extra);
    assert(link_json(l) == JsonModel::Object(entries));
    let h1 = object_insert(empty, "url"@, text_or_null(l.url));
    let h2 = object_insert(h1, "title"@, text_or_null(l.title));
    let h3 = object_insert(h2, "description"@, text_or_null(l.description));
    let h4 = object_insert(h3, "preview_url"@, text_or_null(l.preview_url));
    assert(h == h4) by {
        reveal_with_fuel(insert_all, 5);
        assert(fields.drop_last().drop_last().drop_last().drop_last() =~= empty);
    }
    assert("url"@[0] == 'u' && "title"@[0] == 't' && "description"@[0] == 'd' && "preview_url"@[0] == 'p');
    assert(known[0] == "url"@ && known[1] == "title"@ && known[2] == "description"@ && known[3] == "preview_url"@);
    assert forall|q: Seq<char>| known.contains(q) implies lookup(entries, q) == lookup(h4, q) by {
        assert forall|j: int| 0 <= j < l.extra.len() implies #[trigger] l.extra[j].0 != q by {
            assert(!known.contains(l.extra[j].0));
        }
        lemma_lookup_insert_all_other(h4, l.extra, q);
    }
    assert(known.contains("url"@) && known.contains("title"@));
    assert(known.contains("description"@) && known.contains("preview_url"@));
    lemma_lookup_insert(h3, "preview_url"@, text_or_null(l.preview_url), "url"@);
    lemma_lookup_insert(h2, "description"@, text_or_null(l.description), "url"@);
    lemma_lookup_insert(h1, "title"@, text_or_null(l.title), "url"@);
    lemma_lookup_insert(empty, "url"@, text_or_null(l.url), "url"@);
    lemma_lookup_insert(h3, "preview_url"@, text_or_null(l.preview_url), "title"@);
    lemma_lookup_insert(h2, "description"@, text_or_null(l.description), "title"@);
    lemma_lookup_insert(h1, "title"@, text_or_null(l.title), "title"@);
    lemma_lookup_insert(h3, "preview_url"@, text_or_null(l.preview_url), "description"@);
    lemma_lookup_insert(h2, "description"@, text_or_null(l.description), "description"@);
    lemma_lookup_insert(h3, "preview_url"@, text_or_null(l.preview_url), "preview_url"@);
}

/// Encoding link metadata and decoding the result gives the metadata back,
/// whenever its extra entries use none of the four field names and are
/// sorted by key, each key once (as the map that holds them keeps them).
pub proof fn lemma_link_round_trip(l: LinkModel)
    requires
        avoids_keys(l.extra, link_keys()),
        sorted_entries(l.extra),
    ensures
        decode_link(link_json(l)) == Some(l),
{
    lemma_link_fields_read(l);
    reveal_strlit("url");
    reveal_strlit("title");
    reveal_strlit("description");
    reveal_strlit("preview_url");
    let fields = link_fields(l);
    let known = link_keys();
    let empty = Seq::<(Seq<char>, JsonModel)>::empty();
    lemma_insert_all_concat(empty, fields, l.extra);
    let h1 = object_insert(empty, "url"@, text_or_null(l.url));
    let h2 = object_insert(h1, "title"@, text_or_null(l.title));
    let h3 = object_insert(h2, "description"@, text_or_null(l.description));
    let h4 = object_insert(h3, "preview_url"@, text_or_null(l.preview_url));
    assert(insert_all(empty, fields) == h4) by {
        reveal_with_fuel(insert_all, 5);
        assert(fields.drop_last().drop_last().drop_last().drop_last() =~= empty);
    }
    assert(known[0] == "url"@ && known[1] == "title"@ && known[2] == "description"@ && known[3] == "preview_url"@);
    assert(known.contains("url"@) && known.contains("title"@));
    assert(known.contains("description"@) && known.contains("preview_url"@));
    lemma_object_insert_sorted(empty, "url"@, text_or_null(l.url));
    lemma_object_insert_sorted(h1, "title"@, text_or_null(l.title));
    lemma_object_insert_sorted(h2, "description"@, text_or_null(l.description));
    lemma_object_insert_sorted(h3, "preview_url"@, text_or_null(l.preview_url));
    lemma_other_entries_insert_all(h4, l.extra, known);
    lemma_other_entries_insert_known(h3, "preview_url"@, text_or_null(l.preview_url), known);
    lemma_other_entries_insert_known(h2, "description"@, text_or_null(l.description), known);
    lemma_other_entries_insert_known(h1, "title"@, text_or_null(l.title), known);
    lemma_other_entries_insert_known(empty, "url"@, text_or_null(l.url), known);
    assert(other_entries(empty, known) == empty);
    lemma_insert_all_sorted(l.extra);
}

/// The view of a typed payload.
pub enum PayloadModel {
    /// A decoded media payload.
    Media(FilePayloadModel),
    /// Decoded link metadata.
    Link(LinkModel),
    /// A payload kept as raw JSON.
    Unknown(JsonModel),
}

/// Type names that carry a media payload.
pub open spec fn is_media_name(name: Seq<char>) -> bool {
    name == "image"@ || name == "video"@ || name == "audio"@ || name == "file"@
}

/// The typed reading of a payload: media types decode a media payload, the
/// link type decodes link metadata, and whatever does not decode (or has any
/// other type) stays raw.
pub open spec fn typed_payload(name: Seq<char>, payload: JsonModel) -> PayloadModel {
    if is_media_name(name) {
        match decode_file_payload(payload) {
            Some(f) => PayloadModel::Media(f),
            None => PayloadModel::Unknown(payload),
        }
    } else if name == "link"@ {
        match decode_link(payload) {
            Some(l) => PayloadModel::Link(l),
            None => PayloadModel::Unknown(payload),
        }
    } else {
        PayloadModel::Unknown(payload)
    }
}

/// Typed view of attachment payload.
#[derive(Debug, Clone, PartialEq)]
pub enum AttachmentPayload {
    /// Media payload with upload token and optional metadata.
    Media(AttachmentFilePayload),
    /// Link payload with preview metadata.
    Link(LinkMetadata),
    /// Unknown payload kept as raw JSON.
    Unknown(JsonValue),
}

/// The view of a typed payload value.
pub open spec fn payload_view(p: AttachmentPayload) -> PayloadModel {
    match p {
        AttachmentPayload::Media(f) => PayloadModel::Media(f@),
        AttachmentPayload::Link(l) => PayloadModel::Link(l@),
        AttachmentPayload::Unknown(v) => PayloadModel::Unknown(model(v)),
    }
}

/// Errors returned by [`Attachment::validate_for_outbound`].
#[derive(Debug, Clone, PartialEq, Eq)]
pub enum AttachmentValidationError {
    /// Attachment type is not currently supported for outbound payloads.
    UnsupportedAttachmentType {
        /// Invalid type string.
        attachment_type: String,
    },
    /// Media payload does not include required token.
    MissingMediaToken {
        /// Media attachment type.
        attachment_type: String,
    },
    /// Link payload does not include URL.
    MissingLinkUrl,
}

/// Text of an attachment validation error.
pub open spec fn attachment_error_text(e: AttachmentValidationError) -> Seq<char> {
    match e {
        AttachmentValidationError::UnsupportedAttachmentType { attachment_type } =>
            "unsupported attachment type '"@ + attachment_type@ + "'"@,
        AttachmentValidationError::MissingMediaToken { attachment_type } =>
            "attachment type '"@ + attachment_type@ + "' must include non-empty payload token"@,
        AttachmentValidationError::MissingLinkUrl => "link attachment payload must include non-empty url"@,
    }
}

impl AttachmentValidationError {
    /// Human-readable description of the failure.
    pub fn message(&self) -> (text: String)
        ensures
            text@ == attachment_error_text(*self),
    {
        match self {
            AttachmentValidationError::UnsupportedAttachmentType { attachment_type } => {
                let mut s = String::from_str("unsupported attachment type '");
                s.append(attachment_type.as_str());
                s.append("'");
                s
            },
            AttachmentValidationError::MissingMediaToken { attachment_type } => {
                let mut s = String::from_str("attachment type '");
                s.append(attachment_type.as_str());
                s.append("' must include non-empty payload token");
                s
            },
            AttachmentValidationError::MissingLinkUrl => String::from_str(
                "link attachment payload must include non-empty url",
            ),
        }
    }
}

/// A media payload that carries a non-blank token.
pub open spec fn has_media_token(payload: JsonModel) -> bool {
    match decode_file_payload(payload) {
        Some(f) => non_empty(f.token) is Some,
        None => false,
    }
}

/// Link metadata that carries a non-blank URL.
pub open spec fn has_link_url(payload: JsonModel) -> bool {
    match decode_link(payload) {
        Some(l) => non_empty(l.url) is Some,
        None => false,
    }
}

/// An attachment of the given type name and payload can be sent.
pub open spec fn outbound_ok(name: Seq<char>, payload: JsonModel) -> bool {
    if is_media_name(name) {
        has_media_token(payload)
    } else if name == "link"@ {
        has_link_url(payload)
    } else {
        false
    }
}

/// The error that outbound validation reports for an attachment type name.
pub open spec fn attachment_error_matches(e: AttachmentValidationError, name: Seq<char>) -> bool {
    match e {
        AttachmentValidationError::UnsupportedAttachmentType { attachment_type } => !is_media_name(name)
            && name != "link"@ && attachment_type@ == name,
        AttachmentValidationError::MissingMediaToken { attachment_type } => is_media_name(name)
            && attachment_type@ == name,
        AttachmentValidationError::MissingLinkUrl => !is_media_name(name) && name == "link"@,
    }
}

/// MAX attachment entity.
#[derive(Debug, Clone, PartialEq)]
pub struct Attachment {
    kind: AttachmentType,
    payload: JsonValue,
}

impl View for Attachment {
    type V = (AttachmentType, JsonModel);

    closed spec fn view(&self) -> (AttachmentType, JsonModel) {
        (self.kind, model(self.payload))
    }
}

/// Whether a type name carries a media payload.
fn media_name(name: &str) -> (r: bool)
    ensures
        r == is_media_name(name@),
{
    crate::text::str_eq(name, "image") || crate::text::str_eq(name, "video") || crate::text::str_eq(
        name,
        "audio",
    ) || crate::text::str_eq(name, "file")
}

impl Attachment {
    /// Creates attachment from explicit type and raw payload JSON.
    pub fn new(kind: AttachmentType, payload: JsonValue) -> (a: Self)
        ensures
            a@ == (kind, model(payload)),
    {
        Attachment { kind, payload }
    }

    /// Creates media attachment payload from upload token.
    pub fn media_token(kind: KnownAttachmentType, token: String) -> (a: Self)
        ensures
            a@ == (
                AttachmentType::Known(kind),
                JsonModel::Object(seq![("token"@, JsonModel::Text(token@))]),
            ),
    {
        let mut entries: Vec<JsonEntry> = Vec::new();
        push_entry(&mut entries, JsonEntry { key: String::from_str("token"), value: JsonValue::String(token) });
        assert(entries_model(entries@) =~= seq![("token"@, JsonModel::Text(token@))]);
        Attachment::new(AttachmentType::Known(kind), JsonValue::Object(entries))
    }

    /// Creates link attachment payload from structured metadata.
    pub fn link(link: LinkMetadata) -> (a: Self)
        ensures
            a@ == (AttachmentType::Known(KnownAttachmentType::Link), link_json(link@)),
    {
        let payload = link.to_json();
        Attachment::new(AttachmentType::Known(KnownAttachmentType::Link), payload)
    }

    /// Returns attachment type descriptor.
    pub fn kind(&self) -> (k: &AttachmentType)
        ensures
            *k == self@.0,
    {
        &self.kind
    }

    /// Returns raw payload JSON.
    pub fn raw_payload(&self) -> (p: &JsonValue)
        ensures
            model(*p) == self@.1,
    {
        &self.payload
    }

    /// Returns typed payload representation.
    pub fn payload(&self) -> (p: AttachmentPayload)
        ensures
            payload_view(p) == typed_payload(attachment_type_name(self@.0), self@.1),
    {
        let name = self.kind.as_str();
        if media_name(name) {
            match AttachmentFilePayload::from_json(&self.payload) {
                Some(f) => AttachmentPayload::Media(f),
                None => AttachmentPayload::Unknown(clone_value(&self.payload)),
            }
        } else if crate::text::str_eq(name, "link") {
            match LinkMetadata::from_json(&self.payload) {
                Some(l) => AttachmentPayload::Link(l),
                None => AttachmentPayload::Unknown(clone_value(&self.payload)),
            }
        } else {
            AttachmentPayload::Unknown(clone_value(&self.payload))
        }
    }

    /// Validates outbound attachment payload for known SDK-supported types.
    pub fn validate_for_outbound(&self) -> (r: Result<(), AttachmentValidationError>)
        ensures
            r is Ok <==> outbound_ok(attachment_type_name(self@.0), self@.1),
            r matches Err(e) ==> attachment_error_matches(e, attachment_type_name(self@.0)),
    {
        let name = self.kind.as_str();
        if media_name(name) {
            match self.payload() {
                AttachmentPayload::Media(media) => {
                    if media.token().is_some() {
                        return Ok(());
                    }
                },
                _ => {},
            }
            Err(AttachmentValidationError::MissingMediaToken { attachment_type: name.to_string() })
        } else if crate::text::str_eq(name, "link") {
            match self.payload() {
                AttachmentPayload::Link(link) => {
                    if link.url().is_some() {
                        return Ok(());
                    }
                },
                _ => {},
            }
            Err(AttachmentValidationError::MissingLinkUrl)
        } else {
            Err(
                AttachmentValidationError::UnsupportedAttachmentType {
                    attachment_type: name.to_string(),
                },
            )
        }
    }
}

} // verus!
