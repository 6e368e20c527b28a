//! Client of the remote language model server.

use vstd::prelude::*;
use crate::json::{flag_field, is_object, json_document, json_document_in, number_field,
    optional_number_field, optional_text_field, parse_document, parse_document_bytes,
    present_member, read_flag, read_number, read_optional_number, read_optional_text,
    read_present, read_text, read_text_or_empty, text_field, text_or_empty_field, Json};
use crate::services::{chain, plain_answer, read_plain, request_below, request_fits, HttpReply,
    Method, Payload, Request, ServiceError};
use crate::text::{contains, lowercase, optional_view, str_contains, to_lowercase};
use crate::utils::image_utils::{no_decimal, one_decimal, push_no_decimal, push_one_decimal, GB,
    MB};

verus! {

/// Details of a model.
#[derive(Debug, Clone, PartialEq, Eq)]
pub struct ModelDetails {
    pub format: Option<String>,
    pub family: Option<String>,
    pub parameter_size: Option<String>,
    pub quantization_level: Option<String>,
}

/// What the details of a model say.
pub struct DetailsView {
    pub format: Option<Seq<char>>,
    pub family: Option<Seq<char>>,
    pub parameter_size: Option<Seq<char>>,
    pub quantization_level: Option<Seq<char>>,
}

impl View for ModelDetails {
    type V = DetailsView;

    open spec fn view(&self) -> DetailsView {
        DetailsView {
            format: optional_view(self.format),
            family: optional_view(self.family),
            parameter_size: optional_view(self.parameter_size),
            quantization_level: optional_view(self.quantization_level),
        }
    }
}

/// A model that the server holds.
#[derive(Debug, Clone, PartialEq, Eq)]
pub struct OllamaModel {
    pub name: String,
    pub size: u64,
    pub digest: String,
    pub modified_at: Option<String>,
    pub details: Option<ModelDetails>,
}

/// What the description of a model says.
pub struct ModelView {
    pub name: Seq<char>,
    pub size: u64,
    pub digest: Seq<char>,
    pub modified_at: Option<Seq<char>>,
    pub details: Option<DetailsView>,
}

impl View for OllamaModel {
    type V = ModelView;

    open spec fn view(&self) -> ModelView {
        ModelView {
            name: self.name@,
            size: self.size,
            digest: self.digest@,
            modified_at: optional_view(self.modified_at),
            details: match self.details {
                Some(d) => Some(d@),
                None => None,
            },
        }
    }
}

/// What the lower-case form of a model's name says of the model: it takes
/// images where the name holds `llava`, `moondream`, `bakllava` or `vision`.
pub open spec fn names_vision_model(lower: Seq<char>) -> bool {
    contains(lower, "llava"@) || contains(lower, "moondream"@) || contains(lower, "bakllava"@)
        || contains(lower, "vision"@)
}

/// Whether the lower-case form of a model's name marks a model that takes
/// images.
pub fn is_vision_name(lower: &str) -> (r: bool)
    ensures
        r == names_vision_model(lower@),
{
    str_contains(lower, "llava") || str_contains(lower, "moondream") || str_contains(
        lower,
        "bakllava",
    ) || str_contains(lower, "vision")
}

/// The size of a model as people read it: in gigabytes with one decimal
/// place from a gigabyte on, and in whole megabytes below.
pub open spec fn size_text(size: u64) -> Seq<char> {
    if size >= GB {
        one_decimal(size as nat, GB as nat) + " GB"@
    } else {
        no_decimal(size as nat, MB as nat) + " MB"@
    }
}

/// The details that a document describes: an object whose four members are
/// each a string, null or missing.
pub open spec fn decoded_details(doc: Json) -> Option<DetailsView> {
    if doc is Object {
        match (
            optional_text_field(doc, "format"@),
            optional_text_field(doc, "family"@),
            optional_text_field(doc, "parameter_size"@),
            optional_text_field(doc, "quantization_level"@),
        ) {
            (Some(format), Some(family), Some(parameter_size), Some(quantization_level)) => Some(
                DetailsView {
                    format: optional_view(format),
                    family: optional_view(family),
                    parameter_size: optional_view(parameter_size),
                    quantization_level: optional_view(quantization_level),
                },
            ),
            _ => None,
        }
    } else {
        None
    }
}

/// The details that the member `details` of a model describes. The outer
/// level is nothing where the member is malformed; the inner level is nothing
/// where it is missing or null.
pub open spec fn decoded_details_member(doc: Json) -> Option<Option<DetailsView>> {
    match present_member(doc, "details"@) {
        None => Some(None),
        Some(d) => match decoded_details(d) {
            Some(details) => Some(Some(details)),
            None => None,
        },
    }
}

/// The model that a document describes: an object with the string `name`;
/// its size and digest may be missing and then count as zero and empty.
pub open spec fn decoded_model(doc: Json) -> Option<ModelView> {
    if doc is Object {
        match (
            text_field(doc, "name"@),
            number_field(doc, "size"@),
            text_or_empty_field(doc, "digest"@),
            optional_text_field(doc, "modified_at"@),
            decoded_details_member(doc),
        ) {
            (Some(name), Some(size), Some(digest), Some(modified_at), Some(details)) => Some(
                ModelView {
                    name: name@,
                    size,
                    digest,
                    modified_at: optional_view(modified_at),
                    details,
                },
            ),
            _ => None,
        }
    } else {
        None
    }
}

/// The models that a list of documents describes; nothing where one of them
/// describes no model.
pub open spec fn decoded_models(items: Seq<Json>) -> Option<Seq<ModelView>>
    decreases items.len(),
{
    if items.len() == 0 {
        Some(Seq::empty())
    } else {
        match (decoded_models(items.drop_last()), decoded_model(items.last())) {
            (Some(models), Some(model)) => Some(models.push(model)),
            _ => None,
        }
    }
}

/// What a list of models says.
pub open spec fn model_views(models: Seq<OllamaModel>) -> Seq<ModelView> {
    models.map_values(|m: OllamaModel| m@)
}

/// The models among `models` that take images, in order.
pub open spec fn vision_among(models: Seq<ModelView>) -> Seq<ModelView>
    decreases models.len(),
{
    if models.len() == 0 {
        Seq::empty()
    } else if names_vision_model(lowercase(models.last().name)) {
        vision_among(models.drop_last()).push(models.last())
    } else {
        vision_among(models.drop_last())
    }
}

impl ModelDetails {
    /// Reads the details that a document describes.
    pub fn from_json(doc: &Json) -> (r: Option<ModelDetails>)
        ensures
            match r {
                Some(d) => decoded_details(*doc) == Some(d@),
                None => decoded_details(*doc) is None,
            },
    {
        if !is_object(doc) {
            return None;
        }
        match (
            read_optional_text(doc, "format"),
            read_optional_text(doc, "family"),
            read_optional_text(doc, "parameter_size"),
            read_optional_text(doc, "quantization_level"),
        ) {
            (Some(format), Some(family), Some(parameter_size), Some(quantization_level)) => Some(
                ModelDetails { format, family, parameter_size, quantization_level },
            ),
            _ => None,
        }
    }
}

impl OllamaModel {
    /// Reads the model that a document describes.
    pub fn from_json(doc: &Json) -> (r: Option<OllamaModel>)
        ensures
            match r {
                Some(m) => decoded_model(*doc) == Some(m@),
                None => decoded_model(*doc) is None,
            },
    {
        if !is_object(doc) {
            return None;
        }
        let details = match read_present(doc, "details") {
            None => None,
            Some(d) => match ModelDetails::from_json(d) {
                Some(details) => Some(details),
                None => {
                    return None;
                },
            },
        };
        match (
            read_text(doc, "name"),
            read_number(doc, "size"),
            read_text_or_empty(doc, "digest"),
            read_optional_text(doc, "modified_at"),
        ) {
            (Some(name), Some(size), Some(digest), Some(modified_at)) => Some(
                OllamaModel { name, size, digest, modified_at, details },
            ),
            _ => None,
        }
    }

    /// The size of the model as people read it.
    pub fn size_str(&self) -> (r: String)
        ensures
            r@ == size_text(self.size),
    {
        let mut r = String::new();
        if self.size >= GB {
            push_one_decimal(&mut r, self.size, GB);
            r.append(" GB");
        } else {
            push_no_decimal(&mut r, self.size, MB);
            r.append(" MB");
        }
        assert(r@ =~= size_text(self.size));
        r
    }

    /// Whether this is a model that takes images, going by its name in lower
    /// case.
    pub fn is_vision_model(&self) -> (r: bool)
        ensures
            r == names_vision_model(lowercase(self.name@)),
    {
        let lower = to_lowercase(self.name.as_str());
        is_vision_name(lower.as_str())
    }

    /// A copy of the model.
    pub fn copy(&self) -> (r: OllamaModel)
        ensures
            r@ == self@,
    {
        OllamaModel {
            name: self.name.clone(),
            size: self.size,
            digest: self.digest.clone(),
            modified_at: copy_optional(&self.modified_at),
            details: match &self.details {
                Some(d) => Some(
                    ModelDetails {
                        format: copy_optional(&d.format),
                        family: copy_optional(&d.family),
                        parameter_size: copy_optional(&d.parameter_size),
                        quantization_level: copy_optional(&d.quantization_level),
                    },
                ),
                None => None,
            },
        }
    }
}

/// A copy of a string that may be missing.
pub fn copy_optional(s: &Option<String>) -> (r: Option<String>)
    ensures
        r == *s,
{
    match s {
        Some(s) => Some(s.clone()),
        None => None,
    }
}

/// Reads the models that a list of documents describes.
pub fn read_models(items: &Vec<Json>) -> (r: Option<Vec<OllamaModel>>)
    ensures
        match r {
            Some(models) => decoded_models(items@) == Some(model_views(models@)),
            None => decoded_models(items@) is None,
        },
{
    let mut out: Vec<OllamaModel> = Vec::new();
    let mut i: usize = 0;
    assert(items@.take(0) =~= Seq::<Json>::empty());
    assert(model_views(out@) =~= Seq::<ModelView>::empty());
    while i < items.len()
        invariant
            i <= items.len(),
            decoded_models(items@.take(i as int)) == Some(model_views(out@)),
        decreases items.len() - i,
    {
        proof {
            assert(items@.take(i + 1).drop_last() =~= items@.take(i as int));
            assert(items@.take(i + 1).last() == items@[i as int]);
        }
        match OllamaModel::from_json(&items[i]) {
            Some(model) => {
                let ghost before = out@;
                out.push(model);
                assert(model_views(out@) =~= model_views(before).push(model@));
            },
            None => {
                proof {
                    lemma_models_need_every_item(items@, i as int + 1);
                }
                return None;
            },
        }
        i += 1;
    }
    assert(items@.take(items@.len() as int) =~= items@);
    Some(out)
}

/// A list describes no models where a beginning of it describes none.
pub proof fn lemma_models_need_every_item(items: Seq<Json>, k: int)
    requires
        0 <= k <= items.len(),
        decoded_models(items.take(k)) is None,
    ensures
        decoded_models(items) is None,
    decreases items.len(),
{
    if k == items.len() {
        assert(items.take(k) =~= items);
    } else {
        assert(items.drop_last().take(k) =~= items.take(k));
        lemma_models_need_every_item(items.drop_last(), k);
    }
}

/// The models among `models` that take images, in order.
pub fn vision_models(models: &Vec<OllamaModel>) -> (r: Vec<OllamaModel>)
    ensures
        model_views(r@) == vision_among(model_views(models@)),
{
    let mut out: Vec<OllamaModel> = Vec::new();
    let mut i: usize = 0;
    let ghost all = model_views(models@);
    assert(all.take(0) =~= Seq::<ModelView>::empty());
    assert(model_views(out@) =~= Seq::<ModelView>::empty());
    while i < models.len()
        invariant
            i <= models.len(),
            all == model_views(models@),
            model_views(out@) == vision_among(all.take(i as int)),
        decreases models.len() - i,
    {
        proof {
            assert(all.take(i + 1).drop_last() =~= all.take(i as int));
            assert(all.take(i + 1).last() == models@[i as int]@);
        }
        if models[i].is_vision_model() {
            let ghost before = out@;
            let copy = models[i].copy();
            out.push(copy);
            assert(model_views(out@) =~= model_views(before).push(copy@));
        }
        i += 1;
    }
    assert(all.take(all.len() as int) =~= all);
    out
}

/// What to send to ask a model for a response.
#[derive(Debug, Clone, PartialEq, Eq)]
pub struct GenerateRequest {
    pub model: String,
    pub prompt: String,
    /// The images that go with the prompt, each as base64 text.
    pub images: Option<Vec<String>>,
    pub stream: bool,
}

/// What to send to have a model downloaded.
#[derive(Debug, Clone, PartialEq, Eq)]
pub struct PullRequest {
    pub name: String,
    pub stream: bool,
}

/// One report of the progress of a download.
#[derive(Debug, Clone, PartialEq, Eq)]
pub struct PullProgress {
    pub status: String,
    pub digest: Option<String>,
    pub total: Option<u64>,
    pub completed: Option<u64>,
}

/// What a report of progress says.
pub struct PullProgressView {
    pub status: Seq<char>,
    pub digest: Option<Seq<char>>,
    pub total: Option<u64>,
    pub completed: Option<u64>,
}

impl View for PullProgress {
    type V = PullProgressView;

    open spec fn view(&self) -> PullProgressView {
        PullProgressView {
            status: self.status@,
            digest: optional_view(self.digest),
            total: self.total,
            completed: self.completed,
        }
    }
}

/// The report that a document describes: an object whose status may be
/// missing, and then is empty, and whose other members may be missing or
/// null.
pub open spec fn decoded_pull_progress(doc: Json) -> Option<PullProgressView> {
    if doc is Object {
        match (
            text_or_empty_field(doc, "status"@),
            optional_text_field(doc, "digest"@),
            optional_number_field(doc, "total"@),
            optional_number_field(doc, "completed"@),
        ) {
            (Some(status), Some(digest), Some(total), Some(completed)) => Some(
                PullProgressView { status, digest: optional_view(digest), total, completed },
            ),
            _ => None,
        }
    } else {
        None
    }
}

/// The report that one line of the download's answer holds; nothing where
/// the line is no JSON document or describes no report.
pub open spec fn decoded_pull_line(line: Seq<u8>) -> Option<PullProgressView> {
    match json_document_in(line) {
        Some(doc) => decoded_pull_progress(doc),
        None => None,
    }
}

impl PullProgress {
    /// Reads the report that a document describes.
    pub fn from_json(doc: &Json) -> (r: Option<PullProgress>)
        ensures
            match r {
                Some(p) => decoded_pull_progress(*doc) == Some(p@),
                None => decoded_pull_progress(*doc) is None,
            },
    {
        if !is_object(doc) {
            return None;
        }
        match (
            read_text_or_empty(doc, "status"),
            read_optional_text(doc, "digest"),
            read_optional_number(doc, "total"),
            read_optional_number(doc, "completed"),
        ) {
            (Some(status), Some(digest), Some(total), Some(completed)) => Some(
                PullProgress { status, digest, total, completed },
            ),
            _ => None,
        }
    }

    /// Reads the report that one line of the download's answer holds.
    pub fn from_line(line: &[u8]) -> (r: Option<PullProgress>)
        ensures
            match r {
                Some(p) => decoded_pull_line(line@) == Some(p@),
                None => decoded_pull_line(line@) is None,
            },
    {
        match parse_document_bytes(line) {
            Some(doc) => PullProgress::from_json(&doc),
            None => None,
        }
    }

    /// The report that stands for a request that could not be sent.
    pub fn failed(reason: &str) -> (r: PullProgress)
        ensures
            r.status@ == "Error: "@ + reason@,
            r.digest is None,
            r.total is None,
            r.completed is None,
    {
        PullProgress {
            status: chain("Error: ", reason),
            digest: None,
            total: None,
            completed: None,
        }
    }
}

/// The byte that ends a line.
pub const NEWLINE: u8 = 10;

/// The complete lines in `bytes` from position `i` on, each with the newline
/// that ends it; `start` is where the line around `i` begins.
pub open spec fn complete_lines(bytes: Seq<u8>, start: int, i: int) -> Seq<Seq<u8>>
    decreases bytes.len() - i,
{
    if i < 0 || i >= bytes.len() {
        Seq::empty()
    } else if bytes[i] == NEWLINE {
        seq![bytes.subrange(start, i + 1)] + complete_lines(bytes, i + 1, i + 1)
    } else {
        complete_lines(bytes, start, i + 1)
    }
}

/// What follows the last newline in `bytes`, seen from position `i`.
pub open spec fn unfinished_line(bytes: Seq<u8>, start: int, i: int) -> Seq<u8>
    decreases bytes.len() - i,
{
    if i < 0 || i >= bytes.len() {
        bytes.subrange(start, bytes.len() as int)
    } else if bytes[i] == NEWLINE {
        unfinished_line(bytes, i + 1, i + 1)
    } else {
        unfinished_line(bytes, start, i + 1)
    }
}

/// The bytes of a list of lines.
pub open spec fn line_views(lines: Seq<Vec<u8>>) -> Seq<Seq<u8>> {
    lines.map_values(|l: Vec<u8>| l@)
}

/// The lines of `lines` written one after the other.
pub open spec fn written_out(lines: Seq<Seq<u8>>) -> Seq<u8>
    decreases lines.len(),
{
    if lines.len() == 0 {
        Seq::empty()
    } else {
        lines[0] + written_out(lines.drop_first())
    }
}

/// A run of bytes holds no newline.
pub open spec fn no_newline(bytes: Seq<u8>) -> bool {
    forall|k: int| 0 <= k < bytes.len() ==> bytes[k] != NEWLINE
}

/// A run of bytes is one line: it ends with a newline and holds no other.
pub open spec fn is_line(bytes: Seq<u8>) -> bool {
    bytes.len() > 0 && bytes.last() == NEWLINE && no_newline(bytes.drop_last())
}

/// What holds of the lines cut from position `i` on, where the line around
/// `i` begins at `start` and holds no newline before `i`.
pub proof fn lemma_lines_from(bytes: Seq<u8>, start: int, i: int)
    requires
        0 <= start <= i <= bytes.len(),
        no_newline(bytes.subrange(start, i)),
    ensures
        written_out(complete_lines(bytes, start, i)) + unfinished_line(bytes, start, i)
            == bytes.subrange(start, bytes.len() as int),
        no_newline(unfinished_line(bytes, start, i)),
        forall|k: int|
            0 <= k < complete_lines(bytes, start, i).len() ==> is_line(
                #[trigger] complete_lines(bytes, start, i)[k],
            ),
    decreases bytes.len() - i,
{
    let whole = bytes.subrange(start, bytes.len() as int);
    if i >= bytes.len() {
        assert(written_out(complete_lines(bytes, start, i)) + unfinished_line(bytes, start, i)
            =~= whole);
    } else if bytes[i] == NEWLINE {
        assert(bytes.subrange(i + 1, i + 1) =~= Seq::<u8>::empty());
        lemma_lines_from(bytes, i + 1, i + 1);
        let first = bytes.subrange(start, i + 1);
        let rest = complete_lines(bytes, i + 1, i + 1);
        assert((seq![first] + rest).drop_first() =~= rest);
        assert(written_out(seq![first] + rest) == first + written_out(rest));
        assert(first + bytes.subrange(i + 1, bytes.len() as int) =~= whole);
        assert(first + written_out(rest) + unfinished_line(bytes, i + 1, i + 1) =~= first + (
        written_out(rest) + unfinished_line(bytes, i + 1, i + 1)));
        assert(first.drop_last() =~= bytes.subrange(start, i));
        assert(is_line(first));
        assert forall|k: int| 0 <= k < (seq![first] + rest).len() implies is_line(
            #[trigger] (seq![first] + rest)[k],
        ) by {
            if k > 0 {
                assert((seq![first] + rest)[k] == rest[k - 1]);
            }
        }
    } else {
        let longer = bytes.subrange(start, i + 1);
        assert forall|k: int| 0 <= k < longer.len() implies #[trigger] longer[k] != NEWLINE by {
            if k < i - start {
                assert(bytes.subrange(start, i)[k] != NEWLINE);
            }
        }
        lemma_lines_from(bytes, start, i + 1);
    }
}

/// Cutting into lines takes nothing away and adds nothing: the complete
/// lines written one after the other, followed by what is left, are the
/// bytes that came in; each complete line ends with its newline and holds no
/// other; and what is left holds none.
pub proof fn law_lines_keep_every_byte(bytes: Seq<u8>)
    ensures
        written_out(complete_lines(bytes, 0, 0)) + unfinished_line(bytes, 0, 0) == bytes,
        no_newline(unfinished_line(bytes, 0, 0)),
        forall|k: int|
            0 <= k < complete_lines(bytes, 0, 0).len() ==> is_line(
                #[trigger] complete_lines(bytes, 0, 0)[k],
            ),
{
    assert(bytes.subrange(0, 0) =~= Seq::<u8>::empty());
    lemma_lines_from(bytes, 0, 0);
    assert(bytes.subrange(0, bytes.len() as int) =~= bytes);
}

/// Cutting does not depend on where the scan is said to begin: the lines
/// and the rest are those of the bytes from `start` on.
pub proof fn lemma_lines_shift(bytes: Seq<u8>, start: int, i: int)
    requires
        0 <= start <= i <= bytes.len(),
    ensures
        complete_lines(bytes, start, i) == complete_lines(bytes.skip(start), 0, i - start),
        unfinished_line(bytes, start, i) == unfinished_line(bytes.skip(start), 0, i - start),
    decreases bytes.len() - i,
{
    let tail = bytes.skip(start);
    if i >= bytes.len() {
        assert(bytes.subrange(start, bytes.len() as int) =~= tail.subrange(0, tail.len() as int));
    } else if bytes[i] == NEWLINE {
        lemma_lines_shift(bytes, i + 1, i + 1);
        lemma_lines_shift(tail, i + 1 - start, i + 1 - start);
        assert(tail.skip(i + 1 - start) =~= bytes.skip(i + 1));
        assert(bytes.subrange(start, i + 1) =~= tail.subrange(0, i + 1 - start));
    } else {
        lemma_lines_shift(bytes, start, i + 1);
    }
}

/// Where the bytes before `k` hold no newline, it makes no difference from
/// which of them the scan sets out.
pub proof fn lemma_lines_skip_prefix(bytes: Seq<u8>, j: int, k: int)
    requires
        0 <= j <= k <= bytes.len(),
        no_newline(bytes.subrange(0, k)),
    ensures
        complete_lines(bytes, 0, j) == complete_lines(bytes, 0, k),
        unfinished_line(bytes, 0, j) == unfinished_line(bytes, 0, k),
    decreases k - j,
{
    if j < k {
        assert(bytes.subrange(0, k)[j] != NEWLINE);
        lemma_lines_skip_prefix(bytes, j + 1, k);
    }
}

/// What holds of cutting `a` followed by `b`, seen from position `i` of
/// `a`, where the line around `i` begins at `start` and holds no newline
/// before `i`.
pub proof fn lemma_lines_of_pieces(a: Seq<u8>, b: Seq<u8>, start: int, i: int)
    requires
        0 <= start <= i <= a.len(),
        no_newline(a.subrange(start, i)),
    ensures
        complete_lines(a + b, start, i) == complete_lines(a, start, i) + complete_lines(
            unfinished_line(a, start, i) + b,
            0,
            0,
        ),
        unfinished_line(a + b, start, i) == unfinished_line(
            unfinished_line(a, start, i) + b,
            0,
            0,
        ),
    decreases a.len() - i,
{
    let whole = a + b;
    if i >= a.len() {
        let rest = a.subrange(start, a.len() as int);
        lemma_lines_shift(whole, start, i);
        assert(whole.skip(start) =~= rest + b);
        assert((rest + b).subrange(0, rest.len() as int) =~= rest);
        lemma_lines_skip_prefix(rest + b, 0, rest.len() as int);
        assert(complete_lines(a, start, i) + complete_lines(rest + b, 0, 0) =~= complete_lines(
            rest + b,
            0,
            0,
        ));
    } else if a[i] == NEWLINE {
        assert(a.subrange(i + 1, i + 1) =~= Seq::<u8>::empty());
        lemma_lines_of_pieces(a, b, i + 1, i + 1);
        assert(whole.subrange(start, i + 1) =~= a.subrange(start, i + 1));
        let first = seq![a.subrange(start, i + 1)];
        let later = complete_lines(unfinished_line(a, i + 1, i + 1) + b, 0, 0);
        assert(first + (complete_lines(a, i + 1, i + 1) + later) =~= (first + complete_lines(
            a,
            i + 1,
            i + 1,
        )) + later);
    } else {
        let longer = a.subrange(start, i + 1);
        assert forall|k: int| 0 <= k < longer.len() implies #[trigger] longer[k] != NEWLINE by {
            if k < i - start {
                assert(a.subrange(start, i)[k] != NEWLINE);
            }
        }
        lemma_lines_of_pieces(a, b, start, i + 1);
    }
}

/// It makes no difference in which pieces the bytes come in: the lines cut
/// from a first piece, followed by the lines cut from what was left of it
/// together with a second piece, are the lines of the two pieces taken as
/// one, and the same bytes are left.
pub proof fn law_pieces_do_not_matter(a: Seq<u8>, b: Seq<u8>)
    ensures
        complete_lines(a + b, 0, 0) == complete_lines(a, 0, 0) + complete_lines(
            unfinished_line(a, 0, 0) + b,
            0,
            0,
        ),
        unfinished_line(a + b, 0, 0) == unfinished_line(unfinished_line(a, 0, 0) + b, 0, 0),
{
    assert(a.subrange(0, 0) =~= Seq::<u8>::empty());
    lemma_lines_of_pieces(a, b, 0, 0);
}

/// The bytes of an answer that comes in pieces, cut into lines.
#[derive(Debug, Clone, PartialEq, Eq)]
pub struct LineBuffer {
    /// The bytes that came in after the last complete line.
    pub pending: Vec<u8>,
}

impl LineBuffer {
    /// A buffer that holds nothing.
    pub fn new() -> (r: LineBuffer)
        ensures
            r.pending@.len() == 0,
    {
        LineBuffer { pending: Vec::new() }
    }

    /// Takes in the next piece of the answer and hands out the lines that it
    /// completes, each with its newline; what follows the last newline is
    /// kept for the next piece.
    pub fn push_chunk(&mut self, chunk: &[u8]) -> (lines: Vec<Vec<u8>>)
        ensures
            line_views(lines@) == complete_lines(old(self).pending@ + chunk@, 0, 0),
            final(self).pending@ == unfinished_line(old(self).pending@ + chunk@, 0, 0),
    {
        let mut all: Vec<u8> = Vec::new();
        all.extend_from_slice(self.pending.as_slice());
        all.extend_from_slice(chunk);
        let ghost bytes = old(self).pending@ + chunk@;
        assert(all@ =~= bytes);
        let mut lines: Vec<Vec<u8>> = Vec::new();
        let mut current: Vec<u8> = Vec::new();
        let ghost mut start: int = 0;
        let mut i: usize = 0;
        assert(line_views(lines@) =~= Seq::<Seq<u8>>::empty());
        while i < all.len()
            invariant
                all@ == bytes,
                0 <= start <= i <= all.len(),
                current@ =~= bytes.subrange(start, i as int),
                line_views(lines@) + complete_lines(bytes, start, i as int) =~= complete_lines(
                    bytes,
                    0,
                    0,
                ),
                unfinished_line(bytes, start, i as int) == unfinished_line(bytes, 0, 0),
            decreases all.len() - i,
        {
            let b = all[i];
            current.push(b);
            assert(current@ =~= bytes.subrange(start, i + 1));
            if b == NEWLINE {
                let ghost line = current@;
                let ghost before = lines@;
                lines.push(current);
                assert(line_views(lines@) =~= line_views(before) + seq![line]);
                current = Vec::new();
                proof {
                    start = i + 1;
                }
            }
            i += 1;
        }
        self.pending = current;
        lines
    }
}

/// The standard base64 text of a run of bytes, with padding, as the
/// `base64` crate writes it.
pub uninterp spec fn base64_text(bytes: Seq<u8>) -> Seq<char>;

/// `base64::Engine::encode` with the engine
/// `base64::engine::general_purpose::STANDARD`: the standard base64 text of
/// `bytes`.
#[verifier::external_body]
fn encode_base64(bytes: &[u8]) -> (r: String)
    ensures
        r@ == base64_text(bytes@),
{
    base64::Engine::encode(&base64::engine::general_purpose::STANDARD, bytes)
}

/// What an answer to a request for a response holds: the text under
/// `response`. The answer has to be a JSON object with that string, and its
/// member `done`, if it has one, a truth value.
pub open spec fn generate_answer(reply: HttpReply) -> Result<String, ServiceError> {
    if !reply.succeeded() {
        Err(ServiceError::Rejected { status: reply.status, body: reply.body })
    } else {
        match json_document(reply.body@) {
            Some(doc) => match (doc is Object, text_field(doc, "response"@), flag_field(
                doc,
                "done"@,
            )) {
                (true, Some(response), Some(_)) => Ok(response),
                _ => Err(ServiceError::Protocol),
            },
            None => Err(ServiceError::Protocol),
        }
    }
}

/// What an answer to the request for the list of models holds: the models
/// listed under `models`.
pub open spec fn models_answer(reply: HttpReply) -> Result<Seq<ModelView>, ServiceError> {
    if !reply.succeeded() {
        Err(ServiceError::Rejected { status: reply.status, body: reply.body })
    } else {
        match json_document(reply.body@) {
            Some(doc) => match doc.member("models"@) {
                Some(Json::List(items)) => match decoded_models(items@) {
                    Some(models) => Ok(models),
                    None => Err(ServiceError::Protocol),
                },
                _ => Err(ServiceError::Protocol),
            },
            None => Err(ServiceError::Protocol),
        }
    }
}

/// What an answer to the request for one model holds: the model it
/// describes.
pub open spec fn model_answer(reply: HttpReply) -> Result<ModelView, ServiceError> {
    if !reply.succeeded() {
        Err(ServiceError::Rejected { status: reply.status, body: reply.body })
    } else {
        match json_document(reply.body@) {
            Some(doc) => match decoded_model(doc) {
                Some(model) => Ok(model),
                None => Err(ServiceError::Protocol),
            },
            None => Err(ServiceError::Protocol),
        }
    }
}

/// How long the client waits for an answer of the language model server,
/// in seconds.
pub const REQUEST_TIMEOUT_SECS: u64 = 300;

/// Service for interacting with the language model server.
pub struct OllamaService {
    pub base_url: Option<String>,
}

impl OllamaService {
    /// A service without a base URL.
    pub fn new() -> (r: OllamaService)
        ensures
            r.base_url is None,
    {
        OllamaService { base_url: None }
    }

    /// Sets the base URL, which comes from the tunnel.
    pub fn set_base_url(&mut self, url: String)
        ensures
            final(self).base_url == Some(url),
    {
        self.base_url = Some(url);
    }

    /// The current base URL.
    pub fn get_base_url(&self) -> (r: Result<String, ServiceError>)
        ensures
            match self.base_url {
                Some(base) => r == Ok::<String, ServiceError>(base),
                None => r == Err::<String, ServiceError>(ServiceError::NotConnected),
            },
    {
        match &self.base_url {
            Some(base) => Ok(base.clone()),
            None => Err(ServiceError::NotConnected),
        }
    }

    /// The request that probes whether the server can be reached.
    pub fn probe(&self) -> (r: Result<Request, ServiceError>)
        ensures
            request_fits(r, self.base_url, Method::Get, "/api/tags"@, Payload::Empty),
    {
        request_below(&self.base_url, Method::Get, "/api/tags", Payload::Empty)
    }

    /// Whether the server can be reached, given the answer to the probe if
    /// there was one: the base URL is set and the answer is a success.
    pub fn is_connected(&self, reply: Option<&HttpReply>) -> (r: bool)
        ensures
            r == (self.base_url is Some && match reply {
                Some(answer) => answer.succeeded(),
                None => false,
            }),
    {
        match (&self.base_url, reply) {
            (Some(_), Some(answer)) => answer.is_success(),
            _ => false,
        }
    }

    /// The request for the models the server holds.
    pub fn list_models(&self) -> (r: Result<Request, ServiceError>)
        ensures
            request_fits(r, self.base_url, Method::Get, "/api/tags"@, Payload::Empty),
    {
        request_below(&self.base_url, Method::Get, "/api/tags", Payload::Empty)
    }

    /// Reads the answer to the request for the models.
    pub fn models(reply: &HttpReply) -> (r: Result<Vec<OllamaModel>, ServiceError>)
        ensures
            match r {
                Ok(models) => models_answer(*reply) == Ok::<Seq<ModelView>, ServiceError>(
                    model_views(models@),
                ),
                Err(e) => models_answer(*reply) == Err::<Seq<ModelView>, ServiceError>(e),
            },
    {
        if !reply.is_success() {
            return Err(ServiceError::Rejected { status: reply.status, body: reply.body.clone() });
        }
        let doc = match parse_document(reply.body.as_str()) {
            Some(doc) => doc,
            None => {
                return Err(ServiceError::Protocol);
            },
        };
        match doc.get("models") {
            Some(Json::List(items)) => match read_models(items) {
                Some(models) => Ok(models),
                None => Err(ServiceError::Protocol),
            },
            _ => Err(ServiceError::Protocol),
        }
    }

    /// Reads the answer to the request for the models and keeps those that
    /// take images.
    pub fn list_vision_models(reply: &HttpReply) -> (r: Result<Vec<OllamaModel>, ServiceError>)
        ensures
            match r {
                Ok(models) => models_answer(*reply) matches Ok(all) && model_views(models@)
                    == vision_among(all),
                Err(e) => models_answer(*reply) == Err::<Seq<ModelView>, ServiceError>(e),
            },
    {
        match OllamaService::models(reply) {
            Ok(models) => Ok(vision_models(&models)),
            Err(e) => Err(e),
        }
    }

    /// What to send to ask `model` for a response to `prompt`, with an image
    /// in base64 text if there is one. The answer is to come in one piece.
    pub fn generate(&self, model: &str, prompt: &str, image_base64: Option<String>) -> (r: Result<
        (Request, GenerateRequest),
        ServiceError,
    >)
        ensures
            match self.base_url {
                Some(base) => r matches Ok(call) && call.0.method == Method::Post && call.0.url@
                    == base@ + "/api/generate"@ && call.1.model@ == model@ && call.1.prompt@
                    == prompt@ && !call.1.stream && match image_base64 {
                    Some(image) => call.1.images matches Some(images) && images@ == seq![image],
                    None => call.1.images is None,
                },
                None => r matches Err(e) && e == ServiceError::NotConnected,
            },
    {
        let request = match request_below(
            &self.base_url,
            Method::Post,
            "/api/generate",
            Payload::Empty,
        ) {
            Ok(request) => request,
            Err(e) => {
                return Err(e);
            },
        };
        let images = match image_base64 {
            Some(image) => {
                let mut images: Vec<String> = Vec::new();
                images.push(image);
                assert(images@ =~= seq![image]);
                Some(images)
            },
            None => None,
        };
        Ok(
            (
                request,
                GenerateRequest {
                    model: String::from_str(model),
                    prompt: String::from_str(prompt),
                    images,
                    stream: false,
                },
            ),
        )
    }

    /// Reads the answer to a request for a response.
    pub fn generated(reply: &HttpReply) -> (r: Result<String, ServiceError>)
        ensures
            r == generate_answer(*reply),
    {
        if !reply.is_success() {
            return Err(ServiceError::Rejected { status: reply.status, body: reply.body.clone() });
        }
        let doc = match parse_document(reply.body.as_str()) {
            Some(doc) => doc,
            None => {
                return Err(ServiceError::Protocol);
            },
        };
        if !is_object(&doc) {
            return Err(ServiceError::Protocol);
        }
        match (read_text(&doc, "response"), read_flag(&doc, "done")) {
            (Some(response), Some(_)) => Ok(response),
            _ => Err(ServiceError::Protocol),
        }
    }

    /// What to send to have `model` describe an image, given the bytes of
    /// the image file: the image goes along as base64 text.
    pub fn analyze_image(&self, model: &str, image_bytes: &[u8], prompt: &str) -> (r: Result<
        (Request, GenerateRequest),
        ServiceError,
    >)
        ensures
            match self.base_url {
                Some(base) => r matches Ok(call) && call.0.method == Method::Post && call.0.url@
                    == base@ + "/api/generate"@ && call.1.model@ == model@ && call.1.prompt@
                    == prompt@ && !call.1.stream && (call.1.images matches Some(images)
                    && images@.len() == 1 && images@[0]@ == base64_text(image_bytes@)),
                None => r matches Err(e) && e == ServiceError::NotConnected,
            },
    {
        let image = encode_base64(image_bytes);
        self.generate(model, prompt, Some(image))
    }

    /// What to send to have a model downloaded. The answer comes in pieces,
    /// one report of progress per line.
    pub fn pull_model(&self, model_name: &str) -> (r: Result<(Request, PullRequest), ServiceError>)
        ensures
            match self.base_url {
                Some(base) => r matches Ok(call) && call.0.method == Method::Post && call.0.url@
                    == base@ + "/api/pull"@ && call.1.name@ == model_name@ && call.1.stream,
                None => r matches Err(e) && e == ServiceError::NotConnected,
            },
    {
        match request_below(&self.base_url, Method::Post, "/api/pull", Payload::Empty) {
            Ok(request) => Ok(
                (request, PullRequest { name: String::from_str(model_name), stream: true }),
            ),
            Err(e) => Err(e),
        }
    }

    /// The request that deletes a model, which goes along by its name.
    pub fn delete_model(&self, model_name: &str) -> (r: Result<Request, ServiceError>)
        ensures
            match self.base_url {
                Some(base) => r matches Ok(req) && req.method == Method::Delete && req.url@
                    == base@ + "/api/delete"@ && (req.payload matches Payload::Name(name) && name@
                    == model_name@),
                None => r == Err::<Request, ServiceError>(ServiceError::NotConnected),
            },
    {
        request_below(
            &self.base_url,
            Method::Delete,
            "/api/delete",
            Payload::Name(String::from_str(model_name)),
        )
    }

    /// Reads the answer to the deletion of a model.
    pub fn deleted(reply: &HttpReply) -> (r: Result<(), ServiceError>)
        ensures
            r == plain_answer(*reply),
    {
        read_plain(reply)
    }

    /// The request for the description of a model, which goes along by its
    /// name.
    pub fn show_model(&self, model_name: &str) -> (r: Result<Request, ServiceError>)
        ensures
            match self.base_url {
                Some(base) => r matches Ok(req) && req.method == Method::Post && req.url@ == base@
                    + "/api/show"@ && (req.payload matches Payload::Name(name) && name@
                    == model_name@),
                None => r == Err::<Request, ServiceError>(ServiceError::NotConnected),
            },
    {
        request_below(
            &self.base_url,
            Method::Post,
            "/api/show",
            Payload::Name(String::from_str(model_name)),
        )
    }

    /// Reads the answer to the request for the description of a model.
    pub fn shown(reply: &HttpReply) -> (r: Result<OllamaModel, ServiceError>)
        ensures
            match r {
                Ok(model) => model_answer(*reply) == Ok::<ModelView, ServiceError>(model@),
                Err(e) => model_answer(*reply) == Err::<ModelView, ServiceError>(e),
            },
    {
        if !reply.is_success() {
            return Err(ServiceError::Rejected { status: reply.status, body: reply.body.clone() });
        }
        let doc = match parse_document(reply.body.as_str()) {
            Some(doc) => doc,
            None => {
                return Err(ServiceError::Protocol);
            },
        };
        match OllamaModel::from_json(&doc) {
            Some(model) => Ok(model),
            None => Err(ServiceError::Protocol),
        }
    }
}

impl Default for OllamaService {
    fn default() -> (r: OllamaService)
        ensures
            r.base_url is None,
    {
        OllamaService::new()
    }
}

} // verus!
