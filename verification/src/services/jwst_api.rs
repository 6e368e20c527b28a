//! The image API: raw science images, listed by a web service that asks for
//! a key.

use vstd::prelude::*;
use crate::config::Config;
use crate::json::{is_object, json_document, optional_small_number_field, optional_text_field,
    parse_document, present_member, read_optional_small_number, read_optional_text,
    read_present, read_text, text_field, Json};
use crate::paths::{join_path, joined_path};
use crate::services::{chain, HttpReply, ServiceError};
use crate::text::{join, joined, optional_view, string_views, trim, trimmed};

verus! {

/// Details of an image.
#[derive(Debug, Clone, PartialEq, Eq)]
pub struct ImageDetails {
    pub mission: Option<String>,
    pub instruments: Option<Vec<String>>,
    pub suffix: Option<String>,
    pub description: Option<String>,
}

/// What the details of an image say.
pub struct ImageDetailsView {
    pub mission: Option<Seq<char>>,
    pub instruments: Option<Seq<Seq<char>>>,
    pub suffix: Option<Seq<char>>,
    pub description: Option<Seq<char>>,
}

impl View for ImageDetails {
    type V = ImageDetailsView;

    open spec fn view(&self) -> ImageDetailsView {
        ImageDetailsView {
            mission: optional_view(self.mission),
            instruments: match self.instruments {
                Some(list) => Some(string_views(list@)),
                None => None,
            },
            suffix: optional_view(self.suffix),
            description: optional_view(self.description),
        }
    }
}

/// An image that the API lists.
#[derive(Debug, Clone, PartialEq, Eq)]
pub struct JwstImage {
    pub id: String,
    pub observation_id: Option<String>,
    pub program: Option<i32>,
    pub details: Option<ImageDetails>,
    pub file_type: Option<String>,
    pub thumbnail: Option<String>,
    pub location: Option<String>,
}

/// What the description of an image says.
pub struct JwstImageView {
    pub id: Seq<char>,
    pub observation_id: Option<Seq<char>>,
    pub program: Option<i32>,
    pub details: Option<ImageDetailsView>,
    pub file_type: Option<Seq<char>>,
    pub thumbnail: Option<Seq<char>>,
    pub location: Option<Seq<char>>,
}

impl View for JwstImage {
    type V = JwstImageView;

    open spec fn view(&self) -> JwstImageView {
        JwstImageView {
            id: self.id@,
            observation_id: optional_view(self.observation_id),
            program: self.program,
            details: match self.details {
                Some(d) => Some(d@),
                None => None,
            },
            file_type: optional_view(self.file_type),
            thumbnail: optional_view(self.thumbnail),
            location: optional_view(self.location),
        }
    }
}

impl JwstImageView {
    /// The title under which the image is shown: its description where it
    /// has one that is not empty, else the identifier of its observation,
    /// else its own identifier.
    pub open spec fn title(self) -> Seq<char> {
        let fallback = match self.observation_id {
            Some(o) => o,
            None => self.id,
        };
        match self.details {
            Some(d) => match d.description {
                Some(text) => if text.len() > 0 {
                    text
                } else {
                    fallback
                },
                None => fallback,
            },
            None => fallback,
        }
    }

    /// The instruments of the image, with a comma and a space between them;
    /// empty where none are listed.
    pub open spec fn instruments(self) -> Seq<char> {
        match self.details {
            Some(d) => match d.instruments {
                Some(list) => joined(list, ", "@),
                None => Seq::empty(),
            },
            None => Seq::empty(),
        }
    }
}

impl JwstImage {
    /// The title under which to show the image.
    pub fn title(&self) -> (r: String)
        ensures
            r@ == self@.title(),
    {
        if let Some(details) = &self.details {
            if let Some(text) = &details.description {
                if !text.as_str().is_empty() {
                    return text.clone();
                }
            }
        }
        match &self.observation_id {
            Some(o) => o.clone(),
            None => self.id.clone(),
        }
    }

    /// The instruments of the image as one text.
    pub fn instruments_str(&self) -> (r: String)
        ensures
            r@ == self@.instruments(),
    {
        if let Some(details) = &self.details {
            if let Some(list) = &details.instruments {
                return join(list, ", ");
            }
        }
        String::new()
    }
}

/// The strings that a list of documents holds; nothing where one of them is
/// no string.
pub open spec fn all_texts(items: Seq<Json>) -> Option<Seq<Seq<char>>>
    decreases items.len(),
{
    if items.len() == 0 {
        Some(Seq::empty())
    } else {
        match (all_texts(items.drop_last()), items.last()) {
            (Some(texts), Json::Text(s)) => Some(texts.push(s@)),
            _ => None,
        }
    }
}

/// A list holds not only strings where a beginning of it does not.
pub proof fn lemma_all_texts_need_every_item(items: Seq<Json>, k: int)
    requires
        0 <= k <= items.len(),
        all_texts(items.take(k)) is None,
    ensures
        all_texts(items) is None,
    decreases items.len(),
{
    if k == items.len() {
        assert(items.take(k) =~= items);
    } else {
        assert(items.drop_last().take(k) =~= items.take(k));
        lemma_all_texts_need_every_item(items.drop_last(), k);
    }
}

/// Reads the strings that a list of documents holds.
pub fn read_all_texts(items: &Vec<Json>) -> (r: Option<Vec<String>>)
    ensures
        match r {
            Some(texts) => all_texts(items@) == Some(string_views(texts@)),
            None => all_texts(items@) is None,
        },
{
    let mut out: Vec<String> = Vec::new();
    let mut i: usize = 0;
    assert(items@.take(0) =~= Seq::<Json>::empty());
    assert(string_views(out@) =~= Seq::<Seq<char>>::empty());
    while i < items.len()
        invariant
            i <= items.len(),
            all_texts(items@.take(i as int)) == Some(string_views(out@)),
        decreases items.len() - i,
    {
        proof {
            assert(items@.take(i + 1).drop_last() =~= items@.take(i as int));
            assert(items@.take(i + 1).last() == items@[i as int]);
        }
        match &items[i] {
            Json::Text(s) => {
                let ghost before = out@;
                out.push(s.clone());
                assert(string_views(out@) =~= string_views(before).push(s@));
            },
            _ => {
                proof {
                    lemma_all_texts_need_every_item(items@, i as int + 1);
                }
                return None;
            },
        }
        i += 1;
    }
    assert(items@.take(items@.len() as int) =~= items@);
    Some(out)
}

/// The list of instruments that the details of an image hold. The outer
/// level is nothing where the member is anything but a list of strings; the
/// inner level is nothing where it is missing or null.
pub open spec fn decoded_instruments(doc: Json) -> Option<Option<Seq<Seq<char>>>> {
    match present_member(doc, "instruments"@) {
        None => Some(None),
        Some(Json::List(items)) => match all_texts(items@) {
            Some(texts) => Some(Some(texts)),
            None => None,
        },
        Some(_) => None,
    }
}

/// The details that a document describes: an object whose members may each
/// be missing or null.
pub open spec fn decoded_image_details(doc: Json) -> Option<ImageDetailsView> {
    if doc is Object {
        match (
            optional_text_field(doc, "mission"@),
            decoded_instruments(doc),
            optional_text_field(doc, "suffix"@),
            optional_text_field(doc, "description"@),
        ) {
            (Some(mission), Some(instruments), Some(suffix), Some(description)) => Some(
                ImageDetailsView {
                    mission: optional_view(mission),
                    instruments,
                    suffix: optional_view(suffix),
                    description: optional_view(description),
                },
            ),
            _ => None,
        }
    } else {
        None
    }
}

/// The details that the member `details` of an image describes.
pub open spec fn decoded_image_details_member(doc: Json) -> Option<Option<ImageDetailsView>> {
    match present_member(doc, "details"@) {
        None => Some(None),
        Some(d) => match decoded_image_details(d) {
            Some(details) => Some(Some(details)),
            None => None,
        },
    }
}

/// The image that a document describes: an object with the string `id`;
/// every other member may be missing or null.
pub open spec fn decoded_image(doc: Json) -> Option<JwstImageView> {
    if doc is Object {
        match (
            text_field(doc, "id"@),
            optional_text_field(doc, "observation_id"@),
            optional_small_number_field(doc, "program"@),
            decoded_image_details_member(doc),
            optional_text_field(doc, "file_type"@),
            optional_text_field(doc, "thumbnail"@),
            optional_text_field(doc, "location"@),
        ) {
            (
                Some(id),
                Some(observation_id),
                Some(program),
                Some(details),
                Some(file_type),
                Some(thumbnail),
                Some(location),
            ) => Some(
                JwstImageView {
                    id: id@,
                    observation_id: optional_view(observation_id),
                    program,
                    details,
                    file_type: optional_view(file_type),
                    thumbnail: optional_view(thumbnail),
                    location: optional_view(location),
                },
            ),
            _ => None,
        }
    } else {
        None
    }
}

/// The images that a list of documents describes; nothing where one of them
/// describes no image.
pub open spec fn decoded_images(items: Seq<Json>) -> Option<Seq<JwstImageView>>
    decreases items.len(),
{
    if items.len() == 0 {
        Some(Seq::empty())
    } else {
        match (decoded_images(items.drop_last()), decoded_image(items.last())) {
            (Some(images), Some(image)) => Some(images.push(image)),
            _ => None,
        }
    }
}

/// A list describes no images where a beginning of it describes none.
pub proof fn lemma_images_need_every_item(items: Seq<Json>, k: int)
    requires
        0 <= k <= items.len(),
        decoded_images(items.take(k)) is None,
    ensures
        decoded_images(items) is None,
    decreases items.len(),
{
    if k == items.len() {
        assert(items.take(k) =~= items);
    } else {
        assert(items.drop_last().take(k) =~= items.take(k));
        lemma_images_need_every_item(items.drop_last(), k);
    }
}

/// What a list of images says.
pub open spec fn image_views(images: Seq<JwstImage>) -> Seq<JwstImageView> {
    images.map_values(|m: JwstImage| m@)
}

impl ImageDetails {
    /// Reads the details that a document describes.
    pub fn from_json(doc: &Json) -> (r: Option<ImageDetails>)
        ensures
            match r {
                Some(d) => decoded_image_details(*doc) == Some(d@),
                None => decoded_image_details(*doc) is None,
            },
    {
        if !is_object(doc) {
            return None;
        }
        let instruments = match read_present(doc, "instruments") {
            None => None,
            Some(Json::List(items)) => match read_all_texts(items) {
                Some(texts) => Some(texts),
                None => {
                    return None;
                },
            },
            Some(_) => {
                return None;
            },
        };
        match (
            read_optional_text(doc, "mission"),
            read_optional_text(doc, "suffix"),
            read_optional_text(doc, "description"),
        ) {
            (Some(mission), Some(suffix), Some(description)) => Some(
                ImageDetails { mission, instruments, suffix, description },
            ),
            _ => None,
        }
    }
}

impl JwstImage {
    /// Reads the image that a document describes.
    pub fn from_json(doc: &Json) -> (r: Option<JwstImage>)
        ensures
            match r {
                Some(m) => decoded_image(*doc) == Some(m@),
                None => decoded_image(*doc) is None,
            },
    {
        if !is_object(doc) {
            return None;
        }
        let details = match read_present(doc, "details") {
            None => None,
            Some(d) => match ImageDetails::from_json(d) {
                Some(details) => Some(details),
                None => {
                    return None;
                },
            },
        };
        match (
            read_text(doc, "id"),
            read_optional_text(doc, "observation_id"),
            read_optional_small_number(doc, "program"),
            read_optional_text(doc, "file_type"),
            read_optional_text(doc, "thumbnail"),
            read_optional_text(doc, "location"),
        ) {
            (
                Some(id),
                Some(observation_id),
                Some(program),
                Some(file_type),
                Some(thumbnail),
                Some(location),
            ) => Some(
                JwstImage { id, observation_id, program, details, file_type, thumbnail, location },
            ),
            _ => None,
        }
    }
}

/// Reads the images that a list of documents describes.
pub fn read_images(items: &Vec<Json>) -> (r: Option<Vec<JwstImage>>)
    ensures
        match r {
            Some(images) => decoded_images(items@) == Some(image_views(images@)),
            None => decoded_images(items@) is None,
        },
{
    let mut out: Vec<JwstImage> = Vec::new();
    let mut i: usize = 0;
    assert(items@.take(0) =~= Seq::<Json>::empty());
    assert(image_views(out@) =~= Seq::<JwstImageView>::empty());
    while i < items.len()
        invariant
            i <= items.len(),
            decoded_images(items@.take(i as int)) == Some(image_views(out@)),
        decreases items.len() - i,
    {
        proof {
            assert(items@.take(i + 1).drop_last() =~= items@.take(i as int));
            assert(items@.take(i + 1).last() == items@[i as int]);
        }
        match JwstImage::from_json(&items[i]) {
            Some(image) => {
                let ghost before = out@;
                out.push(image);
                assert(image_views(out@) =~= image_views(before).push(image@));
            },
            None => {
                proof {
                    lemma_images_need_every_item(items@, i as int + 1);
                }
                return None;
            },
        }
        i += 1;
    }
    assert(items@.take(items@.len() as int) =~= items@);
    Some(out)
}

/// Why the image API gave nothing.
#[derive(Debug, Clone, Copy, PartialEq, Eq)]
pub enum ApiError {
    /// No API key is at hand, and the listing has to be fetched.
    NoApiKey,
    /// The cached listing cannot be read as a list of images.
    Cache,
    /// The image has no address to download it from.
    NoDownloadUrl,
    /// The image has no address to download its thumbnail from.
    NoThumbnailUrl,
}

/// Where to take the listing of images from.
#[derive(Debug, Clone, PartialEq, Eq)]
pub enum ListingSource {
    /// From the cache file at the given path.
    Cache { path: String },
    /// From the API at the given address, with the key in the header
    /// `X-API-KEY`.
    Api { url: String, api_key: String },
}

/// What to do to have a file in place.
#[derive(Debug, Clone, PartialEq, Eq)]
pub enum Download {
    /// The file is there already.
    Present { path: String },
    /// Fetch it from the address and store it at the path.
    Fetch { url: String, path: String },
}

/// The images that a cached listing holds: a JSON list of images.
pub open spec fn cached_listing(content: Seq<char>) -> Option<Seq<JwstImageView>> {
    match json_document(content) {
        Some(Json::List(items)) => decoded_images(items@),
        _ => None,
    }
}

/// The images that an answer of the API holds: an object with the images
/// under `body`, and none where that member is missing.
pub open spec fn listing_answer(reply: HttpReply) -> Result<Seq<JwstImageView>, ServiceError> {
    if !reply.succeeded() {
        Err(ServiceError::Rejected { status: reply.status, body: reply.body })
    } else {
        match json_document(reply.body@) {
            Some(doc) => if doc is Object {
                match doc.member("body"@) {
                    None => Ok(Seq::empty()),
                    Some(Json::List(items)) => match decoded_images(items@) {
                        Some(images) => Ok(images),
                        None => Err(ServiceError::Protocol),
                    },
                    Some(_) => Err(ServiceError::Protocol),
                }
            } else {
                Err(ServiceError::Protocol)
            },
            None => Err(ServiceError::Protocol),
        }
    }
}

/// Service for fetching images from the image API.
pub struct JwstApiService {
    pub config: Config,
    /// The path of the file that caches the listing.
    pub cache_file: String,
    /// The directory for downloaded images.
    pub wallpaper_dir: String,
    /// The directory for downloaded thumbnails.
    pub thumbnail_dir: String,
    pub api_key: Option<String>,
}

impl JwstApiService {
    /// A service that goes by the given configuration and directories; the
    /// API key is the content of the key file without the white space around
    /// it, if the file could be read.
    pub fn new(
        config: Config,
        cache_dir: &str,
        wallpaper_dir: String,
        thumbnail_dir: String,
        key_file_content: Option<&str>,
    ) -> (r: JwstApiService)
        ensures
            r.config == config,
            r.cache_file@ == joined_path(cache_dir@, "jwst_api_metadata.json"@),
            r.wallpaper_dir == wallpaper_dir,
            r.thumbnail_dir == thumbnail_dir,
            match key_file_content {
                Some(content) => r.api_key matches Some(key) && key@ == trimmed(content@),
                None => r.api_key is None,
            },
    {
        let api_key = match key_file_content {
            Some(content) => Some(String::from_str(trim(content))),
            None => None,
        };
        JwstApiService {
            config,
            cache_file: join_path(cache_dir, "jwst_api_metadata.json"),
            wallpaper_dir,
            thumbnail_dir,
            api_key,
        }
    }

    /// Whether an API key is at hand.
    pub fn has_api_key(&self) -> (r: bool)
        ensures
            r == self.api_key is Some,
    {
        self.api_key.is_some()
    }

    /// Whether the cached listing can still be used, given its age in
    /// seconds if there is a cache file whose age can be told: it is younger
    /// than the configured time to live.
    pub fn is_cache_valid(&self, age_secs: Option<u64>) -> (r: bool)
        ensures
            r == (age_secs matches Some(age) && age < self.config.jwst.cache_ttl),
    {
        match age_secs {
            Some(age) => age < self.config.jwst.cache_ttl,
            None => false,
        }
    }

    /// Where to take the listing from: from the cache while it is valid and
    /// no refresh is forced, and from the API otherwise, which takes a key.
    pub fn fetch_images(&self, force_refresh: bool, cache_age_secs: Option<u64>) -> (r: Result<
        ListingSource,
        ApiError,
    >)
        ensures
            ({
                let cached = !force_refresh && (cache_age_secs matches Some(age) && age
                    < self.config.jwst.cache_ttl);
                match r {
                    Ok(ListingSource::Cache { path }) => cached && path == self.cache_file,
                    Ok(ListingSource::Api { url, api_key }) => !cached && self.api_key == Some(
                        api_key,
                    ) && url@ == self.config.jwst.api_base@ + "/all/type/jpg"@,
                    Err(e) => !cached && self.api_key is None && e == ApiError::NoApiKey,
                }
            }),
    {
        if !force_refresh && self.is_cache_valid(cache_age_secs) {
            return Ok(ListingSource::Cache { path: self.cache_file.clone() });
        }
        match &self.api_key {
            Some(key) => Ok(
                ListingSource::Api {
                    url: chain(self.config.jwst.api_base.as_str(), "/all/type/jpg"),
                    api_key: key.clone(),
                },
            ),
            None => Err(ApiError::NoApiKey),
        }
    }

    /// Where to take the listing from.
    pub fn get_images(&self, force_refresh: bool, cache_age_secs: Option<u64>) -> (r: Result<
        ListingSource,
        ApiError,
    >)
        ensures
            ({
                let cached = !force_refresh && (cache_age_secs matches Some(age) && age
                    < self.config.jwst.cache_ttl);
                match r {
                    Ok(ListingSource::Cache { path }) => cached && path == self.cache_file,
                    Ok(ListingSource::Api { url, api_key }) => !cached && self.api_key == Some(
                        api_key,
                    ) && url@ == self.config.jwst.api_base@ + "/all/type/jpg"@,
                    Err(e) => !cached && self.api_key is None && e == ApiError::NoApiKey,
                }
            }),
    {
        self.fetch_images(force_refresh, cache_age_secs)
    }

    /// Reads a cached listing.
    pub fn cached_images(content: &str) -> (r: Result<Vec<JwstImage>, ApiError>)
        ensures
            match r {
                Ok(images) => cached_listing(content@) == Some(image_views(images@)),
                Err(e) => cached_listing(content@) is None && e == ApiError::Cache,
            },
    {
        match parse_document(content) {
            Some(Json::List(items)) => match read_images(&items) {
                Some(images) => Ok(images),
                None => Err(ApiError::Cache),
            },
            _ => Err(ApiError::Cache),
        }
    }

    /// Reads the listing that the API answered with.
    pub fn fetched_images(reply: &HttpReply) -> (r: Result<Vec<JwstImage>, ServiceError>)
        ensures
            match r {
                Ok(images) => listing_answer(*reply) == Ok::<Seq<JwstImageView>, ServiceError>(
                    image_views(images@),
                ),
                Err(e) => listing_answer(*reply) == Err::<Seq<JwstImageView>, ServiceError>(e),
            },
    {
        if !reply.is_success() {
            return Err(ServiceError::Rejected { status: reply.status, body: reply.body.clone() });
        }
        let doc = match parse_document(reply.body.as_str()) {
            Some(doc) => doc,
            None => {
                return Err(ServiceError::Protocol);
            },
        };
        if !is_object(&doc) {
            return Err(ServiceError::Protocol);
        }
        match doc.get("body") {
            None => {
                let none: Vec<JwstImage> = Vec::new();
                assert(image_views(none@) =~= Seq::<JwstImageView>::empty());
                Ok(none)
            },
            Some(Json::List(items)) => match read_images(items) {
                Some(images) => Ok(images),
                None => Err(ServiceError::Protocol),
            },
            Some(_) => Err(ServiceError::Protocol),
        }
    }

    /// The path at which the image is stored once downloaded:
    /// `jwst-<id>.jpg` in the wallpaper directory.
    pub fn image_path(&self, image: &JwstImage) -> (r: String)
        ensures
            r@ == joined_path(self.wallpaper_dir@, "jwst-"@ + image.id@ + ".jpg"@),
    {
        let mut name = chain("jwst-", image.id.as_str());
        name.append(".jpg");
        join_path(self.wallpaper_dir.as_str(), name.as_str())
    }

    /// The path at which the thumbnail of the image is stored once
    /// downloaded: `<id>.thumb.jpg` in the thumbnail directory.
    pub fn thumbnail_path(&self, image: &JwstImage) -> (r: String)
        ensures
            r@ == joined_path(self.thumbnail_dir@, image.id@ + ".thumb.jpg"@),
    {
        let name = chain(image.id.as_str(), ".thumb.jpg");
        join_path(self.thumbnail_dir.as_str(), name.as_str())
    }

    /// What to do to have the image in place, given whether its file is
    /// there already: nothing then, and else a download from the image's
    /// location, which it has to have.
    pub fn download_image(&self, image: &JwstImage, present: bool) -> (r: Result<
        Download,
        ApiError,
    >)
        ensures
            ({
                let target = joined_path(self.wallpaper_dir@, "jwst-"@ + image.id@ + ".jpg"@);
                match r {
                    Ok(Download::Present { path }) => present && path@ == target,
                    Ok(Download::Fetch { url, path }) => !present && image.location == Some(url)
                        && path@ == target,
                    Err(e) => !present && image.location is None && e == ApiError::NoDownloadUrl,
                }
            }),
    {
        let path = self.image_path(image);
        if present {
            return Ok(Download::Present { path });
        }
        match &image.location {
            Some(url) => Ok(Download::Fetch { url: url.clone(), path }),
            None => Err(ApiError::NoDownloadUrl),
        }
    }

    /// What to do to have the thumbnail of the image in place, given
    /// whether its file is there already.
    pub fn download_thumbnail(&self, image: &JwstImage, present: bool) -> (r: Result<
        Download,
        ApiError,
    >)
        ensures
            ({
                let target = joined_path(self.thumbnail_dir@, image.id@ + ".thumb.jpg"@);
                match r {
                    Ok(Download::Present { path }) => present && path@ == target,
                    Ok(Download::Fetch { url, path }) => !present && image.thumbnail == Some(url)
                        && path@ == target,
                    Err(e) => !present && image.thumbnail is None && e == ApiError::NoThumbnailUrl,
                }
            }),
    {
        let path = self.thumbnail_path(image);
        if present {
            return Ok(Download::Present { path });
        }
        match &image.thumbnail {
            Some(url) => Ok(Download::Fetch { url: url.clone(), path }),
            None => Err(ApiError::NoThumbnailUrl),
        }
    }

    /// The path whose presence says that the image is downloaded.
    pub fn is_downloaded(&self, image: &JwstImage) -> (r: String)
        ensures
            r@ == joined_path(self.wallpaper_dir@, "jwst-"@ + image.id@ + ".jpg"@),
    {
        self.image_path(image)
    }
}

} // verus!
