//! The ESA gallery: colour images, announced in a feed.

use vstd::prelude::*;
use vstd::seq_lib::{to_multiset_build, to_multiset_insert};
use crate::config::Config;
use crate::paths::{join_path, joined_path};
use crate::services::chain;
use crate::text::{end_trimmed_of, optional_view, replace, replace_all, slice_views, split,
    split_char, str_eq, string_views, trim_end_class, CharClass};

verus! {

/// The instant that a date in the format of RFC 2822 names, as `chrono`
/// reads it: the seconds since the beginning of 1970, and the nanoseconds
/// since the last full second.
pub uninterp spec fn rfc2822_instant(text: Seq<char>) -> Option<(i64, u32)>;

/// `chrono::DateTime::parse_from_rfc2822`, handed over as what
/// `DateTime::timestamp` and `DateTime::timestamp_subsec_nanos` give for the
/// date: the instant that the text names, or nothing where it is no date in
/// that format.
#[verifier::external_body]
fn parse_rfc2822(text: &str) -> (r: Option<(i64, u32)>)
    ensures
        r == rfc2822_instant(text@),
{
    chrono::DateTime::parse_from_rfc2822(text).ok().map(
        |date| (date.timestamp(), date.timestamp_subsec_nanos()),
    )
}

/// An image of the gallery.
#[derive(Debug, Clone, PartialEq, Eq)]
pub struct EsaImage {
    pub id: String,
    pub title: String,
    /// When the image was published: seconds since the beginning of 1970
    /// and nanoseconds since the last full second.
    pub pub_date: Option<(i64, u32)>,
    pub enclosure_url: Option<String>,
}

/// What an image of the gallery says.
pub struct EsaImageView {
    pub id: Seq<char>,
    pub title: Seq<char>,
    pub pub_date: Option<(i64, u32)>,
    pub enclosure_url: Option<Seq<char>>,
}

impl View for EsaImage {
    type V = EsaImageView;

    open spec fn view(&self) -> EsaImageView {
        EsaImageView {
            id: self.id@,
            title: self.title@,
            pub_date: self.pub_date,
            enclosure_url: optional_view(self.enclosure_url),
        }
    }
}

/// What a list of images says.
pub open spec fn esa_views(images: Seq<EsaImage>) -> Seq<EsaImageView> {
    images.map_values(|m: EsaImage| m@)
}

/// The address of the image `id` in the rendition `kind` below `base`.
pub open spec fn rendition_url(base: Seq<char>, kind: Seq<char>, id: Seq<char>) -> Seq<char> {
    base + "/"@ + kind + "/"@ + id + ".jpg"@
}

/// The address of the image `id` in the rendition `kind` below `base`.
pub fn rendition(base: &str, kind: &str, id: &str) -> (r: String)
    ensures
        r@ == rendition_url(base@, kind@, id@),
{
    let mut r = chain(base, "/");
    r.append(kind);
    r.append("/");
    r.append(id);
    r.append(".jpg");
    r
}

impl EsaImage {
    /// The address of the thumbnail.
    pub fn thumbnail_url(&self, config: &Config) -> (r: String)
        ensures
            r@ == rendition_url(config.jwst.esa_cdn_base@, "news"@, self.id@),
    {
        rendition(config.jwst.esa_cdn_base.as_str(), "news", self.id.as_str())
    }

    /// The address of the rendition for screens.
    pub fn screen_url(&self, config: &Config) -> (r: String)
        ensures
            r@ == rendition_url(config.jwst.esa_cdn_base@, "screen"@, self.id@),
    {
        rendition(config.jwst.esa_cdn_base.as_str(), "screen", self.id.as_str())
    }

    /// The address of the wallpaper in ultra-high definition.
    pub fn wallpaper_uhd_url(&self, config: &Config) -> (r: String)
        ensures
            r@ == rendition_url(config.jwst.esa_cdn_base@, "wallpaper_uhd"@, self.id@),
    {
        rendition(config.jwst.esa_cdn_base.as_str(), "wallpaper_uhd", self.id.as_str())
    }

    /// The address of the large rendition.
    pub fn large_url(&self, config: &Config) -> (r: String)
        ensures
            r@ == rendition_url(config.jwst.esa_cdn_base@, "large"@, self.id@),
    {
        rendition(config.jwst.esa_cdn_base.as_str(), "large", self.id.as_str())
    }

    /// The address of the image's page in the gallery.
    pub fn gallery_url(&self) -> (r: String)
        ensures
            r@ == "https://esawebb.org/images/"@ + self.id@ + "/"@,
    {
        let mut r = chain("https://esawebb.org/images/", self.id.as_str());
        r.append("/");
        r
    }

    /// A copy of the image.
    pub fn copy(&self) -> (r: EsaImage)
        ensures
            r == *self,
    {
        EsaImage {
            id: self.id.clone(),
            title: self.title.clone(),
            pub_date: self.pub_date,
            enclosure_url: match &self.enclosure_url {
                Some(url) => Some(url.clone()),
                None => None,
            },
        }
    }
}

/// One item of the feed.
#[derive(Debug, Clone, PartialEq, Eq)]
pub struct RssItem {
    pub title: Option<String>,
    pub guid: Option<String>,
    pub pub_date: Option<String>,
    pub enclosure_url: Option<String>,
}

/// The identifier that the address of an image's page ends with: what
/// follows the last slash, once the slashes at the end are cut off.
pub open spec fn last_segment(address: Seq<char>) -> Seq<char> {
    split(end_trimmed_of(address, CharClass::Slash), '/').last()
}

/// A title with the entities `&amp;`, `&lt;`, `&gt;` and `&quot;` written
/// out, in this order.
pub open spec fn plain_title(title: Seq<char>) -> Seq<char> {
    replace_all(
        replace_all(
            replace_all(replace_all(title, "&amp;"@, "&"@), "&lt;"@, "<"@),
            "&gt;"@,
            ">"@,
        ),
        "&quot;"@,
        "\""@,
    )
}

/// The image that an item of the feed announces; nothing where the item has
/// no address or its address ends in no identifier. An item without a title
/// goes by its identifier, and a date that cannot be read counts as none.
pub open spec fn announced(item: RssItem) -> Option<EsaImageView> {
    match item.guid {
        Some(guid) => {
            let id = last_segment(guid@);
            if id.len() == 0 {
                None
            } else {
                Some(
                    EsaImageView {
                        id,
                        title: plain_title(
                            match item.title {
                                Some(t) => t@,
                                None => id,
                            },
                        ),
                        pub_date: match item.pub_date {
                            Some(d) => rfc2822_instant(d@),
                            None => None,
                        },
                        enclosure_url: optional_view(item.enclosure_url),
                    },
                )
            }
        },
        None => None,
    }
}

/// The images that a run of items announces, in the order of the items.
pub open spec fn announced_by(items: Seq<RssItem>) -> Seq<EsaImageView>
    decreases items.len(),
{
    if items.len() == 0 {
        Seq::empty()
    } else {
        match announced(items.last()) {
            Some(image) => announced_by(items.drop_last()).push(image),
            None => announced_by(items.drop_last()),
        }
    }
}

/// A date is no later than another; no date counts as earlier than any.
pub open spec fn no_later(a: Option<(i64, u32)>, b: Option<(i64, u32)>) -> bool {
    match (a, b) {
        (None, _) => true,
        (Some(_), None) => false,
        (Some(x), Some(y)) => x.0 < y.0 || (x.0 == y.0 && x.1 <= y.1),
    }
}

/// Where a new image goes into a list that has the newest first: behind
/// every image that is not older than it, looking from position `i`.
pub open spec fn slot_from(sorted: Seq<EsaImageView>, date: Option<(i64, u32)>, i: int) -> int
    decreases sorted.len() - i,
{
    if 0 <= i < sorted.len() && no_later(date, sorted[i].pub_date) {
        slot_from(sorted, date, i + 1)
    } else {
        i
    }
}

/// The images with the newest first; images of the same date keep their
/// order.
pub open spec fn newest_first(images: Seq<EsaImageView>) -> Seq<EsaImageView>
    decreases images.len(),
{
    if images.len() == 0 {
        Seq::empty()
    } else {
        let sorted = newest_first(images.drop_last());
        sorted.insert(slot_from(sorted, images.last().pub_date, 0), images.last())
    }
}

/// No image in the list is older than the one after it.
pub open spec fn is_newest_first(images: Seq<EsaImageView>) -> bool {
    forall|i: int, j: int|
        0 <= i < j < images.len() ==> no_later(images[j].pub_date, images[i].pub_date)
}

/// The slot lies within the list; nothing before it is older than the new
/// image, and what stands at it is.
pub proof fn lemma_slot(sorted: Seq<EsaImageView>, date: Option<(i64, u32)>, i: int)
    requires
        0 <= i <= sorted.len(),
        is_newest_first(sorted),
        forall|k: int| 0 <= k < i ==> no_later(date, sorted[k].pub_date),
    ensures
        i <= slot_from(sorted, date, i) <= sorted.len(),
        forall|k: int| 0 <= k < slot_from(sorted, date, i) ==> no_later(date, sorted[k].pub_date),
        forall|k: int|
            slot_from(sorted, date, i) <= k < sorted.len() ==> no_later(sorted[k].pub_date, date),
    decreases sorted.len() - i,
{
    if i < sorted.len() && no_later(date, sorted[i].pub_date) {
        lemma_slot(sorted, date, i + 1);
    } else if i < sorted.len() {
        assert forall|k: int| i <= k < sorted.len() implies no_later(sorted[k].pub_date, date) by {
            if k > i {
                assert(no_later(sorted[k].pub_date, sorted[i].pub_date));
            }
        }
    }
}

/// Sorting puts the newest first and neither adds nor drops an image.
pub proof fn law_newest_first_sorts(images: Seq<EsaImageView>)
    ensures
        is_newest_first(newest_first(images)),
        newest_first(images).to_multiset() == images.to_multiset(),
        newest_first(images).len() == images.len(),
    decreases images.len(),
{
    if images.len() == 0 {
        assert(images =~= Seq::<EsaImageView>::empty());
    } else {
        let rest = images.drop_last();
        let last = images.last();
        law_newest_first_sorts(rest);
        let sorted = newest_first(rest);
        lemma_slot(sorted, last.pub_date, 0);
        let at = slot_from(sorted, last.pub_date, 0);
        let result = sorted.insert(at, last);
        assert forall|i: int, j: int| 0 <= i < j < result.len() implies no_later(
            result[j].pub_date,
            result[i].pub_date,
        ) by {
            if i < at && j > at {
                assert(result[i] == sorted[i]);
                assert(result[j] == sorted[j - 1]);
            } else if i == at {
                assert(result[j] == sorted[j - 1]);
            } else if j == at {
                assert(result[i] == sorted[i]);
            } else if j < at {
                assert(result[i] == sorted[i] && result[j] == sorted[j]);
            } else {
                assert(result[i] == sorted[i - 1] && result[j] == sorted[j - 1]);
            }
        }
        to_multiset_insert(sorted, at, last);
        assert(result.to_multiset() == sorted.to_multiset().insert(last));
        assert(rest.push(last) =~= images);
        to_multiset_build(rest, last);
        assert(images.to_multiset() == rest.to_multiset().insert(last));
    }
}

/// The identifier that the address of an image's page ends with.
pub fn read_last_segment(address: &str) -> (r: String)
    ensures
        r@ == last_segment(address@),
{
    let trimmed = trim_end_class(address, CharClass::Slash);
    let pieces = split_char(trimmed, '/');
    assert(slice_views(pieces@).len() > 0) by {
        lemma_split_has_a_piece(trimmed@, '/', 0, 0);
    }
    String::from_str(pieces[pieces.len() - 1])
}

/// Splitting always gives a piece.
pub proof fn lemma_split_has_a_piece(s: Seq<char>, sep: char, start: int, i: int)
    requires
        0 <= i,
    ensures
        crate::text::split_from(s, sep, start, i).len() > 0,
    decreases s.len() - i,
{
    if i < s.len() && s[i] != sep {
        lemma_split_has_a_piece(s, sep, start, i + 1);
    }
}

/// A title with its entities written out.
pub fn read_plain_title(title: &str) -> (r: String)
    ensures
        r@ == plain_title(title@),
{
    proof {
        reveal_strlit("&amp;");
        reveal_strlit("&lt;");
        reveal_strlit("&gt;");
        reveal_strlit("&quot;");
    }
    let a = replace(title, "&amp;", "&");
    let b = replace(a.as_str(), "&lt;", "<");
    let c = replace(b.as_str(), "&gt;", ">");
    replace(c.as_str(), "&quot;", "\"")
}

/// The image that an item of the feed announces.
pub fn read_item(item: &RssItem) -> (r: Option<EsaImage>)
    ensures
        match r {
            Some(image) => announced(*item) == Some(image@),
            None => announced(*item) is None,
        },
{
    let guid = match &item.guid {
        Some(guid) => guid,
        None => {
            return None;
        },
    };
    let id = read_last_segment(guid.as_str());
    if id.as_str().is_empty() {
        return None;
    }
    let title = match &item.title {
        Some(t) => read_plain_title(t.as_str()),
        None => read_plain_title(id.as_str()),
    };
    let pub_date = match &item.pub_date {
        Some(d) => parse_rfc2822(d.as_str()),
        None => None,
    };
    let enclosure_url = match &item.enclosure_url {
        Some(url) => Some(url.clone()),
        None => None,
    };
    Some(EsaImage { id, title, pub_date, enclosure_url })
}

/// Whether a date is no later than another.
pub fn is_no_later(a: Option<(i64, u32)>, b: Option<(i64, u32)>) -> (r: bool)
    ensures
        r == no_later(a, b),
{
    match (a, b) {
        (None, _) => true,
        (Some(_), None) => false,
        (Some(x), Some(y)) => x.0 < y.0 || (x.0 == y.0 && x.1 <= y.1),
    }
}

/// Puts the images in order, the newest first; images of the same date keep
/// their order.
pub fn sort_newest_first(images: Vec<EsaImage>) -> (r: Vec<EsaImage>)
    ensures
        esa_views(r@) == newest_first(esa_views(images@)),
{
    let mut images = images;
    let ghost all = esa_views(images@);
    let mut out: Vec<EsaImage> = Vec::new();
    let n: usize = images.len();
    let mut i: usize = 0;
    assert(all.take(0) =~= Seq::<EsaImageView>::empty());
    assert(esa_views(out@) =~= Seq::<EsaImageView>::empty());
    while i < n
        invariant
            i <= n,
            n == images.len(),
            all == esa_views(images@),
            esa_views(out@) == newest_first(all.take(i as int)),
        decreases n - i,
    {
        proof {
            assert(all.take(i + 1).drop_last() =~= all.take(i as int));
            assert(all.take(i + 1).last() == images@[i as int]@);
        }
        let image = images[i].copy();
        let mut at: usize = 0;
        while at < out.len() && is_no_later(image.pub_date, out[at].pub_date)
            invariant
                at <= out.len(),
                slot_from(esa_views(out@), image.pub_date, 0) == slot_from(
                    esa_views(out@),
                    image.pub_date,
                    at as int,
                ),
            decreases out.len() - at,
        {
            at += 1;
        }
        let ghost before = out@;
        out.insert(at, image);
        assert(esa_views(out@) =~= esa_views(before).insert(at as int, image@));
        i += 1;
    }
    assert(all.take(all.len() as int) =~= all);
    out
}

/// The images that the items of the feed announce, the newest first.
pub open spec fn feed_images(items: Seq<RssItem>) -> Seq<EsaImageView> {
    newest_first(announced_by(items))
}

/// Where to take the feed from.
#[derive(Debug, Clone, PartialEq, Eq)]
pub enum FeedSource {
    /// From the cache file at the given path.
    Cache { path: String },
    /// From the address of the feed.
    Feed { url: String },
}

/// Where to fetch a file from and where to store it: the addresses are
/// tried one after the other until one answers with a success.
#[derive(Debug, Clone, PartialEq, Eq)]
pub struct FetchChain {
    pub urls: Vec<String>,
    pub path: String,
}

/// Service for fetching images from the ESA feed.
pub struct EsaService {
    pub config: Config,
    /// The path of the file that caches the feed.
    pub cache_file: String,
    /// The directory for downloaded images.
    pub wallpaper_dir: String,
    /// The directory for downloaded thumbnails.
    pub thumbnail_dir: String,
}

impl EsaService {
    /// A service that goes by the given configuration and directories.
    pub fn new(config: Config, cache_dir: &str, wallpaper_dir: String, thumbnail_dir: String) -> (r:
        EsaService)
        ensures
            r.config == config,
            r.cache_file@ == joined_path(cache_dir@, "esa_metadata.xml"@),
            r.wallpaper_dir == wallpaper_dir,
            r.thumbnail_dir == thumbnail_dir,
    {
        EsaService {
            config,
            cache_file: join_path(cache_dir, "esa_metadata.xml"),
            wallpaper_dir,
            thumbnail_dir,
        }
    }

    /// Whether the cached feed can still be used, given its age in seconds
    /// if there is a cache file whose age can be told.
    pub fn is_cache_valid(&self, age_secs: Option<u64>) -> (r: bool)
        ensures
            r == (age_secs matches Some(age) && age < self.config.jwst.cache_ttl),
    {
        match age_secs {
            Some(age) => age < self.config.jwst.cache_ttl,
            None => false,
        }
    }

    /// Where to take the feed from: from the cache while it is valid and no
    /// refresh is forced, and from its address otherwise.
    pub fn fetch_rss(&self, force_refresh: bool, cache_age_secs: Option<u64>) -> (r: FeedSource)
        ensures
            ({
                let cached = !force_refresh && (cache_age_secs matches Some(age) && age
                    < self.config.jwst.cache_ttl);
                match r {
                    FeedSource::Cache { path } => cached && path == self.cache_file,
                    FeedSource::Feed { url } => !cached && url == self.config.jwst.esa_rss_url,
                }
            }),
    {
        if !force_refresh && self.is_cache_valid(cache_age_secs) {
            FeedSource::Cache { path: self.cache_file.clone() }
        } else {
            FeedSource::Feed { url: self.config.jwst.esa_rss_url.clone() }
        }
    }

    /// The images that the items of the feed announce, the newest first.
    pub fn parse_rss(&self, items: &Vec<RssItem>) -> (r: Vec<EsaImage>)
        ensures
            esa_views(r@) == feed_images(items@),
    {
        let mut images: Vec<EsaImage> = Vec::new();
        let mut i: usize = 0;
        assert(items@.take(0) =~= Seq::<RssItem>::empty());
        assert(esa_views(images@) =~= Seq::<EsaImageView>::empty());
        while i < items.len()
            invariant
                i <= items.len(),
                esa_views(images@) == announced_by(items@.take(i as int)),
            decreases items.len() - i,
        {
            proof {
                assert(items@.take(i + 1).drop_last() =~= items@.take(i as int));
                assert(items@.take(i + 1).last() == items@[i as int]);
            }
            match read_item(&items[i]) {
                Some(image) => {
                    let ghost before = images@;
                    images.push(image);
                    assert(esa_views(images@) =~= esa_views(before).push(image@));
                },
                None => {},
            }
            i += 1;
        }
        assert(items@.take(items@.len() as int) =~= items@);
        sort_newest_first(images)
    }

    /// The images that the items of the feed announce, the newest first.
    pub fn get_images(&self, items: &Vec<RssItem>) -> (r: Vec<EsaImage>)
        ensures
            esa_views(r@) == feed_images(items@),
    {
        self.parse_rss(items)
    }

    /// The path at which the thumbnail of the image is stored.
    pub fn thumbnail_path(&self, image: &EsaImage) -> (r: String)
        ensures
            r@ == joined_path(self.thumbnail_dir@, image.id@ + ".thumb.jpg"@),
    {
        let name = chain(image.id.as_str(), ".thumb.jpg");
        join_path(self.thumbnail_dir.as_str(), name.as_str())
    }

    /// The path at which the image is stored, with `suffix` between its
    /// identifier and the file extension.
    pub fn stored_path(&self, image: &EsaImage, suffix: &str) -> (r: String)
        ensures
            r@ == joined_path(self.wallpaper_dir@, "webb-"@ + image.id@ + suffix@ + ".jpg"@),
    {
        let mut name = chain("webb-", image.id.as_str());
        name.append(suffix);
        name.append(".jpg");
        join_path(self.wallpaper_dir.as_str(), name.as_str())
    }

    /// Where to fetch the thumbnail of the image from: the small rendition
    /// first, then the one for screens.
    pub fn download_thumbnail(&self, image: &EsaImage) -> (r: FetchChain)
        ensures
            string_views(r.urls@) == seq![
                rendition_url(self.config.jwst.esa_cdn_base@, "news"@, image.id@),
                rendition_url(self.config.jwst.esa_cdn_base@, "screen"@, image.id@),
            ],
            r.path@ == joined_path(self.thumbnail_dir@, image.id@ + ".thumb.jpg"@),
    {
        let mut urls: Vec<String> = Vec::new();
        urls.push(image.thumbnail_url(&self.config));
        urls.push(image.screen_url(&self.config));
        assert(string_views(urls@) =~= seq![
            rendition_url(self.config.jwst.esa_cdn_base@, "news"@, image.id@),
            rendition_url(self.config.jwst.esa_cdn_base@, "screen"@, image.id@),
        ]);
        FetchChain { urls, path: self.thumbnail_path(image) }
    }

    /// The rendition that a resolution asks for: `thumbnail`, `screen` and
    /// `large` ask for their own, and anything else asks for the wallpaper
    /// in ultra-high definition.
    pub open spec fn rendition_for(resolution: Seq<char>) -> Seq<char> {
        if resolution == "thumbnail"@ {
            "news"@
        } else if resolution == "screen"@ {
            "screen"@
        } else if resolution == "large"@ {
            "large"@
        } else {
            "wallpaper_uhd"@
        }
    }

    /// Where to fetch the image from in the resolution asked for: that
    /// rendition first, then the large one, then the one for screens.
    pub fn download_image(&self, image: &EsaImage, resolution: &str) -> (r: FetchChain)
        ensures
            string_views(r.urls@) == seq![
                rendition_url(
                    self.config.jwst.esa_cdn_base@,
                    EsaService::rendition_for(resolution@),
                    image.id@,
                ),
                rendition_url(self.config.jwst.esa_cdn_base@, "large"@, image.id@),
                rendition_url(self.config.jwst.esa_cdn_base@, "screen"@, image.id@),
            ],
            r.path@ == joined_path(self.wallpaper_dir@, "webb-"@ + image.id@ + ""@ + ".jpg"@),
    {
        let first = if str_eq(resolution, "thumbnail") {
            image.thumbnail_url(&self.config)
        } else if str_eq(resolution, "screen") {
            image.screen_url(&self.config)
        } else if str_eq(resolution, "large") {
            image.large_url(&self.config)
        } else {
            image.wallpaper_uhd_url(&self.config)
        };
        let mut urls: Vec<String> = Vec::new();
        urls.push(first);
        urls.push(image.large_url(&self.config));
        urls.push(image.screen_url(&self.config));
        assert(string_views(urls@) =~= seq![
            rendition_url(
                self.config.jwst.esa_cdn_base@,
                EsaService::rendition_for(resolution@),
                image.id@,
            ),
            rendition_url(self.config.jwst.esa_cdn_base@, "large"@, image.id@),
            rendition_url(self.config.jwst.esa_cdn_base@, "screen"@, image.id@),
        ]);
        FetchChain { urls, path: self.stored_path(image, "") }
    }

    /// The paths at which a downloaded copy of the image may lie, in the
    /// order in which they are preferred.
    pub fn downloaded_candidates(&self, image: &EsaImage) -> (r: Vec<String>)
        ensures
            string_views(r@) == seq![
                joined_path(
                    self.wallpaper_dir@,
                    "webb-"@ + image.id@ + "-ultrawide"@ + ".jpg"@,
                ),
                joined_path(self.wallpaper_dir@, "webb-"@ + image.id@ + ""@ + ".jpg"@),
                joined_path(self.wallpaper_dir@, "webb-"@ + image.id@ + "-laptop"@ + ".jpg"@),
            ],
    {
        let mut r: Vec<String> = Vec::new();
        r.push(self.stored_path(image, "-ultrawide"));
        r.push(self.stored_path(image, ""));
        r.push(self.stored_path(image, "-laptop"));
        assert(string_views(r@) =~= seq![
            joined_path(self.wallpaper_dir@, "webb-"@ + image.id@ + "-ultrawide"@ + ".jpg"@),
            joined_path(self.wallpaper_dir@, "webb-"@ + image.id@ + ""@ + ".jpg"@),
            joined_path(self.wallpaper_dir@, "webb-"@ + image.id@ + "-laptop"@ + ".jpg"@),
        ]);
        r
    }

    /// Whether the image counts as downloaded, given for each candidate
    /// path whether a file is there: the plain or the ultra-wide copy is.
    pub fn is_downloaded(present: &Vec<bool>) -> (r: bool)
        ensures
            r == ((present@.len() > 1 && present@[1]) || (present@.len() > 0 && present@[0])),
    {
        (present.len() > 1 && present[1]) || (present.len() > 0 && present[0])
    }

    /// The path of the downloaded copy of the image, given the candidate
    /// paths and for each whether a file is there: the first that is.
    pub fn get_downloaded_path(candidates: &Vec<String>, present: &Vec<bool>) -> (r: Option<String>)
        ensures
            match r {
                Some(path) => exists|i: int|
                    0 <= i < candidates@.len() && i < present@.len() && present@[i] && path
                        == candidates@[i] && forall|k: int| 0 <= k < i ==> !present@[k],
                None => forall|i: int|
                    0 <= i < candidates@.len() && i < present@.len() ==> !present@[i],
            },
    {
        let mut i: usize = 0;
        while i < candidates.len() && i < present.len()
            invariant
                forall|k: int| 0 <= k < i ==> !present@[k],
            decreases candidates.len() - i,
        {
            if present[i] {
                return Some(candidates[i].clone());
            }
            i += 1;
        }
        None
    }
}

} // verus!
