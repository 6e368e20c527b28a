use jwst_cosmos::config::Config;
use jwst_cosmos::services::jwst_api::{
    ApiError, Download, ImageDetails, JwstApiService, JwstImage, ListingSource,
};
use jwst_cosmos::services::jwst_esa::{
    is_no_later, read_item, read_last_segment, read_plain_title, sort_newest_first, EsaImage,
    EsaService, FeedSource, RssItem,
};
use jwst_cosmos::services::{HttpReply, ServiceError};

fn image(id: &str) -> JwstImage {
    JwstImage {
        id: id.to_string(),
        observation_id: None,
        program: None,
        details: None,
        file_type: None,
        thumbnail: None,
        location: None,
    }
}

fn details(description: Option<&str>, instruments: Option<Vec<&str>>) -> ImageDetails {
    ImageDetails {
        mission: None,
        instruments: instruments.map(|list| list.into_iter().map(String::from).collect()),
        suffix: None,
        description: description.map(String::from),
    }
}

fn api(key: Option<&str>) -> JwstApiService {
    JwstApiService::new(
        Config::default(),
        "/home/alice/.cache/jwst-cosmos",
        "/home/alice/Pictures/Wallpapers".to_string(),
        "/home/alice/.cache/jwst-cosmos/thumbnails".to_string(),
        key,
    )
}

fn esa() -> EsaService {
    EsaService::new(
        Config::default(),
        "/home/alice/.cache/jwst-cosmos",
        "/home/alice/Pictures/Wallpapers".to_string(),
        "/home/alice/.cache/jwst-cosmos/thumbnails".to_string(),
    )
}

fn esa_image(id: &str, date: Option<(i64, u32)>) -> EsaImage {
    EsaImage { id: id.to_string(), title: id.to_uppercase(), pub_date: date, enclosure_url: None }
}

fn item(title: Option<&str>, guid: Option<&str>, date: Option<&str>) -> RssItem {
    RssItem {
        title: title.map(String::from),
        guid: guid.map(String::from),
        pub_date: date.map(String::from),
        enclosure_url: None,
    }
}

#[test]
fn title_prefers_the_description() {
    let mut m = image("jw01");
    assert_eq!(m.title(), "jw01");
    m.observation_id = Some("obs-7".to_string());
    assert_eq!(m.title(), "obs-7");
    m.details = Some(details(None, None));
    assert_eq!(m.title(), "obs-7");
    m.details = Some(details(Some(""), None));
    assert_eq!(m.title(), "obs-7");
    m.details = Some(details(Some("Carina Nebula"), None));
    assert_eq!(m.title(), "Carina Nebula");
    m.observation_id = None;
    m.details = Some(details(Some(""), None));
    assert_eq!(m.title(), "jw01");
}

#[test]
fn instruments_are_joined_with_commas() {
    let mut m = image("jw01");
    assert_eq!(m.instruments_str(), "");
    m.details = Some(details(None, None));
    assert_eq!(m.instruments_str(), "");
    m.details = Some(details(None, Some(vec![])));
    assert_eq!(m.instruments_str(), "");
    m.details = Some(details(None, Some(vec!["NIRCam"])));
    assert_eq!(m.instruments_str(), "NIRCam");
    m.details = Some(details(None, Some(vec!["NIRCam", "MIRI", "FGS"])));
    assert_eq!(m.instruments_str(), "NIRCam, MIRI, FGS");
}

#[test]
fn listing_comes_from_cache_or_api() {
    let with_key = api(Some(" abc123 \n"));
    assert!(with_key.has_api_key());
    assert_eq!(with_key.api_key, Some("abc123".to_string()));
    assert_eq!(with_key.cache_file, "/home/alice/.cache/jwst-cosmos/jwst_api_metadata.json");
    assert!(with_key.is_cache_valid(Some(0)));
    assert!(with_key.is_cache_valid(Some(3599)));
    assert!(!with_key.is_cache_valid(Some(3600)));
    assert!(!with_key.is_cache_valid(None));
    assert_eq!(
        with_key.fetch_images(false, Some(10)),
        Ok(ListingSource::Cache { path: "/home/alice/.cache/jwst-cosmos/jwst_api_metadata.json".to_string() })
    );
    let from_api = Ok(ListingSource::Api {
        url: "https://api.jwstapi.com/all/type/jpg".to_string(),
        api_key: "abc123".to_string(),
    });
    assert_eq!(with_key.fetch_images(true, Some(10)), from_api);
    assert_eq!(with_key.fetch_images(false, Some(3600)), from_api);
    assert_eq!(with_key.get_images(false, None), from_api);
    let without = api(None);
    assert!(!without.has_api_key());
    assert_eq!(without.fetch_images(true, Some(10)), Err(ApiError::NoApiKey));
    assert!(matches!(without.fetch_images(false, Some(10)), Ok(ListingSource::Cache { .. })));
}

#[test]
fn listings_are_read() {
    let body = r#"{"statusCode":200,"body":[
        {"id":"jw02731","observation_id":"jw02731-o001","program":2731,
         "details":{"mission":"JWST","instruments":["NIRCam","MIRI"],"suffix":"_cal","description":"Cosmic Cliffs"},
         "file_type":"jpg","thumbnail":"https://x/t.jpg","location":"https://x/full.jpg"},
        {"id":"jw00001","program":-5,"details":null}
    ]}"#;
    let images = JwstApiService::fetched_images(&HttpReply { status: 200, body: body.to_string() }).unwrap();
    assert_eq!(images.len(), 2);
    assert_eq!(images[0].title(), "Cosmic Cliffs");
    assert_eq!(images[0].instruments_str(), "NIRCam, MIRI");
    assert_eq!(images[0].program, Some(2731));
    assert_eq!(images[0].location, Some("https://x/full.jpg".to_string()));
    assert_eq!(images[1], JwstImage { program: Some(-5), ..image("jw00001") });
    assert_eq!(
        JwstApiService::fetched_images(&HttpReply { status: 200, body: "{}".to_string() }),
        Ok(Vec::new())
    );
    for bad in [
        "[]",
        r#"{"body":null}"#,
        r#"{"body":[{"observation_id":"x"}]}"#,
        r#"{"body":[{"id":"a","program":2147483648}]}"#,
        r#"{"body":[{"id":"a","program":1.5}]}"#,
        r#"{"body":[{"id":"a","details":{"instruments":["a",1]}}]}"#,
        r#"{"body":[{"id":"a","details":{"instruments":"NIRCam"}}]}"#,
        "oops",
    ] {
        assert_eq!(
            JwstApiService::fetched_images(&HttpReply { status: 200, body: bad.to_string() }),
            Err(ServiceError::Protocol),
            "{bad}"
        );
    }
    assert_eq!(
        JwstApiService::fetched_images(&HttpReply { status: 401, body: "denied".to_string() }),
        Err(ServiceError::Rejected { status: 401, body: "denied".to_string() })
    );
    assert_eq!(
        JwstApiService::cached_images(r#"[{"id":"a","program":-2147483648},{"id":"b"}]"#),
        Ok(vec![JwstImage { program: Some(i32::MIN), ..image("a") }, image("b")])
    );
    assert_eq!(JwstApiService::cached_images("[]"), Ok(Vec::new()));
    assert_eq!(JwstApiService::cached_images(r#"{"body":[]}"#), Err(ApiError::Cache));
    assert_eq!(JwstApiService::cached_images(r#"[{"id":1}]"#), Err(ApiError::Cache));
    assert_eq!(JwstApiService::cached_images(""), Err(ApiError::Cache));
}

#[test]
fn downloads_are_planned() {
    let service = api(None);
    let mut m = image("jw02731");
    let path = "/home/alice/Pictures/Wallpapers/jwst-jw02731.jpg".to_string();
    let thumb = "/home/alice/.cache/jwst-cosmos/thumbnails/jw02731.thumb.jpg".to_string();
    assert_eq!(service.image_path(&m), path);
    assert_eq!(service.is_downloaded(&m), path);
    assert_eq!(service.thumbnail_path(&m), thumb);
    assert_eq!(service.download_image(&m, true), Ok(Download::Present { path: path.clone() }));
    assert_eq!(service.download_image(&m, false), Err(ApiError::NoDownloadUrl));
    assert_eq!(service.download_thumbnail(&m, true), Ok(Download::Present { path: thumb.clone() }));
    assert_eq!(service.download_thumbnail(&m, false), Err(ApiError::NoThumbnailUrl));
    m.location = Some("https://x/full.jpg".to_string());
    m.thumbnail = Some("https://x/t.jpg".to_string());
    assert_eq!(
        service.download_image(&m, false),
        Ok(Download::Fetch { url: "https://x/full.jpg".to_string(), path })
    );
    assert_eq!(
        service.download_thumbnail(&m, false),
        Ok(Download::Fetch { url: "https://x/t.jpg".to_string(), path: thumb })
    );
}

#[test]
fn gallery_addresses_are_built() {
    let config = Config::default();
    let m = esa_image("potm2511a", None);
    assert_eq!(m.thumbnail_url(&config), "https://cdn.esawebb.org/archives/images/news/potm2511a.jpg");
    assert_eq!(m.screen_url(&config), "https://cdn.esawebb.org/archives/images/screen/potm2511a.jpg");
    assert_eq!(m.wallpaper_uhd_url(&config), "https://cdn.esawebb.org/archives/images/wallpaper_uhd/potm2511a.jpg");
    assert_eq!(m.large_url(&config), "https://cdn.esawebb.org/archives/images/large/potm2511a.jpg");
    assert_eq!(m.gallery_url(), "https://esawebb.org/images/potm2511a/");
    assert_eq!(m.copy(), m);
}

#[test]
fn identifiers_are_the_last_segment() {
    assert_eq!(read_last_segment("https://esawebb.org/images/potm2511a/"), "potm2511a");
    assert_eq!(read_last_segment("https://esawebb.org/images/potm2511a"), "potm2511a");
    assert_eq!(read_last_segment("https://esawebb.org/images/potm2511a///"), "potm2511a");
    assert_eq!(read_last_segment("potm2511a"), "potm2511a");
    assert_eq!(read_last_segment(""), "");
    assert_eq!(read_last_segment("///"), "");
    assert_eq!(read_last_segment("a/ "), " ");
}

#[test]
fn titles_have_their_entities_written_out() {
    assert_eq!(read_plain_title("Gas &amp; Dust"), "Gas & Dust");
    assert_eq!(read_plain_title("a &lt; b &gt; c &quot;d&quot;"), "a < b > c \"d\"");
    assert_eq!(read_plain_title("&amp;lt;"), "<");
    assert_eq!(read_plain_title("&amp;amp;"), "&amp;");
    assert_eq!(read_plain_title("plain"), "plain");
    assert_eq!(read_plain_title("&apos;"), "&apos;");
}

#[test]
fn items_announce_images() {
    let full = RssItem {
        title: Some("Pillars &amp; Stars".to_string()),
        guid: Some("https://esawebb.org/images/weic2216b/".to_string()),
        pub_date: Some("Wed, 19 Oct 2022 16:00:00 +0200".to_string()),
        enclosure_url: Some("https://cdn.esawebb.org/x.jpg".to_string()),
    };
    assert_eq!(
        read_item(&full),
        Some(EsaImage {
            id: "weic2216b".to_string(),
            title: "Pillars & Stars".to_string(),
            pub_date: Some((1666188000, 0)),
            enclosure_url: Some("https://cdn.esawebb.org/x.jpg".to_string()),
        })
    );
    assert_eq!(
        read_item(&item(None, Some("https://esawebb.org/images/a&amp;b"), Some("yesterday"))),
        Some(EsaImage { id: "a&amp;b".to_string(), title: "a&b".to_string(), pub_date: None, enclosure_url: None })
    );
    assert_eq!(read_item(&item(Some("t"), None, None)), None);
    assert_eq!(read_item(&item(Some("t"), Some(""), None)), None);
    assert_eq!(read_item(&item(Some("t"), Some("///"), None)), None);
    assert_eq!(
        read_item(&item(Some("t"), Some("https://esawebb.org//"), None)).map(|m| m.id),
        Some("esawebb.org".to_string())
    );
    assert_eq!(
        read_item(&item(Some("t"), Some("x"), Some("Wed, 18 Feb 2015 23:16:09 GMT"))).unwrap().pub_date,
        Some((1424301369, 0))
    );
}

#[test]
fn dates_are_compared() {
    assert!(is_no_later(None, None));
    assert!(is_no_later(None, Some((0, 0))));
    assert!(!is_no_later(Some((i64::MIN, 0)), None));
    assert!(is_no_later(Some((5, 7)), Some((5, 7))));
    assert!(is_no_later(Some((5, 7)), Some((5, 8))));
    assert!(!is_no_later(Some((5, 8)), Some((5, 7))));
    assert!(is_no_later(Some((4, 999_999_999)), Some((5, 0))));
    assert!(is_no_later(Some((-1, 0)), Some((0, 0))));
}

#[test]
fn sorting_puts_the_newest_first_and_is_stable() {
    let images = vec![
        esa_image("a", Some((100, 0))),
        esa_image("b", None),
        esa_image("c", Some((300, 0))),
        esa_image("d", Some((100, 0))),
        esa_image("e", Some((300, 5))),
        esa_image("f", None),
        esa_image("g", Some((200, 0))),
    ];
    let mut expected = images.clone();
    expected.sort_by(|x, y| y.pub_date.cmp(&x.pub_date));
    let sorted = sort_newest_first(images);
    let ids: Vec<&str> = sorted.iter().map(|m| m.id.as_str()).collect();
    assert_eq!(ids, ["e", "c", "g", "a", "d", "b", "f"]);
    assert_eq!(sorted, expected);
    assert_eq!(sort_newest_first(Vec::new()), Vec::new());
}

#[test]
fn sorting_agrees_with_the_stable_std_sort() {
    let mut x: u64 = 0x1234_5678_9ABC_DEF1;
    for round in 0..50 {
        let mut images = Vec::new();
        for i in 0..(round % 17) {
            x ^= x << 13;
            x ^= x >> 7;
            x ^= x << 17;
            let date = if x % 5 == 0 { None } else { Some(((x % 4) as i64 - 2, (x >> 8) as u32 % 2)) };
            images.push(esa_image(&format!("m{i}"), date));
        }
        let mut expected = images.clone();
        expected.sort_by(|a, b| b.pub_date.cmp(&a.pub_date));
        assert_eq!(sort_newest_first(images), expected);
    }
}

#[test]
fn feed_is_parsed_into_sorted_images() {
    let service = esa();
    let items = vec![
        item(Some("Old"), Some("https://esawebb.org/images/old1/"), Some("Mon, 01 Jan 2024 00:00:00 +0000")),
        item(Some("No address"), None, Some("Tue, 02 Jan 2024 00:00:00 +0000")),
        item(Some("Undated"), Some("https://esawebb.org/images/undated/"), None),
        item(Some("New &lt;1&gt;"), Some("https://esawebb.org/images/new1/"), Some("Wed, 03 Jan 2024 12:00:00 +0100")),
        item(None, Some("https://esawebb.org/images/same/"), Some("Mon, 01 Jan 2024 01:00:00 +0100")),
    ];
    let images = service.parse_rss(&items);
    let listed: Vec<(&str, &str)> = images.iter().map(|m| (m.id.as_str(), m.title.as_str())).collect();
    assert_eq!(listed, [("new1", "New <1>"), ("old1", "Old"), ("same", "same"), ("undated", "Undated")]);
    assert_eq!(images[1].pub_date, Some((1704067200, 0)));
    assert_eq!(images[2].pub_date, Some((1704067200, 0)));
    assert_eq!(service.get_images(&items), images);
    assert_eq!(service.parse_rss(&Vec::new()), Vec::new());
}

#[test]
fn feed_comes_from_cache_or_address() {
    let service = esa();
    assert_eq!(service.cache_file, "/home/alice/.cache/jwst-cosmos/esa_metadata.xml");
    assert!(service.is_cache_valid(Some(3599)));
    assert!(!service.is_cache_valid(Some(3600)));
    assert!(!service.is_cache_valid(None));
    assert_eq!(
        service.fetch_rss(false, Some(1)),
        FeedSource::Cache { path: "/home/alice/.cache/jwst-cosmos/esa_metadata.xml".to_string() }
    );
    let feed = FeedSource::Feed { url: "https://feeds.feedburner.com/esawebb/images/".to_string() };
    assert_eq!(service.fetch_rss(true, Some(1)), feed);
    assert_eq!(service.fetch_rss(false, None), feed);
    assert_eq!(service.fetch_rss(false, Some(99999)), feed);
}

#[test]
fn gallery_downloads_are_planned() {
    let service = esa();
    let m = esa_image("potm2511a", None);
    let base = "https://cdn.esawebb.org/archives/images";
    let thumb = service.download_thumbnail(&m);
    assert_eq!(thumb.urls, vec![format!("{base}/news/potm2511a.jpg"), format!("{base}/screen/potm2511a.jpg")]);
    assert_eq!(thumb.path, "/home/alice/.cache/jwst-cosmos/thumbnails/potm2511a.thumb.jpg");
    assert_eq!(service.thumbnail_path(&m), thumb.path);
    for (resolution, kind) in [
        ("thumbnail", "news"),
        ("screen", "screen"),
        ("large", "large"),
        ("wallpaper_uhd", "wallpaper_uhd"),
        ("anything", "wallpaper_uhd"),
        ("", "wallpaper_uhd"),
    ] {
        let chain = service.download_image(&m, resolution);
        assert_eq!(
            chain.urls,
            vec![
                format!("{base}/{kind}/potm2511a.jpg"),
                format!("{base}/large/potm2511a.jpg"),
                format!("{base}/screen/potm2511a.jpg"),
            ]
        );
        assert_eq!(chain.path, "/home/alice/Pictures/Wallpapers/webb-potm2511a.jpg");
    }
    assert_eq!(service.stored_path(&m, "-laptop"), "/home/alice/Pictures/Wallpapers/webb-potm2511a-laptop.jpg");
}

#[test]
fn downloaded_copies_are_found() {
    let service = esa();
    let m = esa_image("potm2511a", None);
    let candidates = service.downloaded_candidates(&m);
    assert_eq!(
        candidates,
        vec![
            "/home/alice/Pictures/Wallpapers/webb-potm2511a-ultrawide.jpg",
            "/home/alice/Pictures/Wallpapers/webb-potm2511a.jpg",
            "/home/alice/Pictures/Wallpapers/webb-potm2511a-laptop.jpg",
        ]
    );
    assert_eq!(EsaService::get_downloaded_path(&candidates, &vec![false, false, false]), None);
    assert_eq!(EsaService::get_downloaded_path(&candidates, &vec![false, true, true]), Some(candidates[1].clone()));
    assert_eq!(EsaService::get_downloaded_path(&candidates, &vec![true, true, true]), Some(candidates[0].clone()));
    assert_eq!(EsaService::get_downloaded_path(&candidates, &vec![false, false, true]), Some(candidates[2].clone()));
    assert_eq!(EsaService::get_downloaded_path(&candidates, &vec![]), None);
    assert!(EsaService::is_downloaded(&vec![true, false, false]));
    assert!(EsaService::is_downloaded(&vec![false, true, false]));
    assert!(!EsaService::is_downloaded(&vec![false, false, true]));
    assert!(!EsaService::is_downloaded(&vec![]));
}
