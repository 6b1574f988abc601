use esfwee::catalog::{
    find_author, has_image_extension, is_author_credit, is_image_file, is_page_entry,
    manga_storage_path, page_content_type, page_index, pick_title, ChaptersRequest,
    DownloadResponse, MangaResult, Page, SearchRequest, StaffCredit,
};
use esfwee::decimal::{decimal_text, padded3_text, signed_decimal_text};
use esfwee::source::{
    absolute_url, chapter_entry, chapters_url, extension, listed_chapter, listed_result,
    page_address, page_filename, pages_of, search_result, search_url, site_address, Chapter,
    ScrapeError,
};
use esfwee::digest::content_hash;
use esfwee::error::{AppError, ErrorClass, ErrorKind};
use esfwee::headers::{collect_tags, header_value, Header};
use esfwee::layout::{locate, object_key, shard, BlobLocation};
use esfwee::record::{copy_texts, etag, response_headers, Metadata, MetadataBucket};
use esfwee::text::{
    contains, ends_with, eq_ignore_case, eq_text, hex_digit, join2, join3, starts_with,
    starts_with_ignore_case, to_lower,
};

#[test]
fn content_hash_is_lower_case_sha256() {
    assert_eq!(
        content_hash(b"hello"),
        "2cf24dba5fb0a30e26e83b2ac5b9e29e1b161e5c1fa7425e73043362938b9824"
    );
    assert_eq!(
        content_hash(b""),
        "e3b0c44298fc1c149afbf4c8996fb92427ae41e4649b934ca495991b7852b855"
    );
    assert_eq!(
        content_hash(b"hello world"),
        "b94d27b9934d3e08a52e52d7da7dabfac484efe37a5380ee9088f7ace2efcde9"
    );
    assert_eq!(content_hash(&[0xff; 1000]).len(), 64);
}

#[test]
fn shard_is_the_first_two_hex_digits() {
    assert_eq!(shard("2cf24d"), Some("2c".to_string()));
    assert_eq!(shard("AB"), Some("AB".to_string()));
    assert_eq!(shard("a"), None);
    assert_eq!(shard(""), None);
    assert_eq!(shard("g1"), None);
    assert_eq!(shard("1g"), None);
    assert_eq!(shard("../x"), None);
    assert_eq!(shard("é1a"), None);
}

#[test]
fn blob_lies_under_shard_and_key() {
    let at = locate("2cf24d", "k1").unwrap();
    assert_eq!(at, BlobLocation { shard: "2c".to_string(), key: "k1".to_string() });
    assert_eq!(at.relative_path(), "data/2c/k1");
    assert_eq!(locate("x", "k1"), None);
}

#[test]
fn record_key_joins_bucket_and_key() {
    assert_eq!(object_key("b1", "k1"), "b1/k1");
    assert_eq!(object_key("", ""), "/");
    assert_eq!(object_key("a/b", "c"), object_key("a", "b/c"));
}

#[test]
fn header_lookup_ignores_case() {
    let headers = vec![
        Header::new("Content-Type", "text/plain"),
        Header::new("X-HASH", "ab"),
        Header::new("x-hash", "cd"),
    ];
    assert_eq!(header_value(&headers, "x-hash"), Some(&"ab".to_string()));
    assert_eq!(header_value(&headers, "content-type"), Some(&"text/plain".to_string()));
    assert_eq!(header_value(&headers, "etag"), None);
    assert_eq!(header_value(&Vec::new(), "x-hash"), None);
}

#[test]
fn tags_are_the_marked_values() {
    let headers = vec![
        Header::new("x-kv-a", "1"),
        Header::new("x-hash", "ab"),
        Header::new("X-Kv-b", "2"),
        Header::new("x-kv-", "3"),
        Header::new("x-kv", "4"),
        Header::new("x-kv-a", "1"),
    ];
    assert_eq!(collect_tags(&headers), vec!["1", "2", "3", "1"]);
    assert!(collect_tags(&Vec::new()).is_empty());
}

#[test]
fn object_goes_out_with_its_headers() {
    assert_eq!(etag("abc"), "\"abc\"");
    assert_eq!(
        response_headers("text/plain", "abc"),
        vec![
            Header::new("Content-Type", "text/plain"),
            Header::new("x-hash", "\"abc\""),
            Header::new("ETag", "\"abc\""),
            Header::new("Cache-Control", "public, max-age=31536000, immutable"),
        ]
    );
}

#[test]
fn records_copy_field_by_field() {
    let record = Metadata {
        created_at: "t".to_string(),
        tags: vec!["a".to_string(), "b".to_string()],
        hash: "h".to_string(),
        content_type: "c".to_string(),
    };
    assert_eq!(record.copy(), record);
    let bucket = MetadataBucket { created_at: "t".to_string(), tags: vec!["a".to_string()] };
    assert_eq!(bucket.copy(), bucket);
    assert_eq!(copy_texts(&vec!["x".to_string()]), vec!["x".to_string()]);
}

#[test]
fn every_error_has_its_class_and_status() {
    let expected = [
        (ErrorKind::BucketNotFound, ErrorClass::NotFound, 404),
        (ErrorKind::ObjectNotFound, ErrorClass::NotFound, 404),
        (ErrorKind::BucketAlreadyExists, ErrorClass::Conflict, 409),
        (ErrorKind::Validation, ErrorClass::BadRequest, 400),
        (ErrorKind::HashMismatch, ErrorClass::BadRequest, 400),
        (ErrorKind::Inconsistent, ErrorClass::Internal, 500),
        (ErrorKind::Io, ErrorClass::Internal, 500),
        (ErrorKind::Encoding, ErrorClass::Internal, 500),
    ];
    for (kind, class, status) in expected {
        let error = AppError(kind);
        assert_eq!(error.kind(), kind);
        assert_eq!(error.class(), class);
        assert_eq!(error.status(), status);
        assert!(!error.message().is_empty());
    }
    assert_eq!(AppError::from(ErrorKind::Io), AppError(ErrorKind::Io));
    assert_eq!(AppError(ErrorKind::HashMismatch).message(), "hashes do not match");
    assert_eq!(AppError(ErrorKind::BucketAlreadyExists).message(), "bucket already exists");
    assert_eq!(AppError(ErrorKind::ObjectNotFound).message(), "object does not exist");
}

#[test]
fn text_helpers() {
    assert_eq!(to_lower('A'), 'a');
    assert_eq!(to_lower('Z'), 'z');
    assert_eq!(to_lower('a'), 'a');
    assert_eq!(to_lower('['), '[');
    assert_eq!(to_lower('É'), 'É');
    assert!(hex_digit('0') && hex_digit('9') && hex_digit('a') && hex_digit('F'));
    assert!(!hex_digit('g') && !hex_digit('G') && !hex_digit('/') && !hex_digit(':'));
    assert!(eq_ignore_case("AbC", "aBc"));
    assert!(!eq_ignore_case("abc", "abd"));
    assert!(!eq_ignore_case("abc", "ab"));
    assert!(eq_ignore_case("", ""));
    assert!(starts_with_ignore_case("X-KV-tag", "x-kv-"));
    assert!(!starts_with_ignore_case("x-k", "x-kv-"));
    assert!(eq_text("jpg", "jpg"));
    assert!(!eq_text("jpg", "JPG"));
    assert!(starts_with("https://x", "http"));
    assert!(!starts_with("htt", "http"));
    assert!(!starts_with("ftp://x", "http"));
    assert!(ends_with("a.png", ".png"));
    assert!(!ends_with("png", ".png"));
    assert!(ends_with("x", ""));
    assert!(contains("Story & Art", "Story"));
    assert!(contains("abc", ""));
    assert!(contains("", ""));
    assert!(contains("xxStory", "Story"));
    assert!(!contains("Stor", "Story"));
    assert!(!contains("story", "Story"));
    assert_eq!(join2("a", "b"), "ab");
    assert_eq!(join3("a", "/", "b"), "a/b");
}

#[test]
fn image_files_by_their_ending() {
    assert!(is_image_file("001.jpg"));
    assert!(is_image_file("001.JPG"));
    assert!(is_image_file("cover.Jpeg"));
    assert!(is_image_file("a.png"));
    assert!(is_image_file("a.GIF"));
    assert!(is_image_file("a.webp"));
    assert!(is_image_file(".png"));
    assert!(!is_image_file("a.txt"));
    assert!(!is_image_file("png"));
    assert!(!is_image_file("a.png.bak"));
    assert!(!is_image_file(""));
    assert!(has_image_extension("a.jpg"));
    assert!(!has_image_extension("a.JPG"));
}

#[test]
fn page_content_types() {
    assert_eq!(page_content_type(Some("jpg")), "image/jpeg");
    assert_eq!(page_content_type(Some("jpeg")), "image/jpeg");
    assert_eq!(page_content_type(Some("png")), "image/png");
    assert_eq!(page_content_type(Some("gif")), "image/gif");
    assert_eq!(page_content_type(Some("webp")), "image/webp");
    assert_eq!(page_content_type(Some("PNG")), "application/octet-stream");
    assert_eq!(page_content_type(Some("bmp")), "application/octet-stream");
    assert_eq!(page_content_type(None), "application/octet-stream");
}

#[test]
fn pages_are_numbered_from_one() {
    assert_eq!(page_index(0, 3), None);
    assert_eq!(page_index(1, 3), Some(0));
    assert_eq!(page_index(3, 3), Some(2));
    assert_eq!(page_index(4, 3), None);
    assert_eq!(page_index(1, 0), None);
    assert_eq!(page_index(usize::MAX, usize::MAX), Some(usize::MAX - 1));
}

#[test]
fn titles_and_labels() {
    assert_eq!(pick_title("Berserk", "Beruseruku"), "Berserk");
    assert_eq!(pick_title("", "Beruseruku"), "Beruseruku");
    assert_eq!(pick_title("", ""), "No title found");
    let none = DownloadResponse::no_pages();
    assert_eq!(
        none,
        DownloadResponse { success: false, message: "No pages found".to_string(), pages_downloaded: 0 }
    );
}

fn credit(name: &str, description: Option<&str>) -> StaffCredit {
    StaffCredit { name: name.to_string(), description: description.map(str::to_string) }
}

#[test]
fn author_is_the_first_story_credit() {
    assert!(is_author_credit(&credit("a", Some("Story & Art"))));
    assert!(is_author_credit(&credit("a", Some("Original Creator"))));
    assert!(!is_author_credit(&credit("a", Some("Art"))));
    assert!(!is_author_credit(&credit("a", None)));
    let staff = vec![
        credit("Translator", Some("Translator (English)")),
        credit("Nobody", None),
        credit("Kentaro Miura", Some("Story & Art")),
        credit("Studio Gaga", Some("Original Creator")),
    ];
    assert_eq!(find_author(&staff), Some("Kentaro Miura".to_string()));
    assert_eq!(find_author(&staff[..2].iter().map(|c| credit(&c.name, c.description.as_deref())).collect()), None);
    assert_eq!(find_author(&Vec::new()), None);
}

#[test]
fn numbers_as_text() {
    assert_eq!(decimal_text(0), "0");
    assert_eq!(decimal_text(7), "7");
    assert_eq!(decimal_text(10), "10");
    assert_eq!(decimal_text(1234567890), "1234567890");
    assert_eq!(decimal_text(u64::MAX), u64::MAX.to_string());
    assert_eq!(signed_decimal_text(0), "0");
    assert_eq!(signed_decimal_text(-1), "-1");
    assert_eq!(signed_decimal_text(21), "21");
    assert_eq!(signed_decimal_text(i64::MIN), i64::MIN.to_string());
    assert_eq!(signed_decimal_text(i64::MAX), i64::MAX.to_string());
    assert_eq!(padded3_text(0), "000");
    assert_eq!(padded3_text(7), "007");
    assert_eq!(padded3_text(42), "042");
    assert_eq!(padded3_text(100), "100");
    assert_eq!(padded3_text(1234), "1234");
}

#[test]
fn archive_entries_and_paths() {
    assert!(is_page_entry("001.JPG", false));
    assert!(!is_page_entry("001.jpg", true));
    assert!(!is_page_entry("notes.txt", false));
    assert_eq!(manga_storage_path(30002), "data/manga/30002");
    assert_eq!(manga_storage_path(-5), "data/manga/-5");
    assert_eq!(manga_storage_path(30002), format!("data/manga/{}", 30002));
}

#[test]
fn search_address_escapes_the_query() {
    let ask = |query: &str| search_url(&SearchRequest { query: query.to_string() });
    assert_eq!(ask("berserk"), "https://mangapill.com/search?page=1&q=berserk");
    assert_eq!(ask("one piece"), "https://mangapill.com/search?page=1&q=one%20piece");
    assert_eq!(ask("a&b=c/d~e_f-g.h"), "https://mangapill.com/search?page=1&q=a%26b%3Dc%2Fd~e_f-g.h");
    assert_eq!(ask("é"), "https://mangapill.com/search?page=1&q=%C3%A9");
    assert_eq!(ask(""), "https://mangapill.com/search?page=1&q=");
}

#[test]
fn links_are_resolved_against_the_site() {
    assert_eq!(absolute_url("/manga/1/berserk"), Ok("https://mangapill.com/manga/1/berserk".to_string()));
    assert_eq!(absolute_url("https://example.org/x"), Ok("https://example.org/x".to_string()));
    assert_eq!(absolute_url("chapters/1"), Ok("https://mangapill.com/chapters/1".to_string()));
    assert_eq!(absolute_url("https://[bad"), Err(ScrapeError::BadUrl));
}

#[test]
fn page_addresses_stay_on_the_site() {
    assert_eq!(
        page_address("https://elsewhere.example/manga/1/berserk?x=1#top"),
        Ok("https://mangapill.com/manga/1/berserk".to_string())
    );
    assert_eq!(page_address("http://mangapill.com"), Ok("https://mangapill.com/".to_string()));
    assert_eq!(page_address("/manga/1"), Err(ScrapeError::NotHttp));
    assert_eq!(page_address("ftp://mangapill.com/x"), Err(ScrapeError::NotHttp));
    assert_eq!(page_address("http"), Err(ScrapeError::BadUrl));
    assert_eq!(page_address("http://[bad"), Err(ScrapeError::BadUrl));
    assert_eq!(
        chapters_url(&ChaptersRequest { manga_url: "https://mangapill.com/manga/2/x".to_string() }),
        Ok("https://mangapill.com/manga/2/x".to_string())
    );
}

#[test]
fn search_items_need_link_and_title() {
    assert_eq!(
        search_result(Some("/manga/1/berserk"), "Berserk", Some("https://cdn/x.jpg".to_string())),
        Ok(Some(MangaResult {
            title: "Berserk".to_string(),
            url: "https://mangapill.com/manga/1/berserk".to_string(),
            thumbnail: Some("https://cdn/x.jpg".to_string()),
        }))
    );
    assert_eq!(search_result(None, "Berserk", None), Ok(None));
    assert_eq!(search_result(Some("/manga/1"), "", None), Ok(None));
    assert_eq!(search_result(Some("https://[bad"), "", None), Err(ScrapeError::BadUrl));
    assert_eq!(search_result(Some("https://[bad"), "Berserk", None), Err(ScrapeError::BadUrl));
}

#[test]
fn chapter_links_get_a_name() {
    assert_eq!(
        chapter_entry(Some("/chapters/1-10001000/berserk-chapter-1"), "Chapter 1"),
        Ok(Some(Chapter {
            chapter: "Chapter 1".to_string(),
            url: "https://mangapill.com/chapters/1-10001000/berserk-chapter-1".to_string(),
        }))
    );
    assert_eq!(
        chapter_entry(Some("/chapters/2"), ""),
        Ok(Some(Chapter {
            chapter: "Unknown Chapter".to_string(),
            url: "https://mangapill.com/chapters/2".to_string(),
        }))
    );
    assert_eq!(chapter_entry(None, "Chapter 1"), Ok(None));
    assert_eq!(chapter_entry(Some("https://[bad"), "Chapter 1"), Err(ScrapeError::BadUrl));
}

#[test]
fn listed_items_on_given_addresses() {
    assert_eq!(site_address("/manga/1"), "https://mangapill.com/manga/1");
    assert_eq!(site_address(""), "https://mangapill.com");
    assert_eq!(
        listed_result("u".to_string(), "t", None),
        Some(MangaResult { title: "t".to_string(), url: "u".to_string(), thumbnail: None })
    );
    assert_eq!(listed_result("u".to_string(), "", Some("p".to_string())), None);
    assert_eq!(
        listed_chapter("u".to_string(), "Chapter 3"),
        Chapter { chapter: "Chapter 3".to_string(), url: "u".to_string() }
    );
    assert_eq!(
        listed_chapter("u".to_string(), ""),
        Chapter { chapter: "Unknown Chapter".to_string(), url: "u".to_string() }
    );
}

#[test]
fn pages_keep_their_order() {
    assert_eq!(
        pages_of(vec!["a".to_string(), "b".to_string(), "a".to_string()]),
        vec![
            Page { url: "a".to_string() },
            Page { url: "b".to_string() },
            Page { url: "a".to_string() },
        ]
    );
    assert!(pages_of(Vec::new()).is_empty());
}

#[test]
fn page_files_are_numbered() {
    assert_eq!(extension("https://cdn.example/a/b.png"), "png");
    assert_eq!(extension("archive.tar.gz"), "gz");
    assert_eq!(extension("nodot"), "nodot");
    assert_eq!(extension("trailing."), "");
    assert_eq!(extension(""), "");
    assert_eq!(page_filename(1, "https://cdn.example/a/b.png"), "001.png");
    assert_eq!(page_filename(12, "x.jpeg"), "012.jpeg");
    assert_eq!(page_filename(123, "x.webp"), "123.webp");
    assert_eq!(page_filename(1000, "x"), "1000.x");
    for (number, url) in [(1usize, "a.b.c"), (99, "x.jpg"), (100, "y"), (5, "z.")] {
        let ext = url.split('.').last().unwrap_or("jpg");
        assert_eq!(page_filename(number, url), format!("{:03}.{}", number, ext));
    }
}
