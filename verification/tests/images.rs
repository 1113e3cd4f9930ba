use cedilla::images::{
    download_images, fetch_kind, file_url, is_absolute_url, is_svg_extension, is_svg_response,
    resolution, Fetch, Image, ImageState, ImageTable, LoadError, Placeholder, Resolution, Root,
};

#[test]
fn image_that_comes_into_view_is_fetched_once() {
    let mut table: ImageTable<u32> = ImageTable::new();
    assert_eq!(table.placeholder("https://x.org/a.png"), Placeholder::Sensor);
    assert!(table.on_url_discovered("https://x.org/a.png"));
    assert_eq!(table.placeholder("https://x.org/a.png"), Placeholder::Loading);
    assert!(!table.on_url_discovered("https://x.org/a.png"));
    assert!(!table.on_url_discovered("https://x.org/a.png"));
    assert_eq!(table.state("https://x.org/a.png"), Some(&ImageState::Loading));
    assert_eq!(table.state("https://x.org/b.png"), None);
}

#[test]
fn two_blocks_with_the_same_image_become_ready_together() {
    let mut table: ImageTable<u32> = ImageTable::new();
    let first_block = "https://x.org/a.png";
    let second_block = String::from("https://x.org/a.png");
    let fetches = [table.on_url_discovered(first_block), table.on_url_discovered(&second_block)];
    assert_eq!(fetches.iter().filter(|fetch| **fetch).count(), 1);
    table.on_loaded("https://x.org/a.png", Some(7));
    assert_eq!(table.placeholder(first_block), Placeholder::Picture(&7));
    assert_eq!(table.placeholder(&second_block), Placeholder::Picture(&7));
}

#[test]
fn failed_image_is_not_fetched_again() {
    let mut table: ImageTable<u32> = ImageTable::new();
    assert!(table.on_url_discovered("file:///missing.png"));
    table.on_loaded("file:///missing.png", None);
    assert_eq!(table.placeholder("file:///missing.png"), Placeholder::Failed);
    assert!(!table.on_url_discovered("file:///missing.png"));
    assert_eq!(table.state("file:///missing.png"), Some(&ImageState::Failed));
}

#[test]
fn images_are_tracked_one_by_one() {
    let mut table: ImageTable<&str> = ImageTable::new();
    assert!(table.on_url_discovered("a"));
    assert!(table.on_url_discovered("b"));
    table.on_loaded("a", Some("handle"));
    assert_eq!(table.state("a"), Some(&ImageState::Ready("handle")));
    assert_eq!(table.state("b"), Some(&ImageState::Loading));
    table.on_loaded("c", None);
    assert_eq!(table.state("c"), Some(&ImageState::Failed));
    assert!(!table.on_url_discovered("c"));
}

#[test]
fn links_in_progress_are_not_fetched_again() {
    let mut in_progress = vec![String::from("a.png")];
    let links = vec![
        String::from("b.png"),
        String::from("a.png"),
        String::from("c.png"),
        String::from("b.png"),
    ];
    let fetch = download_images(&links, &mut in_progress);
    assert_eq!(fetch, vec![String::from("b.png"), String::from("c.png")]);
    assert_eq!(
        in_progress,
        vec![String::from("a.png"), String::from("b.png"), String::from("c.png")]
    );
    assert_eq!(download_images(&links, &mut in_progress), Vec::<String>::new());
}

#[test]
fn absolute_urls_are_told_from_paths() {
    assert!(is_absolute_url("http://x.org/a.png"));
    assert!(is_absolute_url("https://x.org/a.png"));
    assert!(is_absolute_url("file:///tmp/a.png"));
    assert!(!is_absolute_url("images/a.png"));
    assert!(!is_absolute_url("ftp://x.org/a.png"));
    assert!(!is_absolute_url("HTTP://x.org/a.png"));
    assert!(!is_absolute_url(""));
}

#[test]
fn file_url_of_a_path() {
    assert_eq!(file_url("/home/me/vault/a.png"), "file:///home/me/vault/a.png");
    assert_eq!(file_url(""), "file://");
}

#[test]
fn fetch_goes_by_the_scheme() {
    assert_eq!(fetch_kind("file:///tmp/a.png"), Ok(Fetch::File));
    assert_eq!(fetch_kind("http://x.org/a.png"), Ok(Fetch::Web));
    assert_eq!(fetch_kind("HTTPS://x.org/a.png"), Ok(Fetch::Web));
    assert_eq!(
        fetch_kind("ftp://x.org/a.png"),
        Err(LoadError::UnsupportedScheme(String::from("ftp")))
    );
    assert_eq!(fetch_kind("images/a.png"), Err(LoadError::InvalidUrl));
    assert_eq!(fetch_kind(""), Err(LoadError::InvalidUrl));
}

#[test]
fn load_errors_have_words() {
    assert_eq!(LoadError::NoBasePath.message(), "No base path for relative URL");
    assert_eq!(LoadError::NoParentDirectory.message(), "No parent directory");
    assert_eq!(LoadError::InvalidUrl.message(), "Invalid URL");
    assert_eq!(LoadError::InvalidFilePath.message(), "Invalid file path");
    assert_eq!(
        LoadError::UnsupportedScheme(String::from("ftp")).message(),
        "Unsupported URL scheme: ftp"
    );
}

#[test]
fn svg_by_extension() {
    assert!(is_svg_extension(Some("svg")));
    assert!(is_svg_extension(Some("SVG")));
    assert!(is_svg_extension(Some("sVg")));
    assert!(!is_svg_extension(Some("png")));
    assert!(!is_svg_extension(Some("svgz")));
    assert!(!is_svg_extension(Some("")));
    assert!(!is_svg_extension(None));
}

#[test]
fn svg_by_response() {
    assert!(is_svg_response(Some("image/svg+xml"), "https://x.org/a"));
    assert!(is_svg_response(Some("image/png"), "https://x.org/a.svg"));
    assert!(is_svg_response(None, "https://x.org/A.SVG  "));
    assert!(!is_svg_response(Some("image/SVG+xml"), "https://x.org/a"));
    assert!(!is_svg_response(Some("image/png"), "https://x.org/a.svg?x=1"));
    assert!(!is_svg_response(None, "https://x.org/a.png"));
}

#[test]
fn image_holds_its_bytes() {
    let image = Image { bytes: vec![1, 2, 3], url: String::from("a.png"), is_svg: false };
    assert_eq!(image.clone(), image);
}

#[test]
fn absolute_url_is_taken_as_given() {
    for url in ["http://x.org/a.png", "https://x.org/a.png", "file:///tmp/a.png"] {
        for flags in 0..8 {
            assert_eq!(
                resolution(url, flags & 1 != 0, flags & 2 != 0, flags & 4 != 0),
                Ok(Resolution::AsGiven)
            );
        }
    }
}

#[test]
fn relative_url_is_looked_for_beside_the_document() {
    assert_eq!(resolution("a.png", true, true, true), Ok(Resolution::Under(Root::Base)));
    assert_eq!(resolution("a.png", true, true, false), Ok(Resolution::Under(Root::Base)));
    assert_eq!(resolution("a.png", true, false, true), Ok(Resolution::Under(Root::ParentOfBase)));
    assert_eq!(resolution("dir/a.png", true, false, false), Err(LoadError::NoParentDirectory));
    assert_eq!(resolution("a.png", false, false, false), Err(LoadError::NoBasePath));
    assert_eq!(resolution("a.png", false, true, true), Err(LoadError::NoBasePath));
    assert_eq!(resolution("ftp://x/a.png", false, true, true), Err(LoadError::NoBasePath));
    assert_eq!(resolution("", true, false, true), Ok(Resolution::Under(Root::ParentOfBase)));
}
