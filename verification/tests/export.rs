use cedilla::export::{
    data_uri, default_title, embed_html_image, embed_local_images, embed_markdown_image,
    export_page, html_page, local_image_paths, mime_for_extension,
};
use cedilla::markdown::references::References;

fn uris() -> References {
    let mut uris = References::new();
    uris.insert(String::from("./a.png"), String::from("data:image/png;base64,QQ=="));
    uris
}

#[test]
fn media_types_of_images() {
    assert_eq!(mime_for_extension("jpg"), Some("image/jpeg"));
    assert_eq!(mime_for_extension("jpeg"), Some("image/jpeg"));
    assert_eq!(mime_for_extension("png"), Some("image/png"));
    assert_eq!(mime_for_extension("gif"), Some("image/gif"));
    assert_eq!(mime_for_extension("webp"), Some("image/webp"));
    assert_eq!(mime_for_extension("svg"), Some("image/svg+xml"));
    assert_eq!(mime_for_extension("PNG"), None);
    assert_eq!(mime_for_extension("bmp"), None);
    assert_eq!(mime_for_extension(""), None);
}

#[test]
fn data_uri_holds_the_bytes_in_base64() {
    assert_eq!(data_uri("image/png", &vec![]), "data:image/png;base64,");
    assert_eq!(data_uri("image/png", &vec![0x41]), "data:image/png;base64,QQ==");
    assert_eq!(data_uri("image/gif", &b"hello world~".to_vec()), "data:image/gif;base64,aGVsbG8gd29ybGR+");
    assert_eq!(data_uri("x", &vec![0xfb, 0xff]), "data:x;base64,+/8=");
}

#[test]
fn paths_of_the_images_beside_the_document() {
    let content = "![a](./a.png) ![b](b.png) ![c](./dir/c.jpg)\n<img src=\"./d.gif\"/> \
                   <img alt=\"x\" src=\"./a.png\" width=\"3\"> ![again](./a.png) ![web](https://x/y.png)";
    assert_eq!(
        local_image_paths(content),
        vec![String::from("./a.png"), String::from("./dir/c.jpg"), String::from("./d.gif")]
    );
    assert_eq!(local_image_paths("no images"), Vec::<String>::new());
}

#[test]
fn one_image_is_embedded_where_it_was_read() {
    let uris = uris();
    assert_eq!(
        embed_markdown_image("![alt](./a.png)", "alt", "./a.png", &uris),
        "![alt](data:image/png;base64,QQ==)"
    );
    assert_eq!(
        embed_markdown_image("![alt](./b.png)", "alt", "./b.png", &uris),
        "![alt](./b.png)"
    );
    assert_eq!(
        embed_html_image("<img a src=\"./a.png\" b>", " a ", "./a.png", " b", &uris),
        "<img a src=\"data:image/png;base64,QQ==\" b/>"
    );
    assert_eq!(
        embed_html_image("<img src=\"./b.png\">", " ", "./b.png", "", &uris),
        "<img src=\"./b.png\">"
    );
}

#[test]
fn images_are_embedded_in_the_text() {
    let content = "x ![alt](./a.png) y ![no](./b.png) <img class=\"c\" src=\"./a.png\" width=\"3\"/> z";
    assert_eq!(
        embed_local_images(content, &uris()),
        "x ![alt](data:image/png;base64,QQ==) y ![no](./b.png) \
         <img class=\"c\" src=\"data:image/png;base64,QQ==\" width=\"3\"/> z"
    );
    assert_eq!(embed_local_images(content, &References::new()), content);
}

#[test]
fn page_around_a_body() {
    let page = html_page("My title", "<p>body</p>");
    assert!(page.starts_with("<!doctype html>\n            <html lang=\"en\">\n            <head>\n"));
    assert!(page.contains("\n                <title>My title</title>\n"));
    assert!(page.contains("                <script>hljs.highlightAll();</script>\n                <style>\n                    img {\n                    max-width: 100%;\n                    height: auto;\n                    }\n                </style>\n            </head>\n            <body>\n                <p>body</p>\n            </body>\n        </html>"));
    assert!(page.ends_with("</html>"));
    assert_eq!(page.lines().count(), 19);
}

#[test]
fn page_of_a_document() {
    let page = export_page(default_title(), "# Hello\n\n*world*\n");
    assert!(page.contains("<title>Document</title>"));
    assert!(page.contains("<body>\n                <h1>Hello</h1>\n<p><em>world</em></p>\n\n            </body>"));
}
