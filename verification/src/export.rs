//! Preparing a document for export: its images as data URIs inside the text,
//! the text as HTML, and the page around it.

use vstd::prelude::*;
use vstd::string::StringExecFns;
use crate::markdown::references::References;
use crate::text::lemma_push_to_set;

verus! {

/// The media type of an image file with this extension, for the kinds of
/// image that are put into a document.
pub open spec fn mime_of(extension: Seq<char>) -> Option<Seq<char>> {
    if extension == "jpg"@ || extension == "jpeg"@ {
        Some("image/jpeg"@)
    } else if extension == "png"@ {
        Some("image/png"@)
    } else if extension == "gif"@ {
        Some("image/gif"@)
    } else if extension == "webp"@ {
        Some("image/webp"@)
    } else if extension == "svg"@ {
        Some("image/svg+xml"@)
    } else {
        None
    }
}

/// Whether `a` holds the characters of `b`.
fn is(a: &str, b: &str) -> (same: bool)
    ensures
        same == (a@ == b@),
{
    a.to_owned() == b.to_owned()
}

/// The media type of an image file with this extension, in small letters;
/// nothing for a file that is not put into a document.
pub fn mime_for_extension(extension: &str) -> (mime: Option<&'static str>)
    ensures
        match mime {
            Some(kind) => mime_of(extension@) == Some(kind@),
            None => mime_of(extension@) is None,
        },
{
    if is(extension, "jpg") || is(extension, "jpeg") {
        Some("image/jpeg")
    } else if is(extension, "png") {
        Some("image/png")
    } else if is(extension, "gif") {
        Some("image/gif")
    } else if is(extension, "webp") {
        Some("image/webp")
    } else if is(extension, "svg") {
        Some("image/svg+xml")
    } else {
        None
    }
}

/// The bytes in base64, with the standard alphabet and with padding.
pub uninterp spec fn base64_of(bytes: Seq<u8>) -> Seq<char>;

/// Calls `Engine::encode` of the crate `base64` on its engine
/// `general_purpose::STANDARD`.
#[verifier::external_body]
fn base64(bytes: &Vec<u8>) -> (text: String)
    ensures
        text@ == base64_of(bytes@),
{
    base64::Engine::encode(&base64::engine::general_purpose::STANDARD, bytes)
}

/// The data URI of an image of media type `mime` with these bytes.
pub fn data_uri(mime: &str, bytes: &Vec<u8>) -> (uri: String)
    ensures
        uri@ == "data:"@ + mime@ + ";base64,"@ + base64_of(bytes@),
{
    let mut uri = String::from_str("data:");
    uri.append(mime);
    uri.append(";base64,");
    uri.append(base64(bytes).as_str());
    uri
}

/// The pattern of a Markdown image that lies beside the document: an
/// exclamation mark, the alternative text in brackets, and in parentheses a
/// path that begins with `./`. Its groups are the alternative text and the
/// path.
pub const MARKDOWN_IMAGE: &'static str = r"!\[([^\]]*)\]\((\.\/[^)]+)\)";

/// The pattern of an `img` element whose source begins with `./`. Its groups
/// are what stands before the source, the source, and what stands behind it.
pub const HTML_IMAGE: &'static str = r#"<img([^>]*?)src="(\./[^"]+)"([^>]*?)/?>"#;

/// Whether `pattern` is one of the two patterns for images.
pub open spec fn is_image_pattern(pattern: Seq<char>) -> bool {
    pattern == MARKDOWN_IMAGE@ || pattern == HTML_IMAGE@
}

/// What the second group of `pattern` holds in each match of the pattern in
/// `content`, in the order of the matches, which do not overlap.
pub uninterp spec fn second_groups_of(pattern: Seq<char>, content: Seq<char>) -> Seq<Seq<char>>;

/// Compiles `pattern` with `Regex::new` of the crate `regex`, runs
/// `Regex::captures_iter` over `content`, and gives the second group of each
/// match. Both patterns for images compile, and both have a second group.
#[verifier::external_body]
fn second_groups(pattern: &str, content: &str) -> (groups: Vec<String>)
    requires
        is_image_pattern(pattern@),
    ensures
        Seq::new(groups@.len(), |i: int| groups@[i]@) == second_groups_of(pattern@, content@),
{
    let regex = regex::Regex::new(pattern).unwrap();
    regex.captures_iter(content).map(|found| found[2].to_string()).collect()
}

/// The paths of the images of the Markdown text `content` that lie beside
/// the document, in the order of the images.
pub open spec fn markdown_image_paths_of(content: Seq<char>) -> Seq<Seq<char>> {
    second_groups_of(MARKDOWN_IMAGE@, content)
}

/// The paths of the `img` elements in `content` whose source begins with
/// `./`, in the order of the elements.
pub open spec fn html_image_paths_of(content: Seq<char>) -> Seq<Seq<char>> {
    second_groups_of(HTML_IMAGE@, content)
}

/// The set of the strings in `paths`.
pub open spec fn path_set(paths: Seq<String>) -> Set<Seq<char>> {
    Seq::new(paths.len(), |i: int| paths[i]@).to_set()
}

/// Whether no string stands twice in `paths`.
pub open spec fn all_differ(paths: Seq<String>) -> bool {
    forall|i: int, j: int| 0 <= i < j < paths.len() ==> paths[i]@ != paths[j]@
}

/// Adds to `paths` the strings of `more` that it does not hold.
fn add_paths(paths: &mut Vec<String>, more: Vec<String>)
    requires
        all_differ(old(paths)@),
    ensures
        all_differ(final(paths)@),
        path_set(final(paths)@) == path_set(old(paths)@).union(path_set(more@)),
{
    let ghost before = path_set(paths@);
    let ghost added = Seq::new(more@.len(), |i: int| more@[i]@);
    for path in it: more
        invariant
            it.seq() == more@,
            added == Seq::new(more@.len(), |i: int| more@[i]@),
            all_differ(paths@),
            path_set(paths@) == before.union(added.take(it.index() as int).to_set()),
    {
        let ghost i = it.index() as int;
        let ghost held = Seq::new(paths@.len(), |i: int| paths@[i]@);
        proof {
            assert(added.take(i + 1) =~= added.take(i).push(path@));
            lemma_push_to_set(added.take(i), path@);
        }
        let mut known = false;
        let mut k: usize = 0;
        while k < paths.len() && !known
            invariant
                k <= paths.len(),
                held == Seq::new(paths@.len(), |i: int| paths@[i]@),
                known ==> held.contains(path@),
                !known ==> forall|j: int| 0 <= j < k ==> held[j] != path@,
            decreases paths.len() - k + if known { 0int } else { 1int },
        {
            if paths[k] == path {
                assert(held[k as int] == path@);
                known = true;
            } else {
                k += 1;
            }
        }
        if !known {
            let ghost old_paths = paths@;
            paths.push(path);
            proof {
                assert forall|a: int, b: int| 0 <= a < b < paths@.len() implies paths@[a]@
                    != paths@[b]@ by {
                    if b == old_paths.len() {
                        assert(held[a] != path@);
                    }
                }
                lemma_push_to_set(held, path@);
                assert(Seq::new(paths@.len(), |i: int| paths@[i]@) =~= held.push(path@));
            }
        }
    }
    assert(added.take(added.len() as int) =~= added);
}

/// The paths of the images in `content` that lie beside the document,
/// whether they are written in Markdown or as `img` elements; each path once.
pub fn local_image_paths(content: &str) -> (paths: Vec<String>)
    ensures
        all_differ(paths@),
        path_set(paths@) == markdown_image_paths_of(content@).to_set().union(
            html_image_paths_of(content@).to_set(),
        ),
{
    let mut paths: Vec<String> = Vec::new();
    add_paths(&mut paths, second_groups(MARKDOWN_IMAGE, content));
    add_paths(&mut paths, second_groups(HTML_IMAGE, content));
    paths
}

/// What stands in place of a Markdown image: the image with its data URI in
/// place of its path where the image was read, else the image as it is.
pub open spec fn markdown_image_embedded(
    whole: Seq<char>,
    alt: Seq<char>,
    path: Seq<char>,
    uris: Map<Seq<char>, Seq<char>>,
) -> Seq<char> {
    if uris.contains_key(path) {
        "!["@ + alt + "]("@ + uris[path] + ")"@
    } else {
        whole
    }
}

/// What stands in place of an `img` element: the element with its data URI
/// as source where the image was read, else the element as it is. `before`
/// and `after` are what the element holds before and behind its source.
pub open spec fn html_image_embedded(
    whole: Seq<char>,
    before: Seq<char>,
    path: Seq<char>,
    after: Seq<char>,
    uris: Map<Seq<char>, Seq<char>>,
) -> Seq<char> {
    if uris.contains_key(path) {
        "<img"@ + before + "src=\""@ + uris[path] + "\""@ + after + "/>"@
    } else {
        whole
    }
}

/// What stands in place of the Markdown image `whole`, which has the
/// alternative text `alt` and lies at `path`.
pub fn embed_markdown_image(whole: &str, alt: &str, path: &str, uris: &References) -> (r: String)
    ensures
        r@ == markdown_image_embedded(whole@, alt@, path@, uris@),
{
    match uris.destination(path) {
        Some(uri) => {
            let mut r = String::from_str("![");
            r.append(alt);
            r.append("](");
            r.append(uri.as_str());
            r.append(")");
            r
        },
        None => whole.to_owned(),
    }
}

/// What stands in place of the `img` element `whole`, which lies at `path`.
pub fn embed_html_image(whole: &str, before: &str, path: &str, after: &str, uris: &References) -> (r:
    String)
    ensures
        r@ == html_image_embedded(whole@, before@, path@, after@, uris@),
{
    match uris.destination(path) {
        Some(uri) => {
            let mut r = String::from_str("<img");
            r.append(before);
            r.append("src=\"");
            r.append(uri.as_str());
            r.append("\"");
            r.append(after);
            r.append("/>");
            r
        },
        None => whole.to_owned(),
    }
}

/// What stands in place of a match of one of the patterns for images, given
/// the match and its groups, of which a Markdown image has two.
pub open spec fn match_embedded(
    pattern: Seq<char>,
    whole: Seq<char>,
    first: Seq<char>,
    second: Seq<char>,
    third: Seq<char>,
    uris: Map<Seq<char>, Seq<char>>,
) -> Seq<char> {
    if pattern == HTML_IMAGE@ {
        html_image_embedded(whole, first, second, third, uris)
    } else {
        markdown_image_embedded(whole, first, second, uris)
    }
}

/// What stands in place of a match of `pattern`.
pub fn embed_match(
    pattern: &str,
    whole: &str,
    first: &str,
    second: &str,
    third: &str,
    uris: &References,
) -> (r: String)
    ensures
        r@ == match_embedded(pattern@, whole@, first@, second@, third@, uris@),
{
    if is(pattern, HTML_IMAGE) {
        embed_html_image(whole, first, second, third, uris)
    } else {
        embed_markdown_image(whole, first, second, uris)
    }
}

/// `content` with every match of `pattern`, of which no two overlap,
/// replaced as [`match_embedded`] says.
pub uninterp spec fn matches_embedded(
    pattern: Seq<char>,
    content: Seq<char>,
    uris: Map<Seq<char>, Seq<char>>,
) -> Seq<char>;

/// Compiles `pattern` with `Regex::new` of the crate `regex` and runs
/// `Regex::replace_all` over `content`; each match is replaced by what
/// [`embed_match`] makes of the match and of its first three groups, where a
/// group that the pattern does not have counts as empty.
#[verifier::external_body]
fn replace_matches(pattern: &str, content: &str, uris: &References) -> (r: String)
    requires
        is_image_pattern(pattern@),
    ensures
        r@ == matches_embedded(pattern@, content@, uris@),
{
    let regex = regex::Regex::new(pattern).unwrap();
    let group = |cap: &regex::Captures, i: usize| cap.get(i).map_or("", |m| m.as_str()).to_owned();
    let embed = |cap: &regex::Captures| {
        embed_match(pattern, &cap[0], &group(cap, 1), &group(cap, 2), &group(cap, 3), uris)
    };
    regex.replace_all(content, embed).into_owned()
}

/// `content` with the images that lie beside the document embedded: first
/// those written in Markdown, then the `img` elements. `uris` holds the data
/// URI of each image that was read, by its path.
pub fn embed_local_images(content: &str, uris: &References) -> (r: String)
    ensures
        r@ == matches_embedded(
            HTML_IMAGE@,
            matches_embedded(MARKDOWN_IMAGE@, content@, uris@),
            uris@,
        ),
{
    let markdown_done = replace_matches(MARKDOWN_IMAGE, content, uris);
    replace_matches(HTML_IMAGE, markdown_done.as_str(), uris)
}

/// The HTML that `pulldown_cmark` renders of a Markdown text with all its
/// extensions enabled.
pub uninterp spec fn html_of(markdown: Seq<char>) -> Seq<char>;

/// Runs `pulldown_cmark::html::push_html` on a new string with
/// `Parser::new_ext` over `markdown` and `Options::all()`.
#[verifier::external_body]
fn render_html(markdown: &str) -> (html: String)
    ensures
        html@ == html_of(markdown@),
{
    let mut html = String::new();
    let parser = pulldown_cmark::Parser::new_ext(markdown, pulldown_cmark::Options::all());
    pulldown_cmark::html::push_html(&mut html, parser);
    html
}

/// What stands in the page before the title.
pub open spec fn page_head() -> Seq<char> {
    "<!doctype html>\n            <html lang=\"en\">\n            <head>\n                <meta charset=\"utf-8\">\n                <title>"@
}

/// What stands in the page between the title and the body: the style sheet
/// and the script of the highlighter, and the rule that keeps images within
/// the page.
pub open spec fn page_middle() -> Seq<char> {
    "</title>\n                <link rel=\"stylesheet\" href=\"https://cdnjs.cloudflare.com/ajax/libs/highlight.js/11.11.1/styles/default.min.css\">\n                <script src=\"https://cdnjs.cloudflare.com/ajax/libs/highlight.js/11.11.1/highlight.min.js\"></script>\n                <script>hljs.highlightAll();</script>\n                <style>\n                    img {\n                    max-width: 100%;\n                    height: auto;\n                    }\n                </style>\n            </head>\n            <body>\n                "@
}

/// What stands in the page behind the body.
pub open spec fn page_foot() -> Seq<char> {
    "\n            </body>\n        </html>"@
}

/// The page with `title` around the HTML `body`.
pub fn html_page(title: &str, body: &str) -> (page: String)
    ensures
        page@ == page_head() + title@ + page_middle() + body@ + page_foot(),
{
    let mut page = String::from_str(
        "<!doctype html>\n            <html lang=\"en\">\n            <head>\n                <meta charset=\"utf-8\">\n                <title>",
    );
    page.append(title);
    page.append(
        "</title>\n                <link rel=\"stylesheet\" href=\"https://cdnjs.cloudflare.com/ajax/libs/highlight.js/11.11.1/styles/default.min.css\">\n                <script src=\"https://cdnjs.cloudflare.com/ajax/libs/highlight.js/11.11.1/highlight.min.js\"></script>\n                <script>hljs.highlightAll();</script>\n                <style>\n                    img {\n                    max-width: 100%;\n                    height: auto;\n                    }\n                </style>\n            </head>\n            <body>\n                ",
    );
    page.append(body);
    page.append("\n            </body>\n        </html>");
    page
}

/// The page that is printed for a document with `title` and the Markdown text
/// `content`, in which the images are embedded already.
pub fn export_page(title: &str, content: &str) -> (page: String)
    ensures
        page@ == page_head() + title@ + page_middle() + html_of(content@) + page_foot(),
{
    html_page(title, render_html(content).as_str())
}

/// The title of a document that has no file name.
pub fn default_title() -> (title: &'static str)
    ensures
        title@ == "Document"@,
{
    "Document"
}

} // verus!
