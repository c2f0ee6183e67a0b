//! Request handling decisions of the development server: which files a URL
//! may name, their content types, and the page for a missing file.
use vstd::prelude::*;
use crate::path::{path_extension, path_join};
use crate::text::{contains, ends_with, strip_end_char, strip_start_char};

verus! {

/// The file paths, in order of preference, that a request for `path` may name.
pub open spec fn spec_possible_paths(path: Seq<char>) -> Seq<Seq<char>> {
    if path == "/"@ {
        seq!["/index.html"@]
    } else if ends_with(path, "/"@) {
        let base = strip_end_char(path, '/');
        seq![base + "/index.html"@, base + ".html"@]
    } else if !contains(path, "."@) {
        let base = strip_start_char(path, '/');
        seq![base + ".html"@, base + "/index.html"@]
    } else {
        seq![path]
    }
}

/// The file paths, in order of preference, that a request for `path` may
/// name: `/` is the top index page; a path ending in `/` is a directory's
/// index page or a page; a path without a dot is a page or a directory's
/// index page; any other path names a file.
pub fn generate_possible_paths(path: &str) -> (r: Vec<String>)
    ensures
        r@.map_values(|s: String| s@) == spec_possible_paths(path@),
{
    proof {
        reveal_strlit("/");
        reveal_strlit(".");
    }
    let chars = crate::text::chars_of(path);
    let slash: [char; 1] = ['/'];
    let dot: [char; 1] = ['.'];
    assert(slash@ =~= "/"@);
    assert(dot@ =~= "."@);
    let mut r: Vec<String> = Vec::new();
    if crate::text::str_eq(path, "/") {
        r.push(String::from_str("/index.html"));
    } else if crate::text::ends_with_chars(chars.as_slice(), slash.as_slice()) {
        let trimmed = crate::text::strip_end_chars(chars.as_slice(), '/');
        let base = crate::text::string_of(trimmed.as_slice());
        r.push(base.clone().concat("/index.html"));
        r.push(base.concat(".html"));
    } else if !crate::text::contains_chars(chars.as_slice(), dot.as_slice()) {
        let trimmed = crate::text::strip_start_chars(chars.as_slice(), '/');
        let base = crate::text::string_of(trimmed.as_slice());
        r.push(base.clone().concat(".html"));
        r.push(base.concat("/index.html"));
    } else {
        r.push(crate::text::copy_str(path));
    }
    proof {
        assert(r@.map_values(|s: String| s@) =~= spec_possible_paths(path@));
    }
    r
}

/// The path below the output directory that a possible path names: without
/// one leading `/`.
pub open spec fn spec_output_relative(p: Seq<char>) -> Seq<char> {
    if p.len() > 0 && p[0] == '/' {
        p.drop_first()
    } else {
        p
    }
}

/// The files under `output_dir`, in order of preference, that a request for
/// `path` may be served from; the first that exists is served.
pub fn candidate_files(path: &str, output_dir: &str) -> (r: Vec<String>)
    ensures
        r@.len() == spec_possible_paths(path@).len(),
        forall|i: int|
            0 <= i < r@.len() ==> #[trigger] r@[i]@ == path_join(
                output_dir@,
                spec_output_relative(spec_possible_paths(path@)[i]),
            ),
{
    let possible = generate_possible_paths(path);
    let mut r: Vec<String> = Vec::new();
    let mut i: usize = 0;
    while i < possible.len()
        invariant
            i <= possible@.len(),
            possible@.map_values(|s: String| s@) == spec_possible_paths(path@),
            r@.len() == i,
            forall|k: int|
                0 <= k < i ==> #[trigger] r@[k]@ == path_join(
                    output_dir@,
                    spec_output_relative(spec_possible_paths(path@)[k]),
                ),
        decreases possible.len() - i,
    {
        let chars = crate::text::chars_of(possible[i].as_str());
        assert(spec_possible_paths(path@)[i as int] == possible@[i as int]@);
        let clean = if chars.len() > 0 && chars[0] == '/' {
            let rest = crate::text::slice_chars(chars.as_slice(), 1, chars.len());
            proof {
                assert(rest@ =~= chars@.drop_first());
            }
            crate::text::string_of(rest.as_slice())
        } else {
            possible[i].clone()
        };
        r.push(crate::path::join(output_dir, clean.as_str()));
        i = i + 1;
    }
    r
}

/// The content type served for a file extension.
pub open spec fn content_type_for(ext: Seq<char>) -> Seq<char> {
    if ext == "html"@ {
        "text/html"@
    } else if ext == "css"@ {
        "text/css"@
    } else if ext == "js"@ {
        "application/javascript"@
    } else if ext == "json"@ {
        "application/json"@
    } else if ext == "xml"@ {
        "application/xml"@
    } else if ext == "png"@ {
        "image/png"@
    } else if ext == "jpg"@ || ext == "jpeg"@ {
        "image/jpeg"@
    } else if ext == "gif"@ {
        "image/gif"@
    } else if ext == "svg"@ {
        "image/svg+xml"@
    } else if ext == "ico"@ {
        "image/x-icon"@
    } else if ext == "pdf"@ {
        "application/pdf"@
    } else {
        "text/plain"@
    }
}

/// What the standard MIME types say a file is served as: `t` is the type
/// registered for the path's extension among HTML, CSS, JavaScript, JSON,
/// XML, PNG, JPEG, GIF, SVG, icons and PDF, and plain text for a path without
/// an extension.
pub open spec fn standard_content_type(path: Seq<char>, t: Seq<char>) -> bool {
    &&& path_extension(path) == Some("html"@) ==> t == "text/html"@
    &&& path_extension(path) == Some("css"@) ==> t == "text/css"@
    &&& path_extension(path) == Some("js"@) ==> t == "application/javascript"@
    &&& path_extension(path) == Some("json"@) ==> t == "application/json"@
    &&& path_extension(path) == Some("xml"@) ==> t == "application/xml"@
    &&& path_extension(path) == Some("png"@) ==> t == "image/png"@
    &&& path_extension(path) == Some("jpg"@) ==> t == "image/jpeg"@
    &&& path_extension(path) == Some("jpeg"@) ==> t == "image/jpeg"@
    &&& path_extension(path) == Some("gif"@) ==> t == "image/gif"@
    &&& path_extension(path) == Some("svg"@) ==> t == "image/svg+xml"@
    &&& path_extension(path) == Some("ico"@) ==> t == "image/x-icon"@
    &&& path_extension(path) == Some("pdf"@) ==> t == "application/pdf"@
    &&& path_extension(path) is None ==> t == "text/plain"@
}

/// The content type served for the file at `file_path`.
pub open spec fn spec_content_type(file_path: Seq<char>) -> Seq<char> {
    match path_extension(file_path) {
        Some(e) => content_type_for(e),
        None => "text/plain"@,
    }
}

/// Every file is served with the standard content type of its extension:
/// `text/html` for `.html`, `application/javascript` for `.js`, and so on
/// for each known extension; `text/plain` without an extension.
pub proof fn law_content_types_are_standard(file_path: Seq<char>)
    ensures
        standard_content_type(file_path, spec_content_type(file_path)),
{
    reveal_strlit("html");
    reveal_strlit("css");
    reveal_strlit("js");
    reveal_strlit("json");
    reveal_strlit("xml");
    reveal_strlit("png");
    reveal_strlit("jpg");
    reveal_strlit("jpeg");
    reveal_strlit("gif");
    reveal_strlit("svg");
    reveal_strlit("ico");
    reveal_strlit("pdf");
    assert(content_type_for("html"@) == "text/html"@);
    assert("css"@.len() != "html"@.len());
    assert(content_type_for("css"@) == "text/css"@);
    assert("js"@.len() != "html"@.len());
    assert("js"@.len() != "css"@.len());
    assert(content_type_for("js"@) == "application/javascript"@);
    assert("json"@[0] != "html"@[0]);
    assert("json"@.len() != "css"@.len());
    assert("json"@.len() != "js"@.len());
    assert(content_type_for("json"@) == "application/json"@);
    assert("xml"@.len() != "html"@.len());
    assert("xml"@[0] != "css"@[0]);
    assert("xml"@.len() != "js"@.len());
    assert("xml"@.len() != "json"@.len());
    assert(content_type_for("xml"@) == "application/xml"@);
    assert("png"@.len() != "html"@.len());
    assert("png"@[0] != "css"@[0]);
    assert("png"@.len() != "js"@.len());
    assert("png"@.len() != "json"@.len());
    assert("png"@[0] != "xml"@[0]);
    assert(content_type_for("png"@) == "image/png"@);
    assert("jpg"@.len() != "html"@.len());
    assert("jpg"@[0] != "css"@[0]);
    assert("jpg"@.len() != "js"@.len());
    assert("jpg"@.len() != "json"@.len());
    assert("jpg"@[0] != "xml"@[0]);
    assert("jpg"@[0] != "png"@[0]);
    assert(content_type_for("jpg"@) == "image/jpeg"@);
    assert("jpeg"@[0] != "html"@[0]);
    assert("jpeg"@.len() != "css"@.len());
    assert("jpeg"@.len() != "js"@.len());
    assert("jpeg"@[1] != "json"@[1]);
    assert("jpeg"@.len() != "xml"@.len());
    assert("jpeg"@.len() != "png"@.len());
    assert("jpeg"@.len() != "jpg"@.len());
    assert(content_type_for("jpeg"@) == "image/jpeg"@);
    assert("gif"@.len() != "html"@.len());
    assert("gif"@[0] != "css"@[0]);
    assert("gif"@.len() != "js"@.len());
    assert("gif"@.len() != "json"@.len());
    assert("gif"@[0] != "xml"@[0]);
    assert("gif"@[0] != "png"@[0]);
    assert("gif"@[0] != "jpg"@[0]);
    assert("gif"@.len() != "jpeg"@.len());
    assert(content_type_for("gif"@) == "image/gif"@);
    assert("svg"@.len() != "html"@.len());
    assert("svg"@[0] != "css"@[0]);
    assert("svg"@.len() != "js"@.len());
    assert("svg"@.len() != "json"@.len());
    assert("svg"@[0] != "xml"@[0]);
    assert("svg"@[0] != "png"@[0]);
    assert("svg"@[0] != "jpg"@[0]);
    assert("svg"@.len() != "jpeg"@.len());
    assert("svg"@[0] != "gif"@[0]);
    assert(content_type_for("svg"@) == "image/svg+xml"@);
    assert("ico"@.len() != "html"@.len());
    assert("ico"@[0] != "css"@[0]);
    assert("ico"@.len() != "js"@.len());
    assert("ico"@.len() != "json"@.len());
    assert("ico"@[0] != "xml"@[0]);
    assert("ico"@[0] != "png"@[0]);
    assert("ico"@[0] != "jpg"@[0]);
    assert("ico"@.len() != "jpeg"@.len());
    assert("ico"@[0] != "gif"@[0]);
    assert("ico"@[0] != "svg"@[0]);
    assert(content_type_for("ico"@) == "image/x-icon"@);
    assert("pdf"@.len() != "html"@.len());
    assert("pdf"@[0] != "css"@[0]);
    assert("pdf"@.len() != "js"@.len());
    assert("pdf"@.len() != "json"@.len());
    assert("pdf"@[0] != "xml"@[0]);
    assert("pdf"@[1] != "png"@[1]);
    assert("pdf"@[0] != "jpg"@[0]);
    assert("pdf"@.len() != "jpeg"@.len());
    assert("pdf"@[0] != "gif"@[0]);
    assert("pdf"@[0] != "svg"@[0]);
    assert("pdf"@[0] != "ico"@[0]);
    assert(content_type_for("pdf"@) == "application/pdf"@);
}

/// The content type served for the file at `file_path`, by its extension;
/// `text/plain` for unknown extensions and files without one.
pub fn determine_content_type(file_path: &str) -> (r: &'static str)
    ensures
        r@ == spec_content_type(file_path@),
        standard_content_type(file_path@, r@),
{
    proof {
        law_content_types_are_standard(file_path@);
    }
    match crate::path::extension(file_path) {
        Some(e) => {
            let e = e.as_str();
            if crate::text::str_eq(e, "html") {
                "text/html"
            } else if crate::text::str_eq(e, "css") {
                "text/css"
            } else if crate::text::str_eq(e, "js") {
                "application/javascript"
            } else if crate::text::str_eq(e, "json") {
                "application/json"
            } else if crate::text::str_eq(e, "xml") {
                "application/xml"
            } else if crate::text::str_eq(e, "png") {
                "image/png"
            } else if crate::text::str_eq(e, "jpg") || crate::text::str_eq(e, "jpeg") {
                "image/jpeg"
            } else if crate::text::str_eq(e, "gif") {
                "image/gif"
            } else if crate::text::str_eq(e, "svg") {
                "image/svg+xml"
            } else if crate::text::str_eq(e, "ico") {
                "image/x-icon"
            } else if crate::text::str_eq(e, "pdf") {
                "application/pdf"
            } else {
                "text/plain"
            }
        },
        None => "text/plain",
    }
}

/// The text of the page for a missing file before the requested path.
pub open spec fn not_found_head() -> Seq<char> {
    r#"<!DOCTYPE html>
<html lang="en">
<head>
    <meta charset="UTF-8">
    <meta name="viewport" content="width=device-width, initial-scale=1.0">
    <title>Page Not Found</title>
    <style>
        body {
            font-family: -apple-system, BlinkMacSystemFont, 'Segoe UI', Roboto, sans-serif;
            line-height: 1.6;
            max-width: 800px;
            margin: 0 auto;
            padding: 2rem;
            text-align: center;
            color: #333;
        }
        h1 {
            font-size: 2rem;
            margin-bottom: 1rem;
            color: #e53e3e;
        }
        p {
            margin-bottom: 1rem;
        }
        code {
            background-color: #f7fafc;
            padding: 0.2rem 0.4rem;
            border-radius: 0.25rem;
            font-family: 'Monaco', 'Menlo', 'Ubuntu Mono', monospace;
            font-size: 0.9rem;
        }
        a {
            color: #3182ce;
            text-decoration: none;
        }
        a:hover {
            text-decoration: underline;
        }
    </style>
</head>
<body>
    <h1>Page Not Found</h1>
    <p>The page you're looking for doesn't exist.</p>
    <p>Requested path: <code>"#@
}

/// The text of the page for a missing file after the requested path.
pub open spec fn not_found_tail() -> Seq<char> {
    r#"</code></p>
    <p><a href="/">Go back to the homepage</a></p>
</body>
</html>"#@
}

/// The page for a missing file when no embedded page is available: a fixed
/// page showing the requested path.
pub fn create_fallback_404_template(path: &str) -> (r: String)
    ensures
        r@ == not_found_head() + path@ + not_found_tail(),
{
    String::from_str(r#"<!DOCTYPE html>
<html lang="en">
<head>
    <meta charset="UTF-8">
    <meta name="viewport" content="width=device-width, initial-scale=1.0">
    <title>Page Not Found</title>
    <style>
        body {
            font-family: -apple-system, BlinkMacSystemFont, 'Segoe UI', Roboto, sans-serif;
            line-height: 1.6;
            max-width: 800px;
            margin: 0 auto;
            padding: 2rem;
            text-align: center;
            color: #333;
        }
        h1 {
            font-size: 2rem;
            margin-bottom: 1rem;
            color: #e53e3e;
        }
        p {
            margin-bottom: 1rem;
        }
        code {
            background-color: #f7fafc;
            padding: 0.2rem 0.4rem;
            border-radius: 0.25rem;
            font-family: 'Monaco', 'Menlo', 'Ubuntu Mono', monospace;
            font-size: 0.9rem;
        }
        a {
            color: #3182ce;
            text-decoration: none;
        }
        a:hover {
            text-decoration: underline;
        }
    </style>
</head>
<body>
    <h1>Page Not Found</h1>
    <p>The page you're looking for doesn't exist.</p>
    <p>Requested path: <code>"#).concat(path).concat(r#"</code></p>
    <p><a href="/">Go back to the homepage</a></p>
</body>
</html>"#)
}

/// The embedded page for a missing file; none is embedded.
pub fn get_embedded_404_template() -> (r: Option<String>)
    ensures
        r is None,
{
    None
}

/// The page for a missing file at `path`: the embedded page with `{{path}}`
/// replaced by the path, or the fallback page.
pub fn render_404_template(path: &str) -> (r: String)
    ensures
        r@ == not_found_head() + path@ + not_found_tail(),
{
    match get_embedded_404_template() {
        Some(template) => {
            proof {
                reveal_strlit("{{path}}");
            }
            let t = crate::text::chars_of(template.as_str());
            let p = crate::text::chars_of("{{path}}");
            let v = crate::text::chars_of(path);
            crate::text::string_of(crate::text::replace_chars(t.as_slice(), p.as_slice(), v.as_slice()).as_slice())
        },
        None => create_fallback_404_template(path),
    }
}

} // verus!
