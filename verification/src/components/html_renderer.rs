//! The renderer of blog-style list content: Markdown through pulldown-cmark,
//! first paragraphs as excerpts, and one article per post.
use vstd::prelude::*;
use crate::content::frontmatter::MarkdownFile;
use crate::content::html_conversion::{spec_list_classes, spec_wrap_articles};
use crate::content::list_generation::list_url;
use crate::text::{split, starts_with, trim};

verus! {

/// The HTML that pulldown-cmark's `html::push_html` writes for the events of
/// `Parser::new_ext` over the text, with strikethrough, tables and footnotes
/// enabled.
pub uninterp spec fn cmark_extended_html(markdown: Seq<char>) -> Seq<char>;

/// The HTML that pulldown-cmark's `html::push_html` writes for the events of
/// `Parser::new` over the text (no extensions).
pub uninterp spec fn cmark_html(markdown: Seq<char>) -> Seq<char>;

/// Renders Markdown with pulldown-cmark, strikethrough, tables and footnotes
/// enabled.
///
/// Claimed of the crate: the result is its named answer for this text.
#[verifier::external_body]
fn render_cmark_extended(markdown: &str) -> (r: String)
    ensures
        r@ == cmark_extended_html(markdown@),
{
    let mut options = pulldown_cmark::Options::empty();
    options.insert(pulldown_cmark::Options::ENABLE_STRIKETHROUGH);
    options.insert(pulldown_cmark::Options::ENABLE_TABLES);
    options.insert(pulldown_cmark::Options::ENABLE_FOOTNOTES);
    let mut html = String::new();
    pulldown_cmark::html::push_html(&mut html, pulldown_cmark::Parser::new_ext(markdown, options));
    html
}

/// Renders Markdown with pulldown-cmark and no extensions.
///
/// Claimed of the crate: the result is its named answer for this text.
#[verifier::external_body]
fn render_cmark(markdown: &str) -> (r: String)
    ensures
        r@ == cmark_html(markdown@),
{
    let mut html = String::new();
    pulldown_cmark::html::push_html(&mut html, pulldown_cmark::Parser::new(markdown));
    html
}

/// Renders list pages of posts under one input directory.
pub struct HtmlRenderer {
    pub input_dir: String,
}

/// The first paragraph found from line `i` on, with `in_code` telling whether
/// a fenced code block is open and `since_heading` how many lines have been
/// skipped since the last heading (the first line after a heading is always
/// skipped).
pub open spec fn scan_first_paragraph(lines: Seq<Seq<char>>, i: int, in_code: bool, since_heading: int) -> Seq<
    char,
>
    decreases lines.len() - i,
{
    if i < 0 || i >= lines.len() {
        Seq::empty()
    } else {
        let t = trim(lines[i]);
        if starts_with(t, "```"@) {
            scan_first_paragraph(lines, i + 1, !in_code, since_heading)
        } else if in_code {
            scan_first_paragraph(lines, i + 1, in_code, since_heading)
        } else if starts_with(t, "#"@) {
            scan_first_paragraph(lines, i + 1, in_code, 0)
        } else if since_heading < 1 {
            scan_first_paragraph(lines, i + 1, in_code, since_heading + 1)
        } else if t.len() == 0 {
            scan_first_paragraph(lines, i + 1, in_code, since_heading)
        } else {
            t
        }
    }
}

/// The first paragraph of Markdown content: the first non-blank line outside
/// fenced code blocks that is not a heading and not the line right after a
/// heading (or the first line), trimmed; empty when there is none.
pub open spec fn spec_first_paragraph(content: Seq<char>) -> Seq<char> {
    scan_first_paragraph(split(content, "\n"@), 0, false, 0)
}

/// The excerpt of a post: the HTML of its first paragraph, if it has one.
pub open spec fn spec_post_excerpt(content: Seq<char>) -> Option<Seq<char>> {
    if spec_first_paragraph(content).len() > 0 {
        Some(cmark_html(spec_first_paragraph(content)))
    } else {
        None
    }
}

/// The article of one post.
pub open spec fn spec_post_article(input_dir: Seq<char>, post: MarkdownFile) -> Seq<char> {
    "<article class=\"blog-post\">\n    <h3><a href=\"/"@ + list_url(input_dir, post.path@) + "\">"@
        + post.title@ + "</a></h3>\n    "@ + (match post.frontmatter.date {
        Some(d) => "<time>"@ + d@ + "</time>"@,
        None => Seq::empty(),
    }) + (match spec_post_excerpt(post.content@) {
        Some(e) => "<p>"@ + e + "</p>"@,
        None => Seq::empty(),
    }) + "\n</article>"@
}

/// The articles of the posts, each followed by a blank line.
pub open spec fn spec_post_articles(input_dir: Seq<char>, posts: Seq<MarkdownFile>) -> Seq<char>
    decreases posts.len(),
{
    if posts.len() == 0 {
        Seq::empty()
    } else {
        spec_post_articles(input_dir, posts.drop_last()) + spec_post_article(input_dir, posts.last())
            + "\n\n"@
    }
}

/// The list content of the posts: their articles, or a comment saying there
/// are none.
pub open spec fn spec_blog_list(input_dir: Seq<char>, posts: Seq<MarkdownFile>) -> Seq<char> {
    if posts.len() == 0 {
        "<!-- No posts found -->"@
    } else {
        spec_post_articles(input_dir, posts)
    }
}

impl HtmlRenderer {
    /// A renderer for posts under `input_dir`.
    pub fn new(input_dir: &str) -> (r: Self)
        ensures
            r.input_dir@ == input_dir@,
    {
        HtmlRenderer { input_dir: crate::text::copy_str(input_dir) }
    }

    /// Markdown rendered with pulldown-cmark (strikethrough, tables,
    /// footnotes), wrapped in an article when it has several headings, with
    /// every list given its content class.
    pub fn markdown_to_semantic_html(&self, markdown: &str) -> (r: String)
        ensures
            r@ == spec_list_classes(spec_wrap_articles(cmark_extended_html(markdown@))),
    {
        let html = render_cmark_extended(markdown);
        let wrapped = crate::content::html_conversion::wrap_articles(html.as_str());
        crate::content::html_conversion::add_list_classes(wrapped.as_str())
    }

    /// The first paragraph of Markdown content, trimmed; empty when there is
    /// none.
    pub fn extract_first_paragraph(&self, content: &str) -> (r: String)
        ensures
            r@ == spec_first_paragraph(content@),
    {
        proof {
            reveal_strlit("\n");
            reveal_strlit("```");
            reveal_strlit("#");
        }
        let chars = crate::text::chars_of(content);
        let nl: [char; 1] = ['\n'];
        let fence: [char; 3] = ['`', '`', '`'];
        let hash: [char; 1] = ['#'];
        assert(nl@ =~= "\n"@);
        assert(fence@ =~= "```"@);
        assert(hash@ =~= "#"@);
        let lines = crate::text::split_chars(chars.as_slice(), nl.as_slice());
        let ghost ls = split(content@, "\n"@);
        let mut in_code = false;
        let mut since_heading: u8 = 0;
        let mut i: usize = 0;
        while i < lines.len()
            invariant
                lines@.len() == ls.len(),
                forall|k: int| 0 <= k < lines@.len() ==> #[trigger] lines@[k]@ == ls[k],
                i <= lines@.len(),
                since_heading <= 1,
                ls == split(content@, "\n"@),
                fence@ == "```"@,
                hash@ == "#"@,
                spec_first_paragraph(content@) == scan_first_paragraph(
                    ls,
                    i as int,
                    in_code,
                    since_heading as int,
                ),
            decreases lines.len() - i,
        {
            let t = crate::text::trim_chars(lines[i].as_slice());
            if crate::text::starts_with_chars(t.as_slice(), fence.as_slice()) {
                in_code = !in_code;
            } else if in_code {
            } else if crate::text::starts_with_chars(t.as_slice(), hash.as_slice()) {
                since_heading = 0;
            } else if since_heading < 1 {
                since_heading = since_heading + 1;
            } else if t.len() == 0 {
            } else {
                return crate::text::string_of(t.as_slice());
            }
            i = i + 1;
        }
        String::new()
    }

    /// The excerpt of a post: the HTML of its first paragraph, if any.
    fn post_excerpt(&self, content: &str) -> (r: Option<String>)
        ensures
            r is Some <==> spec_post_excerpt(content@) is Some,
            r matches Some(e) ==> spec_post_excerpt(content@) == Some(e@),
    {
        let first = self.extract_first_paragraph(content);
        if first.as_str().unicode_len() > 0 {
            Some(render_cmark(first.as_str()))
        } else {
            None
        }
    }

    /// The article of one post.
    fn post_article(&self, post: &MarkdownFile) -> (r: String)
        ensures
            r@ == spec_post_article(self.input_dir@, *post),
    {
        proof {
            reveal_strlit("");
        }
        let url = crate::content::list_generation::ListGenerator::new(self.input_dir.as_str()).url_of(
            post.path.as_str(),
        );
        let date = match &post.frontmatter.date {
            Some(d) => String::from_str("<time>").concat(d.as_str()).concat("</time>"),
            None => String::new(),
        };
        let excerpt = match self.post_excerpt(post.content.as_str()) {
            Some(e) => String::from_str("<p>").concat(e.as_str()).concat("</p>"),
            None => String::new(),
        };
        let r = String::from_str("<article class=\"blog-post\">\n    <h3><a href=\"/").concat(
            url.as_str(),
        ).concat("\">").concat(post.title.as_str()).concat("</a></h3>\n    ").concat(
            date.as_str(),
        ).concat(excerpt.as_str()).concat("\n</article>");
        proof {
            assert(r@ =~= spec_post_article(self.input_dir@, *post));
        }
        r
    }

    /// The list content of `posts` (the Markdown files of a directory other
    /// than its index pages): one article per post, or a comment saying there
    /// are none.
    pub fn generate_blog_list_content(&self, posts: &[MarkdownFile]) -> (r: String)
        ensures
            r@ == spec_blog_list(self.input_dir@, posts@),
    {
        let mut content = String::new();
        let mut i: usize = 0;
        proof {
            reveal_strlit("");
            assert(posts@.take(0) =~= Seq::<MarkdownFile>::empty());
        }
        while i < posts.len()
            invariant
                i <= posts@.len(),
                content@ == spec_post_articles(self.input_dir@, posts@.take(i as int)),
            decreases posts.len() - i,
        {
            let article = self.post_article(&posts[i]);
            content = content.concat(article.as_str()).concat("\n\n");
            proof {
                assert(posts@.take(i + 1).drop_last() =~= posts@.take(i as int));
                assert(posts@.take(i + 1).last() == posts@[i as int]);
            }
            i = i + 1;
        }
        proof {
            assert(posts@.take(i as int) =~= posts@);
        }
        if posts.len() == 0 {
            String::from_str("<!-- No posts found -->")
        } else {
            content
        }
    }
}

} // verus!
