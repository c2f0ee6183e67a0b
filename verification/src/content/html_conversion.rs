//! Markdown to HTML conversion and the semantic touches applied to the HTML.
use vstd::prelude::*;
use markdown::message::Message;
use crate::text::{count_matches, matches_at, replace_all, starts_with};

verus! {

#[verifier::external_type_specification]
#[verifier::external_body]
pub struct ExMarkdownMessage(Message);

/// The HTML that the `markdown` crate's `to_html_with_options` produces for
/// the text with GitHub-flavoured options (`Options::gfm()`); `None` where it
/// reports an error.
pub uninterp spec fn gfm_html(markdown: Seq<char>) -> Option<Seq<char>>;

/// Converts Markdown to HTML with GitHub-flavoured options
/// (`markdown::to_html_with_options` with `Options::gfm()`).
///
/// Claimed of the crate: the result is its named answer for this text; which
/// HTML that is, is left to the crate. Its documentation promises that it
/// never errors without MDX, which these options do not turn on.
#[verifier::external_body]
fn markdown_to_gfm_html(markdown: &str) -> (r: Result<String, Message>)
    ensures
        r is Ok,
        r is Ok <==> gfm_html(markdown@) is Some,
        r matches Ok(h) ==> gfm_html(markdown@) == Some(h@),
{
    markdown::to_html_with_options(markdown, &markdown::Options::gfm())
}

/// The text of a `markdown` crate message (its `Display` form).
#[verifier::external_body]
pub(crate) fn message_text(m: &Message) -> (r: String) {
    m.to_string()
}

/// Why Markdown could not be processed.
#[derive(Debug)]
pub struct MarkdownError {
    pub message: String,
}

/// The opening of a heading element.
pub open spec fn heading_open() -> Seq<char> {
    "<h"@
}

/// HTML wrapped in an `<article>` element when it holds more than one
/// occurrence of `<h`.
pub open spec fn spec_wrap_articles(html: Seq<char>) -> Seq<char> {
    if count_matches(html, heading_open()) > 1 {
        "<article>\n"@ + html + "\n</article>"@
    } else {
        html
    }
}

/// HTML with every `<ul>` and `<ol>` given its content class.
pub open spec fn spec_list_classes(html: Seq<char>) -> Seq<char> {
    replace_all(
        replace_all(html, "<ul>"@, "<ul class=\"content-list\">"@),
        "<ol>"@,
        "<ol class=\"numbered-list\">"@,
    )
}

/// The opening tags `<ul>`, `<ol>`, `<ul ` and `<ol `, and the closing tags
/// `</ul>` and `</ol>`.
pub open spec fn ul_open() -> Seq<char> {
    seq!['<', 'u', 'l', '>']
}

pub open spec fn ol_open() -> Seq<char> {
    seq!['<', 'o', 'l', '>']
}

pub open spec fn ul_open_attrs() -> Seq<char> {
    seq!['<', 'u', 'l', ' ']
}

pub open spec fn ol_open_attrs() -> Seq<char> {
    seq!['<', 'o', 'l', ' ']
}

pub open spec fn ul_close() -> Seq<char> {
    seq!['<', '/', 'u', 'l', '>']
}

pub open spec fn ol_close() -> Seq<char> {
    seq!['<', '/', 'o', 'l', '>']
}

/// HTML from list depth `depth` on, with the `<ul>` and `<ol>` tags that
/// open a top-level list (one not inside another list) given their content
/// classes; nested lists are left as they are.
pub open spec fn top_level_list_classes(html: Seq<char>, depth: nat) -> Seq<char>
    decreases html.len(),
{
    if html.len() == 0 {
        Seq::empty()
    } else if starts_with(html, ul_open()) {
        (if depth == 0 {
            "<ul class=\"content-list\">"@
        } else {
            ul_open()
        }) + top_level_list_classes(html.skip(4), depth + 1)
    } else if starts_with(html, ol_open()) {
        (if depth == 0 {
            "<ol class=\"numbered-list\">"@
        } else {
            ol_open()
        }) + top_level_list_classes(html.skip(4), depth + 1)
    } else if starts_with(html, ul_open_attrs()) || starts_with(html, ol_open_attrs()) {
        html.take(4) + top_level_list_classes(html.skip(4), depth + 1)
    } else if starts_with(html, ul_close()) || starts_with(html, ol_close()) {
        html.take(5) + top_level_list_classes(
            html.skip(5),
            if depth > 0 {
                (depth - 1) as nat
            } else {
                0
            },
        )
    } else {
        seq![html[0]] + top_level_list_classes(html.drop_first(), depth)
    }
}

/// HTML with its top-level `<ul>` and `<ol>` lists given their content
/// classes.
pub open spec fn spec_enhance_lists(html: Seq<char>) -> Seq<char> {
    top_level_list_classes(html, 0)
}

/// Whether no list tag (`<ul>`, `<ol>`, `<ul `, `<ol `, `</ul>`, `</ol>`)
/// begins anywhere in `s`.
pub open spec fn free_of_list_tags(s: Seq<char>) -> bool {
    forall|i: int|
        0 <= i < s.len() ==> {
            let r = #[trigger] s.skip(i);
            &&& !starts_with(r, ul_open())
            &&& !starts_with(r, ol_open())
            &&& !starts_with(r, ul_open_attrs())
            &&& !starts_with(r, ol_open_attrs())
            &&& !starts_with(r, ul_close())
            &&& !starts_with(r, ol_close())
        }
}

/// A tag whose only `<` is its first character does not begin at the start
/// of `f + g` when it does not begin `f` and `g` is empty or begins with `<`.
proof fn lemma_tag_not_at_start(f: Seq<char>, g: Seq<char>, tag: Seq<char>)
    requires
        f.len() >= 1,
        tag.len() >= 1,
        tag[0] == '<',
        forall|k: int| 1 <= k < tag.len() ==> tag[k] != '<',
        tag.len() <= f.len() ==> !starts_with(f, tag),
        g.len() == 0 || g[0] == '<',
    ensures
        !starts_with(f + g, tag),
{
    let h = f + g;
    if starts_with(h, tag) {
        if tag.len() <= f.len() {
            assert(h.subrange(0, tag.len() as int) =~= f.subrange(0, tag.len() as int));
        } else {
            let k = f.len() as int;
            assert(h.subrange(0, tag.len() as int)[k] == tag[k]);
            assert(h[k] == g[0]);
        }
    }
}

/// Text in which no list tag begins passes through unchanged, at any depth,
/// when what follows it is empty or begins with `<`.
proof fn lemma_plain_prefix(f: Seq<char>, g: Seq<char>, depth: nat)
    requires
        free_of_list_tags(f),
        g.len() == 0 || g[0] == '<',
    ensures
        top_level_list_classes(f + g, depth) == f + top_level_list_classes(g, depth),
    decreases f.len(),
{
    if f.len() == 0 {
        assert(f + g =~= g);
        assert(f + top_level_list_classes(g, depth) =~= top_level_list_classes(g, depth));
    } else {
        let h = f + g;
        assert(f.skip(0) =~= f);
        let r0 = f.skip(0);
        assert(!starts_with(r0, ul_open()));
        lemma_tag_not_at_start(f, g, ul_open());
        lemma_tag_not_at_start(f, g, ol_open());
        lemma_tag_not_at_start(f, g, ul_open_attrs());
        lemma_tag_not_at_start(f, g, ol_open_attrs());
        lemma_tag_not_at_start(f, g, ul_close());
        lemma_tag_not_at_start(f, g, ol_close());
        let f1 = f.drop_first();
        assert forall|i: int| 0 <= i < f1.len() implies {
            let r = #[trigger] f1.skip(i);
            &&& !starts_with(r, ul_open())
            &&& !starts_with(r, ol_open())
            &&& !starts_with(r, ul_open_attrs())
            &&& !starts_with(r, ol_open_attrs())
            &&& !starts_with(r, ul_close())
            &&& !starts_with(r, ol_close())
        } by {
            assert(f1.skip(i) =~= f.skip(i + 1));
        }
        assert(h.drop_first() =~= f1 + g);
        lemma_plain_prefix(f1, g, depth);
        assert(seq![h[0]] + (f1 + top_level_list_classes(g, depth)) =~= f + top_level_list_classes(g, depth));
    }
}

/// The opening tag of a plain list: `<ol>` when ordered, else `<ul>`.
pub open spec fn list_open(ordered: bool) -> Seq<char> {
    if ordered { ol_open() } else { ul_open() }
}

/// The closing tag of a list: `</ol>` when ordered, else `</ul>`.
pub open spec fn list_close(ordered: bool) -> Seq<char> {
    if ordered { ol_close() } else { ul_close() }
}

/// The opening tag of a top-level list with its content class.
pub open spec fn classed_list_open(ordered: bool) -> Seq<char> {
    if ordered {
        "<ol class=\"numbered-list\">"@
    } else {
        "<ul class=\"content-list\">"@
    }
}

/// Every list that is not inside another list gets its content class, and
/// the text around lists is kept: for text `t` and list contents `x` in which
/// no list tag begins, `t`, a list of either kind around `x`, then any `rest`
/// becomes `t`, the list with its class, and `rest` enhanced on its own. So in
/// a run of lists each is classed, whatever kind of list came before it.
pub proof fn law_top_level_lists_get_classes(t: Seq<char>, ordered: bool, x: Seq<char>, rest: Seq<char>)
    requires
        free_of_list_tags(t),
        free_of_list_tags(x),
    ensures
        spec_enhance_lists(t + list_open(ordered) + x + list_close(ordered) + rest) == t
            + classed_list_open(ordered) + x + list_close(ordered) + spec_enhance_lists(rest),
{
    let open = list_open(ordered);
    let close = list_close(ordered);
    let block = open + x + close + rest;
    assert(t + open + x + close + rest =~= t + block);
    lemma_plain_prefix(t, block, 0);
    assert(block.skip(4) =~= x + (close + rest));
    assert(block.take(4) =~= open);
    assert(starts_with(block, open));
    if ordered {
        assert(!starts_with(block, ul_open())) by {
            assert(block.subrange(0, 4)[1] == 'o');
        }
    }
    lemma_plain_prefix(x, close + rest, 1);
    let cr = close + rest;
    assert(cr.take(5) =~= close);
    assert(cr.skip(5) =~= rest);
    assert(!starts_with(cr, ul_open())) by {
        assert(cr.subrange(0, 4)[1] == '/');
    }
    assert(!starts_with(cr, ol_open())) by {
        assert(cr.subrange(0, 4)[1] == '/');
    }
    assert(!starts_with(cr, ul_open_attrs())) by {
        assert(cr.subrange(0, 4)[1] == '/');
    }
    assert(!starts_with(cr, ol_open_attrs())) by {
        assert(cr.subrange(0, 4)[1] == '/');
    }
    assert(starts_with(cr, close)) by {
        assert(cr.subrange(0, 5) =~= close);
    }
    assert(top_level_list_classes(cr, 1) == close + top_level_list_classes(rest, 0));
    assert(top_level_list_classes(block, 0) == classed_list_open(ordered) + (x + (close
        + top_level_list_classes(rest, 0))));
    assert(t + (classed_list_open(ordered) + (x + (close + top_level_list_classes(rest, 0)))) =~= t
        + classed_list_open(ordered) + x + close + top_level_list_classes(rest, 0));
}

/// Both semantic touches: article wrapping, then list classes.
pub open spec fn spec_enhance_semantics(html: Seq<char>) -> Seq<char> {
    spec_enhance_lists(spec_wrap_articles(html))
}

/// Wraps HTML in an `<article>` element when it seems to hold more than one
/// heading (more than one `<h`).
pub fn wrap_articles(html: &str) -> (r: String)
    ensures
        r@ == spec_wrap_articles(html@),
{
    let cs = crate::text::chars_of(html);
    let pat = crate::text::chars_of("<h");
    proof {
        reveal_strlit("<h");
    }
    let heading_count = crate::text::count_matches_chars(cs.as_slice(), pat.as_slice());
    if heading_count > 1 {
        String::from_str("<article>\n").concat(html).concat("\n</article>")
    } else {
        crate::text::copy_str(html)
    }
}

/// Gives every plain `<ul>` and `<ol>` its content class.
pub fn add_list_classes(html: &str) -> (r: String)
    ensures
        r@ == spec_list_classes(html@),
{
    let cs = crate::text::chars_of(html);
    let ul = crate::text::chars_of("<ul>");
    let ul_class = crate::text::chars_of("<ul class=\"content-list\">");
    let ol = crate::text::chars_of("<ol>");
    let ol_class = crate::text::chars_of("<ol class=\"numbered-list\">");
    proof {
        reveal_strlit("<ul>");
        reveal_strlit("<ol>");
    }
    let step = crate::text::replace_chars(cs.as_slice(), ul.as_slice(), ul_class.as_slice());
    let done = crate::text::replace_chars(step.as_slice(), ol.as_slice(), ol_class.as_slice());
    crate::text::string_of(done.as_slice())
}

/// Gives the plain `<ul>` and `<ol>` tags of top-level lists their content
/// classes, leaving nested lists as they are.
pub fn enhance_lists(html: &str) -> (r: String)
    ensures
        r@ == spec_enhance_lists(html@),
{
    proof {
        reveal_strlit("<ul>");
        reveal_strlit("<ol>");
        reveal_strlit("<ul ");
        reveal_strlit("<ol ");
        reveal_strlit("</ul>");
        reveal_strlit("</ol>");
        reveal_strlit("<ul class=\"content-list\">");
        reveal_strlit("<ol class=\"numbered-list\">");
    }
    let cs = crate::text::chars_of(html);
    let ul = crate::text::chars_of("<ul>");
    let ol = crate::text::chars_of("<ol>");
    let ul_sp = crate::text::chars_of("<ul ");
    let ol_sp = crate::text::chars_of("<ol ");
    let ul_end = crate::text::chars_of("</ul>");
    let ol_end = crate::text::chars_of("</ol>");
    let ul_class = crate::text::chars_of("<ul class=\"content-list\">");
    let ol_class = crate::text::chars_of("<ol class=\"numbered-list\">");
    assert(ul@ =~= ul_open());
    assert(ol@ =~= ol_open());
    assert(ul_sp@ =~= ul_open_attrs());
    assert(ol_sp@ =~= ol_open_attrs());
    assert(ul_end@ =~= ul_close());
    assert(ol_end@ =~= ol_close());
    let mut out: Vec<char> = Vec::new();
    let mut depth: usize = 0;
    let mut i: usize = 0;
    proof {
        assert(cs@.skip(0) =~= cs@);
        assert(out@ + top_level_list_classes(cs@.skip(0), 0) =~= top_level_list_classes(cs@, 0));
    }
    while i < cs.len()
        invariant
            i <= cs@.len(),
            cs@ == html@,
            depth <= i,
            ul@ == ul_open(),
            ol@ == ol_open(),
            ul_sp@ == ul_open_attrs(),
            ol_sp@ == ol_open_attrs(),
            ul_end@ == ul_close(),
            ol_end@ == ol_close(),
            ul_class@ == "<ul class=\"content-list\">"@,
            ol_class@ == "<ol class=\"numbered-list\">"@,
            out@ + top_level_list_classes(cs@.skip(i as int), depth as nat) == top_level_list_classes(
                cs@,
                0,
            ),
        decreases cs.len() - i,
    {
        let ghost rest = cs@.skip(i as int);
        let ghost before = out@;
        proof {
            assert(forall|k: int| 0 <= k <= rest.len() ==> #[trigger] rest.take(k) =~= cs@.subrange(i as int, i + k));
        }
        let at_ul = crate::text::matches_at_exec(cs.as_slice(), i, ul.as_slice());
        let at_ol = crate::text::matches_at_exec(cs.as_slice(), i, ol.as_slice());
        let at_ul_sp = crate::text::matches_at_exec(cs.as_slice(), i, ul_sp.as_slice());
        let at_ol_sp = crate::text::matches_at_exec(cs.as_slice(), i, ol_sp.as_slice());
        let at_ul_end = crate::text::matches_at_exec(cs.as_slice(), i, ul_end.as_slice());
        let at_ol_end = crate::text::matches_at_exec(cs.as_slice(), i, ol_end.as_slice());
        proof {
            lemma_matches_starts(cs@, i as int, ul@);
            lemma_matches_starts(cs@, i as int, ol@);
            lemma_matches_starts(cs@, i as int, ul_sp@);
            lemma_matches_starts(cs@, i as int, ol_sp@);
            lemma_matches_starts(cs@, i as int, ul_end@);
            lemma_matches_starts(cs@, i as int, ol_end@);
        }
        if at_ul || at_ol {
            let tag: &Vec<char> = if depth == 0 {
                if at_ul { &ul_class } else { &ol_class }
            } else {
                if at_ul { &ul } else { &ol }
            };
            let mut k: usize = 0;
            while k < tag.len()
                invariant
                    k <= tag@.len(),
                    out@ == before + tag@.take(k as int),
                decreases tag.len() - k,
            {
                out.push(tag[k]);
                proof {
                    assert(tag@.take(k + 1) =~= tag@.take(k as int).push(tag@[k as int]));
                }
                k = k + 1;
            }
            proof {
                assert(tag@.take(k as int) =~= tag@);
                assert(rest.skip(4) =~= cs@.skip(i + 4));
                assert(before + (tag@ + top_level_list_classes(rest.skip(4), (depth + 1) as nat))
                    =~= out@ + top_level_list_classes(cs@.skip(i + 4), (depth + 1) as nat));
            }
            depth = depth + 1;
            i = i + 4;
        } else if at_ul_sp || at_ol_sp || at_ul_end || at_ol_end {
            let n: usize = if at_ul_sp || at_ol_sp { 4 } else { 5 };
            assert(i + n <= cs@.len());
            let mut k: usize = 0;
            while k < n
                invariant
                    k <= n,
                    n == 4 || n == 5,
                    i + n <= cs@.len(),
                    cs@.len() == cs.len(),
                    out@ == before + cs@.subrange(i as int, i + k),
                decreases n - k,
            {
                out.push(cs[i + k]);
                proof {
                    assert(cs@.subrange(i as int, i + k + 1) =~= cs@.subrange(i as int, i + k).push(cs@[i + k]));
                }
                k = k + 1;
            }
            proof {
                assert(rest.take(n as int) =~= cs@.subrange(i as int, i + n));
                assert(rest.skip(n as int) =~= cs@.skip(i + n));
            }
            if n == 4 {
                depth = depth + 1;
            } else if depth > 0 {
                depth = depth - 1;
            }
            i = i + n;
        } else {
            out.push(cs[i]);
            proof {
                assert(rest.drop_first() =~= cs@.skip(i + 1));
                assert(before.push(cs@[i as int]) + top_level_list_classes(rest.drop_first(), depth as nat)
                    =~= before + (seq![rest[0]] + top_level_list_classes(rest.drop_first(), depth as nat)));
            }
            i = i + 1;
        }
    }
    proof {
        assert(cs@.skip(i as int) =~= Seq::<char>::empty());
        assert(out@ =~= out@ + Seq::<char>::empty());
    }
    crate::text::string_of(out.as_slice())
}

/// `matches_at` at `i` is `starts_with` of the rest of the text.
proof fn lemma_matches_starts(s: Seq<char>, i: int, p: Seq<char>)
    requires
        0 <= i <= s.len(),
    ensures
        matches_at(s, i, p) == starts_with(s.skip(i), p),
{
    if i + p.len() <= s.len() {
        assert(s.skip(i).subrange(0, p.len() as int) =~= s.subrange(i, i + p.len()));
    }
}

/// Applies the semantic touches to HTML: article wrapping, then list classes.
pub fn enhance_semantics(html: &str) -> (r: String)
    ensures
        r@ == spec_enhance_semantics(html@),
{
    let wrapped = wrap_articles(html);
    enhance_lists(wrapped.as_str())
}

/// The HTML body that Markdown converts to, with the semantic touches.
pub open spec fn spec_converted(markdown: Seq<char>) -> Option<Seq<char>> {
    match gfm_html(markdown) {
        Some(h) => Some(spec_enhance_semantics(h)),
        None => None,
    }
}

/// Converts Markdown to HTML (GitHub-flavoured: tables, strikethrough,
/// footnotes) and applies the semantic touches.
pub fn markdown_to_semantic_html(markdown: &str) -> (r: Result<String, MarkdownError>)
    ensures
        r is Ok,
        r is Ok <==> spec_converted(markdown@) is Some,
        r matches Ok(h) ==> spec_converted(markdown@) == Some(h@),
{
    match markdown_to_gfm_html(markdown) {
        Ok(html) => Ok(enhance_semantics(html.as_str())),
        Err(m) => {
            let text = message_text(&m);
            Err(
                MarkdownError {
                    message: String::from_str("Failed to parse markdown: ").concat(text.as_str()),
                },
            )
        },
    }
}

/// Converts Markdown content to the HTML of a page.
pub struct HtmlConverter {}

impl HtmlConverter {
    pub fn new() -> (r: Self) {
        HtmlConverter {  }
    }

    /// Markdown to HTML with the semantic touches.
    pub fn convert_markdown_to_html(&self, markdown: &str) -> (r: Result<String, MarkdownError>)
        ensures
            r is Ok,
            r is Ok <==> spec_converted(markdown@) is Some,
            r matches Ok(h) ==> spec_converted(markdown@) == Some(h@),
    {
        markdown_to_semantic_html(markdown)
    }
}

/// Markdown conversion for content parsers that produce Markdown.
pub struct MarkdownProcessor;

impl MarkdownProcessor {
    /// Markdown to HTML with the list classes.
    pub fn process(markdown: &str) -> (r: Result<String, MarkdownError>)
        ensures
            r is Ok,
            r is Ok <==> gfm_html(markdown@) is Some,
            r matches Ok(h) ==> h@ == spec_list_classes(gfm_html(markdown@)->0),
    {
        match markdown_to_gfm_html(markdown) {
            Ok(html) => Ok(MarkdownProcessor::enhance_semantics(html.as_str())),
            Err(m) => {
                let text = message_text(&m);
                Err(
                    MarkdownError {
                        message: String::from_str("Failed to process markdown: ").concat(
                            text.as_str(),
                        ),
                    },
                )
            },
        }
    }

    /// The list classes only, on every list.
    pub fn enhance_semantics(html: &str) -> (r: String)
        ensures
            r@ == spec_list_classes(html@),
    {
        add_list_classes(html)
    }
}

} // verus!
