//! Breadcrumb trails: the directory hierarchy above a page.
use vstd::prelude::*;
use crate::config::BreadcrumbSection;
use crate::content::frontmatter::MarkdownFile;
use crate::path::{path_components, path_equals, path_file_name, path_parent, path_strip_prefix, path_with_extension};
use crate::templates::common::{crumb_views, BreadcrumbData, BreadcrumbItem};
use crate::text::{split, unicode_lowercase, unicode_uppercase_char};

verus! {

/// A rendered breadcrumb trail.
pub struct Breadcrumb {
    pub items: Vec<BreadcrumbItem>,
}

impl Breadcrumb {
    pub fn new(data: BreadcrumbData) -> (r: Self)
        ensures
            r.items@ == data.items@,
    {
        Breadcrumb { items: data.items }
    }
}

/// Builds breadcrumb trails for the files under a content directory.
///
/// `index_titles` pairs a directory, relative to the content directory, with
/// the title of that directory's `index.md`.
pub struct BreadcrumbGenerator {
    pub input_dir: String,
    pub config: Option<BreadcrumbSection>,
    pub index_titles: Vec<(String, String)>,
}

/// The pieces joined with a separator between each two.
pub open spec fn join_with(parts: Seq<Seq<char>>, sep: Seq<char>) -> Seq<char>
    decreases parts.len(),
{
    if parts.len() == 0 {
        Seq::empty()
    } else if parts.len() == 1 {
        parts[0]
    } else {
        join_with(parts.drop_last(), sep) + sep + parts.last()
    }
}

/// A word with its first character in upper case and the rest in lower case.
pub open spec fn title_case_word(w: Seq<char>) -> Seq<char> {
    if w.len() == 0 {
        Seq::empty()
    } else {
        unicode_uppercase_char(w[0]) + unicode_lowercase(w.drop_first())
    }
}

/// The words between hyphens, each in title case, joined by spaces.
pub open spec fn spec_title_case(text: Seq<char>) -> Seq<char> {
    join_with(split(text, "-"@).map_values(|w: Seq<char>| title_case_word(w)), " "@)
}

/// The first non-empty title recorded for `dir` from the `i`-th entry on.
pub open spec fn lookup_title(titles: Seq<(String, String)>, dir: Seq<char>, i: int) -> Option<Seq<char>>
    decreases titles.len() - i,
{
    if i < 0 || i >= titles.len() {
        None
    } else if titles[i].0@ == dir && titles[i].1@.len() > 0 {
        Some(titles[i].1@)
    } else {
        lookup_title(titles, dir, i + 1)
    }
}

/// The title of a directory: the title of its `index.md`, or its name in
/// title case.
pub open spec fn spec_title_for_path(titles: Seq<(String, String)>, dir: Seq<char>) -> Seq<char> {
    match lookup_title(titles, dir, 0) {
        Some(t) => t,
        None => spec_title_case(
            match path_file_name(dir) {
                Some(n) => n,
                None => dir,
            },
        ),
    }
}

/// The directories above a page, relative to the content directory.
pub open spec fn crumb_dirs(rel: Seq<char>) -> Seq<Seq<char>> {
    path_components(
        match path_parent(rel) {
            Some(p) => p,
            None => Seq::empty(),
        },
    )
}

/// The link to the `k`-th directory above a page.
pub open spec fn dir_crumb(titles: Seq<(String, String)>, dirs: Seq<Seq<char>>, k: int) -> (Seq<char>, Seq<char>, bool) {
    let url = join_with(dirs.take(k + 1), "/"@);
    (spec_title_for_path(titles, url), url, false)
}

/// A trail cut down to `max` links: the first, an ellipsis, and the last
/// `max - 2`; only when it is longer than `max` and `max` is at least 3.
pub open spec fn truncate_crumbs(items: Seq<(Seq<char>, Seq<char>, bool)>, max: int) -> Seq<(Seq<char>, Seq<char>, bool)> {
    if items.len() > max && max >= 3 {
        seq![items[0], ("..."@, Seq::<char>::empty(), false)] + items.skip(items.len() - (max - 2))
    } else {
        items
    }
}

/// The configured limit on the number of links, or no limit.
pub open spec fn max_crumbs(config: Option<BreadcrumbSection>) -> int {
    match config {
        Some(c) => match c.max_items {
            Some(m) => m as int,
            None => usize::MAX as int,
        },
        None => usize::MAX as int,
    }
}

/// The trail of a page before any truncation: Home, each directory above the
/// page, then the page itself.
pub open spec fn full_trail(titles: Seq<(String, String)>, rel: Seq<char>, title: Seq<char>) -> Seq<(Seq<char>, Seq<char>, bool)> {
    let dirs = crumb_dirs(rel);
    seq![("Home"@, Seq::<char>::empty(), false)] + Seq::new(
        dirs.len(),
        |k: int| dir_crumb(titles, dirs, k),
    ) + seq![(title, path_with_extension(rel, ""@), true)]
}

/// The trail that `generate_breadcrumb` builds for a page, if any: none when
/// breadcrumbs are disabled, the page is outside the content directory, or it
/// is the root `index.md`.
pub open spec fn spec_breadcrumb(g: BreadcrumbGenerator, file: MarkdownFile) -> Option<Seq<(Seq<char>, Seq<char>, bool)>> {
    if g.config matches Some(c) && c.enabled == Some(false) {
        None
    } else {
        match path_strip_prefix(file.path@, g.input_dir@) {
            None => None,
            Some(rel) => if path_equals(rel, "index.md"@) {
                None
            } else {
                Some(truncate_crumbs(full_trail(g.index_titles@, rel, file.title@), max_crumbs(g.config)))
            },
        }
    }
}

/// `titles[i]` is the first index title recorded for the directory `dir`
/// that is not empty.
pub open spec fn first_recorded_title(titles: Seq<(String, String)>, dir: Seq<char>, i: int) -> bool {
    &&& 0 <= i < titles.len()
    &&& titles[i].0@ == dir
    &&& titles[i].1@.len() > 0
    &&& forall|j: int| 0 <= j < i ==> !(titles[j].0@ == dir && titles[j].1@.len() > 0)
}

proof fn lemma_lookup_title_first(titles: Seq<(String, String)>, dir: Seq<char>, i: int, from: int)
    requires
        first_recorded_title(titles, dir, i),
        0 <= from <= i,
    ensures
        lookup_title(titles, dir, from) == Some(titles[i].1@),
    decreases i - from,
{
    if from < i {
        lemma_lookup_title_first(titles, dir, i, from + 1);
    }
}

/// A directory is titled by the title recorded for its whole path below the
/// content directory (its `index.md`'s), whatever its last name is: the
/// first non-empty one recorded for that path.
pub proof fn law_directory_title_by_path(titles: Seq<(String, String)>, dir: Seq<char>, i: int)
    requires
        first_recorded_title(titles, dir, i),
    ensures
        spec_title_for_path(titles, dir) == titles[i].1@,
{
    lemma_lookup_title_first(titles, dir, i, 0);
}

/// In a page's full trail, the link to each directory above the page points
/// at the directory's path below the content directory (its names joined by
/// `/`), and a directory with a non-empty recorded title carries that title.
pub proof fn law_directory_crumbs_carry_recorded_titles(
    titles: Seq<(String, String)>,
    rel: Seq<char>,
    title: Seq<char>,
    k: int,
    i: int,
)
    requires
        1 <= k <= crumb_dirs(rel).len(),
    ensures
        full_trail(titles, rel, title)[k].1 == join_with(crumb_dirs(rel).take(k), "/"@),
        first_recorded_title(titles, full_trail(titles, rel, title)[k].1, i) ==> full_trail(
            titles,
            rel,
            title,
        )[k].0 == titles[i].1@,
{
    let dirs = crumb_dirs(rel);
    let t = full_trail(titles, rel, title);
    assert(t[k] == dir_crumb(titles, dirs, k - 1));
    if first_recorded_title(titles, t[k].1, i) {
        law_directory_title_by_path(titles, t[k].1, i);
    }
}

/// Every breadcrumb trail starts at Home and ends at the current page, the
/// only link marked current. With `k` directories above the page, a trail
/// that fits the limit (or a limit under three) is the full trail of `k + 2`
/// links, Home, the directories, the page; a longer one under a limit `m` of
/// at least three has `m` links, the second an ellipsis. With no limit
/// configured the limit is `usize::MAX`, which every trail that
/// `generate_breadcrumb` returns fits (its contract says so).
pub proof fn law_breadcrumb_shape(g: BreadcrumbGenerator, file: MarkdownFile)
    requires
        spec_breadcrumb(g, file) is Some,
    ensures
        ({
            let t = spec_breadcrumb(g, file)->0;
            let rel = path_strip_prefix(file.path@, g.input_dir@)->0;
            let k = crumb_dirs(rel).len();
            let m = max_crumbs(g.config);
            &&& t.len() >= 2
            &&& t[0] == ("Home"@, Seq::<char>::empty(), false)
            &&& t.last().0 == file.title@
            &&& t.last().1 == path_with_extension(rel, ""@)
            &&& t.last().2
            &&& forall|i: int| 0 <= i < t.len() - 1 ==> !(#[trigger] t[i]).2
            &&& m >= 3 ==> t.len() <= m
            &&& (m < 3 || k + 2 <= m) ==> t == full_trail(g.index_titles@, rel, file.title@) && t.len()
                == k + 2
            &&& (m >= 3 && k + 2 > m) ==> t.len() == m && t[1] == ("..."@, Seq::<char>::empty(), false)
        }),
{
    let rel = path_strip_prefix(file.path@, g.input_dir@)->0;
    let items = full_trail(g.index_titles@, rel, file.title@);
    let dirs = crumb_dirs(rel);
    let max = max_crumbs(g.config);
    assert(items.len() == dirs.len() + 2);
    assert(items[0] == ("Home"@, Seq::<char>::empty(), false));
    assert(items.last() == (file.title@, path_with_extension(rel, ""@), true));
    assert forall|i: int| 0 <= i < items.len() - 1 implies !(#[trigger] items[i]).2 by {
        if i > 0 {
            assert(items[i] == dir_crumb(g.index_titles@, dirs, i - 1));
        }
    }
    let t = truncate_crumbs(items, max);
    if items.len() > max && max >= 3 {
        let tail = items.skip(items.len() - (max - 2));
        assert(t == seq![items[0], ("..."@, Seq::<char>::empty(), false)] + tail);
        assert(t.len() == max);
        assert(t.last() == items.last());
        assert forall|i: int| 0 <= i < t.len() - 1 implies !(#[trigger] t[i]).2 by {
            if i >= 2 {
                assert(t[i] == items[items.len() - (max - 2) + (i - 2)]);
            }
        }
    }
}

proof fn lemma_join_step(parts: Seq<Seq<char>>, sep: Seq<char>, i: int)
    requires
        1 <= i < parts.len(),
    ensures
        join_with(parts.take(i + 1), sep) == join_with(parts.take(i), sep) + sep + parts[i],
{
    assert(parts.take(i + 1).drop_last() =~= parts.take(i));
}

impl BreadcrumbGenerator {
    /// A generator for the content directory, with no index titles known.
    pub fn new(input_dir: &str, config: Option<BreadcrumbSection>) -> (r: Self)
        ensures
            r.input_dir@ == input_dir@,
            r.config == config,
            r.index_titles@.len() == 0,
    {
        BreadcrumbGenerator {
            input_dir: crate::text::copy_str(input_dir),
            config,
            index_titles: Vec::new(),
        }
    }

    /// The generator with the titles of the directories' `index.md` files.
    pub fn with_index_titles(self, index_titles: Vec<(String, String)>) -> (r: Self)
        ensures
            r.input_dir == self.input_dir,
            r.config == self.config,
            r.index_titles@ == index_titles@,
    {
        BreadcrumbGenerator { input_dir: self.input_dir, config: self.config, index_titles }
    }

    /// Words between hyphens in title case, joined by spaces
    /// (`getting-started` becomes `Getting Started`).
    pub fn to_title_case(&self, text: &str) -> (r: String)
        ensures
            r@ == spec_title_case(text@),
    {
        let cs = crate::text::chars_of(text);
        let hyphen = crate::text::chars_of("-");
        proof {
            reveal_strlit("-");
        }
        let words = crate::text::split_chars(cs.as_slice(), hyphen.as_slice());
        let ghost ws = split(text@, "-"@).map_values(|w: Seq<char>| title_case_word(w));
        let mut out = String::new();
        let mut i: usize = 0;
        proof {
            assert(ws.take(0) =~= Seq::<Seq<char>>::empty());
        }
        while i < words.len()
            invariant
                i <= words@.len(),
                words@.len() == split(text@, "-"@).len(),
                forall|k: int| 0 <= k < words@.len() ==> #[trigger] words@[k]@ == split(text@, "-"@)[k],
                ws == split(text@, "-"@).map_values(|w: Seq<char>| title_case_word(w)),
                out@ == join_with(ws.take(i as int), " "@),
            decreases words.len() - i,
        {
            let w = &words[i];
            let word = if w.len() == 0 {
                String::new()
            } else {
                let first = crate::text::char_to_uppercase(w[0]);
                let rest_chars = crate::text::slice_chars(w.as_slice(), 1, w.len());
                let rest = crate::text::string_of(rest_chars.as_slice());
                let lower = crate::text::to_lowercase(rest.as_str());
                proof {
                    assert(rest_chars@ =~= w@.drop_first());
                }
                first.concat(lower.as_str())
            };
            assert(word@ == ws[i as int]);
            if i == 0 {
                out = word;
                proof {
                    assert(ws.take(1) =~= seq![ws[0]]);
                }
            } else {
                out = out.concat(" ").concat(word.as_str());
                proof {
                    lemma_join_step(ws, " "@, i as int);
                }
            }
            i = i + 1;
        }
        proof {
            assert(ws.take(words@.len() as int) =~= ws);
        }
        out
    }

    /// The title of a directory (relative to the content directory): the title
    /// of its `index.md` when known and not empty, else its name in title case.
    proof fn lemma_recorded_titles(&self, path: Seq<char>)
        ensures
            forall|i: int| first_recorded_title(self.index_titles@, path, i) ==> spec_title_for_path(
                self.index_titles@,
                path,
            ) == self.index_titles@[i].1@,
    {
        assert forall|i: int| first_recorded_title(self.index_titles@, path, i) implies spec_title_for_path(
            self.index_titles@,
            path,
        ) == self.index_titles@[i].1@ by {
            law_directory_title_by_path(self.index_titles@, path, i);
        }
    }

    pub fn get_title_for_path(&self, path: &str) -> (r: String)
        ensures
            r@ == spec_title_for_path(self.index_titles@, path@),
            forall|i: int| first_recorded_title(self.index_titles@, path@, i) ==> r@
                == self.index_titles@[i].1@,
    {
        proof {
            self.lemma_recorded_titles(path@);
        }
        let mut i: usize = 0;
        while i < self.index_titles.len()
            invariant
                i <= self.index_titles@.len(),
                lookup_title(self.index_titles@, path@, 0) == lookup_title(
                    self.index_titles@,
                    path@,
                    i as int,
                ),
            decreases self.index_titles.len() - i,
        {
            let entry = &self.index_titles[i];
            if crate::text::str_eq(entry.0.as_str(), path) && !entry.1.as_str().is_empty() {
                proof {
                    self.lemma_recorded_titles(path@);
                }
                return entry.1.clone();
            }
            i = i + 1;
        }
        let dir_name = match crate::path::file_name(path) {
            Some(n) => n,
            None => crate::text::copy_str(path),
        };
        self.to_title_case(dir_name.as_str())
    }

    /// The breadcrumb trail of a page: Home, each directory above the page,
    /// then the page itself (see `spec_breadcrumb`).
    pub fn generate_breadcrumb(&self, file: &MarkdownFile) -> (r: Result<Option<BreadcrumbData>, String>)
        ensures
            r is Ok,
            r matches Ok(o) ==> (o is Some <==> spec_breadcrumb(*self, *file) is Some),
            r matches Ok(Some(d)) ==> crumb_views(d.items@) == spec_breadcrumb(*self, *file)->0,
            r matches Ok(Some(d)) ==> crumb_dirs(path_strip_prefix(file.path@, self.input_dir@)->0).len()
                + 2 <= usize::MAX,
    {
        if let Some(config) = &self.config {
            if config.enabled == Some(false) {
                return Ok(None);
            }
        }
        let relative_path = match crate::path::strip_prefix(file.path.as_str(), self.input_dir.as_str()) {
            Some(p) => p,
            None => return Ok(None),
        };
        if crate::path::same_path(relative_path.as_str(), "index.md") {
            return Ok(None);
        }
        let ghost rel = relative_path@;
        let ghost titles = self.index_titles@;
        let mut items: Vec<BreadcrumbItem> = Vec::new();
        items.push(BreadcrumbItem { title: String::from_str("Home"), url: String::new(), is_current: false });
        let parent = match crate::path::parent(relative_path.as_str()) {
            Some(p) => p,
            None => String::new(),
        };
        let components = crate::path::components(parent.as_str());
        let ghost dirs = crumb_dirs(rel);
        assert(components@.len() == dirs.len());
        let mut current_path = String::new();
        let mut k: usize = 0;
        while k < components.len()
            invariant
                k <= components@.len(),
                components@.len() == dirs.len(),
                forall|j: int| 0 <= j < dirs.len() ==> #[trigger] components@[j]@ == dirs[j],
                titles == self.index_titles@,
                items@.len() == k + 1,
                crumb_views(items@) == seq![("Home"@, Seq::<char>::empty(), false)] + Seq::new(
                    k as nat,
                    |j: int| dir_crumb(titles, dirs, j),
                ),
                k > 0 ==> current_path@ == join_with(dirs.take(k as int), "/"@),
            decreases components.len() - k,
        {
            let ghost before = items@;
            let ghost old_path = current_path@;
            if k == 0 {
                current_path = components[k].clone();
                proof {
                    assert(dirs.take(1) =~= seq![dirs[0]]);
                }
            } else {
                current_path = current_path.concat("/").concat(components[k].as_str());
                proof {
                    lemma_join_step(dirs, "/"@, k as int);
                }
            }
            let title = self.get_title_for_path(current_path.as_str());
            let url = current_path.clone();
            items.push(BreadcrumbItem { title, url, is_current: false });
            proof {
                assert(crumb_views(items@) =~= seq![("Home"@, Seq::<char>::empty(), false)]
                    + Seq::new((k + 1) as nat, |j: int| dir_crumb(titles, dirs, j))) by {
                    assert(crumb_views(items@) =~= crumb_views(before).push(items@[k + 1]@));
                }
            }
            k = k + 1;
        }
        proof {
            reveal_strlit("");
        }
        let current_url = crate::path::with_extension(relative_path.as_str(), "");
        items.push(BreadcrumbItem { title: file.title.clone(), url: current_url, is_current: true });
        let ghost full = full_trail(titles, rel, file.title@);
        let trail_len = items.len();
        proof {
            assert(crumb_views(items@) =~= full);
            assert(trail_len == items@.len());
        }
        let max_items: usize = match &self.config {
            Some(c) => match c.max_items {
                Some(m) => m,
                None => usize::MAX,
            },
            None => usize::MAX,
        };
        if items.len() > max_items && max_items >= 3 {
            let ghost all = items@;
            let last_items = items.split_off(items.len() - (max_items - 2));
            items.truncate(1);
            items.push(BreadcrumbItem { title: String::from_str("..."), url: String::new(), is_current: false });
            let mut tail = last_items;
            items.append(&mut tail);
            proof {
                assert(crumb_views(items@) =~= truncate_crumbs(full, max_items as int));
            }
        }
        Ok(Some(BreadcrumbData { items }))
    }
}

} // verus!
