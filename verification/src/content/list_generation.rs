//! The entries of list pages: the files of a directory, ordered as the list
//! page asks.
use vstd::prelude::*;
use crate::content::frontmatter::MarkdownFile;
use crate::content::sorting::{
    effective_field, effective_order, spec_sort_field, spec_sort_order, stable_sorted, SortConfig,
};
use crate::path::{path_equals, path_extension, path_file_name, path_strip_prefix, path_with_extension};
use crate::templates::common::{ListData, ListItemData};
use crate::templates::sherwood::opt_view;
use crate::text::starts_with;

verus! {

/// Builds the entries of list pages under one input directory.
pub struct ListGenerator {
    pub input_dir: String,
}

/// The view of a list entry: title, URL, date and excerpt.
pub open spec fn list_item_view(i: ListItemData) -> (Seq<char>, Seq<char>, Option<Seq<char>>, Option<Seq<char>>) {
    (i.title@, i.url@, opt_view(i.date), opt_view(i.excerpt))
}

/// The URL of the file at `path`: its path below `input_dir` (or the whole
/// path when it is not below it) without extension.
pub open spec fn list_url(input_dir: Seq<char>, path: Seq<char>) -> Seq<char> {
    match path_strip_prefix(path, input_dir) {
        Some(rel) => path_with_extension(rel, Seq::<char>::empty()),
        None => path_with_extension(path, Seq::<char>::empty()),
    }
}

/// The list entry of a file.
pub open spec fn spec_list_item(input_dir: Seq<char>, f: MarkdownFile) -> (Seq<char>, Seq<char>, Option<Seq<char>>, Option<Seq<char>>) {
    (f.title@, list_url(input_dir, f.path@), opt_view(f.frontmatter.date), opt_view(f.frontmatter.excerpt))
}

/// The list page registered for `dir`: the first entry whose directory is the
/// same path.
pub open spec fn list_page_for(list_pages: Seq<(String, &MarkdownFile)>, dir: Seq<char>) -> Option<MarkdownFile>
    decreases list_pages.len(),
{
    if list_pages.len() == 0 {
        None
    } else if path_equals(list_pages[0].0@, dir) {
        Some(*list_pages[0].1)
    } else {
        list_page_for(list_pages.drop_first(), dir)
    }
}

/// Whether the file at `path` belongs on a list page: a Markdown file whose
/// name does not start with `index`.
pub open spec fn spec_is_list_entry(path: Seq<char>) -> bool {
    &&& (path_extension(path) == Some("md"@) || path_extension(path) == Some("markdown"@))
    &&& !(path_file_name(path) matches Some(n) && starts_with(n, "index"@))
}

/// `r` is the list data of `dir` built from `files`: stably sorted as the
/// list page for `dir` asks (by date, newest first, when there is none; files
/// that compare equal keep their order in `files`), each file turned into its
/// list entry.
pub open spec fn is_list_data_of(
    input_dir: Seq<char>,
    dir: Seq<char>,
    list_pages: Seq<(String, &MarkdownFile)>,
    files: Seq<MarkdownFile>,
    r: ListData,
) -> bool {
    &&& list_page_for(list_pages, dir) matches Some(p) ==> r.sort_config.field@ == spec_sort_field(
        p.frontmatter,
    ) && r.sort_config.order@ == spec_sort_order(p.frontmatter)
    &&& list_page_for(list_pages, dir) is None ==> r.sort_config.field@ == "date"@
        && r.sort_config.order@ == "desc"@
    &&& r.total_count == r.items@.len()
    &&& r.items@.len() == files.len()
    &&& forall|i: int|
        0 <= i < files.len() ==> #[trigger] list_item_view(r.items@[i]) == spec_list_item(
            input_dir,
            stable_sorted(effective_field(r.sort_config), effective_order(r.sort_config), files)[i],
        )
}

impl ListGenerator {
    /// A generator for files under `input_dir`.
    pub fn new(input_dir: &str) -> (r: Self)
        ensures
            r.input_dir@ == input_dir@,
    {
        ListGenerator { input_dir: crate::text::copy_str(input_dir) }
    }

    /// Whether the file at `path` belongs on its directory's list page.
    pub fn is_list_entry(path: &str) -> (r: bool)
        ensures
            r == spec_is_list_entry(path@),
    {
        proof {
            reveal_strlit("md");
            reveal_strlit("markdown");
            reveal_strlit("index");
        }
        let markdown = match crate::path::extension(path) {
            Some(e) => crate::text::str_eq(e.as_str(), "md") || crate::text::str_eq(
                e.as_str(),
                "markdown",
            ),
            None => false,
        };
        if !markdown {
            return false;
        }
        match crate::path::file_name(path) {
            Some(n) => {
                let nc = crate::text::chars_of(n.as_str());
                let idx: [char; 5] = ['i', 'n', 'd', 'e', 'x'];
                assert(idx@ =~= "index"@);
                !crate::text::starts_with_chars(nc.as_slice(), idx.as_slice())
            },
            None => true,
        }
    }

    /// The URL of the file at `path`.
    pub fn url_of(&self, path: &str) -> (r: String)
        ensures
            r@ == list_url(self.input_dir@, path@),
    {
        proof {
            reveal_strlit("");
            assert(""@ =~= Seq::<char>::empty());
        }
        match crate::path::strip_prefix(path, self.input_dir.as_str()) {
            Some(rel) => crate::path::with_extension(rel.as_str(), ""),
            None => crate::path::with_extension(path, ""),
        }
    }

    /// The list entries of `files`, in order.
    pub fn convert_to_list_items(&self, files: Vec<MarkdownFile>) -> (r: Vec<ListItemData>)
        ensures
            r@.len() == files@.len(),
            forall|i: int| 0 <= i < r@.len() ==> #[trigger] list_item_view(r@[i]) == spec_list_item(
                self.input_dir@,
                files@[i],
            ),
    {
        let mut r: Vec<ListItemData> = Vec::new();
        let mut i: usize = 0;
        while i < files.len()
            invariant
                i <= files@.len(),
                r@.len() == i,
                forall|k: int| 0 <= k < i ==> #[trigger] list_item_view(r@[k]) == spec_list_item(
                    self.input_dir@,
                    files@[k],
                ),
            decreases files.len() - i,
        {
            let f = &files[i];
            let item = ListItemData {
                title: f.title.clone(),
                url: self.url_of(f.path.as_str()),
                date: crate::content::frontmatter::clone_opt_string(&f.frontmatter.date),
                excerpt: crate::content::frontmatter::clone_opt_string(&f.frontmatter.excerpt),
            };
            r.push(item);
            i = i + 1;
        }
        r
    }

    /// The list data of `dir`: `files` (the entries found in it) ordered as
    /// its list page asks (by date, newest first, when it has none), turned
    /// into list entries.
    pub fn generate_list_data(
        &self,
        dir: &str,
        list_pages: &[(String, &MarkdownFile)],
        files: Vec<MarkdownFile>,
    ) -> (r: ListData)
        ensures
            is_list_data_of(self.input_dir@, dir@, list_pages@, files@, r),
    {
        let mut sort_config: Option<SortConfig> = None;
        let mut k: usize = 0;
        proof {
            assert(list_pages@.skip(0) =~= list_pages@);
        }
        while sort_config.is_none() && k < list_pages.len()
            invariant
                k <= list_pages@.len(),
                sort_config is None ==> list_page_for(list_pages@, dir@) == list_page_for(
                    list_pages@.skip(k as int),
                    dir@,
                ),
                sort_config matches Some(c) ==> (list_page_for(list_pages@, dir@) matches Some(p)
                    && c.field@ == spec_sort_field(p.frontmatter) && c.order@ == spec_sort_order(
                    p.frontmatter,
                )),
            decreases list_pages.len() - k,
        {
            proof {
                assert(list_pages@.skip(k as int).drop_first() =~= list_pages@.skip(k + 1));
                assert(list_pages@.skip(k as int)[0] == list_pages@[k as int]);
            }
            if crate::path::same_path(list_pages[k].0.as_str(), dir) {
                sort_config = Some(SortConfig::from_frontmatter(&list_pages[k].1.frontmatter));
            }
            k = k + 1;
        }
        proof {
            if sort_config is None {
                assert(list_pages@.skip(k as int).len() == 0);
            }
        }
        let sort_config = match sort_config {
            Some(c) => c,
            None => {
                proof {
                    reveal_strlit("date");
                    reveal_strlit("desc");
                }
                SortConfig { field: String::from_str("date"), order: String::from_str("desc") }
            },
        };
        let mut markdown_files = files;
        crate::content::sorting::sort_markdown_files(&mut markdown_files, &sort_config);
        let ghost sorted = markdown_files@;
        let items = self.convert_to_list_items(markdown_files);
        let total_count = items.len();
        let r = ListData { items, sort_config, total_count };
        proof {
            assert(sorted.to_multiset() == files@.to_multiset());
        }
        r
    }
}

} // verus!
