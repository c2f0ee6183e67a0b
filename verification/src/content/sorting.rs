//! Ordering of content files in list pages.
use vstd::prelude::*;
use std::cmp::Ordering;
use vstd::multiset::Multiset;
use crate::content::date_parsing::{parse_date, spec_parse_date};
use crate::content::frontmatter::{Frontmatter, MarkdownFile};
use crate::path::path_file_name;
use crate::text::{lex_order, unicode_lowercase};

verus! {

broadcast use {vstd::multiset::group_multiset_axioms, vstd::seq_lib::group_to_multiset_ensures};

/// How a list page orders its entries: a field (`date`, `title` or
/// `filename`) and an order (`asc` or `desc`).
#[derive(Debug)]
pub struct SortConfig {
    pub field: String,
    pub order: String,
}

/// The field a front matter asks to sort by: its `sort_by` in lower case, or
/// `date`.
pub open spec fn spec_sort_field(fm: Frontmatter) -> Seq<char> {
    match fm.sort_by {
        Some(s) => unicode_lowercase(s@),
        None => "date"@,
    }
}

/// The order a front matter asks for: its `sort_order` in lower case, or
/// `desc` when sorting by date and `asc` otherwise.
pub open spec fn spec_sort_order(fm: Frontmatter) -> Seq<char> {
    match fm.sort_order {
        Some(s) => unicode_lowercase(s@),
        None => if spec_sort_field(fm) == "date"@ {
            "desc"@
        } else {
            "asc"@
        },
    }
}

pub open spec fn spec_is_valid_field(field: Seq<char>) -> bool {
    field == "date"@ || field == "title"@ || field == "filename"@
}

pub open spec fn spec_is_valid_order(order: Seq<char>) -> bool {
    order == "asc"@ || order == "desc"@
}

/// The field actually sorted by: the configured one when valid, else `date`.
pub open spec fn effective_field(c: SortConfig) -> Seq<char> {
    if spec_is_valid_field(c.field@) {
        c.field@
    } else {
        "date"@
    }
}

/// The order actually used: the configured one when valid, else `asc`.
pub open spec fn effective_order(c: SortConfig) -> Seq<char> {
    if spec_is_valid_order(c.order@) {
        c.order@
    } else {
        "asc"@
    }
}

impl SortConfig {
    /// The sort configuration a list page's front matter asks for.
    pub fn from_frontmatter(frontmatter: &Frontmatter) -> (r: Self)
        ensures
            r.field@ == spec_sort_field(*frontmatter),
            r.order@ == spec_sort_order(*frontmatter),
            frontmatter.sort_order is None && r.field@ == "date"@ ==> r.order@ == "desc"@,
            frontmatter.sort_order is None && r.field@ != "date"@ ==> r.order@ == "asc"@,
            frontmatter.sort_by is None ==> r.field@ == "date"@,
    {
        let field = match &frontmatter.sort_by {
            Some(s) => crate::text::to_lowercase(s.as_str()),
            None => String::from_str("date"),
        };
        let order = match &frontmatter.sort_order {
            Some(s) => crate::text::to_lowercase(s.as_str()),
            None => {
                if crate::text::str_eq(field.as_str(), "date") {
                    String::from_str("desc")
                } else {
                    String::from_str("asc")
                }
            },
        };
        SortConfig { field, order }
    }

    /// Whether `field` names a sortable field.
    pub fn is_valid_field(field: &str) -> (r: bool)
        ensures
            r == spec_is_valid_field(field@),
    {
        crate::text::str_eq(field, "date") || crate::text::str_eq(field, "title")
            || crate::text::str_eq(field, "filename")
    }

    /// Whether `order` names a sort order.
    pub fn is_valid_order(order: &str) -> (r: bool)
        ensures
            r == spec_is_valid_order(order@),
    {
        crate::text::str_eq(order, "asc") || crate::text::str_eq(order, "desc")
    }

    /// The configured field when it is valid, otherwise `date`.
    pub fn validate_and_get_field(&self) -> (r: &str)
        ensures
            r@ == effective_field(*self),
    {
        if SortConfig::is_valid_field(self.field.as_str()) {
            self.field.as_str()
        } else {
            "date"
        }
    }

    /// The configured order when it is valid, otherwise `asc`.
    pub fn validate_and_get_order(&self) -> (r: &str)
        ensures
            r@ == effective_order(*self),
    {
        if SortConfig::is_valid_order(self.order.as_str()) {
            self.order.as_str()
        } else {
            "asc"
        }
    }
}

/// The key by which files compare by file name: the path's file name, or the
/// empty string.
pub open spec fn file_name_key(f: MarkdownFile) -> Seq<char> {
    match path_file_name(f.path@) {
        Some(n) => n,
        None => Seq::empty(),
    }
}

/// Whether date `x` comes strictly before date `y` on the calendar: an
/// earlier year, or the same year and an earlier month, or the same year and
/// month and an earlier day.
pub open spec fn earlier_date(x: (i32, u32, u32), y: (i32, u32, u32)) -> bool {
    ||| x.0 < y.0
    ||| x.0 == y.0 && x.1 < y.1
    ||| x.0 == y.0 && x.1 == y.1 && x.2 < y.2
}

/// Chronological order of two (year, month, day) dates: -1, 0 or 1.
pub open spec fn date_order(x: (i32, u32, u32), y: (i32, u32, u32)) -> int {
    if x.0 < y.0 {
        -1
    } else if x.0 > y.0 {
        1
    } else if x.1 < y.1 {
        -1
    } else if x.1 > y.1 {
        1
    } else if x.2 < y.2 {
        -1
    } else if x.2 > y.2 {
        1
    } else {
        0
    }
}

/// Order by file name.
pub open spec fn order_by_filename(a: MarkdownFile, b: MarkdownFile) -> int {
    lex_order(file_name_key(a), file_name_key(b))
}

/// Order by title.
pub open spec fn order_by_title(a: MarkdownFile, b: MarkdownFile) -> int {
    lex_order(a.title@, b.title@)
}

/// Order by date: files with a readable date first, chronologically; then
/// files with an unreadable date; then files without a date; ties between
/// files without a usable date are broken by file name.
pub open spec fn order_by_date(a: MarkdownFile, b: MarkdownFile) -> int {
    match (a.frontmatter.date, b.frontmatter.date) {
        (Some(da), Some(db)) => match (spec_parse_date(da@), spec_parse_date(db@)) {
            (Some(x), Some(y)) => date_order(x, y),
            (Some(_), None) => -1,
            (None, Some(_)) => 1,
            (None, None) => order_by_filename(a, b),
        },
        (Some(_), None) => -1,
        (None, Some(_)) => 1,
        (None, None) => order_by_filename(a, b),
    }
}

/// Order by the named field (`date`, `title` or `filename`); any other field
/// makes all files equal.
pub open spec fn order_by_field(field: Seq<char>, a: MarkdownFile, b: MarkdownFile) -> int {
    if field == "date"@ {
        order_by_date(a, b)
    } else if field == "title"@ {
        order_by_title(a, b)
    } else if field == "filename"@ {
        order_by_filename(a, b)
    } else {
        0
    }
}

/// The order of two files under a field and an order (`desc` reverses).
pub open spec fn file_order(field: Seq<char>, order: Seq<char>, a: MarkdownFile, b: MarkdownFile) -> int {
    if order == "desc"@ {
        -order_by_field(field, a, b)
    } else {
        order_by_field(field, a, b)
    }
}

/// Whether a sequence of files is in order: no file is greater than the next.
pub open spec fn is_sorted_by(field: Seq<char>, order: Seq<char>, s: Seq<MarkdownFile>) -> bool {
    forall|i: int| 0 <= i < s.len() - 1 ==> file_order(field, order, s[i], #[trigger] s[i + 1]) <= 0
}

/// `sorted` with `x` placed after every file that does not sort after it,
/// scanning from the end: where insertion sort puts it.
pub open spec fn insert_sorted(field: Seq<char>, order: Seq<char>, sorted: Seq<MarkdownFile>, x: MarkdownFile) -> Seq<MarkdownFile>
    decreases sorted.len(),
{
    if sorted.len() == 0 {
        seq![x]
    } else if file_order(field, order, sorted.last(), x) == 1 {
        insert_sorted(field, order, sorted.drop_last(), x).push(sorted.last())
    } else {
        sorted.push(x)
    }
}

/// The files in the order a stable sort by the field and order gives them:
/// each file in turn inserted into the sorted files before it.
pub open spec fn stable_sorted(field: Seq<char>, order: Seq<char>, files: Seq<MarkdownFile>) -> Seq<MarkdownFile>
    decreases files.len(),
{
    if files.len() == 0 {
        Seq::empty()
    } else {
        insert_sorted(field, order, stable_sorted(field, order, files.drop_last()), files.last())
    }
}

/// Inserting at the position the backward scan stops at is `insert_sorted`.
proof fn lemma_insert_sorted_at(field: Seq<char>, order: Seq<char>, s: Seq<MarkdownFile>, x: MarkdownFile, k: int)
    requires
        0 <= k <= s.len(),
        forall|j: int| k <= j < s.len() ==> file_order(field, order, #[trigger] s[j], x) == 1,
        k == 0 || file_order(field, order, s[k - 1], x) != 1,
    ensures
        insert_sorted(field, order, s, x) == s.insert(k, x),
    decreases s.len(),
{
    if s.len() == 0 {
        assert(s.insert(k, x) =~= seq![x]);
    } else if k == s.len() {
        assert(s.insert(k, x) =~= s.push(x));
    } else {
        assert(file_order(field, order, s[s.len() - 1], x) == 1);
        let t = s.drop_last();
        assert forall|j: int| k <= j < t.len() implies file_order(field, order, #[trigger] t[j], x) == 1 by {
            assert(t[j] == s[j]);
        }
        if k > 0 {
            assert(t[k - 1] == s[k - 1]);
        }
        lemma_insert_sorted_at(field, order, t, x, k);
        assert(t.insert(k, x).push(s.last()) =~= s.insert(k, x));
    }
}

/// `after` arranges the files of `before` by the positions `idx` (each file
/// of `after` is the file of `before` at its position, every position used
/// once), and files that compare equal keep the order they had in `before`.
pub open spec fn is_stable_arrangement(
    field: Seq<char>,
    order: Seq<char>,
    before: Seq<MarkdownFile>,
    after: Seq<MarkdownFile>,
    idx: Seq<int>,
) -> bool {
    &&& idx.len() == after.len()
    &&& after.len() == before.len()
    &&& forall|j: int| 0 <= j < idx.len() ==> 0 <= #[trigger] idx[j] < before.len() && after[j] == before[idx[j]]
    &&& forall|j: int, l: int| 0 <= j < l < idx.len() ==> #[trigger] idx[j] != #[trigger] idx[l]
    &&& forall|j: int, l: int|
        0 <= j < l < idx.len() && file_order(field, order, #[trigger] after[j], #[trigger] after[l]) == 0
            ==> idx[j] < idx[l]
}

/// -1, 0 or 1 for `Less`, `Equal` or `Greater`.
pub open spec fn ordering_value(o: Ordering) -> int {
    match o {
        Ordering::Less => -1,
        Ordering::Equal => 0,
        Ordering::Greater => 1,
    }
}

/// The `Ordering` for -1, 0 or 1.
fn ordering_of(v: i8) -> (r: Ordering)
    requires
        -1 <= v <= 1,
    ensures
        ordering_value(r) == v,
{
    if v < 0 {
        Ordering::Less
    } else if v == 0 {
        Ordering::Equal
    } else {
        Ordering::Greater
    }
}

proof fn lemma_date_order_antisym(x: (i32, u32, u32), y: (i32, u32, u32))
    ensures
        date_order(x, y) == -date_order(y, x),
        -1 <= date_order(x, y) <= 1,
{
}

/// Every file order is antisymmetric and takes the values -1, 0, 1.
pub proof fn lemma_file_order_antisym(field: Seq<char>, order: Seq<char>, a: MarkdownFile, b: MarkdownFile)
    ensures
        file_order(field, order, a, b) == -file_order(field, order, b, a),
        -1 <= file_order(field, order, a, b) <= 1,
{
    crate::text::lemma_lex_order_antisym(file_name_key(a), file_name_key(b));
    crate::text::lemma_lex_order_antisym(a.title@, b.title@);
    match (a.frontmatter.date, b.frontmatter.date) {
        (Some(da), Some(db)) => match (spec_parse_date(da@), spec_parse_date(db@)) {
            (Some(x), Some(y)) => lemma_date_order_antisym(x, y),
            _ => {},
        },
        _ => {},
    }
}

proof fn lemma_lex_order_le_trans(a: Seq<char>, b: Seq<char>, c: Seq<char>)
    requires
        lex_order(a, b) <= 0,
        lex_order(b, c) <= 0,
    ensures
        lex_order(a, c) <= 0,
{
    crate::text::lemma_lex_order_antisym(a, b);
    crate::text::lemma_lex_order_antisym(b, c);
    crate::text::lemma_lex_order_antisym(a, c);
    if lex_order(a, b) < 0 && lex_order(b, c) < 0 {
        crate::text::lemma_lex_order_trans(a, b, c);
    }
}

/// The order of one field never puts `a` after `c` when it puts `a` no later
/// than `b` and `b` no later than `c`.
proof fn lemma_order_by_field_trans(field: Seq<char>, a: MarkdownFile, b: MarkdownFile, c: MarkdownFile)
    requires
        order_by_field(field, a, b) <= 0,
        order_by_field(field, b, c) <= 0,
    ensures
        order_by_field(field, a, c) <= 0,
{
    if field == "date"@ {
        if order_by_filename(a, b) <= 0 && order_by_filename(b, c) <= 0 {
            lemma_lex_order_le_trans(file_name_key(a), file_name_key(b), file_name_key(c));
        }
    } else if field == "title"@ {
        lemma_lex_order_le_trans(a.title@, b.title@, c.title@);
    } else if field == "filename"@ {
        lemma_lex_order_le_trans(file_name_key(a), file_name_key(b), file_name_key(c));
    }
}

/// "No later than" is transitive under every field and order.
pub proof fn lemma_file_order_trans(field: Seq<char>, order: Seq<char>, a: MarkdownFile, b: MarkdownFile, c: MarkdownFile)
    requires
        file_order(field, order, a, b) <= 0,
        file_order(field, order, b, c) <= 0,
    ensures
        file_order(field, order, a, c) <= 0,
{
    if order == "desc"@ {
        lemma_file_order_antisym(field, "asc"@, a, b);
        lemma_file_order_antisym(field, "asc"@, b, c);
        lemma_file_order_antisym(field, "asc"@, a, c);
        lemma_order_by_field_trans(field, c, b, a);
    } else {
        lemma_order_by_field_trans(field, a, b, c);
    }
}

/// A sorted sequence is sorted pairwise: no file sorts after any file that
/// comes later.
pub proof fn law_sorted_files_are_pairwise_ordered(field: Seq<char>, order: Seq<char>, files: Seq<MarkdownFile>)
    requires
        is_sorted_by(field, order, files),
    ensures
        forall|i: int, j: int|
            0 <= i < j < files.len() ==> file_order(field, order, #[trigger] files[i], #[trigger] files[j]) <= 0,
{
    assert forall|i: int, j: int| 0 <= i < j < files.len() implies file_order(
        field,
        order,
        #[trigger] files[i],
        #[trigger] files[j],
    ) <= 0 by {
        lemma_sorted_span(field, order, files, i, j);
    }
}

proof fn lemma_sorted_span(field: Seq<char>, order: Seq<char>, files: Seq<MarkdownFile>, i: int, j: int)
    requires
        is_sorted_by(field, order, files),
        0 <= i < j < files.len(),
    ensures
        file_order(field, order, files[i], files[j]) <= 0,
    decreases j - i,
{
    assert(file_order(field, order, files[j - 1], files[(j - 1) + 1]) <= 0);
    if i < j - 1 {
        lemma_sorted_span(field, order, files, i, j - 1);
        lemma_file_order_trans(field, order, files[i], files[j - 1], files[j]);
    }
}

/// Sorting by date is chronological: for two files whose dates both parse,
/// the one with the earlier calendar date sorts first in ascending order and
/// last in descending order, and they compare equal only for the same date.
pub proof fn law_date_order_is_chronological(a: MarkdownFile, b: MarkdownFile)
    requires
        a.frontmatter.date is Some,
        b.frontmatter.date is Some,
        spec_parse_date(a.frontmatter.date->0@) is Some,
        spec_parse_date(b.frontmatter.date->0@) is Some,
    ensures
        ({
            let x = spec_parse_date(a.frontmatter.date->0@)->0;
            let y = spec_parse_date(b.frontmatter.date->0@)->0;
            &&& file_order("date"@, "asc"@, a, b) == -1 <==> earlier_date(x, y)
            &&& file_order("date"@, "asc"@, a, b) == 1 <==> earlier_date(y, x)
            &&& file_order("date"@, "asc"@, a, b) == 0 <==> x == y
            &&& file_order("date"@, "desc"@, a, b) == -1 <==> earlier_date(y, x)
            &&& file_order("date"@, "desc"@, a, b) == 1 <==> earlier_date(x, y)
        }),
{
    reveal_strlit("date");
    reveal_strlit("asc");
    reveal_strlit("desc");
    let x = spec_parse_date(a.frontmatter.date->0@)->0;
    let y = spec_parse_date(b.frontmatter.date->0@)->0;
    assert("asc"@ != "desc"@) by {
        assert("asc"@[0] != "desc"@[0]);
    }
    assert(order_by_date(a, b) == date_order(x, y));
    assert(order_by_field("date"@, a, b) == date_order(x, y));
    assert(file_order("date"@, "asc"@, a, b) == date_order(x, y));
    assert(file_order("date"@, "desc"@, a, b) == -date_order(x, y));
    if date_order(x, y) == 0 {
        assert(x == y);
    }
}

/// A list sorted by date in ascending order lists every file whose date
/// parses no later on the calendar than every later such file; in
/// descending order, no earlier.
pub proof fn law_date_sorted_files_are_chronological(order: Seq<char>, files: Seq<MarkdownFile>)
    requires
        order == "asc"@ || order == "desc"@,
        is_sorted_by("date"@, order, files),
    ensures
        forall|i: int, j: int|
            0 <= i < j < files.len() && (#[trigger] files[i]).frontmatter.date is Some
                && (#[trigger] files[j]).frontmatter.date is Some && spec_parse_date(
                files[i].frontmatter.date->0@,
            ) is Some && spec_parse_date(files[j].frontmatter.date->0@) is Some ==> ({
                let x = spec_parse_date(files[i].frontmatter.date->0@)->0;
                let y = spec_parse_date(files[j].frontmatter.date->0@)->0;
                if order == "asc"@ {
                    !earlier_date(y, x)
                } else {
                    !earlier_date(x, y)
                }
            }),
{
    law_sorted_files_are_pairwise_ordered("date"@, order, files);
    assert forall|i: int, j: int|
        0 <= i < j < files.len() && (#[trigger] files[i]).frontmatter.date is Some
            && (#[trigger] files[j]).frontmatter.date is Some && spec_parse_date(
            files[i].frontmatter.date->0@,
        ) is Some && spec_parse_date(files[j].frontmatter.date->0@) is Some implies ({
            let x = spec_parse_date(files[i].frontmatter.date->0@)->0;
            let y = spec_parse_date(files[j].frontmatter.date->0@)->0;
            if order == "asc"@ {
                !earlier_date(y, x)
            } else {
                !earlier_date(x, y)
            }
        }) by {
        assert(file_order("date"@, order, files[i], files[j]) <= 0);
        law_date_order_is_chronological(files[i], files[j]);
    }
}

/// The sort settings of a list page: the field its front matter names (in
/// lower case), else `date`; the order it names (in lower case), else
/// newest first (`desc`) for the date field and `asc` for any other field.
pub proof fn law_sort_settings_defaults(fm: Frontmatter)
    ensures
        fm.sort_by matches Some(f) ==> spec_sort_field(fm) == unicode_lowercase(f@),
        fm.sort_by is None ==> spec_sort_field(fm) == "date"@,
        fm.sort_order matches Some(o) ==> spec_sort_order(fm) == unicode_lowercase(o@),
        fm.sort_order is None && fm.sort_by is None ==> spec_sort_order(fm) == "desc"@,
        fm.sort_order is None && (fm.sort_by matches Some(f) && unicode_lowercase(f@) != "date"@)
            ==> spec_sort_order(fm) == "asc"@,
        fm.sort_order is None && (fm.sort_by matches Some(f) && unicode_lowercase(f@) == "date"@)
            ==> spec_sort_order(fm) == "desc"@,
{
}

/// The file name key of a file, as characters.
fn file_name_key_exec(f: &MarkdownFile) -> (r: Vec<char>)
    ensures
        r@ == file_name_key(*f),
{
    match crate::path::file_name(f.path.as_str()) {
        Some(n) => crate::text::chars_of(n.as_str()),
        None => Vec::new(),
    }
}

/// Compares two files by their file names.
pub fn compare_by_filename(a: &MarkdownFile, b: &MarkdownFile) -> (r: Ordering)
    ensures
        ordering_value(r) == order_by_filename(*a, *b),
{
    let ka = file_name_key_exec(a);
    let kb = file_name_key_exec(b);
    proof {
        crate::text::lemma_lex_order_antisym(ka@, kb@);
    }
    ordering_of(crate::text::lex_order_chars(ka.as_slice(), kb.as_slice()))
}

/// Compares two files by their titles.
pub fn compare_by_title(a: &MarkdownFile, b: &MarkdownFile) -> (r: Ordering)
    ensures
        ordering_value(r) == order_by_title(*a, *b),
{
    let ka = crate::text::chars_of(a.title.as_str());
    let kb = crate::text::chars_of(b.title.as_str());
    proof {
        crate::text::lemma_lex_order_antisym(ka@, kb@);
    }
    ordering_of(crate::text::lex_order_chars(ka.as_slice(), kb.as_slice()))
}

/// Compares two files by their dates (see `order_by_date`).
pub fn compare_by_date(a: &MarkdownFile, b: &MarkdownFile) -> (r: Ordering)
    ensures
        ordering_value(r) == order_by_date(*a, *b),
        match (a.frontmatter.date, b.frontmatter.date) {
            (Some(da), Some(db)) => match (spec_parse_date(da@), spec_parse_date(db@)) {
                (Some(x), Some(y)) => (r == Ordering::Less <==> earlier_date(x, y)) && (r
                    == Ordering::Greater <==> earlier_date(y, x)),
                _ => true,
            },
            _ => true,
        },
{
    match (&a.frontmatter.date, &b.frontmatter.date) {
        (Some(date_a), Some(date_b)) => {
            match (parse_date(date_a.as_str()), parse_date(date_b.as_str())) {
                (Some(x), Some(y)) => {
                    if x.year < y.year {
                        Ordering::Less
                    } else if x.year > y.year {
                        Ordering::Greater
                    } else if x.month < y.month {
                        Ordering::Less
                    } else if x.month > y.month {
                        Ordering::Greater
                    } else if x.day < y.day {
                        Ordering::Less
                    } else if x.day > y.day {
                        Ordering::Greater
                    } else {
                        Ordering::Equal
                    }
                },
                (Some(_), None) => Ordering::Less,
                (None, Some(_)) => Ordering::Greater,
                (None, None) => compare_by_filename(a, b),
            }
        },
        (Some(_), None) => Ordering::Less,
        (None, Some(_)) => Ordering::Greater,
        (None, None) => compare_by_filename(a, b),
    }
}

/// Compares two files under a field and an order.
fn compare_files(a: &MarkdownFile, b: &MarkdownFile, field: &str, order: &str) -> (r: Ordering)
    ensures
        ordering_value(r) == file_order(field@, order@, *a, *b),
{
    let by_field = if crate::text::str_eq(field, "date") {
        compare_by_date(a, b)
    } else if crate::text::str_eq(field, "title") {
        compare_by_title(a, b)
    } else if crate::text::str_eq(field, "filename") {
        compare_by_filename(a, b)
    } else {
        Ordering::Equal
    };
    if crate::text::str_eq(order, "desc") {
        match by_field {
            Ordering::Less => Ordering::Greater,
            Ordering::Equal => Ordering::Equal,
            Ordering::Greater => Ordering::Less,
        }
    } else {
        by_field
    }
}

/// Whether `a` sorts strictly after `b` under a field and an order.
fn sorts_after(a: &MarkdownFile, b: &MarkdownFile, field: &str, order: &str) -> (r: bool)
    ensures
        r == (file_order(field@, order@, *a, *b) == 1),
{
    match compare_files(a, b, field, order) {
        Ordering::Greater => true,
        Ordering::Less => false,
        Ordering::Equal => false,
    }
}

/// Sorts files according to the configuration (an invalid field falls back
/// to `date`, an invalid order to `asc`): the result holds the same files,
/// no file in it sorts after the one that follows it, and files that compare
/// equal keep their order (the sort is stable).
#[verifier::rlimit(40)]
pub fn sort_markdown_files(files: &mut Vec<MarkdownFile>, sort_config: &SortConfig)
    ensures
        final(files)@.to_multiset() == old(files)@.to_multiset(),
        final(files)@.len() == old(files)@.len(),
        is_sorted_by(effective_field(*sort_config), effective_order(*sort_config), final(files)@),
        exists|idx: Seq<int>|
            is_stable_arrangement(
                effective_field(*sort_config),
                effective_order(*sort_config),
                old(files)@,
                final(files)@,
                idx,
            ),
        final(files)@ == stable_sorted(effective_field(*sort_config), effective_order(*sort_config), old(files)@),
{
    let field = sort_config.validate_and_get_field();
    let order = sort_config.validate_and_get_order();
    let ghost f = field@;
    let ghost o = order@;
    let ghost orig = files@;
    let mut input: Vec<MarkdownFile> = Vec::new();
    std::mem::swap(&mut input, files);
    let mut out: Vec<MarkdownFile> = Vec::new();
    let ghost mut idx: Seq<int> = Seq::empty();
    proof {
        assert(input@.skip(0) =~= input@);
        assert(orig.take(0) =~= Seq::<MarkdownFile>::empty());
        assert(out@.to_multiset().len() == 0);
        assert(out@.to_multiset() =~= Multiset::empty());
        assert(out@.to_multiset().add(input@.to_multiset()) =~= orig.to_multiset());
    }
    while input.len() > 0
        invariant
            f == field@,
            o == order@,
            out@.to_multiset().add(input@.to_multiset()) == orig.to_multiset(),
            out@.len() + input@.len() == orig.len(),
            is_sorted_by(f, o, out@),
            input@ == orig.skip(out@.len() as int),
            out@ == stable_sorted(f, o, orig.take(out@.len() as int)),
            idx.len() == out@.len(),
            forall|j: int| 0 <= j < idx.len() ==> 0 <= #[trigger] idx[j] < out@.len() && out@[j] == orig[idx[j]],
            forall|j: int, l: int| 0 <= j < l < idx.len() ==> #[trigger] idx[j] != #[trigger] idx[l],
            forall|j: int, l: int|
                0 <= j < l < idx.len() && file_order(f, o, #[trigger] out@[j], #[trigger] out@[l]) == 0
                    ==> idx[j] < idx[l],
        decreases input.len(),
    {
        let ghost inp = input@;
        let x = input.remove(0);
        proof {
            assert(inp.to_multiset().contains(x)) by {
                assert(inp.contains(inp[0]));
            }
        }
        let mut k: usize = out.len();
        while k > 0 && sorts_after(&out[k - 1], &x, field, order)
            invariant
                k <= out@.len(),
                f == field@,
                o == order@,
                forall|j: int| k <= j < out@.len() ==> file_order(f, o, #[trigger] out@[j], x) == 1,
            decreases k,
        {
            k = k - 1;
        }
        let ghost before = out@;
        let ghost rest = input@;
        out.insert(k, x);
        proof {
            assert(out@ == before.insert(k as int, x));
            if k > 0 {
                assert(file_order(f, o, before[k - 1], x) <= 0) by {
                    lemma_file_order_antisym(f, o, before[k - 1], x);
                }
            }
            if k < before.len() {
                lemma_file_order_antisym(f, o, before[k as int], x);
            }
            assert forall|i: int| 0 <= i < out@.len() - 1 implies file_order(
                f,
                o,
                out@[i],
                #[trigger] out@[i + 1],
            ) <= 0 by {
                if i < k - 1 {
                    assert(out@[i] == before[i]);
                    assert(out@[i + 1] == before[i + 1]);
                } else if i == k - 1 {
                    assert(out@[i] == before[i]);
                    assert(out@[i + 1] == x);
                } else if i == k {
                    assert(out@[i] == x);
                    assert(out@[i + 1] == before[i]);
                } else {
                    assert(out@[i] == before[i - 1]);
                    assert(out@[i + 1] == before[i]);
                    assert(before[(i - 1) + 1] == before[i]);
                }
            }
            vstd::seq_lib::to_multiset_insert(before, k as int, x);
            assert(out@.to_multiset().add(input@.to_multiset()) =~= orig.to_multiset());
            let t = before.len() as int;
            assert(x == orig[t]);
            assert(input@ =~= orig.skip(t + 1));
            assert(orig.take(t + 1).drop_last() =~= orig.take(t));
            assert(orig.take(t + 1).last() == x);
            lemma_insert_sorted_at(f, o, before, x, k as int);
            assert(out@ == stable_sorted(f, o, orig.take(t + 1)));
            let old_idx = idx;
            idx = old_idx.insert(k as int, t);
            assert forall|j: int| 0 <= j < idx.len() implies 0 <= #[trigger] idx[j] < out@.len()
                && out@[j] == orig[idx[j]] by {
                if j < k {
                    assert(idx[j] == old_idx[j]);
                } else if j > k {
                    assert(idx[j] == old_idx[j - 1]);
                }
            }
            assert forall|j: int, l: int| 0 <= j < l < idx.len() implies #[trigger] idx[j]
                != #[trigger] idx[l] by {
                if j != k && l != k {
                    let j2 = if j < k { j } else { j - 1 };
                    let l2 = if l < k { l } else { l - 1 };
                    assert(idx[j] == old_idx[j2]);
                    assert(idx[l] == old_idx[l2]);
                    assert(j2 < l2);
                } else if j == k {
                    assert(idx[l] == old_idx[l - 1]);
                } else {
                    assert(idx[j] == old_idx[j]);
                }
            }
            assert forall|j: int, l: int|
                0 <= j < l < idx.len() && file_order(f, o, #[trigger] out@[j], #[trigger] out@[l])
                    == 0 implies idx[j] < idx[l] by {
                if j != k && l != k {
                    let j2 = if j < k { j } else { j - 1 };
                    let l2 = if l < k { l } else { l - 1 };
                    assert(idx[j] == old_idx[j2]);
                    assert(idx[l] == old_idx[l2]);
                    assert(out@[j] == before[j2]);
                    assert(out@[l] == before[l2]);
                    assert(j2 < l2);
                } else if j == k {
                    assert(out@[l] == before[l - 1]);
                    assert(file_order(f, o, before[l - 1], x) == 1);
                    lemma_file_order_antisym(f, o, before[l - 1], x);
                } else {
                    assert(idx[j] == old_idx[j]);
                }
            }
        }
    }
    proof {
        assert(is_stable_arrangement(f, o, orig, out@, idx));
        assert(orig.take(orig.len() as int) =~= orig);
    }
    *files = out;
}

} // verus!
