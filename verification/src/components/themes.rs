//! Themes: which theme a page uses, where it comes from, and which of its
//! stylesheets are copied.
use vstd::prelude::*;
use crate::names::{string_views, strictly_sorted};
use crate::path::{path_extension, path_file_name, path_join};
use crate::text::{contains, trim};

verus! {

/// A theme, either from the user's themes directory or built in.
#[derive(Debug)]
pub struct Theme {
    pub name: String,
    pub path: Option<String>,
    pub is_embedded: bool,
}

/// Finds and resolves themes under a themes directory.
pub struct ThemeManager {
    pub themes_dir: String,
}

/// The theme a page uses: the frontmatter's, else the site's, else `default`.
pub open spec fn spec_resolve_theme(frontmatter_theme: Option<String>, site_theme: Option<String>) -> Seq<
    char,
> {
    match frontmatter_theme {
        Some(t) => t@,
        None => match site_theme {
            Some(t) => t@,
            None => "default"@,
        },
    }
}

/// Whether a theme name is safe to use: no `..`, no path separators, and
/// not blank.
pub open spec fn spec_valid_theme_name(name: Seq<char>) -> bool {
    !contains(name, ".."@) && !contains(name, "/"@) && !contains(name, "\\"@) && trim(name).len() > 0
}

/// The theme loaded for `theme_name`, given whether the user's themes
/// directory has it (with its `default.css`) and the names of the built-in
/// themes.
pub open spec fn spec_load_theme(
    themes_dir: Seq<char>,
    theme_name: Seq<char>,
    user_theme_has_css: bool,
    embedded: Seq<Seq<char>>,
) -> Option<(Seq<char>, Option<Seq<char>>, bool)> {
    if user_theme_has_css {
        Some((theme_name, Some(path_join(themes_dir, theme_name)), false))
    } else if embedded.contains(theme_name) {
        Some((theme_name, None, true))
    } else if theme_name != "default"@ && embedded.contains("default"@) {
        Some(("default"@, None, true))
    } else {
        None
    }
}

/// The view of a theme: name, path and whether it is built in.
pub open spec fn theme_view(t: Theme) -> (Seq<char>, Option<Seq<char>>, bool) {
    (t.name@, crate::templates::sherwood::opt_view(t.path), t.is_embedded)
}

/// The text of the error for a theme that cannot be loaded.
pub open spec fn theme_not_found_message(theme_name: Seq<char>) -> Seq<char> {
    "Theme '"@ + theme_name + "' not found and no embedded default theme available"@
}

/// Whether a theme file is an extra stylesheet: a `.css` file other than the
/// theme's `default.css`.
pub open spec fn spec_is_extra_css(file_name: Seq<char>) -> bool {
    path_extension(file_name) == Some("css"@) && path_file_name(file_name) != Some("default.css"@)
}

/// Whether `s` occurs among `names`.
fn contains_name(names: &[String], s: &str) -> (r: bool)
    ensures
        r == string_views(names@).contains(s@),
{
    let mut i: usize = 0;
    while i < names.len()
        invariant
            i <= names@.len(),
            forall|j: int| 0 <= j < i ==> names@[j]@ != s@,
        decreases names.len() - i,
    {
        if crate::text::str_eq(names[i].as_str(), s) {
            assert(string_views(names@)[i as int] == s@);
            return true;
        }
        i = i + 1;
    }
    proof {
        if string_views(names@).contains(s@) {
            let j = choose|j: int| 0 <= j < string_views(names@).len() && string_views(names@)[j] == s@;
            assert(names@[j]@ == s@);
        }
    }
    false
}

impl ThemeManager {
    /// A manager for the themes under `themes_dir`.
    pub fn new(themes_dir: &str) -> (r: Self)
        ensures
            r.themes_dir@ == themes_dir@,
    {
        ThemeManager { themes_dir: crate::text::copy_str(themes_dir) }
    }

    /// The name of the default theme.
    pub fn get_default_theme(&self) -> (r: String)
        ensures
            r@ == "default"@,
    {
        String::from_str("default")
    }

    /// The theme a page uses: the frontmatter's, else the site's, else the
    /// default theme.
    pub fn resolve_theme(&self, frontmatter_theme: Option<String>, site_theme: Option<String>) -> (r:
        String)
        ensures
            r@ == spec_resolve_theme(frontmatter_theme, site_theme),
    {
        match frontmatter_theme {
            Some(t) => t,
            None => match site_theme {
                Some(t) => t,
                None => self.get_default_theme(),
            },
        }
    }

    /// Whether a theme name is safe to use.
    pub fn validate_theme_name(&self, theme_name: &str) -> (r: bool)
        ensures
            r == spec_valid_theme_name(theme_name@),
    {
        proof {
            reveal_strlit("..");
            reveal_strlit("/");
            reveal_strlit("\\");
        }
        let chars = crate::text::chars_of(theme_name);
        let dots: [char; 2] = ['.', '.'];
        let slash: [char; 1] = ['/'];
        let backslash: [char; 1] = ['\\'];
        assert(dots@ =~= ".."@);
        assert(slash@ =~= "/"@);
        assert(backslash@ =~= "\\"@);
        if crate::text::contains_chars(chars.as_slice(), dots.as_slice())
            || crate::text::contains_chars(chars.as_slice(), slash.as_slice())
            || crate::text::contains_chars(chars.as_slice(), backslash.as_slice()) {
            return false;
        }
        let trimmed = crate::text::trim_chars(chars.as_slice());
        trimmed.len() > 0
    }

    /// The theme named `theme_name`: from the user's themes directory when it
    /// has it with its `default.css`, else the built-in theme of that name,
    /// else the built-in default theme; an error when none of these exists.
    pub fn load_theme(&self, theme_name: &str, user_theme_has_css: bool, embedded: &[String]) -> (r:
        Result<Theme, String>)
        ensures
            r is Ok <==> spec_load_theme(
                self.themes_dir@,
                theme_name@,
                user_theme_has_css,
                string_views(embedded@),
            ) is Some,
            r matches Ok(t) ==> Some(theme_view(t)) == spec_load_theme(
                self.themes_dir@,
                theme_name@,
                user_theme_has_css,
                string_views(embedded@),
            ),
            r matches Err(m) ==> m@ == theme_not_found_message(theme_name@),
    {
        if user_theme_has_css {
            return Ok(
                Theme {
                    name: crate::text::copy_str(theme_name),
                    path: Some(crate::path::join(self.themes_dir.as_str(), theme_name)),
                    is_embedded: false,
                },
            );
        }
        if contains_name(embedded, theme_name) {
            return Ok(Theme { name: crate::text::copy_str(theme_name), path: None, is_embedded: true });
        }
        if !crate::text::str_eq(theme_name, "default") && contains_name(embedded, "default") {
            return Ok(Theme { name: String::from_str("default"), path: None, is_embedded: true });
        }
        Err(
            String::from_str("Theme '").concat(theme_name).concat(
                "' not found and no embedded default theme available",
            ),
        )
    }

    /// The names of the available themes, from the user's themes directory
    /// and the built-in ones, sorted and without duplicates.
    pub fn get_available_themes(&self, user_themes: &[String], embedded: &[String]) -> (r: Vec<String>)
        ensures
            strictly_sorted(string_views(r@)),
            string_views(r@).to_set() == string_views(user_themes@).to_set() + string_views(
                embedded@,
            ).to_set(),
    {
        let mut all: Vec<String> = Vec::new();
        crate::names::append_copies(&mut all, user_themes);
        crate::names::append_copies(&mut all, embedded);
        proof {
            assert(string_views(Seq::<String>::empty()) + string_views(user_themes@) =~= string_views(
                user_themes@,
            ));
            vstd::seq_lib::seq_to_set_distributes_over_add(string_views(user_themes@), string_views(
                embedded@,
            ));
        }
        crate::names::sorted_unique(all.as_slice())
    }

    /// Whether a theme file is an extra stylesheet to copy alongside the
    /// theme's own.
    pub fn is_extra_css_file(file_name: &str) -> (r: bool)
        ensures
            r == spec_is_extra_css(file_name@),
    {
        proof {
            reveal_strlit("css");
            reveal_strlit("default.css");
        }
        let is_css = match crate::path::extension(file_name) {
            Some(e) => crate::text::str_eq(e.as_str(), "css"),
            None => false,
        };
        let is_default = match crate::path::file_name(file_name) {
            Some(n) => crate::text::str_eq(n.as_str(), "default.css"),
            None => false,
        };
        is_css && !is_default
    }

    /// Where a theme's stylesheet is written: `css/<theme>.css` under
    /// `output_dir`.
    pub fn theme_css_path(&self, theme: &Theme, output_dir: &str) -> (r: String)
        ensures
            r@ == path_join(path_join(output_dir@, "css"@), theme.name@ + ".css"@),
    {
        let css_dir = crate::path::join(output_dir, "css");
        let file = theme.name.clone().concat(".css");
        crate::path::join(css_dir.as_str(), file.as_str())
    }

    /// The variant of a theme used by default.
    pub fn get_default_variant(&self, theme: &Theme) -> (r: String)
        ensures
            r@ == "default"@,
    {
        String::from_str("default")
    }
}

} // verus!
