//! New projects: the checks on where a project is created and with which
//! theme, and its starting configuration.
use vstd::prelude::*;
use crate::names::string_views;
use crate::text::trim;

verus! {

/// The configuration file of a new project.
pub open spec fn spec_default_sherwood_toml() -> Seq<char> {
    "[site]\ntheme = \"default\"\n# Available themes: default, kanagawa\n\n[templates]\npage_template = \"default.stpl\"\n"@
}

/// The configuration file of a new project.
pub fn get_default_sherwood_toml() -> (r: String)
    ensures
        r@ == spec_default_sherwood_toml(),
{
    String::from_str(
        "[site]\ntheme = \"default\"\n# Available themes: default, kanagawa\n\n[templates]\npage_template = \"default.stpl\"\n",
    )
}

/// What is known on disk of the directory a project is created in.
pub struct TargetFacts {
    /// The path exists.
    pub exists: bool,
    /// The path is a directory.
    pub is_dir: bool,
    /// The path is a directory with at least one entry.
    pub has_entries: bool,
    /// The path's parent, if it has one (empty for a bare name).
    pub parent: Option<String>,
    /// The parent exists.
    pub parent_exists: bool,
}

/// The outcome of checking the target directory: an error message, or the
/// directory whose writability is to be tested next (none when the path has
/// no parent).
pub open spec fn spec_validate_target(path: Seq<char>, facts: TargetFacts) -> Result<Option<Seq<char>>, Seq<char>> {
    if facts.exists && facts.is_dir && facts.has_entries {
        Err("Directory '"@ + path + "' is not empty - refusing to overwrite existing files"@)
    } else if facts.exists && !facts.is_dir {
        Err("Path '"@ + path + "' exists but is not a directory"@)
    } else {
        match facts.parent {
            Some(p) => if p@.len() == 0 {
                Ok(Some("."@))
            } else if !facts.parent_exists {
                Err("Parent directory '"@ + p@ + "' does not exist"@)
            } else {
                Ok(Some(p@))
            },
            None => Ok(None),
        }
    }
}

/// Checks the directory a project is created in: it must not be a non-empty
/// directory or a file, and its parent must exist; on success, the directory
/// whose writability is tested next, if any.
pub fn validate_target(path: &str, facts: &TargetFacts) -> (r: Result<Option<String>, String>)
    ensures
        match spec_validate_target(path@, *facts) {
            Ok(None) => r matches Ok(None),
            Ok(Some(d)) => r matches Ok(Some(s)) && s@ == d,
            Err(m) => r matches Err(e) && e@ == m,
        },
{
    if facts.exists && facts.is_dir && facts.has_entries {
        return Err(
            String::from_str("Directory '").concat(path).concat(
                "' is not empty - refusing to overwrite existing files",
            ),
        );
    }
    if facts.exists && !facts.is_dir {
        return Err(String::from_str("Path '").concat(path).concat("' exists but is not a directory"));
    }
    match &facts.parent {
        Some(p) => {
            if p.as_str().unicode_len() == 0 {
                Ok(Some(String::from_str(".")))
            } else if !facts.parent_exists {
                Err(String::from_str("Parent directory '").concat(p.as_str()).concat("' does not exist"))
            } else {
                Ok(Some(p.clone()))
            }
        },
        None => Ok(None),
    }
}

/// The error for a directory that cannot be written to.
pub fn write_test_error(test_dir: &str, error: &str) -> (r: String)
    ensures
        r@ == "Cannot write to parent directory '"@ + test_dir@ + "': "@ + error@,
{
    String::from_str("Cannot write to parent directory '").concat(test_dir).concat("': ").concat(error)
}

/// Whether `char::is_alphanumeric` holds of the character.
pub uninterp spec fn unicode_alphanumeric(c: char) -> bool;

/// Whether a character is alphabetic or numeric (`char::is_alphanumeric`).
#[verifier::external_body]
fn is_alphanumeric(c: char) -> (r: bool)
    ensures
        r == unicode_alphanumeric(c),
{
    c.is_alphanumeric()
}

/// Whether a character may appear in a theme name.
pub open spec fn theme_name_char(c: char) -> bool {
    unicode_alphanumeric(c) || c == '-' || c == '_'
}

/// The names joined with `, `.
pub open spec fn comma_list(names: Seq<Seq<char>>) -> Seq<char>
    decreases names.len(),
{
    if names.len() == 0 {
        Seq::empty()
    } else if names.len() == 1 {
        names[0]
    } else {
        comma_list(names.drop_last()) + ", "@ + names.last()
    }
}

/// The outcome of checking the theme of a new project.
pub open spec fn spec_validate_theme(theme: Seq<char>, no_theme: bool, embedded: Seq<Seq<char>>) -> Result<(), Seq<char>> {
    if no_theme {
        Ok(())
    } else if trim(theme).len() == 0 {
        Err("Theme name cannot be empty"@)
    } else if !(forall|i: int| 0 <= i < theme.len() ==> theme_name_char(#[trigger] theme[i])) {
        Err("Invalid theme name '"@ + theme
            + "': only letters, numbers, hyphens, and underscores are allowed"@)
    } else if !embedded.contains(theme) {
        Err("Theme '"@ + theme + "' not found. Available themes: "@ + comma_list(embedded))
    } else {
        Ok(())
    }
}

/// The names joined with `, `.
fn join_names(names: &[String]) -> (r: String)
    ensures
        r@ == comma_list(string_views(names@)),
{
    let mut r = String::new();
    let mut i: usize = 0;
    proof {
        reveal_strlit("");
        assert(string_views(names@).take(0) =~= Seq::<Seq<char>>::empty());
    }
    while i < names.len()
        invariant
            i <= names@.len(),
            r@ == comma_list(string_views(names@).take(i as int)),
        decreases names.len() - i,
    {
        proof {
            assert(string_views(names@).take(i + 1).drop_last() =~= string_views(names@).take(
                i as int,
            ));
            assert(string_views(names@).take(i + 1).last() == names@[i as int]@);
        }
        if i == 0 {
            r = names[0].clone();
            proof {
                assert(string_views(names@).take(1)[0] == names@[0]@);
            }
        } else {
            r = r.concat(", ").concat(names[i].as_str());
        }
        i = i + 1;
    }
    proof {
        assert(string_views(names@).take(i as int) =~= string_views(names@));
    }
    r
}

/// Checks the theme of a new project (unless none is wanted): it must not be
/// blank, may hold only letters, digits, hyphens and underscores, and must be
/// one of the built-in themes.
pub fn validate_theme(theme: &str, no_theme: bool, embedded_themes: &[String]) -> (r: Result<(), String>)
    ensures
        match spec_validate_theme(theme@, no_theme, string_views(embedded_themes@)) {
            Ok(()) => r is Ok,
            Err(m) => r matches Err(e) && e@ == m,
        },
{
    if no_theme {
        return Ok(());
    }
    let chars = crate::text::chars_of(theme);
    let trimmed = crate::text::trim_chars(chars.as_slice());
    if trimmed.len() == 0 {
        return Err(String::from_str("Theme name cannot be empty"));
    }
    let mut i: usize = 0;
    while i < chars.len()
        invariant
            i <= chars@.len(),
            chars@ == theme@,
            !no_theme,
            trim(theme@).len() > 0,
            forall|k: int| 0 <= k < i ==> theme_name_char(#[trigger] theme@[k]),
        decreases chars.len() - i,
    {
        let c = chars[i];
        if !(is_alphanumeric(c) || c == '-' || c == '_') {
            assert(!theme_name_char(theme@[i as int]));
            return Err(
                String::from_str("Invalid theme name '").concat(theme).concat(
                    "': only letters, numbers, hyphens, and underscores are allowed",
                ),
            );
        }
        i = i + 1;
    }
    let mut found = false;
    let mut k: usize = 0;
    while k < embedded_themes.len()
        invariant
            k <= embedded_themes@.len(),
            found <==> exists|j: int| 0 <= j < k && embedded_themes@[j]@ == theme@,
        decreases embedded_themes.len() - k,
    {
        if crate::text::str_eq(embedded_themes[k].as_str(), theme) {
            found = true;
        }
        k = k + 1;
    }
    proof {
        if string_views(embedded_themes@).contains(theme@) {
            let j = choose|j: int|
                0 <= j < string_views(embedded_themes@).len() && string_views(embedded_themes@)[j]
                    == theme@;
            assert(embedded_themes@[j]@ == theme@);
        }
        if found {
            let j = choose|j: int| 0 <= j < k && embedded_themes@[j]@ == theme@;
            assert(string_views(embedded_themes@)[j] == theme@);
        }
    }
    if !found {
        let available = join_names(embedded_themes);
        return Err(
            String::from_str("Theme '").concat(theme).concat("' not found. Available themes: ").concat(
                available.as_str(),
            ),
        );
    }
    Ok(())
}

} // verus!
