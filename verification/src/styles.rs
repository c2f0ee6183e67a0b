//! Stylesheets: the entry point, browser targets, processing settings, and
//! where the site's stylesheet comes from.
use vstd::prelude::*;
use crate::config::{CssSection, CssTargets};
use crate::path::path_join;
use crate::text::{contains, ends_with, spec_parse_u32, split};

verus! {

/// Why a configured stylesheet entry point is refused.
#[derive(Debug, PartialEq, Eq, Structural)]
pub enum EntryPointValidationError {
    Empty,
    ContainsPathSeparators,
    MissingExtension,
    InvalidExtension,
}

/// The text of an entry point error.
pub open spec fn entry_point_error_message(e: EntryPointValidationError) -> Seq<char> {
    match e {
        EntryPointValidationError::Empty => "cannot be empty"@,
        EntryPointValidationError::ContainsPathSeparators => "must be a simple filename, not a path"@,
        EntryPointValidationError::MissingExtension => "must have a file extension"@,
        EntryPointValidationError::InvalidExtension => "must end with .css"@,
    }
}

impl EntryPointValidationError {
    /// A human-readable description of the error.
    pub fn message(&self) -> (r: String)
        ensures
            r@ == entry_point_error_message(*self),
    {
        match self {
            EntryPointValidationError::Empty => String::from_str("cannot be empty"),
            EntryPointValidationError::ContainsPathSeparators => String::from_str(
                "must be a simple filename, not a path",
            ),
            EntryPointValidationError::MissingExtension => String::from_str(
                "must have a file extension",
            ),
            EntryPointValidationError::InvalidExtension => String::from_str("must end with .css"),
        }
    }
}

/// The verdict on a configured entry point: the first rule it breaks.
pub open spec fn spec_validate_entry_point(e: Seq<char>) -> Result<Seq<char>, EntryPointValidationError> {
    if e.len() == 0 {
        Err(EntryPointValidationError::Empty)
    } else if contains(e, "/"@) || contains(e, "\\"@) {
        Err(EntryPointValidationError::ContainsPathSeparators)
    } else if !contains(e, "."@) {
        Err(EntryPointValidationError::MissingExtension)
    } else if !ends_with(e, ".css"@) {
        Err(EntryPointValidationError::InvalidExtension)
    } else {
        Ok(e)
    }
}

/// The entry point when it is a plain file name ending in `.css`.
pub fn validate_css_entry_point(entry_point: &str) -> (r: Result<String, EntryPointValidationError>)
    ensures
        match spec_validate_entry_point(entry_point@) {
            Ok(v) => r matches Ok(s) && s@ == v,
            Err(e) => r == Err::<String, EntryPointValidationError>(e),
        },
{
    proof {
        reveal_strlit("/");
        reveal_strlit("\\");
        reveal_strlit(".");
        reveal_strlit(".css");
    }
    let chars = crate::text::chars_of(entry_point);
    let slash: [char; 1] = ['/'];
    let backslash: [char; 1] = ['\\'];
    let dot: [char; 1] = ['.'];
    let css: [char; 4] = ['.', 'c', 's', 's'];
    assert(slash@ =~= "/"@);
    assert(backslash@ =~= "\\"@);
    assert(dot@ =~= "."@);
    assert(css@ =~= ".css"@);
    if chars.len() == 0 {
        return Err(EntryPointValidationError::Empty);
    }
    if crate::text::contains_chars(chars.as_slice(), slash.as_slice())
        || crate::text::contains_chars(chars.as_slice(), backslash.as_slice()) {
        return Err(EntryPointValidationError::ContainsPathSeparators);
    }
    if !crate::text::contains_chars(chars.as_slice(), dot.as_slice()) {
        return Err(EntryPointValidationError::MissingExtension);
    }
    if !crate::text::ends_with_chars(chars.as_slice(), css.as_slice()) {
        return Err(EntryPointValidationError::InvalidExtension);
    }
    Ok(crate::text::copy_str(entry_point))
}

/// The entry point used: the configured one when it is valid, else
/// `main.css`.
pub open spec fn spec_entry_point(css_config: Option<CssSection>) -> Seq<char> {
    match css_config {
        Some(c) => match c.entry_point {
            Some(e) => match spec_validate_entry_point(e@) {
                Ok(v) => v,
                Err(_) => "main.css"@,
            },
            None => "main.css"@,
        },
        None => "main.css"@,
    }
}

/// The stylesheet entry point: the configured one when it is valid, else
/// `main.css`.
pub fn resolve_and_validate_entry_point(css_config: Option<&CssSection>) -> (r: String)
    ensures
        r@ == spec_entry_point(
            match css_config {
                Some(c) => Some(*c),
                None => None,
            },
        ),
{
    match css_config {
        Some(config) => match &config.entry_point {
            Some(entry_point) => match validate_css_entry_point(entry_point.as_str()) {
                Ok(validated) => validated,
                Err(_) => String::from_str("main.css"),
            },
            None => String::from_str("main.css"),
        },
        None => String::from_str("main.css"),
    }
}

/// The minimum browser versions a stylesheet is compiled for, each as
/// `major << 16 | minor << 8 | patch`.
#[derive(Clone, Copy, Debug, PartialEq, Eq, Structural)]
pub struct BrowserTargets {
    pub chrome: Option<u32>,
    pub firefox: Option<u32>,
    pub safari: Option<u32>,
    pub edge: Option<u32>,
}

/// A version part read as a number, 0 when it is not one.
pub open spec fn part_or_zero(p: Seq<char>) -> u32 {
    match spec_parse_u32(p) {
        Some(v) => v,
        None => 0,
    }
}

/// A browser version such as `103` or `103.1.2` in the packed form: the
/// major version must be a number; a minor or patch part that is not one
/// counts as 0.
pub open spec fn spec_browser_version(s: Seq<char>) -> Option<u32> {
    let parts = split(s, "."@);
    match spec_parse_u32(parts[0]) {
        Some(major) => {
            let minor = if parts.len() > 1 {
                part_or_zero(parts[1])
            } else {
                0u32
            };
            let patch = if parts.len() > 2 {
                part_or_zero(parts[2])
            } else {
                0u32
            };
            Some((major << 16u32) | (minor << 8u32) | patch)
        },
        None => None,
    }
}

/// A browser version in the packed form, if its major version is a number.
pub fn parse_browser_version(version: &str) -> (r: Option<u32>)
    ensures
        r == spec_browser_version(version@),
{
    proof {
        reveal_strlit(".");
        crate::text::lemma_split_nonempty(version@, "."@);
    }
    let chars = crate::text::chars_of(version);
    let dot: [char; 1] = ['.'];
    assert(dot@ =~= "."@);
    let parts = crate::text::split_chars(chars.as_slice(), dot.as_slice());
    let first = crate::text::string_of(parts[0].as_slice());
    let major = match crate::text::parse_u32(first.as_str()) {
        Some(m) => m,
        None => return None,
    };
    let minor: u32 = if parts.len() > 1 {
        let s = crate::text::string_of(parts[1].as_slice());
        match crate::text::parse_u32(s.as_str()) {
            Some(v) => v,
            None => 0,
        }
    } else {
        0
    };
    let patch: u32 = if parts.len() > 2 {
        let s = crate::text::string_of(parts[2].as_slice());
        match crate::text::parse_u32(s.as_str()) {
            Some(v) => v,
            None => 0,
        }
    } else {
        0
    };
    Some((major << 16u32) | (minor << 8u32) | patch)
}

/// The targets used when none are configured: Chrome 103, Firefox 115,
/// Safari 15 and Edge 127.
pub open spec fn spec_default_targets() -> BrowserTargets {
    BrowserTargets {
        chrome: Some(103u32 << 16u32),
        firefox: Some(115u32 << 16u32),
        safari: Some(15u32 << 16u32),
        edge: Some(127u32 << 16u32),
    }
}

/// The targets used when none are configured.
pub fn get_default_browser_targets() -> (r: BrowserTargets)
    ensures
        r == spec_default_targets(),
{
    BrowserTargets {
        chrome: Some(103u32 << 16u32),
        firefox: Some(115u32 << 16u32),
        safari: Some(15u32 << 16u32),
        edge: Some(127u32 << 16u32),
    }
}

/// A configured version, when it is given and readable.
pub open spec fn configured_version(v: Option<String>) -> Option<u32> {
    match v {
        Some(s) => spec_browser_version(s@),
        None => None,
    }
}

/// The targets of a `[css.targets]` section: the default targets when a
/// browserslist query is given; else the readable configured versions.
pub open spec fn spec_css_targets(t: CssTargets) -> BrowserTargets {
    if t.browserslist is Some {
        spec_default_targets()
    } else {
        BrowserTargets {
            chrome: configured_version(t.chrome),
            firefox: configured_version(t.firefox),
            safari: configured_version(t.safari),
            edge: configured_version(t.edge),
        }
    }
}

/// A configured version read into the packed form.
fn read_version(v: &Option<String>) -> (r: Option<u32>)
    ensures
        r == configured_version(*v),
{
    match v {
        Some(s) => parse_browser_version(s.as_str()),
        None => None,
    }
}

/// The targets of a `[css.targets]` section.
pub fn parse_css_targets(css_targets: &CssTargets) -> (r: BrowserTargets)
    ensures
        r == spec_css_targets(*css_targets),
{
    let chrome = read_version(&css_targets.chrome);
    let firefox = read_version(&css_targets.firefox);
    let safari = read_version(&css_targets.safari);
    let edge = read_version(&css_targets.edge);
    if css_targets.browserslist.is_some() {
        return get_default_browser_targets();
    }
    BrowserTargets { chrome, firefox, safari, edge }
}

/// The stage of stylesheet processing that failed, with the processor's
/// message.
pub enum CssStageError {
    Parse(String),
    Minify(String),
    Print(String),
}

/// The stylesheet that Lightning CSS prints for the text (parsed with the
/// file name, minified for the targets and printed minified); the failing
/// stage otherwise.
pub uninterp spec fn lightning_minified(content: Seq<char>, filename: Seq<char>, targets: BrowserTargets) -> Result<Seq<char>, CssStageError>;

/// The stylesheet that Lightning CSS prints for the text (parsed with the
/// file name, printed for the targets without minifying); the failing stage
/// otherwise.
pub uninterp spec fn lightning_printed(content: Seq<char>, filename: Seq<char>, targets: BrowserTargets) -> Result<Seq<char>, CssStageError>;

/// The view of a processing outcome.
pub open spec fn css_outcome_view(r: Result<String, CssStageError>) -> Result<Seq<char>, CssStageError> {
    match r {
        Ok(s) => Ok(s@),
        Err(e) => Err(e),
    }
}

#[verifier::external_type_specification]
#[verifier::external_body]
pub struct ExLightningTargets(lightningcss::targets::Targets);

/// Lightning CSS targets for the given browser versions.
#[verifier::external_body]
fn lightning_targets(t: &BrowserTargets) -> lightningcss::targets::Targets {
    lightningcss::targets::Targets::from(lightningcss::targets::Browsers {
        chrome: t.chrome,
        firefox: t.firefox,
        safari: t.safari,
        edge: t.edge,
        ..lightningcss::targets::Browsers::default()
    })
}

/// Parses, minifies and prints a stylesheet with Lightning CSS
/// (`StyleSheet::parse`, `minify`, `to_css` with `minify: true`).
///
/// Claimed of the crate: the outcome is its named answer for these
/// arguments.
#[verifier::external_body]
fn css_minify_print(content: &str, filename: &str, targets: &BrowserTargets) -> (r: Result<String, CssStageError>)
    ensures
        css_outcome_view(r) == lightning_minified(content@, filename@, *targets),
{
    let t = lightning_targets(targets);
    let options = lightningcss::stylesheet::ParserOptions { filename: filename.to_string(), ..Default::default() };
    let mut sheet = lightningcss::stylesheet::StyleSheet::parse(content, options).map_err(|e| CssStageError::Parse(e.to_string()))?;
    let minify = lightningcss::stylesheet::MinifyOptions { targets: t, unused_symbols: Default::default() };
    sheet.minify(minify).map_err(|e| CssStageError::Minify(e.to_string()))?;
    let printer = lightningcss::stylesheet::PrinterOptions { minify: true, targets: t, ..Default::default() };
    sheet.to_css(printer).map(|out| out.code).map_err(|e| CssStageError::Print(e.to_string()))
}

/// Parses and prints a stylesheet with Lightning CSS (`StyleSheet::parse`,
/// `to_css` with `minify: false`).
///
/// Claimed of the crate: the outcome is its named answer for these
/// arguments.
#[verifier::external_body]
fn css_print(content: &str, filename: &str, targets: &BrowserTargets) -> (r: Result<String, CssStageError>)
    ensures
        css_outcome_view(r) == lightning_printed(content@, filename@, *targets),
{
    let t = lightning_targets(targets);
    let options = lightningcss::stylesheet::ParserOptions { filename: filename.to_string(), ..Default::default() };
    let sheet = lightningcss::stylesheet::StyleSheet::parse(content, options).map_err(|e| CssStageError::Parse(e.to_string()))?;
    let printer = lightningcss::stylesheet::PrinterOptions { minify: false, targets: t, ..Default::default() };
    sheet.to_css(printer).map(|out| out.code).map_err(|e| CssStageError::Print(e.to_string()))
}

/// Settings for processing stylesheets.
#[derive(Clone, Copy, Debug)]
pub struct CssProcessor {
    pub minify: bool,
    pub targets: BrowserTargets,
    pub enable_css_modules: bool,
    pub source_maps: bool,
    pub remove_unused: bool,
    pub nesting: bool,
}

/// A processing failure, with the message the site generator reports.
pub open spec fn css_error_message(filename: Seq<char>, e: CssStageError) -> Seq<char> {
    match e {
        CssStageError::Parse(d) => "Failed to parse CSS content from "@ + filename + ": "@ + d@,
        CssStageError::Minify(d) => "Failed to minify CSS: "@ + d@,
        CssStageError::Print(d) => "Failed to serialize CSS from "@ + filename + ": "@ + d@,
    }
}

impl Default for CssProcessor {
    fn default() -> (r: Self)
        ensures
            r.minify,
            r.targets == spec_default_targets(),
            !r.enable_css_modules,
            !r.source_maps,
            !r.remove_unused,
            r.nesting,
    {
        Self::new()
    }
}

impl CssProcessor {
    /// Minified output for the default targets, with nesting and nothing else.
    pub fn new() -> (r: Self)
        ensures
            r.minify,
            r.targets == spec_default_targets(),
            !r.enable_css_modules,
            !r.source_maps,
            !r.remove_unused,
            r.nesting,
    {
        CssProcessor {
            minify: true,
            targets: get_default_browser_targets(),
            enable_css_modules: false,
            source_maps: false,
            remove_unused: false,
            nesting: true,
        }
    }

    /// The settings of a `[css]` section: each unset setting takes its
    /// default (minify outside development, source maps in development, no
    /// unused-rule removal, nesting, the default targets); development mode
    /// always turns minification off and source maps on.
    pub fn from_config(css_config: &CssSection, is_development: bool) -> (r: Self)
        ensures
            r.minify == (!is_development && match css_config.minify {
                Some(m) => m,
                None => true,
            }),
            r.source_maps == (is_development || match css_config.source_maps {
                Some(s) => s,
                None => false,
            }),
            r.remove_unused == match css_config.remove_unused {
                Some(u) => u,
                None => false,
            },
            r.nesting == match css_config.nesting {
                Some(n) => n,
                None => true,
            },
            r.targets == match css_config.targets {
                Some(t) => spec_css_targets(t),
                None => spec_default_targets(),
            },
            !r.enable_css_modules,
    {
        let minify = match css_config.minify {
            Some(m) => m,
            None => !is_development,
        };
        let targets = match &css_config.targets {
            Some(t) => parse_css_targets(t),
            None => get_default_browser_targets(),
        };
        let source_maps = match css_config.source_maps {
            Some(s) => s,
            None => is_development,
        };
        let remove_unused = match css_config.remove_unused {
            Some(u) => u,
            None => false,
        };
        let nesting = match css_config.nesting {
            Some(n) => n,
            None => true,
        };
        let mut processor = CssProcessor {
            minify,
            targets,
            enable_css_modules: false,
            source_maps,
            remove_unused,
            nesting,
        };
        if is_development {
            processor.minify = false;
            processor.source_maps = true;
        }
        processor
    }

    /// The settings with minification set to `minify`.
    pub fn with_minify(self, minify: bool) -> (r: Self)
        ensures
            r == (CssProcessor { minify, ..self }),
    {
        CssProcessor { minify, ..self }
    }

    /// The settings with the given targets.
    pub fn with_targets(self, targets: BrowserTargets) -> (r: Self)
        ensures
            r == (CssProcessor { targets, ..self }),
    {
        CssProcessor { targets, ..self }
    }

    /// The settings with CSS modules turned on or off.
    pub fn with_css_modules(self, enable: bool) -> (r: Self)
        ensures
            r == (CssProcessor { enable_css_modules: enable, ..self }),
    {
        CssProcessor { enable_css_modules: enable, ..self }
    }

    /// The settings with source maps turned on or off.
    pub fn with_source_maps(self, enable: bool) -> (r: Self)
        ensures
            r == (CssProcessor { source_maps: enable, ..self }),
    {
        CssProcessor { source_maps: enable, ..self }
    }

    /// The settings with unused-rule removal turned on or off.
    pub fn with_remove_unused(self, enable: bool) -> (r: Self)
        ensures
            r == (CssProcessor { remove_unused: enable, ..self }),
    {
        CssProcessor { remove_unused: enable, ..self }
    }

    /// The settings with nesting turned on or off.
    pub fn with_nesting(self, enable: bool) -> (r: Self)
        ensures
            r == (CssProcessor { nesting: enable, ..self }),
    {
        CssProcessor { nesting: enable, ..self }
    }

    /// A stylesheet processed with these settings: minified or just printed
    /// for the targets; a failure carries the generator's message.
    pub fn process_css_string(&self, content: &str, filename: &str) -> (r: Result<String, String>)
        ensures
            ({
                let outcome = if self.minify {
                    lightning_minified(content@, filename@, self.targets)
                } else {
                    lightning_printed(content@, filename@, self.targets)
                };
                match outcome {
                    Ok(css) => r matches Ok(s) && s@ == css,
                    Err(e) => r matches Err(m) && m@ == css_error_message(filename@, e),
                }
            }),
    {
        let outcome = if self.minify {
            css_minify_print(content, filename, &self.targets)
        } else {
            css_print(content, filename, &self.targets)
        };
        match outcome {
            Ok(css) => Ok(css),
            Err(CssStageError::Parse(d)) => Err(
                String::from_str("Failed to parse CSS content from ").concat(filename).concat(
                    ": ",
                ).concat(d.as_str()),
            ),
            Err(CssStageError::Minify(d)) => Err(
                String::from_str("Failed to minify CSS: ").concat(d.as_str()),
            ),
            Err(CssStageError::Print(d)) => Err(
                String::from_str("Failed to serialize CSS from ").concat(filename).concat(
                    ": ",
                ).concat(d.as_str()),
            ),
        }
    }
}

/// Where the site's stylesheet comes from.
pub enum CssSource {
    /// Bundle this entry file of the user's styles directory.
    User { entry_path: String },
    /// Bundle this entry point of the built-in styles.
    Embedded { entry_point: String },
    /// Neither can be used; the message says why.
    Unavailable { message: String },
}

/// The message for an entry point configured without a styles directory.
pub open spec fn missing_styles_dir_message(entry_point: Seq<char>, styles_dir: Seq<char>) -> Seq<char> {
    "CSS entry point '"@ + entry_point + "' is configured but no styles directory exists at '"@
        + styles_dir
        + "'.\nFix: either create the styles directory with the entry point file, or remove the 'entry_point' configuration to use embedded styles."@
}

/// Produces the site's stylesheet from a styles directory or the built-in
/// styles.
pub struct StyleManager {
    pub styles_dir: String,
    pub css_processor: CssProcessor,
    pub is_development: bool,
}

impl StyleManager {
    /// A production manager with the default settings.
    pub fn new(styles_dir: &str) -> (r: Self)
        ensures
            r.styles_dir@ == styles_dir@,
            r.css_processor.minify,
            !r.css_processor.source_maps,
            !r.is_development,
    {
        Self::new_with_config(styles_dir, None, false)
    }

    /// A development manager: no minification, source maps on.
    pub fn new_development(styles_dir: &str) -> (r: Self)
        ensures
            r.styles_dir@ == styles_dir@,
            !r.css_processor.minify,
            r.css_processor.source_maps,
            r.is_development,
    {
        Self::new_with_config(styles_dir, None, true)
    }

    /// A manager with the settings of the `[css]` section, or the defaults
    /// adjusted for development mode.
    pub fn new_with_config(styles_dir: &str, css_config: Option<&CssSection>, is_development: bool) -> (r:
        Self)
        ensures
            r.styles_dir@ == styles_dir@,
            r.is_development == is_development,
            css_config is None ==> r.css_processor.minify == !is_development
                && r.css_processor.source_maps == is_development && r.css_processor.targets
                == spec_default_targets() && r.css_processor.nesting
                && !r.css_processor.remove_unused,
            css_config matches Some(c) ==> r.css_processor.minify == (!is_development
                && match c.minify {
                Some(m) => m,
                None => true,
            }),
    {
        let css_processor = match css_config {
            Some(config) => CssProcessor::from_config(config, is_development),
            None => {
                let processor = CssProcessor::new();
                if is_development {
                    processor.with_minify(false).with_source_maps(true)
                } else {
                    processor
                }
            },
        };
        StyleManager { styles_dir: crate::text::copy_str(styles_dir), css_processor, is_development }
    }

    /// A manager with the given processing settings.
    pub fn with_processor(styles_dir: &str, css_processor: CssProcessor, is_development: bool) -> (r:
        Self)
        ensures
            r.styles_dir@ == styles_dir@,
            r.css_processor == css_processor,
            r.is_development == is_development,
    {
        StyleManager { styles_dir: crate::text::copy_str(styles_dir), css_processor, is_development }
    }

    /// Where the site's stylesheet comes from: the entry file of the styles
    /// directory when the directory exists; an error when an entry point is
    /// configured but there is no styles directory; else the built-in styles.
    pub fn css_source(&self, css_config: Option<&CssSection>, styles_dir_exists: bool) -> (r: CssSource)
        ensures
            ({
                let cfg = match css_config {
                    Some(c) => Some(*c),
                    None => None,
                };
                let entry = spec_entry_point(cfg);
                let explicit = cfg matches Some(c) && c.entry_point is Some;
                &&& styles_dir_exists ==> (r matches CssSource::User { entry_path } && entry_path@
                    == path_join(self.styles_dir@, entry))
                &&& !styles_dir_exists && explicit ==> (r matches CssSource::Unavailable { message }
                    && message@ == missing_styles_dir_message(entry, self.styles_dir@))
                &&& !styles_dir_exists && !explicit ==> (r matches CssSource::Embedded { entry_point }
                    && entry_point@ == entry)
            }),
    {
        let entry_point = resolve_and_validate_entry_point(css_config);
        let has_explicit_entry_point = match css_config {
            Some(config) => config.entry_point.is_some(),
            None => false,
        };
        if styles_dir_exists {
            CssSource::User { entry_path: crate::path::join(self.styles_dir.as_str(), entry_point.as_str()) }
        } else if has_explicit_entry_point {
            let message = String::from_str("CSS entry point '").concat(entry_point.as_str()).concat(
                "' is configured but no styles directory exists at '",
            ).concat(self.styles_dir.as_str()).concat(
                "'.\nFix: either create the styles directory with the entry point file, or remove the 'entry_point' configuration to use embedded styles.",
            );
            CssSource::Unavailable { message }
        } else {
            CssSource::Embedded { entry_point }
        }
    }

    /// Where the site's stylesheet is written: `css/main.css` under
    /// `output_dir`.
    pub fn css_output_path(output_dir: &str) -> (r: String)
        ensures
            r@ == path_join(path_join(output_dir@, "css"@), "main.css"@),
    {
        let css_dir = crate::path::join(output_dir, "css");
        crate::path::join(css_dir.as_str(), "main.css")
    }
}

} // verus!
