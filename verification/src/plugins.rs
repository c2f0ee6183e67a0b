//! Content parsers for formats other than Markdown, and the registry that
//! picks one by file extension.
use vstd::prelude::*;
use crate::content::frontmatter::Frontmatter;
use crate::path::path_extension;

verus! {

/// A parser for one content format, implemented by users of the library.
pub trait ContentParser {
    /// The parser's name.
    fn name(&self) -> &'static str;

    /// Parses one file's text; `path` is the file's path.
    fn parse(&self, content: &str, path: &str) -> Result<ParsedContent, String>;
}

/// What a content parser produces.
pub struct ParsedContent {
    pub title: String,
    pub frontmatter: Frontmatter,
    pub content: String,
    pub metadata: Vec<(String, String)>,
}

/// Why no parser could be found for a file.
#[derive(Debug, PartialEq, Eq)]
pub enum RegistryError {
    /// The path has no extension.
    NoExtension(String),
    /// The extension is mapped to a parser name that is not registered.
    ParserNotFound(String),
    /// No parser is mapped to the extension.
    NoParserForExtension(String),
}

impl RegistryError {
    /// A human-readable description of the error.
    pub fn message(&self) -> (r: String)
        ensures
            self matches RegistryError::NoExtension(p) ==> r@ == "File has no extension: "@ + p@,
            self matches RegistryError::ParserNotFound(n) ==> r@ == "Parser '"@ + n@
                + "' not found"@,
            self matches RegistryError::NoParserForExtension(e) ==> r@
                == "No parser registered for ."@ + e@ + " files"@,
    {
        match self {
            RegistryError::NoExtension(p) => String::from_str("File has no extension: ").concat(
                p.as_str(),
            ),
            RegistryError::ParserNotFound(n) => String::from_str("Parser '").concat(
                n.as_str(),
            ).concat("' not found"),
            RegistryError::NoParserForExtension(e) => String::from_str(
                "No parser registered for .",
            ).concat(e.as_str()).concat(" files"),
        }
    }
}

/// A parser together with the name it is registered under.
pub struct RegisteredParser<P> {
    pub name: String,
    pub parser: P,
}

impl<P> RegisteredParser<P> {
    /// `parser` under the name `name`.
    pub fn new(name: String, parser: P) -> (r: Self)
        ensures
            r.name == name,
            r.parser == parser,
    {
        RegisteredParser { name, parser }
    }
}

/// Content parsers by name, and the parser name each file extension maps to.
pub struct PluginRegistry {
    pub parsers: Vec<RegisteredParser<Box<dyn ContentParser>>>,
    pub extensions: Vec<(String, String)>,
}

/// The names of the registered parsers, in registration order.
pub open spec fn parser_names(parsers: Seq<RegisteredParser<Box<dyn ContentParser>>>) -> Seq<Seq<char>> {
    parsers.map_values(|p: RegisteredParser<Box<dyn ContentParser>>| p.name@)
}

/// The mapped extensions, in mapping order.
pub open spec fn extension_keys(exts: Seq<(String, String)>) -> Seq<Seq<char>> {
    exts.map_values(|e: (String, String)| e.0@)
}

/// The parser name an extension maps to, if any.
pub open spec fn ext_lookup(exts: Seq<(String, String)>, ext: Seq<char>) -> Option<Seq<char>>
    decreases exts.len(),
{
    if exts.len() == 0 {
        None
    } else if exts.last().0@ == ext {
        Some(exts.last().1@)
    } else {
        ext_lookup(exts.drop_last(), ext)
    }
}

/// The index of the first parser registered under `name`, if any.
pub open spec fn parser_index(parsers: Seq<RegisteredParser<Box<dyn ContentParser>>>, name: Seq<char>) -> Option<int> {
    if exists|i: int| first_named(parsers, name, i) {
        Some(choose|i: int| first_named(parsers, name, i))
    } else {
        None
    }
}

/// `i` is the first index at which a parser is registered under `name`.
pub open spec fn first_named(parsers: Seq<RegisteredParser<Box<dyn ContentParser>>>, name: Seq<char>, i: int) -> bool {
    &&& 0 <= i < parsers.len()
    &&& parsers[i].name@ == name
    &&& forall|j: int| 0 <= j < i ==> parsers[j].name@ != name
}

/// No two entries share a key.
pub open spec fn keys_unique(keys: Seq<Seq<char>>) -> bool {
    forall|i: int, j: int| 0 <= i < j < keys.len() ==> keys[i] != keys[j]
}

/// The first index of a name is the one `parser_index` gives.
proof fn lemma_first_named_unique(parsers: Seq<RegisteredParser<Box<dyn ContentParser>>>, name: Seq<char>, i: int)
    requires
        first_named(parsers, name, i),
    ensures
        parser_index(parsers, name) == Some(i),
{
    let c = choose|c: int| first_named(parsers, name, c);
    assert(c == i) by {
        if c < i {
            assert(parsers[c].name@ != name);
        } else if c > i {
            assert(parsers[i].name@ != name);
        }
    }
}

/// Looking an extension up in mappings added after others finds the later
/// mapping first.
proof fn lemma_ext_lookup_append(a: Seq<(String, String)>, b: Seq<(String, String)>, e: Seq<char>)
    ensures
        ext_lookup(a + b, e) == match ext_lookup(b, e) {
            Some(x) => Some(x),
            None => ext_lookup(a, e),
        },
    decreases b.len(),
{
    if b.len() == 0 {
        assert(a + b =~= a);
    } else {
        assert((a + b).drop_last() =~= a + b.drop_last());
        assert((a + b).last() == b.last());
        lemma_ext_lookup_append(a, b.drop_last(), e);
    }
}

/// In mappings whose extensions are all different, each extension leads to
/// its own parser name.
proof fn lemma_ext_lookup_distinct(b: Seq<(String, String)>, k: int)
    requires
        0 <= k < b.len(),
        forall|i: int, j: int| 0 <= i < j < b.len() ==> b[i].0@ != b[j].0@,
    ensures
        ext_lookup(b, b[k].0@) == Some(b[k].1@),
    decreases b.len(),
{
    if k < b.len() - 1 {
        assert(b.last().0@ != b[k].0@);
        assert(b.drop_last()[k] == b[k]);
        lemma_ext_lookup_distinct(b.drop_last(), k);
    }
}

/// An extension that none of the mappings has is not found in them.
proof fn lemma_ext_lookup_absent(b: Seq<(String, String)>, e: Seq<char>)
    requires
        forall|i: int| 0 <= i < b.len() ==> b[i].0@ != e,
    ensures
        ext_lookup(b, e) is None,
    decreases b.len(),
{
    if b.len() > 0 {
        assert(b.last().0@ != e);
        lemma_ext_lookup_absent(b.drop_last(), e);
    }
}

/// The index of the parser that files with extension `e` are parsed with,
/// if any.
pub open spec fn parser_for_extension(registry: PluginRegistry, e: Seq<char>) -> Option<int> {
    match ext_lookup(registry.extensions@, e) {
        Some(n) => parser_index(registry.parsers@, n),
        None => None,
    }
}

/// A name that occurs among the registered parsers has a first occurrence.
proof fn lemma_first_named_exists(parsers: Seq<RegisteredParser<Box<dyn ContentParser>>>, name: Seq<char>, j: int)
    requires
        0 <= j < parsers.len(),
        parsers[j].name@ == name,
    ensures
        parser_index(parsers, name) is Some,
        first_named(parsers, name, parser_index(parsers, name)->0),
    decreases j,
{
    if forall|k: int| 0 <= k < j ==> parsers[k].name@ != name {
        assert(first_named(parsers, name, j));
    } else {
        let k = choose|k: int| 0 <= k < j && parsers[k].name@ == name;
        lemma_first_named_exists(parsers, name, k);
    }
}

/// The parser name an extension maps to is one of the mapped pairs.
proof fn lemma_ext_lookup_member(exts: Seq<(String, String)>, ext: Seq<char>)
    requires
        ext_lookup(exts, ext) is Some,
    ensures
        exists|i: int| 0 <= i < exts.len() && exts[i].1@ == ext_lookup(exts, ext)->0,
    decreases exts.len(),
{
    if exts.last().0@ == ext {
        assert(exts[exts.len() - 1].1@ == ext_lookup(exts, ext)->0);
    } else {
        lemma_ext_lookup_member(exts.drop_last(), ext);
        let i = choose|i: int|
            0 <= i < exts.drop_last().len() && exts.drop_last()[i].1@ == ext_lookup(
                exts.drop_last(),
                ext,
            )->0;
        assert(exts[i] == exts.drop_last()[i]);
    }
}

/// A registry made by `new` or `default` and changed only by
/// `register_parser`, `map_extensions` and `register` is well formed (each of
/// them keeps `wf`), and in a well-formed registry the supported extensions
/// and the parser names are each listed once.
pub proof fn law_supported_extensions_distinct(registry: PluginRegistry)
    requires
        registry.wf(),
    ensures
        forall|i: int, j: int|
            0 <= i < j < registry.extensions@.len() ==> registry.extensions@[i].0@ != registry.extensions@[j].0@,
        forall|i: int, j: int|
            0 <= i < j < registry.parsers@.len() ==> registry.parsers@[i].name@ != registry.parsers@[j].name@,
{
    assert forall|i: int, j: int| 0 <= i < j < registry.extensions@.len() implies registry.extensions@[i].0@
        != registry.extensions@[j].0@ by {
        assert(extension_keys(registry.extensions@)[i] == registry.extensions@[i].0@);
        assert(extension_keys(registry.extensions@)[j] == registry.extensions@[j].0@);
    }
    assert forall|i: int, j: int| 0 <= i < j < registry.parsers@.len() implies registry.parsers@[i].name@
        != registry.parsers@[j].name@ by {
        assert(parser_names(registry.parsers@)[i] == registry.parsers@[i].name@);
        assert(parser_names(registry.parsers@)[j] == registry.parsers@[j].name@);
    }
}

/// In a well-formed registry every mapped extension leads to a registered
/// parser: looking up a file whose extension is mapped never fails for want
/// of the parser.
pub proof fn law_mapped_extension_has_parser(registry: PluginRegistry, extension: Seq<char>)
    requires
        registry.wf(),
        ext_lookup(registry.extensions@, extension) is Some,
    ensures
        parser_index(registry.parsers@, ext_lookup(registry.extensions@, extension)->0) is Some,
{
    let name = ext_lookup(registry.extensions@, extension)->0;
    lemma_ext_lookup_member(registry.extensions@, extension);
    let i = choose|i: int|
        0 <= i < registry.extensions@.len() && registry.extensions@[i].1@ == name;
    assert(parser_names(registry.parsers@).contains(registry.extensions@[i].1@));
    let j = choose|j: int|
        0 <= j < parser_names(registry.parsers@).len() && parser_names(registry.parsers@)[j] == name;
    lemma_first_named_exists(registry.parsers@, name, j);
}

impl Default for PluginRegistry {
    /// An empty registry, as `new` gives.
    fn default() -> (r: Self)
        ensures
            r.wf(),
            r.parsers@.len() == 0,
            r.extensions@.len() == 0,
    {
        Self::new()
    }
}

impl PluginRegistry {
    /// Parser names and extensions are each registered at most once, and every
    /// extension maps to a registered parser.
    pub open spec fn wf(&self) -> bool {
        &&& keys_unique(parser_names(self.parsers@))
        &&& keys_unique(extension_keys(self.extensions@))
        &&& forall|i: int|
            0 <= i < self.extensions@.len() ==> parser_names(self.parsers@).contains(
                #[trigger] self.extensions@[i].1@,
            )
    }

    /// An empty registry.
    pub fn new() -> (r: Self)
        ensures
            r.wf(),
            r.parsers@.len() == 0,
            r.extensions@.len() == 0,
    {
        PluginRegistry { parsers: Vec::new(), extensions: Vec::new() }
    }

    /// Whether a parser is registered under `name`.
    pub fn has_parser(&self, name: &str) -> (r: bool)
        ensures
            r == parser_names(self.parsers@).contains(name@),
    {
        let mut i: usize = 0;
        while i < self.parsers.len()
            invariant
                i <= self.parsers@.len(),
                forall|j: int| 0 <= j < i ==> self.parsers@[j].name@ != name@,
            decreases self.parsers.len() - i,
        {
            if crate::text::str_eq(self.parsers[i].name.as_str(), name) {
                assert(parser_names(self.parsers@)[i as int] == name@);
                return true;
            }
            i = i + 1;
        }
        proof {
            if parser_names(self.parsers@).contains(name@) {
                let j = choose|j: int|
                    0 <= j < parser_names(self.parsers@).len() && parser_names(self.parsers@)[j]
                        == name@;
                assert(self.parsers@[j].name@ == name@);
            }
        }
        false
    }

    /// Whether `extension` is mapped to a parser.
    pub fn has_extension(&self, extension: &str) -> (r: bool)
        ensures
            r == extension_keys(self.extensions@).contains(extension@),
    {
        let mut i: usize = 0;
        while i < self.extensions.len()
            invariant
                i <= self.extensions@.len(),
                forall|j: int| 0 <= j < i ==> self.extensions@[j].0@ != extension@,
            decreases self.extensions.len() - i,
        {
            if crate::text::str_eq(self.extensions[i].0.as_str(), extension) {
                assert(extension_keys(self.extensions@)[i as int] == extension@);
                return true;
            }
            i = i + 1;
        }
        proof {
            if extension_keys(self.extensions@).contains(extension@) {
                let j = choose|j: int|
                    0 <= j < extension_keys(self.extensions@).len() && extension_keys(
                        self.extensions@,
                    )[j] == extension@;
                assert(self.extensions@[j].0@ == extension@);
            }
        }
        false
    }

    /// The registry with `entry` added, replacing the first entry under the
    /// same name.
    #[verifier::loop_isolation(false)]
    fn insert_entry(self, entry: RegisteredParser<Box<dyn ContentParser>>) -> (r: Self)
        ensures
            self.wf() ==> r.wf(),
            r.extensions@ == self.extensions@,
            parser_names(self.parsers@).contains(entry.name@) ==> parser_names(r.parsers@) == parser_names(
                self.parsers@,
            ),
            !parser_names(self.parsers@).contains(entry.name@) ==> parser_names(r.parsers@)
                == parser_names(self.parsers@).push(entry.name@),
            parser_names(r.parsers@).contains(entry.name@),
            parser_index(r.parsers@, entry.name@) matches Some(i) && r.parsers@[i].parser == entry.parser,
            forall|j: int|
                0 <= j < self.parsers@.len() && parser_index(r.parsers@, entry.name@) != Some(j)
                    ==> r.parsers@[j] == self.parsers@[j],
    {
        let ghost was_wf = self.wf();
        let PluginRegistry { mut parsers, extensions } = self;
        let ghost old_parsers = parsers@;
        let mut i: usize = 0;
        while i < parsers.len()
            invariant
                i <= parsers@.len(),
                parsers@ == old_parsers,
                forall|j: int| 0 <= j < i ==> old_parsers[j].name@ != entry.name@,
            decreases parsers.len() - i,
        {
            if crate::text::str_eq(parsers[i].name.as_str(), entry.name.as_str()) {
                parsers.set(i, entry);
                proof {
                    assert(parser_names(parsers@) =~= parser_names(old_parsers));
                    assert(parser_names(old_parsers)[i as int] == entry.name@);
                    assert(parser_names(parsers@)[i as int] == entry.name@);
                    assert(first_named(parsers@, entry.name@, i as int));
                    lemma_first_named_unique(parsers@, entry.name@, i as int);
                }
                return PluginRegistry { parsers, extensions };
            }
            i = i + 1;
        }
        parsers.push(entry);
        proof {
            assert(parser_names(parsers@) =~= parser_names(old_parsers).push(entry.name@));
            assert(!parser_names(old_parsers).contains(entry.name@)) by {
                if parser_names(old_parsers).contains(entry.name@) {
                    let j = choose|j: int|
                        0 <= j < parser_names(old_parsers).len() && parser_names(old_parsers)[j]
                            == entry.name@;
                    assert(old_parsers[j].name@ == entry.name@);
                }
            }
            let last = parsers@.len() - 1;
            assert(parsers@[last].name@ == entry.name@);
            assert(parser_names(parsers@)[last] == entry.name@);
            assert forall|j: int| 0 <= j < last implies parsers@[j].name@ != entry.name@ by {
                assert(parsers@[j] == old_parsers[j]);
            }
            assert(first_named(parsers@, entry.name@, last));
            lemma_first_named_unique(parsers@, entry.name@, last);
            if was_wf {
            assert forall|k: int|
                0 <= k < extensions@.len() implies parser_names(parsers@).contains(
                #[trigger] extensions@[k].1@,
            ) by {
                let n = extensions@[k].1@;
                assert(parser_names(old_parsers).contains(n));
                let j = choose|j: int|
                    0 <= j < parser_names(old_parsers).len() && parser_names(old_parsers)[j] == n;
                assert(parser_names(parsers@)[j] == n);
            }
            }
        }
        PluginRegistry { parsers, extensions }
    }

    /// The registry with `parser` registered under `name`, replacing any parser
    /// registered under that name.
    pub fn register_parser(self, name: &str, parser: Box<dyn ContentParser>) -> (r: Self)
        ensures
            self.wf() ==> r.wf(),
            r.extensions@ == self.extensions@,
            parser_names(self.parsers@).contains(name@) ==> parser_names(r.parsers@) == parser_names(
                self.parsers@,
            ),
            !parser_names(self.parsers@).contains(name@) ==> parser_names(r.parsers@)
                == parser_names(self.parsers@).push(name@),
            parser_names(r.parsers@).contains(name@),
            parser_index(r.parsers@, name@) matches Some(i) && r.parsers@[i].parser == parser,
            forall|j: int|
                0 <= j < self.parsers@.len() && parser_index(r.parsers@, name@) != Some(j)
                    ==> r.parsers@[j] == self.parsers@[j],
    {
        let entry = RegisteredParser::new(crate::text::copy_str(name), parser);
        self.insert_entry(entry)
    }

    /// The registry with each `(extension, parser name)` mapping added.
    ///
    /// Each parser name must be registered, and no extension may be mapped
    /// already or twice in `mappings` (the mapping panics otherwise).
    pub fn map_extensions(self, mappings: &[(&str, &str)]) -> (r: Self)
        requires
            forall|i: int|
                0 <= i < mappings@.len() ==> parser_names(self.parsers@).contains(
                    #[trigger] mappings@[i].1@,
                ),
            forall|i: int|
                0 <= i < mappings@.len() ==> !extension_keys(self.extensions@).contains(
                    #[trigger] mappings@[i].0@,
                ),
            forall|i: int, j: int| 0 <= i < j < mappings@.len() ==> mappings@[i].0@ != mappings@[j].0@,
        ensures
            self.wf() ==> r.wf(),
            r.parsers@ == self.parsers@,
            r.extensions@.len() == self.extensions@.len() + mappings@.len(),
            r.extensions@.take(self.extensions@.len() as int) == self.extensions@,
            forall|i: int|
                0 <= i < mappings@.len() ==> (#[trigger] r.extensions@[self.extensions@.len() + i]).0@
                    == mappings@[i].0@ && r.extensions@[self.extensions@.len() + i].1@ == mappings@[i].1@,
            forall|i: int|
                0 <= i < mappings@.len() ==> ext_lookup(r.extensions@, #[trigger] mappings@[i].0@)
                    == Some(mappings@[i].1@),
            forall|e: Seq<char>|
                (forall|i: int| 0 <= i < mappings@.len() ==> mappings@[i].0@ != e) ==> #[trigger] ext_lookup(
                    r.extensions@,
                    e,
                ) == ext_lookup(self.extensions@, e),
    {
        let ghost was_wf = self.wf();
        let PluginRegistry { parsers, mut extensions } = self;
        let ghost old_exts = extensions@;
        let mut i: usize = 0;
        while i < mappings.len()
            invariant
                i <= mappings@.len(),
                was_wf ==> keys_unique(parser_names(parsers@)),
                forall|k: int|
                    0 <= k < mappings@.len() ==> parser_names(parsers@).contains(
                        #[trigger] mappings@[k].1@,
                    ),
                forall|k: int|
                    0 <= k < mappings@.len() ==> !extension_keys(old_exts).contains(
                        #[trigger] mappings@[k].0@,
                    ),
                forall|a: int, b: int|
                    0 <= a < b < mappings@.len() ==> mappings@[a].0@ != mappings@[b].0@,
                was_wf ==> keys_unique(extension_keys(old_exts)),
                was_wf ==> forall|k: int|
                    0 <= k < old_exts.len() ==> parser_names(parsers@).contains(
                        #[trigger] old_exts[k].1@,
                    ),
                extensions@.len() == old_exts.len() + i,
                extensions@.take(old_exts.len() as int) == old_exts,
                forall|k: int|
                    0 <= k < i ==> (#[trigger] extensions@[old_exts.len() + k]).0@
                        == mappings@[k].0@ && extensions@[old_exts.len() + k].1@
                        == mappings@[k].1@,
            decreases mappings.len() - i,
        {
            let (extension, parser_name) = mappings[i];
            extensions.push((crate::text::copy_str(extension), crate::text::copy_str(parser_name)));
            proof {
                assert(extensions@.take(old_exts.len() as int) =~= old_exts) by {
                    assert forall|k: int| 0 <= k < old_exts.len() implies extensions@[k]
                        == old_exts[k] by {
                        assert(extensions@.drop_last().take(old_exts.len() as int)[k]
                            == old_exts[k]);
                    }
                }
            }
            i = i + 1;
        }
        proof {
            let n = old_exts.len() as int;
            let added = extensions@.skip(n);
            assert(extensions@ =~= old_exts + added);
            assert forall|a: int, b: int| 0 <= a < b < added.len() implies added[a].0@ != added[b].0@ by {
                assert(added[a] == extensions@[n + a]);
                assert(added[b] == extensions@[n + b]);
            }
            assert forall|i: int| 0 <= i < mappings@.len() implies ext_lookup(
                extensions@,
                #[trigger] mappings@[i].0@,
            ) == Some(mappings@[i].1@) by {
                assert(added[i] == extensions@[n + i]);
                lemma_ext_lookup_distinct(added, i);
                lemma_ext_lookup_append(old_exts, added, mappings@[i].0@);
            }
            assert forall|e: Seq<char>|
                (forall|i: int| 0 <= i < mappings@.len() ==> mappings@[i].0@ != e) implies #[trigger] ext_lookup(
                extensions@,
                e,
            ) == ext_lookup(old_exts, e) by {
                assert forall|i: int| 0 <= i < added.len() implies added[i].0@ != e by {
                    assert(added[i] == extensions@[n + i]);
                }
                lemma_ext_lookup_absent(added, e);
                lemma_ext_lookup_append(old_exts, added, e);
            }
        }
        proof {
        if was_wf {
            let n = old_exts.len();
            let exts = extensions@;
            assert forall|a: int, b: int|
                0 <= a < b < extension_keys(exts).len() implies extension_keys(exts)[a]
                != extension_keys(exts)[b] by {
                if b < n {
                    assert(exts[a] == old_exts[a]);
                    assert(exts[b] == old_exts[b]);
                    assert(extension_keys(old_exts)[a] != extension_keys(old_exts)[b]);
                } else if a < n {
                    assert(exts[a] == old_exts[a]);
                    assert(exts[n + (b - n)].0@ == mappings@[b - n].0@);
                    assert(extension_keys(old_exts)[a] == exts[a].0@);
                } else {
                    assert(exts[n + (a - n)].0@ == mappings@[a - n].0@);
                    assert(exts[n + (b - n)].0@ == mappings@[b - n].0@);
                }
            }
            assert forall|k: int|
                0 <= k < exts.len() implies parser_names(parsers@).contains(
                #[trigger] exts[k].1@,
            ) by {
                if k < n {
                    assert(exts[k] == old_exts[k]);
                } else {
                    assert(exts[n + (k - n)].1@ == mappings@[k - n].1@);
                }
            }
        }
        }
        PluginRegistry { parsers, extensions }
    }

    /// The registry with `parser` registered under `name` and `extension`
    /// mapped to it; `extension` must not be mapped already.
    pub fn register(self, name: &str, parser: Box<dyn ContentParser>, extension: &str) -> (r: Self)
        requires
            !extension_keys(self.extensions@).contains(extension@),
        ensures
            self.wf() ==> r.wf(),
            ext_lookup(r.extensions@, extension@) == Some(name@),
            parser_names(r.parsers@).contains(name@),
            parser_for_extension(r, extension@) matches Some(i) && r.parsers@[i].parser == parser,
    {
        let entry = RegisteredParser::new(crate::text::copy_str(name), parser);
        let registered = self.insert_entry(entry);
        let mappings: [(&str, &str); 1] = [(extension, name)];
        let r = registered.map_extensions(mappings.as_slice());
        proof {
            let n: int = registered.extensions@.len() as int;
            assert(r.extensions@[n + 0].0@ == extension@);
            assert(r.extensions@.last() == r.extensions@[n + 0]);
            assert(ext_lookup(r.extensions@, extension@) == Some(name@));
            assert(r.parsers@ == registered.parsers@);
            assert(parser_for_extension(r, extension@) == parser_index(registered.parsers@, name@));
        }
        r
    }

    /// The parser name an extension maps to.
    fn lookup_extension(&self, extension: &str) -> (r: Option<&String>)
        ensures
            r is Some <==> ext_lookup(self.extensions@, extension@) is Some,
            r matches Some(n) ==> ext_lookup(self.extensions@, extension@) == Some(n@),
    {
        let mut k: usize = self.extensions.len();
        proof {
            assert(self.extensions@.take(k as int) =~= self.extensions@);
        }
        while k > 0
            invariant
                k <= self.extensions@.len(),
                ext_lookup(self.extensions@, extension@) == ext_lookup(
                    self.extensions@.take(k as int),
                    extension@,
                ),
            decreases k,
        {
            proof {
                assert(self.extensions@.take(k as int).drop_last() =~= self.extensions@.take(
                    k - 1,
                ));
            }
            if crate::text::str_eq(self.extensions[k - 1].0.as_str(), extension) {
                return Some(&self.extensions[k - 1].1);
            }
            k = k - 1;
        }
        None
    }

    /// The parser registered for a file's extension.
    #[verifier::loop_isolation(false)]
    pub fn find_parser(&self, path: &str) -> (r: Result<&Box<dyn ContentParser>, RegistryError>)
        ensures
            match path_extension(path@) {
                None => r matches Err(RegistryError::NoExtension(p)) && p@ == path@,
                Some(e) => match ext_lookup(self.extensions@, e) {
                    None => r matches Err(RegistryError::NoParserForExtension(x)) && x@ == e,
                    Some(n) => match parser_index(self.parsers@, n) {
                        None => r matches Err(RegistryError::ParserNotFound(x)) && x@ == n,
                        Some(i) => r matches Ok(p) && *p == self.parsers@[i].parser,
                    },
                },
            },
    {
        let extension = match crate::path::extension(path) {
            Some(e) => e,
            None => return Err(RegistryError::NoExtension(crate::text::copy_str(path))),
        };
        match self.lookup_extension(extension.as_str()) {
            Some(parser_name) => {
                let mut i: usize = 0;
                while i < self.parsers.len()
                    invariant
                        i <= self.parsers@.len(),
                        forall|j: int| 0 <= j < i ==> self.parsers@[j].name@ != parser_name@,
                    decreases self.parsers.len() - i,
                {
                    if crate::text::str_eq(self.parsers[i].name.as_str(), parser_name.as_str()) {
                        proof {
                            assert(first_named(self.parsers@, parser_name@, i as int));
                            let c = choose|c: int| first_named(self.parsers@, parser_name@, c);
                            assert(c == i) by {
                                if c < i {
                                    assert(self.parsers@[c].name@ != parser_name@);
                                } else if c > i {
                                    assert(self.parsers@[i as int].name@ != parser_name@);
                                }
                            }
                        }
                        return Ok(&self.parsers[i].parser);
                    }
                    i = i + 1;
                }
                Err(RegistryError::ParserNotFound(parser_name.clone()))
            },
            None => Err(RegistryError::NoParserForExtension(extension)),
        }
    }

    /// The mapped extensions, in mapping order.
    pub fn supported_extensions(&self) -> (r: Vec<String>)
        ensures
            r@.len() == self.extensions@.len(),
            forall|i: int| 0 <= i < r@.len() ==> #[trigger] r@[i]@ == self.extensions@[i].0@,
    {
        let mut r: Vec<String> = Vec::new();
        let mut i: usize = 0;
        while i < self.extensions.len()
            invariant
                i <= self.extensions@.len(),
                r@.len() == i,
                forall|k: int| 0 <= k < i ==> #[trigger] r@[k]@ == self.extensions@[k].0@,
            decreases self.extensions.len() - i,
        {
            r.push(self.extensions[i].0.clone());
            i = i + 1;
        }
        r
    }
}

} // verus!
