//! The command-line front ends: their settings and their help text.
use vstd::prelude::*;
use crate::plugins::PluginRegistry;
use crate::templates::registry::TemplateRegistry;

verus! {

/// A command-line program with its own name and description.
pub struct SherwoodCli {
    pub name: String,
    pub about: String,
    pub plugin_registry: Option<PluginRegistry>,
}

/// The help text of a program named `name`, described by `about`, at
/// `version`.
pub open spec fn spec_help_text(name: Seq<char>, about: Seq<char>, version: Seq<char>) -> Seq<char> {
    name + " "@ + version + "\n"@ + about + "\n\n"@ + "Usage: "@ + name + " [COMMAND] [OPTIONS]\n\n"@
        + "Commands:\n"@ + "  generate    Generate a static site from Markdown content\n"@
        + "  dev         Start a development server for a Sherwood static site\n\n"@ + "Options:\n"@
        + "  -i, --input <DIR>     Input directory containing Markdown files [default: content]\n"@
        + "  -o, --output <DIR>    Output directory for generated site [default: dist]\n"@
        + "  -p, --port <PORT>     Port for development server [default: 3000]\n"@
        + "  -h, --help            Print help\n\n"@ + "Examples:\n"@ + "  "@ + name + " generate\n"@
        + "  "@ + name + " generate -i content -o dist\n"@ + "  "@ + name + " dev -p 8080\n"@
}

/// Whether one of the arguments asks for help.
pub open spec fn spec_wants_help(args: Seq<Seq<char>>) -> bool {
    exists|i: int| 0 <= i < args.len() && (args[i] == "--help"@ || args[i] == "-h"@)
}

impl SherwoodCli {
    /// A program named `name`, described by `about`, with no parser registry.
    pub fn new(name: &str, about: &str) -> (r: Self)
        ensures
            r.name@ == name@,
            r.about@ == about@,
            r.plugin_registry is None,
    {
        SherwoodCli {
            name: crate::text::copy_str(name),
            about: crate::text::copy_str(about),
            plugin_registry: None,
        }
    }

    /// The program named `sherwood` with its usual description.
    pub fn with_defaults() -> (r: Self)
        ensures
            r.name@ == "sherwood"@,
            r.about@ == "A static site generator for Markdown content"@,
            r.plugin_registry is None,
    {
        Self::new("sherwood", "A static site generator for Markdown content")
    }

    /// The program with `registry` as its parser registry.
    pub fn with_plugins(self, registry: PluginRegistry) -> (r: Self)
        ensures
            r.name == self.name,
            r.about == self.about,
            r.plugin_registry == Some(registry),
    {
        SherwoodCli { plugin_registry: Some(registry), ..self }
    }

    /// Whether the command line asks for help.
    pub fn wants_help(args: &[String]) -> (r: bool)
        ensures
            r == spec_wants_help(args@.map_values(|a: String| a@)),
    {
        let ghost views = args@.map_values(|a: String| a@);
        let mut i: usize = 0;
        while i < args.len()
            invariant
                i <= args@.len(),
                views == args@.map_values(|a: String| a@),
                forall|j: int| 0 <= j < i ==> views[j] != "--help"@ && views[j] != "-h"@,
            decreases args.len() - i,
        {
            if crate::text::str_eq(args[i].as_str(), "--help") || crate::text::str_eq(
                args[i].as_str(),
                "-h",
            ) {
                assert(views[i as int] == args@[i as int]@);
                return true;
            }
            assert(views[i as int] == args@[i as int]@);
            i = i + 1;
        }
        false
    }

    /// The help text the program prints, at `version`.
    pub fn help_text(&self, version: &str) -> (r: String)
        ensures
            r@ == spec_help_text(self.name@, self.about@, version@),
    {
        let name = self.name.as_str();
        let r = String::from_str("").concat(name).concat(" ").concat(version).concat("\n").concat(
            self.about.as_str(),
        ).concat("\n\n").concat("Usage: ").concat(name).concat(" [COMMAND] [OPTIONS]\n\n").concat(
            "Commands:\n",
        ).concat("  generate    Generate a static site from Markdown content\n").concat(
            "  dev         Start a development server for a Sherwood static site\n\n",
        ).concat("Options:\n").concat(
            "  -i, --input <DIR>     Input directory containing Markdown files [default: content]\n",
        ).concat("  -o, --output <DIR>    Output directory for generated site [default: dist]\n").concat(
            "  -p, --port <PORT>     Port for development server [default: 3000]\n",
        ).concat("  -h, --help            Print help\n\n").concat("Examples:\n").concat("  ").concat(
            name,
        ).concat(" generate\n").concat("  ").concat(name).concat(
            " generate -i content -o dist\n",
        ).concat("  ").concat(name).concat(" dev -p 8080\n");
        proof {
            reveal_strlit("");
            assert(r@ =~= spec_help_text(self.name@, self.about@, version@));
        }
        r
    }
}

/// The command-line program with optional parser and template registries.
pub struct Sherwood {
    pub plugin_registry: Option<PluginRegistry>,
    pub template_registry: Option<TemplateRegistry>,
}

impl Default for Sherwood {
    fn default() -> (r: Self)
        ensures
            r.plugin_registry is None,
            r.template_registry is None,
    {
        Self::new()
    }
}

impl Sherwood {
    /// The program with no registries.
    pub fn new() -> (r: Self)
        ensures
            r.plugin_registry is None,
            r.template_registry is None,
    {
        Sherwood { plugin_registry: None, template_registry: None }
    }

    /// The program with `registry` as its parser registry.
    pub fn with_plugins(self, registry: PluginRegistry) -> (r: Self)
        ensures
            r.plugin_registry == Some(registry),
            r.template_registry == self.template_registry,
    {
        Sherwood { plugin_registry: Some(registry), ..self }
    }

    /// The program with `registry` as its template registry.
    pub fn with_templates(self, registry: TemplateRegistry) -> (r: Self)
        ensures
            r.plugin_registry == self.plugin_registry,
            r.template_registry == Some(registry),
    {
        Sherwood { template_registry: Some(registry), ..self }
    }
}

} // verus!
