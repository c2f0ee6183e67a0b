//! The page data that templates read, and the manager that picks the
//! template a page is rendered with.
use vstd::prelude::*;
use crate::templates::common::{
    BreadcrumbData, ListData, NextPrevNavData, SidebarNavData, TemplateError,
};
use crate::templates::registry::{first_renderer_named, TemplateRegistry, TemplateRenderer};
use crate::templates::sherwood::PageData;
use crate::names::{insert_sorted_unique, string_views, strictly_sorted};
use crate::path::path_extension;

verus! {

/// What a template can read of the page it renders.
pub trait TemplateData {
    /// The page title.
    fn get_title(&self) -> &str;

    /// The page body, as HTML.
    fn get_content(&self) -> &str;

    /// The stylesheet the page links to, if any.
    fn get_css_file(&self) -> Option<&str>;

    /// Extra attributes of the `body` element.
    fn get_body_attrs(&self) -> &str;

    /// The breadcrumb trail, if the page has one.
    fn get_breadcrumb_data(&self) -> (r: Option<&BreadcrumbData>)
        default_ensures
            r is None,
    {
        None
    }

    /// The entries of a list page, if the page is one.
    fn get_list_data(&self) -> (r: Option<&ListData>)
        default_ensures
            r is None,
    {
        None
    }

    /// The sidebar navigation, if the page has one.
    fn get_sidebar_nav(&self) -> (r: Option<&SidebarNavData>)
        default_ensures
            r is None,
    {
        None
    }

    /// The table of contents, as HTML, if the page has one.
    fn get_table_of_contents(&self) -> (r: Option<&str>)
        default_ensures
            r is None,
    {
        None
    }

    /// Links to the previous and next pages, if the page has them.
    fn get_next_prev_nav(&self) -> (r: Option<&NextPrevNavData>)
        default_ensures
            r is None,
    {
        None
    }

    /// The site's title.
    fn get_site_title(&self) -> (r: &str)
        default_ensures
            r@ == Seq::<char>::empty(),
    {
        proof {
            reveal_strlit("");
        }
        ""
    }

    /// The site's footer text, if any.
    fn get_footer_text(&self) -> (r: Option<&str>)
        default_ensures
            r is None,
    {
        None
    }
}

/// The data of any page the library renders.
pub enum TemplateDataEnum {
    Page(PageData),
}

impl TemplateDataEnum {
    /// The page data inside.
    pub open spec fn page(self) -> PageData {
        match self {
            TemplateDataEnum::Page(p) => p,
        }
    }
}

impl TemplateData for TemplateDataEnum {
    fn get_title(&self) -> (r: &str)
        ensures
            r@ == self.page().title@,
    {
        match self {
            TemplateDataEnum::Page(data) => data.get_title(),
        }
    }

    fn get_content(&self) -> (r: &str)
        ensures
            r@ == self.page().content@,
    {
        match self {
            TemplateDataEnum::Page(data) => data.get_content(),
        }
    }

    fn get_css_file(&self) -> (r: Option<&str>)
        ensures
            r is Some <==> self.page().css_file is Some,
            r matches Some(v) ==> v@ == self.page().css_file->Some_0@,
    {
        match self {
            TemplateDataEnum::Page(data) => data.get_css_file(),
        }
    }

    fn get_body_attrs(&self) -> (r: &str)
        ensures
            r@ == self.page().body_attrs@,
    {
        match self {
            TemplateDataEnum::Page(data) => data.get_body_attrs(),
        }
    }

    fn get_breadcrumb_data(&self) -> (r: Option<&BreadcrumbData>)
        ensures
            r is Some <==> self.page().breadcrumb_data is Some,
            r matches Some(b) ==> *b == self.page().breadcrumb_data->Some_0,
    {
        match self {
            TemplateDataEnum::Page(data) => data.get_breadcrumb_data(),
        }
    }

    fn get_list_data(&self) -> (r: Option<&ListData>)
        ensures
            r is Some <==> self.page().list_data is Some,
            r matches Some(l) ==> *l == self.page().list_data->Some_0,
    {
        match self {
            TemplateDataEnum::Page(data) => data.get_list_data(),
        }
    }

    fn get_sidebar_nav(&self) -> (r: Option<&SidebarNavData>)
        ensures
            r is Some <==> self.page().sidebar_nav is Some,
            r matches Some(n) ==> *n == self.page().sidebar_nav->Some_0,
    {
        match self {
            TemplateDataEnum::Page(data) => data.get_sidebar_nav(),
        }
    }

    fn get_table_of_contents(&self) -> (r: Option<&str>)
        ensures
            r is Some <==> self.page().table_of_contents is Some,
            r matches Some(v) ==> v@ == self.page().table_of_contents->Some_0@,
    {
        match self {
            TemplateDataEnum::Page(data) => data.get_table_of_contents(),
        }
    }

    fn get_next_prev_nav(&self) -> (r: Option<&NextPrevNavData>)
        ensures
            r is Some <==> self.page().next_prev_nav is Some,
            r matches Some(n) ==> *n == self.page().next_prev_nav->Some_0,
    {
        match self {
            TemplateDataEnum::Page(data) => data.get_next_prev_nav(),
        }
    }

    fn get_site_title(&self) -> (r: &str)
        ensures
            r@ == self.page().site_title@,
    {
        match self {
            TemplateDataEnum::Page(data) => data.get_site_title(),
        }
    }

    fn get_footer_text(&self) -> (r: Option<&str>)
        ensures
            r is Some <==> self.page().footer_text is Some,
            r matches Some(v) ==> v@ == self.page().footer_text->Some_0@,
    {
        match self {
            TemplateDataEnum::Page(data) => data.get_footer_text(),
        }
    }
}

/// The name of the built-in page template.
pub open spec fn builtin_template_name() -> Seq<char> {
    "sherwood.stpl"@
}

/// The file names that are template files (extension `stpl`).
pub open spec fn template_file_names(files: Seq<Seq<char>>) -> Set<Seq<char>> {
    files.to_set().filter(|f: Seq<char>| path_extension(f) == Some("stpl"@))
}

/// The names of the available templates: the registered ones and the
/// template files among `files`, sorted and without duplicates.
pub fn discover_templates(registry: Option<&TemplateRegistry>, files: &[String]) -> (r: Vec<
    String,
>)
    ensures
        strictly_sorted(string_views(r@)),
        string_views(r@).to_set() == (match registry {
            Some(reg) => reg.names().to_set(),
            None => Set::<Seq<char>>::empty(),
        }) + template_file_names(string_views(files@)),
{
    let mut r: Vec<String> = Vec::new();
    let ghost registered: Set<Seq<char>> = match registry {
        Some(reg) => reg.names().to_set(),
        None => Set::<Seq<char>>::empty(),
    };
    proof {
        assert(string_views(r@).to_set() =~= Set::<Seq<char>>::empty());
    }
    match registry {
        Some(reg) => {
            let names = reg.registered_templates();
            let mut i: usize = 0;
            while i < names.len()
                invariant
                    i <= names@.len(),
                    names@.len() == reg.renderers@.len(),
                    forall|k: int| 0 <= k < names@.len() ==> #[trigger] names@[k]@ == reg.names()[k],
                    strictly_sorted(string_views(r@)),
                    string_views(r@).to_set() == reg.names().take(i as int).to_set(),
                decreases names.len() - i,
            {
                let name = names[i].clone();
                insert_sorted_unique(&mut r, name);
                proof {
                    assert(reg.names().take(i + 1) =~= reg.names().take(i as int).push(
                        names@[i as int]@,
                    ));
                    reg.names().take(i as int).lemma_push_to_set_commute(names@[i as int]@);
                }
                i = i + 1;
            }
            proof {
                assert(reg.names().take(i as int) =~= reg.names());
            }
        },
        None => {},
    }
    let ghost base = string_views(r@).to_set();
    let mut i: usize = 0;
    while i < files.len()
        invariant
            i <= files@.len(),
            strictly_sorted(string_views(r@)),
            base == registered,
            string_views(r@).to_set() == base + template_file_names(
                string_views(files@).take(i as int),
            ),
        decreases files.len() - i,
    {
        let is_template = match crate::path::extension(files[i].as_str()) {
            Some(e) => crate::text::str_eq(e.as_str(), "stpl"),
            None => false,
        };
        let ghost before = string_views(files@).take(i as int);
        let ghost f = files@[i as int]@;
        proof {
            reveal_strlit("stpl");
            assert(string_views(files@).take(i + 1) =~= before.push(f));
            before.lemma_push_to_set_commute(f);
        }
        if is_template {
            let name = files[i].clone();
            insert_sorted_unique(&mut r, name);
            proof {
                assert(template_file_names(before.push(f)) =~= template_file_names(before).insert(
                    f,
                ));
                assert(string_views(r@).to_set() =~= base + template_file_names(before.push(f)));
            }
        } else {
            proof {
                assert(template_file_names(before.push(f)) =~= template_file_names(before));
            }
        }
        i = i + 1;
    }
    proof {
        assert(string_views(files@).take(files@.len() as int) =~= string_views(files@));
    }
    r
}

/// Whether `r` is what a render of the template named `name` ends in when its
/// renderer answered `rendered`.
pub open spec fn is_render_outcome(
    name: Seq<char>,
    rendered: Result<String, String>,
    r: Result<String, TemplateError>,
) -> bool {
    match rendered {
        Ok(html) => r == Ok::<String, TemplateError>(html),
        Err(details) => r matches Err(TemplateError::CompilationError { template_name: n, details: d })
            && n@ == name && d == details,
    }
}

/// What a page render ends in, given what the renderer of the template named
/// `template_name` returned: its page unchanged, or its error description as
/// a compilation error of that template.
pub fn render_outcome(template_name: &str, rendered: Result<String, String>) -> (r: Result<
    String,
    TemplateError,
>)
    ensures
        is_render_outcome(template_name@, rendered, r),
{
    match rendered {
        Ok(html) => Ok(html),
        Err(details) => Err(
            TemplateError::CompilationError { template_name: crate::text::copy_str(template_name), details },
        ),
    }
}

/// Whether `r` passes on what a registered renderer answered: its page, or
/// its own error unchanged.
pub open spec fn is_passed_through(rendered: Result<String, String>, r: Result<String, TemplateError>) -> bool {
    match rendered {
        Ok(html) => r == Ok::<String, TemplateError>(html),
        Err(message) => r matches Err(TemplateError::RendererError { message: m }) && m == message,
    }
}

/// What a render through a registered renderer ends in: its page, or its
/// own error passed on unchanged.
pub fn pass_through(rendered: Result<String, String>) -> (r: Result<String, TemplateError>)
    ensures
        is_passed_through(rendered, r),
{
    match rendered {
        Ok(html) => Ok(html),
        Err(message) => Err(TemplateError::RendererError { message }),
    }
}

/// Picks and runs the template a page is rendered with: a registered
/// renderer first, then the built-in page template.
pub struct TemplateManager {
    templates_dir: String,
    available_templates: Vec<String>,
    registry: Option<TemplateRegistry>,
    builtin: Box<dyn TemplateRenderer>,
}

impl TemplateManager {
    /// The available template names are sorted and listed once.
    #[verifier::type_invariant]
    spec fn inv(self) -> bool {
        strictly_sorted(string_views(self.available_templates@))
    }

    /// The templates directory.
    pub closed spec fn dir_view(&self) -> Seq<char> {
        self.templates_dir@
    }

    /// The names of the available templates, in order.
    pub closed spec fn template_names(&self) -> Seq<Seq<char>> {
        string_views(self.available_templates@)
    }

    /// The registry of custom renderers, if any.
    pub closed spec fn registry_view(&self) -> Option<TemplateRegistry> {
        self.registry
    }

    /// Whether `page` is an answer the renderer of the built-in page template
    /// may give for `data`.
    pub closed spec fn builtin_renders(&self, data: TemplateDataEnum, page: Result<String, String>) -> bool {
        self.builtin.renders(data, page)
    }

    /// The templates directory.
    pub fn templates_dir(&self) -> (r: &str)
        ensures
            r@ == self.dir_view(),
    {
        self.templates_dir.as_str()
    }

    /// A manager with no registered renderers; `template_files` are the names
    /// of the files in `templates_dir`, and `builtin` renders the built-in
    /// page template.
    pub fn new(templates_dir: &str, template_files: &[String], builtin: Box<dyn TemplateRenderer>) -> (r:
        Self)
        ensures
            r.dir_view() == templates_dir@,
            r.registry_view() is None,
            strictly_sorted(r.template_names()),
            r.template_names().to_set() == template_file_names(
                string_views(template_files@),
            ),
    {
        let r = Self::new_with_registry(templates_dir, None, template_files, builtin);
        proof {
            assert(Set::<Seq<char>>::empty() + template_file_names(string_views(template_files@))
                =~= template_file_names(string_views(template_files@)));
        }
        r
    }

    /// A manager that tries the renderers of `registry` first.
    pub fn new_with_registry(
        templates_dir: &str,
        registry: Option<TemplateRegistry>,
        template_files: &[String],
        builtin: Box<dyn TemplateRenderer>,
    ) -> (r: Self)
        ensures
            r.dir_view() == templates_dir@,
            r.registry_view() == registry,
            strictly_sorted(r.template_names()),
            r.template_names().to_set() == (match registry {
                Some(reg) => reg.names().to_set(),
                None => Set::<Seq<char>>::empty(),
            }) + template_file_names(string_views(template_files@)),
    {
        let available_templates = discover_templates(registry.as_ref(), template_files);
        TemplateManager {
            templates_dir: crate::text::copy_str(templates_dir),
            available_templates,
            registry,
            builtin,
        }
    }

    /// The names of the available templates, sorted.
    pub fn get_available_templates(&self) -> (r: Vec<String>)
        ensures
            string_views(r@) == self.template_names(),
            strictly_sorted(string_views(r@)),
    {
        proof {
            use_type_invariant(self);
        }
        let mut r: Vec<String> = Vec::new();
        let mut i: usize = 0;
        while i < self.available_templates.len()
            invariant
                i <= self.available_templates@.len(),
                r@.len() == i,
                forall|j: int| 0 <= j < i ==> #[trigger] r@[j]@ == self.available_templates@[j]@,
            decreases self.available_templates.len() - i,
        {
            r.push(self.available_templates[i].clone());
            i = i + 1;
        }
        proof {
            assert(string_views(r@) =~= string_views(self.available_templates@));
        }
        r
    }

    /// Whether a registered renderer handles `template_name`.
    pub open spec fn has_registered(&self, template_name: Seq<char>) -> bool {
        self.registry_view() matches Some(reg) && reg.names().contains(template_name)
    }

    /// Whether `r` is what rendering `data` with the template named
    /// `template_name` may end in: what the first renderer registered under
    /// the name answers, passed on; else what the built-in renderer answers
    /// for the built-in name; else the template is not found.
    pub open spec fn is_rendering(&self, template_name: Seq<char>, data: TemplateDataEnum, r: Result<String, TemplateError>) -> bool {
        if self.has_registered(template_name) {
            exists|i: int, x: Result<String, String>|
                first_renderer_named(self.registry_view()->0.renderers@, template_name, i)
                    && self.registry_view()->0.renderers@[i].renderer.renders(data, x)
                    && is_passed_through(x, r)
        } else if template_name == builtin_template_name() {
            exists|x: Result<String, String>|
                self.builtin_renders(data, x) && is_render_outcome(template_name, x, r)
        } else {
            r matches Err(TemplateError::TemplateNotFound { template_name: n }) && n@ == template_name
        }
    }

    /// Renders `data` with the template named `template_name`: a registered
    /// renderer if there is one (its error passed on unchanged), else the
    /// built-in page template for its name, else the template is not found.
    pub fn render_template(&self, template_name: &str, data: TemplateDataEnum) -> (r: Result<
        String,
        TemplateError,
    >)
        ensures
            self.is_rendering(template_name@, data, r),
            match self.registry_view() {
                Some(reg) => reg.names().contains(template_name@) ==> exists|
                    i: int,
                    x: Result<String, String>,
                |
                    first_renderer_named(reg.renderers@, template_name@, i)
                        && reg.renderers@[i].renderer.renders(data, x) && is_passed_through(x, r),
                None => true,
            },
            !self.has_registered(template_name@) && template_name@ == builtin_template_name()
                ==> exists|x: Result<String, String>|
                self.builtin_renders(data, x) && is_render_outcome(template_name@, x, r),
            !self.has_registered(template_name@) && template_name@ != builtin_template_name()
                ==> (r matches Err(TemplateError::TemplateNotFound { template_name: n }) && n@
                == template_name@),
            r matches Err(TemplateError::TemplateNotFound { template_name: _ }) ==> !self.has_registered(
                template_name@,
            ) && template_name@ != builtin_template_name(),
            r matches Err(TemplateError::CompilationError { template_name: n, details: _ })
                ==> n@ == template_name@ && !self.has_registered(template_name@),
            r matches Err(TemplateError::RendererError { message: _ }) ==> self.has_registered(
                template_name@,
            ),
            r matches Err(e) ==> e is TemplateNotFound || e is CompilationError || e is RendererError,
    {
        match &self.registry {
            Some(registry) => {
                match registry.get_renderer(template_name) {
                    Some(renderer) => {
                        return pass_through(renderer.render(&data));
                    },
                    None => {},
                }
            },
            None => {},
        }
        if crate::text::str_eq(template_name, "sherwood.stpl") {
            proof {
                reveal_strlit("sherwood.stpl");
            }
            self.render_sherwood_template(data)
        } else {
            proof {
                reveal_strlit("sherwood.stpl");
            }
            Err(TemplateError::TemplateNotFound { template_name: crate::text::copy_str(template_name) })
        }
    }

    /// The path of the template file named `template_name`.
    pub fn get_template_path(&self, template_name: &str) -> (r: String)
        ensures
            r@ == crate::path::path_join(self.dir_view(), template_name@),
    {
        crate::path::join(self.templates_dir.as_str(), template_name)
    }

    /// Renders `data` with the built-in page template.
    fn render_sherwood_template(&self, data: TemplateDataEnum) -> (r: Result<String, TemplateError>)
        ensures
            exists|x: Result<String, String>|
                self.builtin_renders(data, x) && is_render_outcome(builtin_template_name(), x, r),
    {
        proof {
            reveal_strlit("sherwood.stpl");
        }
        let rendered = self.builtin.render(&data);
        assert(self.builtin_renders(data, rendered));
        render_outcome("sherwood.stpl", rendered)
    }
}

} // verus!
