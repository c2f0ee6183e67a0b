//! Custom template renderers, registered by template name.
use vstd::prelude::*;
use crate::templates::renderer::TemplateDataEnum;

verus! {

/// Renders one template; implemented by users of the library.
pub trait TemplateRenderer {
    /// The renderer's name.
    fn name(&self) -> &'static str;

    /// The template file this renderer handles.
    fn template_path(&self) -> &'static str;

    /// Whether `page` is an answer this renderer may give for `data`. A
    /// renderer verified with the library narrows this to the pages it
    /// produces; for others it admits every answer.
    closed spec fn renders(&self, data: TemplateDataEnum, page: Result<String, String>) -> bool {
        true
    }

    /// Renders the template with `data`; an error carries its description.
    fn render(&self, data: &TemplateDataEnum) -> (r: Result<String, String>)
        ensures
            self.renders(*data, r),
    ;
}

/// Builds a concrete template value from generic page data; implemented by
/// users of the library for their template types.
pub trait FromTemplateData: Sized {
    /// The template value for `data`.
    fn from_data(data: TemplateDataEnum) -> Self;
}

/// A renderer together with the template name it is registered under.
pub struct RegisteredRenderer<R> {
    pub name: String,
    pub renderer: R,
}

impl<R> RegisteredRenderer<R> {
    /// `renderer` under the template name `name`.
    pub fn new(name: String, renderer: R) -> (r: Self)
        ensures
            r.name == name,
            r.renderer == renderer,
    {
        RegisteredRenderer { name, renderer }
    }
}

/// The registered template names, in registration order.
pub open spec fn renderer_names(entries: Seq<RegisteredRenderer<Box<dyn TemplateRenderer>>>) -> Seq<Seq<char>> {
    entries.map_values(|e: RegisteredRenderer<Box<dyn TemplateRenderer>>| e.name@)
}

/// `i` is the first position at which a renderer is registered under `name`.
pub open spec fn first_renderer_named(entries: Seq<RegisteredRenderer<Box<dyn TemplateRenderer>>>, name: Seq<char>, i: int) -> bool {
    &&& 0 <= i < entries.len()
    &&& entries[i].name@ == name
    &&& forall|j: int| 0 <= j < i ==> entries[j].name@ != name
}

/// Custom template renderers by template name; no name is registered twice.
pub struct TemplateRegistry {
    pub renderers: Vec<RegisteredRenderer<Box<dyn TemplateRenderer>>>,
}

/// The text of the error for a template name that is already registered.
pub open spec fn duplicate_template_message(name: Seq<char>) -> Seq<char> {
    "Template '"@ + name + "' is already registered"@
}

impl Default for TemplateRegistry {
    /// An empty registry, as `new` gives.
    fn default() -> (r: Self)
        ensures
            r.wf(),
            r.names() == Seq::<Seq<char>>::empty(),
    {
        Self::new()
    }
}

impl TemplateRegistry {
    /// No template name is registered twice.
    pub open spec fn wf(&self) -> bool {
        crate::plugins::keys_unique(renderer_names(self.renderers@))
    }

    /// The registered template names.
    pub open spec fn names(&self) -> Seq<Seq<char>> {
        renderer_names(self.renderers@)
    }

    /// An empty registry.
    pub fn new() -> (r: Self)
        ensures
            r.wf(),
            r.names() == Seq::<Seq<char>>::empty(),
    {
        TemplateRegistry { renderers: Vec::new() }
    }

    /// The position of `template_name` among the registered names, if any.
    fn position(&self, template_name: &str) -> (r: Option<usize>)
        ensures
            r is None <==> !self.names().contains(template_name@),
            r matches Some(i) ==> first_renderer_named(self.renderers@, template_name@, i as int),
    {
        let mut i: usize = 0;
        while i < self.renderers.len()
            invariant
                i <= self.renderers@.len(),
                forall|j: int| 0 <= j < i ==> self.renderers@[j].name@ != template_name@,
            decreases self.renderers.len() - i,
        {
            if crate::text::str_eq(self.renderers[i].name.as_str(), template_name) {
                assert(self.names()[i as int] == template_name@);
                return Some(i);
            }
            i = i + 1;
        }
        proof {
            if self.names().contains(template_name@) {
                let j = choose|j: int|
                    0 <= j < self.names().len() && self.names()[j] == template_name@;
                assert(self.renderers@[j].name@ == template_name@);
            }
        }
        None
    }

    /// Registers `renderer` under `template_name`; fails, changing nothing, when
    /// the name is already registered.
    pub fn register(&mut self, template_name: &str, renderer: Box<dyn TemplateRenderer>) -> (r:
        Result<(), String>)
        ensures
            old(self).names().contains(template_name@) ==> (r matches Err(m) && m@
                == duplicate_template_message(template_name@) && final(self).names()
                == old(self).names()),
            !old(self).names().contains(template_name@) ==> r is Ok && final(self).names()
                == old(self).names().push(template_name@),
            r is Ok ==> final(self).renderers@.len() == old(self).renderers@.len() + 1
                && final(self).renderers@.drop_last() == old(self).renderers@
                && final(self).renderers@.last().renderer == renderer,
            r is Err ==> final(self).renderers@ == old(self).renderers@,
            ({
                let call = (template_name@, renderer);
                register_step(*old(self), *final(self), call)
            }),
            old(self).wf() ==> final(self).wf(),
    {
        if self.position(template_name).is_some() {
            let msg = String::from_str("Template '").concat(template_name).concat(
                "' is already registered",
            );
            return Err(msg);
        }
        let ghost before = self.renderers@;
        let entry = RegisteredRenderer::new(crate::text::copy_str(template_name), renderer);
        self.renderers.push(entry);
        proof {
            assert(renderer_names(self.renderers@) =~= renderer_names(before).push(
                template_name@,
            ));
            assert(self.renderers@.last().name@ == template_name@);
            assert(self.renderers@.drop_last() =~= before);
            assert(self.renderers@.last().renderer == renderer);
            assert(!old(self).names().contains(template_name@));
        }
        Ok(())
    }

    /// The renderer registered under `template_name`, if any.
    pub fn get_renderer(&self, template_name: &str) -> (r: Option<&Box<dyn TemplateRenderer>>)
        ensures
            r is Some <==> self.names().contains(template_name@),
            r matches Some(b) ==> exists|i: int|
                first_renderer_named(self.renderers@, template_name@, i) && *b
                    == self.renderers@[i].renderer,
    {
        match self.position(template_name) {
            Some(i) => Some(&self.renderers[i].renderer),
            None => None,
        }
    }

    /// Whether a renderer is registered under `template_name`.
    pub fn has_template(&self, template_name: &str) -> (r: bool)
        ensures
            r == self.names().contains(template_name@),
    {
        self.position(template_name).is_some()
    }

    /// The registered template names, in registration order.
    pub fn registered_templates(&self) -> (r: Vec<String>)
        ensures
            r@.len() == self.renderers@.len(),
            forall|i: int| 0 <= i < r@.len() ==> #[trigger] r@[i]@ == self.names()[i],
    {
        let mut r: Vec<String> = Vec::new();
        let mut i: usize = 0;
        while i < self.renderers.len()
            invariant
                i <= self.renderers@.len(),
                r@.len() == i,
                forall|k: int| 0 <= k < i ==> #[trigger] r@[k]@ == renderer_names(self.renderers@)[k],
            decreases self.renderers.len() - i,
        {
            r.push(self.renderers[i].name.clone());
            i = i + 1;
        }
        r
    }
}

/// What registration promises to later lookups: after `renderer` is
/// registered under a name that a registry did not hold, the name is found,
/// the first renderer under it (the one a lookup returns) is `renderer`,
/// every name held before is still held with its renderer, no name is held
/// twice, and the count of registered templates has grown by one.
pub proof fn law_registered_template_is_found(
    before: TemplateRegistry,
    after: TemplateRegistry,
    name: Seq<char>,
    renderer: Box<dyn TemplateRenderer>,
)
    requires
        before.wf(),
        !before.names().contains(name),
        after.names() == before.names().push(name),
        after.renderers@.len() == before.renderers@.len() + 1,
        after.renderers@.drop_last() == before.renderers@,
        after.renderers@.last().renderer == renderer,
    ensures
        after.names().contains(name),
        first_renderer_named(after.renderers@, name, before.renderers@.len() as int),
        after.renderers@[before.renderers@.len() as int].renderer == renderer,
        forall|i: int| 0 <= i < before.renderers@.len() ==> after.renderers@[i] == before.renderers@[i],
        forall|n: Seq<char>| before.names().contains(n) ==> after.names().contains(n),
        after.wf(),
        after.names().len() == before.names().len() + 1,
{
    let k = before.renderers@.len() as int;
    assert forall|i: int| 0 <= i < k implies after.renderers@[i] == before.renderers@[i] by {
        assert(after.renderers@.drop_last()[i] == after.renderers@[i]);
    }
    assert forall|j: int| 0 <= j < k implies after.renderers@[j].name@ != name by {
        assert(before.names()[j] == before.renderers@[j].name@);
    }
    assert(after.names()[k] == after.renderers@[k].name@);
    assert(after.names()[before.names().len() as int] == name);
    assert forall|n: Seq<char>| before.names().contains(n) implies after.names().contains(n) by {
        let i = choose|i: int| 0 <= i < before.names().len() && before.names()[i] == n;
        assert(after.names()[i] == n);
    }
    assert(crate::plugins::keys_unique(after.names())) by {
        assert forall|i: int, j: int|
            0 <= i < j < after.names().len() implies after.names()[i] != after.names()[j] by {
            if j == before.names().len() {
                assert(before.names()[i] == after.names()[i]);
            } else {
                assert(before.names()[i] == after.names()[i]);
                assert(before.names()[j] == after.names()[j]);
            }
        }
    }
}

/// Each registered name with its renderer, in registration order.
pub open spec fn entry_views(entries: Seq<RegisteredRenderer<Box<dyn TemplateRenderer>>>) -> Seq<
    (Seq<char>, Box<dyn TemplateRenderer>),
> {
    entries.map_values(|e: RegisteredRenderer<Box<dyn TemplateRenderer>>| (e.name@, e.renderer))
}

/// What one call of `register` with the (name, renderer) `call` does, from
/// `before` to `after`: nothing for a name already registered, else the entry added at
/// the end.
pub open spec fn register_step(
    before: TemplateRegistry,
    after: TemplateRegistry,
    call: (Seq<char>, Box<dyn TemplateRenderer>),
) -> bool {
    if before.names().contains(call.0) {
        after.renderers@ == before.renderers@
    } else {
        &&& after.renderers@.len() == before.renderers@.len() + 1
        &&& after.renderers@.drop_last() == before.renderers@
        &&& after.renderers@.last().name@ == call.0
        &&& after.renderers@.last().renderer == call.1
    }
}

/// The registrations of a history of `register` calls that succeed: each
/// call whose name no earlier successful call used.
pub open spec fn successful_registrations(history: Seq<(Seq<char>, Box<dyn TemplateRenderer>)>) -> Seq<
    (Seq<char>, Box<dyn TemplateRenderer>),
>
    decreases history.len(),
{
    if history.len() == 0 {
        Seq::empty()
    } else {
        let kept = successful_registrations(history.drop_last());
        if kept.map_values(|p: (Seq<char>, Box<dyn TemplateRenderer>)| p.0).contains(history.last().0) {
            kept
        } else {
            kept.push(history.last())
        }
    }
}

/// The names of the entry views are the registered names.
proof fn lemma_entry_view_names(entries: Seq<RegisteredRenderer<Box<dyn TemplateRenderer>>>)
    ensures
        entry_views(entries).map_values(|p: (Seq<char>, Box<dyn TemplateRenderer>)| p.0)
            == renderer_names(entries),
{
    assert(entry_views(entries).map_values(|p: (Seq<char>, Box<dyn TemplateRenderer>)| p.0)
        =~= renderer_names(entries));
}

/// What a history of registrations leaves: starting from an empty registry
/// and calling `register` with each (name, renderer) of `history` in turn
/// (`states` holds the registry before and after each call), the registry
/// holds exactly the successful registrations, in order, each name once; so
/// the names are exactly those of the successful calls, their count is the
/// number of successful calls, and the renderer found under a name (the
/// first, and only, entry under it) is the one of the call that registered
/// it.
pub proof fn law_registration_history(
    states: Seq<TemplateRegistry>,
    history: Seq<(Seq<char>, Box<dyn TemplateRenderer>)>,
)
    requires
        states.len() == history.len() + 1,
        states[0].renderers@.len() == 0,
        forall|i: int|
            0 <= i < history.len() ==> register_step(#[trigger] states[i], states[i + 1], history[i]),
    ensures
        entry_views(states.last().renderers@) == successful_registrations(history),
        states.last().wf(),
        states.last().names().len() == successful_registrations(history).len(),
        forall|k: int|
            0 <= k < successful_registrations(history).len() ==> first_renderer_named(
                states.last().renderers@,
                #[trigger] successful_registrations(history)[k].0,
                k,
            ) && states.last().renderers@[k].renderer == successful_registrations(history)[k].1,
    decreases history.len(),
{
    let last = states.last();
    if history.len() == 0 {
        assert(entry_views(last.renderers@) =~= Seq::<(Seq<char>, Box<dyn TemplateRenderer>)>::empty());
        assert(last.wf());
    } else {
        let n = history.len() - 1;
        let prev_states = states.drop_last();
        assert forall|i: int| 0 <= i < history.drop_last().len() implies register_step(
            #[trigger] prev_states[i],
            prev_states[i + 1],
            history.drop_last()[i],
        ) by {
            assert(register_step(states[i], states[i + 1], history[i]));
        }
        law_registration_history(prev_states, history.drop_last());
        let prev = states[n];
        assert(prev == prev_states.last());
        assert(register_step(states[n], states[n + 1], history[n]));
        let kept = successful_registrations(history.drop_last());
        lemma_entry_view_names(prev.renderers@);
        assert(kept.map_values(|p: (Seq<char>, Box<dyn TemplateRenderer>)| p.0) == prev.names());
        if prev.names().contains(history.last().0) {
            assert(last.renderers@ == prev.renderers@);
        } else {
            let lv = entry_views(last.renderers@);
            let pv = entry_views(prev.renderers@).push(history.last());
            assert forall|j: int| 0 <= j < lv.len() implies lv[j] == pv[j] by {
                if j < prev.renderers@.len() {
                    assert(last.renderers@.drop_last()[j] == last.renderers@[j]);
                    assert(last.renderers@[j] == prev.renderers@[j]);
                } else {
                    assert(last.renderers@[j] == last.renderers@.last());
                    assert(lv[j] == (last.renderers@.last().name@, last.renderers@.last().renderer));
                    assert(pv[j] == history[n]);
                }
            }
            assert(lv =~= pv);
            assert(crate::plugins::keys_unique(last.names())) by {
                assert forall|a: int, b: int| 0 <= a < b < last.names().len() implies last.names()[a]
                    != last.names()[b] by {
                    assert(last.renderers@.drop_last()[a] == last.renderers@[a]);
                    if b < prev.renderers@.len() {
                        assert(last.renderers@.drop_last()[b] == last.renderers@[b]);
                        assert(prev.names()[a] != prev.names()[b]);
                    } else {
                        assert(prev.names()[a] == last.names()[a]);
                    }
                }
            }
        }
    }
    let views = entry_views(last.renderers@);
    assert forall|k: int| 0 <= k < successful_registrations(history).len() implies first_renderer_named(
        last.renderers@,
        #[trigger] successful_registrations(history)[k].0,
        k,
    ) && last.renderers@[k].renderer == successful_registrations(history)[k].1 by {
        assert(views[k] == successful_registrations(history)[k]);
        assert forall|j: int| 0 <= j < k implies last.renderers@[j].name@ != successful_registrations(
            history,
        )[k].0 by {
            assert(last.names()[j] != last.names()[k]);
        }
    }
}

/// A registry made by `new` or `default` and changed only by `register` is
/// well formed (each of them keeps `wf`), and in a well-formed registry the
/// registered template names are each listed once.
pub proof fn law_registered_templates_distinct(registry: TemplateRegistry)
    requires
        registry.wf(),
    ensures
        forall|i: int, j: int|
            0 <= i < j < registry.renderers@.len() ==> registry.renderers@[i].name@ != registry.renderers@[j].name@,
{
    assert forall|i: int, j: int| 0 <= i < j < registry.renderers@.len() implies registry.renderers@[i].name@
        != registry.renderers@[j].name@ by {
        assert(registry.names()[i] == registry.renderers@[i].name@);
        assert(registry.names()[j] == registry.renderers@[j].name@);
    }
}

/// Bridges a template type to the registry; the renderer for a concrete
/// template type is supplied where that type is compiled.
pub struct TemplateAdapter<T> {
    pub template: core::marker::PhantomData<T>,
}

impl<T> TemplateAdapter<T> {
    /// A new adapter.
    pub fn new() -> (r: Self) {
        TemplateAdapter { template: core::marker::PhantomData }
    }
}

} // verus!
