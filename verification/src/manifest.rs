//! What a loaded application declares, whichever way it was loaded: from a
//! manifest on disk or from a locked application out of a registry.

use crate::expand::{
    expand_all_spec, has_template, is_candidate, ComponentDescriptor, ComponentModel,
};
use crate::variable::{
    declared_model, locked_model, required_iff_no_default, variables_from_registry_app,
    variables_from_toml, DeclaredVariable, LockedVariable, VariableInfo, VariableModel,
};
use vstd::prelude::*;

verus! {

/// The components that hold a template, in the order of `components`.
pub open spec fn retained(components: Seq<ComponentModel>) -> Seq<ComponentModel>
    decreases components.len(),
{
    if components.len() == 0 {
        Seq::empty()
    } else {
        let before = retained(components.drop_last());
        if has_template(components.last()) {
            before.push(components.last())
        } else {
            before
        }
    }
}

/// Keeps the components that hold a template, in their order.
pub fn retain_templated(components: Vec<ComponentDescriptor>) -> (r: Vec<ComponentDescriptor>)
    ensures
        r.deep_view() == retained(components.deep_view()),
{
    let ghost all = components.deep_view();
    let ghost items = components@;
    let mut r: Vec<ComponentDescriptor> = Vec::new();
    assert(r.deep_view() =~= retained(all.take(0)));
    for c in it: components
        invariant
            it.seq() == items,
            all.len() == items.len(),
            forall|j: int| 0 <= j < items.len() ==> all[j] == (#[trigger] items[j]).deep_view(),
            r.deep_view() == retained(all.take(it.index() as int)),
    {
        proof {
            assert(all.take(it.index() + 1).drop_last() =~= all.take(it.index() as int));
        }
        if is_candidate(&c) {
            let ghost before = r.deep_view();
            let ghost added = c.deep_view();
            r.push(c);
            assert(r.deep_view() =~= before.push(added));
        }
    }
    assert(all.take(all.len() as int) =~= all);
    r
}

/// Every retained component holds a template, and none was added.
pub proof fn lemma_retained_hold_templates(components: Seq<ComponentModel>)
    ensures
        retained(components).len() <= components.len(),
        forall|i: int|
            0 <= i < retained(components).len() ==> has_template(#[trigger] retained(components)[i]),
    decreases components.len(),
{
    if components.len() > 0 {
        lemma_retained_hold_templates(components.drop_last());
    }
}

/// Expanding the retained components gives what expanding all of them gives:
/// the components left out are those that expansion passes over.
pub proof fn lemma_expand_all_of_retained(
    components: Seq<ComponentModel>,
    declared: Seq<(Seq<char>, Option<Seq<char>>)>,
    env: Seq<(Seq<char>, Seq<char>)>,
)
    ensures
        expand_all_spec(retained(components), declared, env) == expand_all_spec(
            components,
            declared,
            env,
        ),
    decreases components.len(),
{
    if components.len() > 0 {
        let before = retained(components.drop_last());
        lemma_expand_all_of_retained(components.drop_last(), declared, env);
        if has_template(components.last()) {
            assert(before.push(components.last()).drop_last() =~= before);
        }
    }
}

/// A loaded application, as one of the two ways of loading gives it. Both
/// answer the same questions: which variables are declared, and which
/// components hold templates.
#[derive(Debug, Clone, PartialEq, Eq)]
pub enum NormalizedManifest {
    /// A manifest read from disk.
    Local { variables: Vec<(String, DeclaredVariable)>, components: Vec<ComponentDescriptor> },
    /// A locked application pulled from a registry.
    Locked { variables: Vec<(String, LockedVariable)>, components: Vec<ComponentDescriptor> },
}

impl NormalizedManifest {
    /// The registry of the application: for a local manifest every attribute
    /// as declared; for a locked application each variable required exactly
    /// when it has no default.
    pub open spec fn registry(&self) -> Seq<VariableModel> {
        match self {
            NormalizedManifest::Local { variables, .. } => Seq::new(
                variables@.len(),
                |i: int| declared_model(variables@[i].0@, variables@[i].1),
            ),
            NormalizedManifest::Locked { variables, .. } => Seq::new(
                variables@.len(),
                |i: int| locked_model(variables@[i].0@, variables@[i].1),
            ),
        }
    }

    /// The components that the application holds.
    pub open spec fn held_components(&self) -> Seq<ComponentModel> {
        match self {
            NormalizedManifest::Local { components, .. } => components.deep_view(),
            NormalizedManifest::Locked { components, .. } => components.deep_view(),
        }
    }

    /// True when every component that the application holds has a template.
    pub open spec fn well_formed(&self) -> bool {
        forall|i: int|
            0 <= i < self.held_components().len() ==> has_template(
                #[trigger] self.held_components()[i],
            )
    }

    /// The application of a manifest read from disk. Of the components, those
    /// that hold a template are kept.
    pub fn from_local(
        variables: Vec<(String, DeclaredVariable)>,
        components: Vec<ComponentDescriptor>,
    ) -> (m: NormalizedManifest)
        ensures
            m.well_formed(),
            m is Local,
            m->Local_variables == variables,
            m.held_components() == retained(components.deep_view()),
    {
        proof {
            lemma_retained_hold_templates(components.deep_view());
        }
        let kept = retain_templated(components);
        NormalizedManifest::Local { variables, components: kept }
    }

    /// The application of a locked application. Of the components, those that
    /// hold a template are kept.
    pub fn from_locked(
        variables: Vec<(String, LockedVariable)>,
        components: Vec<ComponentDescriptor>,
    ) -> (m: NormalizedManifest)
        ensures
            m.well_formed(),
            m is Locked,
            m->Locked_variables == variables,
            m.held_components() == retained(components.deep_view()),
    {
        proof {
            lemma_retained_hold_templates(components.deep_view());
        }
        let kept = retain_templated(components);
        NormalizedManifest::Locked { variables, components: kept }
    }

    /// The declared variables, in the order of their declaration. Those of a
    /// locked application are required exactly when they have no default.
    pub fn variables(&self) -> (r: Vec<VariableInfo>)
        ensures
            r.deep_view() == self.registry(),
            self is Locked ==> forall|i: int|
                0 <= i < r@.len() ==> required_iff_no_default((#[trigger] r@[i]).deep_view()),
    {
        match self {
            NormalizedManifest::Local { variables, .. } => {
                let r = variables_from_toml(variables);
                assert(r.deep_view() =~= self.registry());
                r
            },
            NormalizedManifest::Locked { variables, .. } => {
                let r = variables_from_registry_app(variables);
                assert(r.deep_view() =~= self.registry());
                r
            },
        }
    }

    /// The components of the application.
    pub fn components(&self) -> (r: &Vec<ComponentDescriptor>)
        ensures
            r.deep_view() == self.held_components(),
    {
        match self {
            NormalizedManifest::Local { components, .. } => components,
            NormalizedManifest::Locked { components, .. } => components,
        }
    }
}

} // verus!
