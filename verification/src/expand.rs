//! Expansion of templates against a resolver, field by field: a field that
//! fails is reported for itself and never stops the others.

use crate::resolver::{resolve_spec, ResolveError, Resolver};
use crate::template::{
    lemma_parse_plain_text, literal_parts, parse_spec, Part, PartModel, Template,
    TemplateSyntaxError,
};
use crate::text::{contains_open_delimiter, has_open_delimiter, no_pair_from};
use vstd::prelude::*;
use vstd::string::*;

verus! {

/// Why a field has no expansion.
#[derive(Debug, Clone, Copy, PartialEq, Eq, Structural)]
pub enum ExpansionError {
    /// The field's text is no template.
    Syntax(TemplateSyntaxError),
    /// A key of the template has no value.
    Resolve(ResolveError),
}

/// The outcome of expanding one field.
#[derive(Debug, Clone, PartialEq, Eq)]
pub enum ExpansionResult {
    Value(String),
    Error(ExpansionError),
}

/// The mathematical value of an `ExpansionResult`.
pub enum ExpansionModel {
    Value(Seq<char>),
    Error(ExpansionError),
}

impl DeepView for ExpansionResult {
    type V = ExpansionModel;

    open spec fn deep_view(&self) -> ExpansionModel {
        match self {
            ExpansionResult::Value(s) => ExpansionModel::Value(s@),
            ExpansionResult::Error(e) => ExpansionModel::Error(*e),
        }
    }
}

/// The text shown in place of a field that has no expansion.
pub open spec fn error_marker() -> Seq<char> {
    "<error>"@
}

/// What is shown for an outcome: the value, or the error marker.
pub open spec fn displayed(r: ExpansionModel) -> Seq<char> {
    match r {
        ExpansionModel::Value(v) => v,
        ExpansionModel::Error(_) => error_marker(),
    }
}

impl ExpansionResult {
    /// The text to show for this outcome.
    pub fn display(&self) -> (r: String)
        ensures
            r@ == displayed(self.deep_view()),
    {
        match self {
            ExpansionResult::Value(v) => v.clone(),
            ExpansionResult::Error(_) => "<error>".to_owned(),
        }
    }
}

/// The text that the parts expand to: each literal as it is, each key as its
/// effective value. The first key from the left that has no value decides the
/// error.
pub open spec fn expand_spec(
    parts: Seq<PartModel>,
    declared: Seq<(Seq<char>, Option<Seq<char>>)>,
    env: Seq<(Seq<char>, Seq<char>)>,
) -> Result<Seq<char>, ResolveError>
    decreases parts.len(),
{
    if parts.len() == 0 {
        Ok(Seq::empty())
    } else {
        match expand_spec(parts.drop_last(), declared, env) {
            Err(e) => Err(e),
            Ok(text) => match parts.last() {
                PartModel::Literal(l) => Ok(text + l),
                PartModel::Key(k) => match resolve_spec(declared, env, k) {
                    Ok(v) => Ok(text + v),
                    Err(e) => Err(e),
                },
            },
        }
    }
}

/// The outcome of expanding the raw text of one field.
pub open spec fn expand_field_spec(
    raw: Seq<char>,
    declared: Seq<(Seq<char>, Option<Seq<char>>)>,
    env: Seq<(Seq<char>, Seq<char>)>,
) -> ExpansionModel {
    match parse_spec(raw) {
        Err(e) => ExpansionModel::Error(ExpansionError::Syntax(e)),
        Ok(parts) => match expand_spec(parts, declared, env) {
            Ok(v) => ExpansionModel::Value(v),
            Err(e) => ExpansionModel::Error(ExpansionError::Resolve(e)),
        },
    }
}

/// The view of an expansion that holds a string.
pub open spec fn expanded_view(r: Result<String, ResolveError>) -> Result<Seq<char>, ResolveError> {
    match r {
        Ok(s) => Ok(s@),
        Err(e) => Err(e),
    }
}

/// An error in the first `i` parts is the error of the whole.
pub proof fn lemma_expand_error_persists(
    parts: Seq<PartModel>,
    declared: Seq<(Seq<char>, Option<Seq<char>>)>,
    env: Seq<(Seq<char>, Seq<char>)>,
    i: int,
)
    requires
        0 <= i <= parts.len(),
        expand_spec(parts.take(i), declared, env) is Err,
    ensures
        expand_spec(parts, declared, env) == expand_spec(parts.take(i), declared, env),
    decreases parts.len() - i,
{
    if i == parts.len() {
        assert(parts.take(i) =~= parts);
    } else {
        assert(parts.take(i + 1).drop_last() =~= parts.take(i));
        lemma_expand_error_persists(parts, declared, env, i + 1);
    }
}

/// The text that `template` expands to under `resolver` and the environment
/// snapshot `env`.
pub fn expand(template: &Template, resolver: &Resolver, env: &Vec<(String, String)>) -> (r: Result<
    String,
    ResolveError,
>)
    ensures
        expanded_view(r) == expand_spec(
            template.deep_view(),
            resolver.deep_view(),
            env.deep_view(),
        ),
{
    let ghost parts = template.deep_view();
    let ghost declared = resolver.deep_view();
    let ghost entries = env.deep_view();
    let mut out: String = String::new();
    let mut i: usize = 0;
    while i < template.parts.len()
        invariant
            i <= template.parts@.len(),
            parts == template.deep_view(),
            declared == resolver.deep_view(),
            entries == env.deep_view(),
            expand_spec(parts.take(i as int), declared, entries) == Ok::<Seq<char>, ResolveError>(
                out@,
            ),
        decreases template.parts@.len() - i,
    {
        proof {
            assert(parts.take(i + 1).drop_last() =~= parts.take(i as int));
            assert(parts.take(i + 1).last() == template.parts@[i as int].deep_view());
        }
        match &template.parts[i] {
            Part::Literal(text) => {
                out.append(text.as_str());
            },
            Part::Key(key) => {
                match resolver.resolve(key.as_str(), env) {
                    Ok(v) => {
                        out.append(v.as_str());
                    },
                    Err(e) => {
                        proof {
                            lemma_expand_error_persists(parts, declared, entries, i + 1);
                        }
                        return Err(e);
                    },
                }
            },
        }
        i += 1;
    }
    proof {
        assert(parts.take(i as int) =~= parts);
    }
    Ok(out)
}

/// The outcome of expanding the raw text of one field: its expansion, or the
/// reason why it has none.
pub fn expand_field(raw: &str, resolver: &Resolver, env: &Vec<(String, String)>) -> (r:
    ExpansionResult)
    ensures
        r.deep_view() == expand_field_spec(raw@, resolver.deep_view(), env.deep_view()),
{
    match Template::parse(raw) {
        Err(e) => ExpansionResult::Error(ExpansionError::Syntax(e)),
        Ok(template) => match expand(&template, resolver, env) {
            Ok(v) => ExpansionResult::Value(v),
            Err(e) => ExpansionResult::Error(ExpansionError::Resolve(e)),
        },
    }
}

/// A component of the application, with the fields that may hold templates.
#[derive(Debug, Clone, PartialEq, Eq)]
pub struct ComponentDescriptor {
    pub id: String,
    pub config_fields: Vec<(String, String)>,
    pub outbound_hosts: Vec<String>,
}

/// The mathematical value of a `ComponentDescriptor`.
pub struct ComponentModel {
    pub id: Seq<char>,
    pub config_fields: Seq<(Seq<char>, Seq<char>)>,
    pub outbound_hosts: Seq<Seq<char>>,
}

impl DeepView for ComponentDescriptor {
    type V = ComponentModel;

    open spec fn deep_view(&self) -> ComponentModel {
        ComponentModel {
            id: self.id@,
            config_fields: self.config_fields.deep_view(),
            outbound_hosts: self.outbound_hosts.deep_view(),
        }
    }
}

/// The outcomes for the fields of one component, each under its label.
#[derive(Debug, Clone, PartialEq, Eq)]
pub struct ComponentExpansion {
    pub id: String,
    pub fields: Vec<(String, ExpansionResult)>,
}

/// The mathematical value of a `ComponentExpansion`.
pub struct ComponentExpansionModel {
    pub id: Seq<char>,
    pub fields: Seq<(Seq<char>, ExpansionModel)>,
}

impl DeepView for ComponentExpansion {
    type V = ComponentExpansionModel;

    open spec fn deep_view(&self) -> ComponentExpansionModel {
        ComponentExpansionModel { id: self.id@, fields: self.fields.deep_view() }
    }
}

/// True when some config value or some outbound host of the component holds `{{`.
pub open spec fn has_template(c: ComponentModel) -> bool {
    ||| exists|i: int|
        0 <= i < c.config_fields.len() && has_open_delimiter(#[trigger] c.config_fields[i].1)
    ||| exists|i: int|
        0 <= i < c.outbound_hosts.len() && has_open_delimiter(#[trigger] c.outbound_hosts[i])
}

/// The outcome for every config field, under the field's key and in the
/// fields' order.
pub open spec fn config_results(
    fields: Seq<(Seq<char>, Seq<char>)>,
    declared: Seq<(Seq<char>, Option<Seq<char>>)>,
    env: Seq<(Seq<char>, Seq<char>)>,
) -> Seq<(Seq<char>, ExpansionModel)> {
    Seq::new(
        fields.len(),
        |i: int| (fields[i].0, expand_field_spec(fields[i].1, declared, env)),
    )
}

/// The outcome for every outbound host that holds `{{`, under the host's raw
/// text and in the hosts' order. A host without `{{` has no entry.
pub open spec fn host_results(
    hosts: Seq<Seq<char>>,
    declared: Seq<(Seq<char>, Option<Seq<char>>)>,
    env: Seq<(Seq<char>, Seq<char>)>,
) -> Seq<(Seq<char>, ExpansionModel)>
    decreases hosts.len(),
{
    if hosts.len() == 0 {
        Seq::empty()
    } else {
        let before = host_results(hosts.drop_last(), declared, env);
        let host = hosts.last();
        if has_open_delimiter(host) {
            before.push((host, expand_field_spec(host, declared, env)))
        } else {
            before
        }
    }
}

/// The outcomes for one component: its config fields first, then its
/// outbound hosts.
pub open spec fn expand_component_spec(
    c: ComponentModel,
    declared: Seq<(Seq<char>, Option<Seq<char>>)>,
    env: Seq<(Seq<char>, Seq<char>)>,
) -> ComponentExpansionModel {
    ComponentExpansionModel {
        id: c.id,
        fields: config_results(c.config_fields, declared, env) + host_results(
            c.outbound_hosts,
            declared,
            env,
        ),
    }
}

/// The outcomes for the components that hold a template, in the components'
/// order. A component without any `{{` has no entry.
pub open spec fn expand_all_spec(
    components: Seq<ComponentModel>,
    declared: Seq<(Seq<char>, Option<Seq<char>>)>,
    env: Seq<(Seq<char>, Seq<char>)>,
) -> Seq<ComponentExpansionModel>
    decreases components.len(),
{
    if components.len() == 0 {
        Seq::empty()
    } else {
        let before = expand_all_spec(components.drop_last(), declared, env);
        let c = components.last();
        if has_template(c) {
            before.push(expand_component_spec(c, declared, env))
        } else {
            before
        }
    }
}

/// True exactly when some config value or outbound host of the component
/// holds `{{`.
pub fn is_candidate(c: &ComponentDescriptor) -> (r: bool)
    ensures
        r == has_template(c.deep_view()),
{
    let ghost m = c.deep_view();
    let mut i: usize = 0;
    while i < c.config_fields.len()
        invariant
            i <= c.config_fields@.len(),
            m == c.deep_view(),
            forall|j: int| 0 <= j < i ==> !has_open_delimiter(#[trigger] m.config_fields[j].1),
        decreases c.config_fields@.len() - i,
    {
        if contains_open_delimiter(c.config_fields[i].1.as_str()) {
            assert(has_open_delimiter(m.config_fields[i as int].1));
            return true;
        }
        i += 1;
    }
    let mut k: usize = 0;
    while k < c.outbound_hosts.len()
        invariant
            k <= c.outbound_hosts@.len(),
            m == c.deep_view(),
            forall|j: int|
                0 <= j < m.config_fields.len() ==> !has_open_delimiter(
                    #[trigger] m.config_fields[j].1,
                ),
            forall|j: int| 0 <= j < k ==> !has_open_delimiter(#[trigger] m.outbound_hosts[j]),
        decreases c.outbound_hosts@.len() - k,
    {
        if contains_open_delimiter(c.outbound_hosts[k].as_str()) {
            assert(has_open_delimiter(m.outbound_hosts[k as int]));
            return true;
        }
        k += 1;
    }
    false
}

/// Expands the fields of one component: every config field, then every
/// outbound host that holds `{{`. Each outcome depends on its own field only.
pub fn expand_component(
    c: &ComponentDescriptor,
    resolver: &Resolver,
    env: &Vec<(String, String)>,
) -> (r: ComponentExpansion)
    ensures
        r.deep_view() == expand_component_spec(
            c.deep_view(),
            resolver.deep_view(),
            env.deep_view(),
        ),
{
    let ghost m = c.deep_view();
    let ghost declared = resolver.deep_view();
    let ghost entries = env.deep_view();
    let mut fields: Vec<(String, ExpansionResult)> = Vec::new();
    let mut i: usize = 0;
    while i < c.config_fields.len()
        invariant
            i <= c.config_fields@.len(),
            m == c.deep_view(),
            declared == resolver.deep_view(),
            entries == env.deep_view(),
            fields.deep_view() == config_results(m.config_fields.take(i as int), declared, entries),
        decreases c.config_fields@.len() - i,
    {
        let entry = &c.config_fields[i];
        let outcome = expand_field(entry.1.as_str(), resolver, env);
        let ghost before = fields.deep_view();
        let ghost added = (entry.0@, outcome.deep_view());
        assert(m.config_fields[i as int] == (entry.0@, entry.1@));
        fields.push((entry.0.clone(), outcome));
        assert(fields.deep_view() =~= before.push(added));
        i += 1;
        assert(fields.deep_view() =~= config_results(
            m.config_fields.take(i as int),
            declared,
            entries,
        ));
    }
    assert(m.config_fields.take(i as int) =~= m.config_fields);
    let ghost config = fields.deep_view();
    let mut k: usize = 0;
    assert(fields.deep_view() =~= config + host_results(
        m.outbound_hosts.take(0),
        declared,
        entries,
    ));
    while k < c.outbound_hosts.len()
        invariant
            k <= c.outbound_hosts@.len(),
            m == c.deep_view(),
            declared == resolver.deep_view(),
            entries == env.deep_view(),
            config == config_results(m.config_fields, declared, entries),
            fields.deep_view() == config + host_results(
                m.outbound_hosts.take(k as int),
                declared,
                entries,
            ),
        decreases c.outbound_hosts@.len() - k,
    {
        let host = &c.outbound_hosts[k];
        proof {
            assert(m.outbound_hosts.take(k + 1).drop_last() =~= m.outbound_hosts.take(k as int));
        }
        assert(m.outbound_hosts[k as int] == host@);
        if contains_open_delimiter(host.as_str()) {
            let outcome = expand_field(host.as_str(), resolver, env);
            let ghost before = fields.deep_view();
            let ghost added = (host@, outcome.deep_view());
            fields.push((host.clone(), outcome));
            assert(fields.deep_view() =~= before.push(added));
        }
        k += 1;
        assert(fields.deep_view() =~= config + host_results(
            m.outbound_hosts.take(k as int),
            declared,
            entries,
        ));
    }
    assert(m.outbound_hosts.take(k as int) =~= m.outbound_hosts);
    ComponentExpansion { id: c.id.clone(), fields }
}

/// Expands the fields of every component that holds a template, in the
/// components' order. No field's failure stops another's expansion.
pub fn expand_all(
    components: &Vec<ComponentDescriptor>,
    resolver: &Resolver,
    env: &Vec<(String, String)>,
) -> (r: Vec<ComponentExpansion>)
    ensures
        r.deep_view() == expand_all_spec(
            components.deep_view(),
            resolver.deep_view(),
            env.deep_view(),
        ),
{
    let ghost all = components.deep_view();
    let ghost declared = resolver.deep_view();
    let ghost entries = env.deep_view();
    let mut r: Vec<ComponentExpansion> = Vec::new();
    let mut i: usize = 0;
    assert(r.deep_view() =~= expand_all_spec(all.take(0), declared, entries));
    while i < components.len()
        invariant
            i <= components@.len(),
            all == components.deep_view(),
            declared == resolver.deep_view(),
            entries == env.deep_view(),
            r.deep_view() == expand_all_spec(all.take(i as int), declared, entries),
        decreases components@.len() - i,
    {
        let c = &components[i];
        proof {
            assert(all.take(i + 1).drop_last() =~= all.take(i as int));
        }
        assert(all[i as int] == c.deep_view());
        if is_candidate(c) {
            let expansion = expand_component(c, resolver, env);
            let ghost before = r.deep_view();
            let ghost added = expansion.deep_view();
            r.push(expansion);
            assert(r.deep_view() =~= before.push(added));
        }
        i += 1;
        assert(r.deep_view() =~= expand_all_spec(all.take(i as int), declared, entries));
    }
    assert(all.take(i as int) =~= all);
    r
}

/// A text in which neither `{{` nor `}}` occurs expands to itself, whatever
/// the variables and the environment.
pub proof fn lemma_plain_text_expands_to_itself(
    raw: Seq<char>,
    declared: Seq<(Seq<char>, Option<Seq<char>>)>,
    env: Seq<(Seq<char>, Seq<char>)>,
)
    requires
        no_pair_from(raw, '{', 0),
        no_pair_from(raw, '}', 0),
    ensures
        expand_field_spec(raw, declared, env) == ExpansionModel::Value(raw),
{
    lemma_parse_plain_text(raw);
    let parts = literal_parts(raw);
    if raw.len() == 0 {
        assert(raw =~= Seq::<char>::empty());
    } else {
        assert(parts.drop_last() =~= Seq::<PartModel>::empty());
        assert(expand_spec(parts.drop_last(), declared, env) == Ok::<Seq<char>, ResolveError>(
            Seq::empty(),
        ));
        assert(Seq::<char>::empty() + raw =~= raw);
    }
}

/// A template with a key that has no value expands to an error, and the
/// error marker is what is shown for it.
pub proof fn lemma_unresolved_key_is_error(
    parts: Seq<PartModel>,
    declared: Seq<(Seq<char>, Option<Seq<char>>)>,
    env: Seq<(Seq<char>, Seq<char>)>,
    i: int,
)
    requires
        0 <= i < parts.len(),
        parts[i] is Key,
        resolve_spec(declared, env, parts[i]->Key_0) is Err,
    ensures
        expand_spec(parts, declared, env) is Err,
        forall|raw: Seq<char>|
            parse_spec(raw) == Ok::<Seq<PartModel>, TemplateSyntaxError>(parts) ==> displayed(
                #[trigger] expand_field_spec(raw, declared, env),
            ) == error_marker(),
{
    assert(parts.take(i + 1).drop_last() =~= parts.take(i));
    assert(parts.take(i + 1).last() == parts[i]);
    lemma_expand_error_persists(parts, declared, env, i + 1);
}

/// Every entry for an outbound host stands for a host that holds `{{`;
/// a host without it adds no entry.
pub proof fn lemma_host_entries_hold_a_placeholder(
    hosts: Seq<Seq<char>>,
    declared: Seq<(Seq<char>, Option<Seq<char>>)>,
    env: Seq<(Seq<char>, Seq<char>)>,
)
    ensures
        host_results(hosts, declared, env).len() <= hosts.len(),
        forall|k: int|
            0 <= k < host_results(hosts, declared, env).len() ==> has_open_delimiter(
                #[trigger] host_results(hosts, declared, env)[k].0,
            ),
        (forall|j: int| 0 <= j < hosts.len() ==> !has_open_delimiter(#[trigger] hosts[j]))
            ==> host_results(hosts, declared, env).len() == 0,
    decreases hosts.len(),
{
    if hosts.len() > 0 {
        lemma_host_entries_hold_a_placeholder(hosts.drop_last(), declared, env);
    }
}

/// The outcome for a config field depends on that field alone: two
/// components that agree on the field at `i` agree on the outcome at `i`,
/// whatever their other fields hold.
pub proof fn lemma_config_fields_independent(
    c1: ComponentModel,
    c2: ComponentModel,
    declared: Seq<(Seq<char>, Option<Seq<char>>)>,
    env: Seq<(Seq<char>, Seq<char>)>,
    i: int,
)
    requires
        0 <= i < c1.config_fields.len(),
        0 <= i < c2.config_fields.len(),
        c1.config_fields[i] == c2.config_fields[i],
    ensures
        expand_component_spec(c1, declared, env).fields[i] == expand_component_spec(
            c2,
            declared,
            env,
        ).fields[i],
        expand_component_spec(c1, declared, env).fields[i] == (
            c1.config_fields[i].0,
            expand_field_spec(c1.config_fields[i].1, declared, env),
        ),
{
}

} // verus!
