//! The provider chain: an environment override first, the declared default second.

use crate::env_provider::{env_override, EnvProvider};
use crate::variable::{copy_optional, distinct_names, VariableInfo, VariableModel};
use vstd::prelude::*;

verus! {

/// Why a key has no value.
#[derive(Debug, Clone, Copy, PartialEq, Eq, Structural)]
pub enum ResolveError {
    /// No variable of that name is declared.
    UnknownKey,
    /// The variable is declared, but no provider has a value for it and it
    /// has no default.
    MissingValue,
    /// A provider failed before any provider had a value.
    ProviderFailed,
}

/// What one provider says of a key.
#[derive(Debug, Clone, PartialEq, Eq)]
pub enum ProviderAnswer {
    /// The provider has this value.
    Found(String),
    /// The provider has no value; the next one is asked.
    NotFound,
    /// The provider could not answer.
    Failed,
}

/// The mathematical value of a `ProviderAnswer`.
pub enum ProviderAnswerModel {
    Found(Seq<char>),
    NotFound,
    Failed,
}

impl DeepView for ProviderAnswer {
    type V = ProviderAnswerModel;

    open spec fn deep_view(&self) -> ProviderAnswerModel {
        match self {
            ProviderAnswer::Found(v) => ProviderAnswerModel::Found(v@),
            ProviderAnswer::NotFound => ProviderAnswerModel::NotFound,
            ProviderAnswer::Failed => ProviderAnswerModel::Failed,
        }
    }
}

/// The declared variables as the resolver holds them: each key with its default.
#[derive(Debug, Clone, PartialEq, Eq)]
pub struct Resolver {
    pub declared: Vec<(String, Option<String>)>,
}

impl DeepView for Resolver {
    type V = Seq<(Seq<char>, Option<Seq<char>>)>;

    open spec fn deep_view(&self) -> Self::V {
        self.declared.deep_view()
    }
}

/// The default of the first declaration of `key` at or after position `from`;
/// `None` when `key` is not declared there.
pub open spec fn declared_default_from(
    declared: Seq<(Seq<char>, Option<Seq<char>>)>,
    key: Seq<char>,
    from: int,
) -> Option<Option<Seq<char>>>
    decreases declared.len() - from,
{
    if from < 0 || from >= declared.len() {
        None
    } else if declared[from].0 == key {
        Some(declared[from].1)
    } else {
        declared_default_from(declared, key, from + 1)
    }
}

/// The first answer at or after position `from` that is not `NotFound`, in
/// the providers' order of precedence; `NotFound` when there is none.
pub open spec fn first_answer_from(
    answers: Seq<ProviderAnswerModel>,
    from: int,
) -> ProviderAnswerModel
    decreases answers.len() - from,
{
    if from < 0 || from >= answers.len() {
        ProviderAnswerModel::NotFound
    } else {
        match answers[from] {
            ProviderAnswerModel::NotFound => first_answer_from(answers, from + 1),
            answer => answer,
        }
    }
}

/// The effective value of `key`, given what each provider says of it: an
/// error when the key is not declared; else what the first provider that has
/// a value or fails says; else the declared default; else an error.
pub open spec fn resolve_with_spec(
    declared: Seq<(Seq<char>, Option<Seq<char>>)>,
    answers: Seq<ProviderAnswerModel>,
    key: Seq<char>,
) -> Result<Seq<char>, ResolveError> {
    match declared_default_from(declared, key, 0) {
        None => Err(ResolveError::UnknownKey),
        Some(default_value) => match first_answer_from(answers, 0) {
            ProviderAnswerModel::Found(v) => Ok(v),
            ProviderAnswerModel::Failed => Err(ResolveError::ProviderFailed),
            ProviderAnswerModel::NotFound => match default_value {
                Some(d) => Ok(d),
                None => Err(ResolveError::MissingValue),
            },
        },
    }
}

/// What the environment provider says of `key`.
pub open spec fn env_answer(env: Seq<(Seq<char>, Seq<char>)>, key: Seq<char>) -> ProviderAnswerModel {
    match env_override(env, key) {
        Some(v) => ProviderAnswerModel::Found(v),
        None => ProviderAnswerModel::NotFound,
    }
}

/// The effective value of `key` with the environment as the only provider:
/// an error when the key is not declared; else the environment override when
/// there is one; else the declared default; else an error.
pub open spec fn resolve_spec(
    declared: Seq<(Seq<char>, Option<Seq<char>>)>,
    env: Seq<(Seq<char>, Seq<char>)>,
    key: Seq<char>,
) -> Result<Seq<char>, ResolveError> {
    match declared_default_from(declared, key, 0) {
        None => Err(ResolveError::UnknownKey),
        Some(default_value) => match env_override(env, key) {
            Some(v) => Ok(v),
            None => match default_value {
                Some(d) => Ok(d),
                None => Err(ResolveError::MissingValue),
            },
        },
    }
}

/// The keys and defaults of a registry, in its order.
pub open spec fn declared_of(variables: Seq<VariableModel>) -> Seq<(Seq<char>, Option<Seq<char>>)> {
    Seq::new(variables.len(), |i: int| (variables[i].name, variables[i].default_value))
}

/// The view of a `Result` that holds a string.
pub open spec fn result_view(r: Result<String, ResolveError>) -> Result<Seq<char>, ResolveError> {
    match r {
        Ok(s) => Ok(s@),
        Err(e) => Err(e),
    }
}

impl Resolver {
    /// A resolver for the variables of a registry. It holds each variable's
    /// key and default, in the registry's order; an empty registry gives an
    /// empty resolver.
    pub fn new(variables: &Vec<VariableInfo>) -> (r: Resolver)
        ensures
            r.deep_view() == declared_of(variables.deep_view()),
    {
        let mut declared: Vec<(String, Option<String>)> = Vec::new();
        let mut i: usize = 0;
        while i < variables.len()
            invariant
                i <= variables@.len(),
                declared@.len() == i,
                forall|j: int|
                    0 <= j < i ==> (#[trigger] declared@[j]).deep_view() == (
                        variables@[j].name@,
                        variables@[j].default_value.deep_view(),
                    ),
            decreases variables@.len() - i,
        {
            let v = &variables[i];
            declared.push((v.name.clone(), copy_optional(&v.default_value)));
            i += 1;
        }
        let r = Resolver { declared };
        assert(r.deep_view() =~= declared_of(variables.deep_view()));
        r
    }

    /// The default of the first declaration of `key`; `None` when the key is
    /// not declared.
    pub fn declared_default(&self, key: &str) -> (r: Option<Option<String>>)
        ensures
            r.deep_view() == declared_default_from(self.deep_view(), key@, 0),
    {
        let ghost model = self.deep_view();
        let wanted: String = key.to_owned();
        let mut i: usize = 0;
        while i < self.declared.len()
            invariant
                i <= self.declared@.len(),
                model == self.deep_view(),
                wanted@ == key@,
                declared_default_from(model, key@, 0) == declared_default_from(
                    model,
                    key@,
                    i as int,
                ),
            decreases self.declared@.len() - i,
        {
            if self.declared[i].0 == wanted {
                return Some(copy_optional(&self.declared[i].1));
            }
            i += 1;
        }
        None
    }

    /// The effective value of `key`, given what each provider says of it, in
    /// the providers' order of precedence. The first provider that has a
    /// value or fails decides; the declared default stands behind them all.
    pub fn resolve_with(&self, key: &str, answers: &Vec<ProviderAnswer>) -> (r: Result<
        String,
        ResolveError,
    >)
        ensures
            result_view(r) == resolve_with_spec(self.deep_view(), answers.deep_view(), key@),
    {
        match self.declared_default(key) {
            None => Err(ResolveError::UnknownKey),
            Some(default_value) => {
                let ghost model = answers.deep_view();
                let mut i: usize = 0;
                while i < answers.len()
                    invariant
                        i <= answers@.len(),
                        model == answers.deep_view(),
                        declared_default_from(self.deep_view(), key@, 0) is Some,
                        first_answer_from(model, 0) == first_answer_from(model, i as int),
                    decreases answers@.len() - i,
                {
                    assert(model[i as int] == answers@[i as int].deep_view());
                    match &answers[i] {
                        ProviderAnswer::Found(v) => {
                            return Ok(v.clone());
                        },
                        ProviderAnswer::Failed => {
                            return Err(ResolveError::ProviderFailed);
                        },
                        ProviderAnswer::NotFound => {},
                    }
                    i += 1;
                }
                match default_value {
                    Some(d) => Ok(d),
                    None => Err(ResolveError::MissingValue),
                }
            },
        }
    }

    /// The effective value of `key` under the environment snapshot `env`.
    pub fn resolve(&self, key: &str, env: &Vec<(String, String)>) -> (r: Result<
        String,
        ResolveError,
    >)
        ensures
            result_view(r) == resolve_spec(self.deep_view(), env.deep_view(), key@),
    {
        match self.declared_default(key) {
            None => Err(ResolveError::UnknownKey),
            Some(default_value) => {
                let provider = EnvProvider;
                match provider.get(key, env) {
                    Some(v) => Ok(v),
                    None => match default_value {
                        Some(d) => Ok(d),
                        None => Err(ResolveError::MissingValue),
                    },
                }
            },
        }
    }
}

/// A key that is declared somewhere at or after `from` is found from there.
pub proof fn lemma_declared_is_found(
    declared: Seq<(Seq<char>, Option<Seq<char>>)>,
    key: Seq<char>,
    from: int,
    i: int,
)
    requires
        0 <= from <= i < declared.len(),
        declared[i].0 == key,
    ensures
        declared_default_from(declared, key, from) is Some,
    decreases i - from,
{
    if from < i && declared[from].0 != key {
        lemma_declared_is_found(declared, key, from + 1, i);
    }
}

/// The lookup of the key at `i` gives the default at `i`, where no earlier
/// declaration from `from` on has the same key.
pub proof fn lemma_first_declaration_is_found(
    declared: Seq<(Seq<char>, Option<Seq<char>>)>,
    from: int,
    i: int,
)
    requires
        0 <= from <= i < declared.len(),
        forall|j: int| from <= j < i ==> declared[j].0 != declared[i].0,
    ensures
        declared_default_from(declared, declared[i].0, from) == Some(declared[i].1),
    decreases i - from,
{
    if from < i {
        lemma_first_declaration_is_found(declared, from + 1, i);
    }
}

/// A variable of a registry that has a default and no environment override
/// resolves to its default.
pub proof fn lemma_default_without_override(
    variables: Seq<VariableModel>,
    env: Seq<(Seq<char>, Seq<char>)>,
    i: int,
    default_value: Seq<char>,
)
    requires
        distinct_names(variables),
        0 <= i < variables.len(),
        variables[i].default_value == Some(default_value),
        env_override(env, variables[i].name) is None,
    ensures
        resolve_spec(declared_of(variables), env, variables[i].name) == Ok::<
            Seq<char>,
            ResolveError,
        >(default_value),
{
    lemma_first_declaration_is_found(declared_of(variables), 0, i);
}

/// A variable of a registry that has an environment override resolves to the
/// override, whatever its default.
pub proof fn lemma_override_wins(
    variables: Seq<VariableModel>,
    env: Seq<(Seq<char>, Seq<char>)>,
    i: int,
    value: Seq<char>,
)
    requires
        0 <= i < variables.len(),
        env_override(env, variables[i].name) == Some(value),
    ensures
        resolve_spec(declared_of(variables), env, variables[i].name) == Ok::<
            Seq<char>,
            ResolveError,
        >(value),
{
    lemma_declared_is_found(declared_of(variables), variables[i].name, 0, i);
}

/// A variable of a registry that has neither an environment override nor a
/// default has no value; a key that the registry does not declare is unknown.
pub proof fn lemma_resolution_errors(
    variables: Seq<VariableModel>,
    env: Seq<(Seq<char>, Seq<char>)>,
    key: Seq<char>,
)
    ensures
        (forall|i: int| 0 <= i < variables.len() ==> variables[i].name != key) ==> resolve_spec(
            declared_of(variables),
            env,
            key,
        ) == Err::<Seq<char>, ResolveError>(ResolveError::UnknownKey),
        forall|i: int|
            distinct_names(variables) && 0 <= i < variables.len() && variables[i].name == key
                && variables[i].default_value is None && env_override(env, key) is None
                ==> resolve_spec(declared_of(variables), env, key) == Err::<
                Seq<char>,
                ResolveError,
            >(ResolveError::MissingValue),
{
    if forall|i: int| 0 <= i < variables.len() ==> variables[i].name != key {
        lemma_undeclared_is_not_found(declared_of(variables), key, 0);
    }
    assert forall|i: int|
        distinct_names(variables) && 0 <= i < variables.len() && variables[i].name == key
            && variables[i].default_value is None && env_override(env, key) is None implies
        resolve_spec(declared_of(variables), env, key) == Err::<Seq<char>, ResolveError>(
            ResolveError::MissingValue,
        ) by {
        lemma_first_declaration_is_found(declared_of(variables), 0, i);
    }
}

/// A key that no declaration from `from` on has is not found from there.
pub proof fn lemma_undeclared_is_not_found(
    declared: Seq<(Seq<char>, Option<Seq<char>>)>,
    key: Seq<char>,
    from: int,
)
    requires
        0 <= from,
        forall|j: int| from <= j < declared.len() ==> declared[j].0 != key,
    ensures
        declared_default_from(declared, key, from) is None,
    decreases declared.len() - from,
{
    if from < declared.len() {
        lemma_undeclared_is_not_found(declared, key, from + 1);
    }
}

/// With the environment as the only provider, the chain of providers gives
/// what `resolve_spec` gives.
pub proof fn lemma_env_is_a_chain_of_one(
    declared: Seq<(Seq<char>, Option<Seq<char>>)>,
    env: Seq<(Seq<char>, Seq<char>)>,
    key: Seq<char>,
)
    ensures
        resolve_with_spec(declared, seq![env_answer(env, key)], key) == resolve_spec(
            declared,
            env,
            key,
        ),
{
    let answers = seq![env_answer(env, key)];
    assert(first_answer_from(answers, 1) == ProviderAnswerModel::NotFound);
    assert(answers[0] == env_answer(env, key));
}

/// Where a provider fails for a declared key and no provider before it has
/// a value, the key has the provider's failure as its error.
pub proof fn lemma_failure_stays_with_its_key(
    declared: Seq<(Seq<char>, Option<Seq<char>>)>,
    answers: Seq<ProviderAnswerModel>,
    key: Seq<char>,
    i: int,
)
    requires
        0 <= i < answers.len(),
        answers[i] is Failed,
        forall|j: int| 0 <= j < i ==> answers[j] is NotFound,
        declared_default_from(declared, key, 0) is Some,
    ensures
        resolve_with_spec(declared, answers, key) == Err::<Seq<char>, ResolveError>(
            ResolveError::ProviderFailed,
        ),
{
    lemma_first_answer_skips(answers, 0, i);
}

/// Where every answer in `from..to` is `NotFound`, the first answer from
/// `from` is the first answer from `to`.
pub proof fn lemma_first_answer_skips(answers: Seq<ProviderAnswerModel>, from: int, to: int)
    requires
        0 <= from <= to <= answers.len(),
        forall|j: int| from <= j < to ==> answers[j] is NotFound,
    ensures
        first_answer_from(answers, from) == first_answer_from(answers, to),
    decreases to - from,
{
    if from < to {
        lemma_first_answer_skips(answers, from + 1, to);
    }
}

/// A resolver built from no variables knows no key: every lookup reports an
/// unknown key, and none fails otherwise.
pub proof fn lemma_empty_resolver(env: Seq<(Seq<char>, Seq<char>)>, key: Seq<char>)
    ensures
        declared_of(Seq::<VariableModel>::empty()).len() == 0,
        resolve_spec(declared_of(Seq::<VariableModel>::empty()), env, key) == Err::<
            Seq<char>,
            ResolveError,
        >(ResolveError::UnknownKey),
{
}

} // verus!
