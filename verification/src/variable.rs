//! Variable declarations and the two ways a registry of them is derived.

use vstd::prelude::*;

verus! {

/// One declared configuration variable.
#[derive(Debug, Clone, PartialEq, Eq)]
pub struct VariableInfo {
    pub name: String,
    pub default_value: Option<String>,
    pub required: bool,
    pub secret: bool,
}

/// The mathematical value of a `VariableInfo`.
pub struct VariableModel {
    pub name: Seq<char>,
    pub default_value: Option<Seq<char>>,
    pub required: bool,
    pub secret: bool,
}

impl DeepView for VariableInfo {
    type V = VariableModel;

    open spec fn deep_view(&self) -> VariableModel {
        VariableModel {
            name: self.name@,
            default_value: self.default_value.deep_view(),
            required: self.required,
            secret: self.secret,
        }
    }
}

/// True when no two declarations of a registry have the same name.
pub open spec fn distinct_names(variables: Seq<VariableModel>) -> bool {
    forall|i: int, j: int|
        0 <= i < j < variables.len() ==> (#[trigger] variables[i]).name != (
        #[trigger] variables[j]).name
}

/// True when a declaration is required exactly when it has no default.
pub open spec fn required_iff_no_default(v: VariableModel) -> bool {
    v.required == (v.default_value is None)
}

/// The attributes of a variable as a locally authored manifest declares them.
#[derive(Debug, Clone, PartialEq, Eq)]
pub struct DeclaredVariable {
    pub default_value: Option<String>,
    pub required: bool,
    pub secret: bool,
}

/// The attributes of a variable as a locked application records them.
#[derive(Debug, Clone, PartialEq, Eq)]
pub struct LockedVariable {
    pub default_value: Option<String>,
    pub secret: bool,
}

/// The declaration that a locally authored manifest entry stands for: every
/// attribute is taken as declared.
pub open spec fn declared_model(name: Seq<char>, v: DeclaredVariable) -> VariableModel {
    VariableModel {
        name,
        default_value: v.default_value.deep_view(),
        required: v.required,
        secret: v.secret,
    }
}

/// The declaration that a locked application entry stands for: a variable is
/// required exactly when it has no default.
pub open spec fn locked_model(name: Seq<char>, v: LockedVariable) -> VariableModel {
    VariableModel {
        name,
        default_value: v.default_value.deep_view(),
        required: v.default_value is None,
        secret: v.secret,
    }
}

/// A copy of an optional string.
pub fn copy_optional(s: &Option<String>) -> (r: Option<String>)
    ensures
        r.deep_view() == s.deep_view(),
{
    match s {
        Some(t) => Some(t.clone()),
        None => None,
    }
}

/// The registry of a locally authored manifest: one declaration per entry, in
/// the manifest's order, with the attributes as declared.
pub fn variables_from_toml(declared: &Vec<(String, DeclaredVariable)>) -> (r: Vec<VariableInfo>)
    ensures
        r@.len() == declared@.len(),
        forall|i: int|
            0 <= i < declared@.len() ==> (#[trigger] r@[i]).deep_view() == declared_model(
                declared@[i].0@,
                declared@[i].1,
            ),
{
    let mut r: Vec<VariableInfo> = Vec::new();
    let mut i: usize = 0;
    while i < declared.len()
        invariant
            i <= declared@.len(),
            r@.len() == i,
            forall|j: int|
                0 <= j < i ==> (#[trigger] r@[j]).deep_view() == declared_model(
                    declared@[j].0@,
                    declared@[j].1,
                ),
        decreases declared@.len() - i,
    {
        let entry = &declared[i];
        r.push(
            VariableInfo {
                name: entry.0.clone(),
                default_value: copy_optional(&entry.1.default_value),
                required: entry.1.required,
                secret: entry.1.secret,
            },
        );
        i += 1;
    }
    r
}

/// The registry of a locked application: one declaration per entry, in the
/// application's order, each required exactly when it has no default.
pub fn variables_from_registry_app(locked: &Vec<(String, LockedVariable)>) -> (r: Vec<
    VariableInfo,
>)
    ensures
        r@.len() == locked@.len(),
        forall|i: int|
            0 <= i < locked@.len() ==> (#[trigger] r@[i]).deep_view() == locked_model(
                locked@[i].0@,
                locked@[i].1,
            ),
        forall|i: int| 0 <= i < r@.len() ==> required_iff_no_default((#[trigger] r@[i]).deep_view()),
{
    let mut r: Vec<VariableInfo> = Vec::new();
    let mut i: usize = 0;
    while i < locked.len()
        invariant
            i <= locked@.len(),
            r@.len() == i,
            forall|j: int|
                0 <= j < i ==> (#[trigger] r@[j]).deep_view() == locked_model(
                    locked@[j].0@,
                    locked@[j].1,
                ),
            forall|j: int|
                0 <= j < i ==> required_iff_no_default((#[trigger] r@[j]).deep_view()),
        decreases locked@.len() - i,
    {
        let entry = &locked[i];
        let default_value = copy_optional(&entry.1.default_value);
        r.push(
            VariableInfo {
                name: entry.0.clone(),
                required: default_value.is_none(),
                default_value,
                secret: entry.1.secret,
            },
        );
        i += 1;
    }
    r
}

} // verus!
