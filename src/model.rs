//! The records that the server's JSON API describes jobs, builds and
//! parameters with, as plain values.
use vstd::prelude::*;

verus! {

/// One entry of a job listing: a job or a folder.
#[derive(Debug, Clone, PartialEq)]
pub struct SubJobInfo {
    pub name: String,
    pub url: String,
    pub color: Option<String>,
}

/// The summary of a build that a job description carries.
#[derive(Debug, Clone, PartialEq)]
pub struct BuildInfo {
    pub number: i32,
    pub url: String,
    pub result: Option<String>,
    pub building: Option<bool>,
    pub timestamp: Option<i64>,
}

/// The full description of one build.
#[derive(Debug, Clone, PartialEq)]
pub struct BuildDetails {
    pub number: i32,
    pub url: String,
    pub result: Option<String>,
    pub building: bool,
    pub timestamp: i64,
    pub duration: i64,
    pub full_display_name: String,
}

/// The description of a job; `jobs` is non-empty only for folders.
#[derive(Debug, Clone, PartialEq)]
pub struct JobInfo {
    pub name: Option<String>,
    pub url: Option<String>,
    pub color: Option<String>,
    pub buildable: Option<bool>,
    pub last_build: Option<BuildInfo>,
    pub jobs: Option<Vec<SubJobInfo>>,
    pub property: Option<Vec<JobProperty>>,
}

/// One property of a job; the one that matters here lists parameters.
#[derive(Debug, Clone, PartialEq)]
pub struct JobProperty {
    pub parameter_definitions: Option<Vec<ParameterDefinition>>,
}

/// A scalar or compound JSON value, as far as parameter defaults need it.
#[derive(Debug, Clone, PartialEq)]
pub enum JsonValue {
    Null,
    Bool(bool),
    /// A number, held as its JSON text.
    Number(String),
    String(String),
    Array,
    Object,
}

/// The default that a parameter definition declares.
#[derive(Debug, Clone, PartialEq)]
pub struct DefaultParameterValue {
    pub value: Option<JsonValue>,
}

/// A parameter that a job declares.
#[derive(Debug, Clone, PartialEq)]
pub struct ParameterDefinition {
    pub class: String,
    pub name: String,
    pub param_type: String,
    pub description: Option<String>,
    pub default_value: Option<DefaultParameterValue>,
    pub choices: Option<Vec<String>>,
}

/// One value submitted with a build, as a form field.
#[derive(Debug, Clone, PartialEq)]
pub struct ParameterValue {
    pub name: String,
    pub value: String,
}

} // verus!
