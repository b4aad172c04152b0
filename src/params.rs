//! Build parameters: what kind each declared parameter is, how it is asked
//! for, and how an answer becomes the value submitted.
use vstd::prelude::*;
use crate::model::{JobInfo, JobProperty, JsonValue, ParameterDefinition, ParameterValue};
use crate::text::{concat2, str_eq};

verus! {

/// The kinds of parameter, decided once from the declared type.
#[derive(Debug, Clone, Copy, PartialEq, Eq, Structural)]
pub enum ParamKind {
    String,
    Boolean,
    Choice,
    Other,
}

/// The kind that a declared type names.
pub open spec fn kind_of_type(t: Seq<char>) -> ParamKind {
    if t == "BooleanParameterDefinition"@ {
        ParamKind::Boolean
    } else if t == "ChoiceParameterDefinition"@ {
        ParamKind::Choice
    } else if t == "StringParameterDefinition"@ {
        ParamKind::String
    } else {
        ParamKind::Other
    }
}

/// The kind of a declared parameter.
pub fn parameter_kind(def: &ParameterDefinition) -> (r: ParamKind)
    ensures
        r == kind_of_type(def.param_type@),
{
    let t = def.param_type.as_str();
    if str_eq(t, "BooleanParameterDefinition") {
        ParamKind::Boolean
    } else if str_eq(t, "ChoiceParameterDefinition") {
        ParamKind::Choice
    } else if str_eq(t, "StringParameterDefinition") {
        ParamKind::String
    } else {
        ParamKind::Other
    }
}

/// The declared default value, if there is one.
pub open spec fn declared_default(def: ParameterDefinition) -> Option<JsonValue> {
    match def.default_value {
        Some(d) => d.value,
        None => None,
    }
}

/// The default as text: a string as it is, a number as its JSON text,
/// nothing for any other value.
pub open spec fn default_text(def: ParameterDefinition) -> Option<Seq<char>> {
    match declared_default(def) {
        Some(JsonValue::String(s)) => Some(s@),
        Some(JsonValue::Number(n)) => Some(n@),
        _ => None,
    }
}

/// The default as a flag: only a boolean value gives one.
pub open spec fn default_flag(def: ParameterDefinition) -> Option<bool> {
    match declared_default(def) {
        Some(JsonValue::Bool(b)) => Some(b),
        _ => None,
    }
}

/// The default of a parameter as text, when it has a usable one.
pub fn extract_default_string(param_def: &ParameterDefinition) -> (r: Option<String>)
    ensures
        match r {
            Some(s) => default_text(*param_def) == Some(s@),
            None => default_text(*param_def) is None,
        },
{
    match &param_def.default_value {
        Some(d) => match &d.value {
            Some(JsonValue::String(s)) => Some(s.clone()),
            Some(JsonValue::Number(n)) => Some(n.clone()),
            _ => None,
        },
        None => None,
    }
}

/// The default of a parameter as a flag, when it declares a boolean.
pub fn extract_default_bool(param_def: &ParameterDefinition) -> (r: Option<bool>)
    ensures
        r == default_flag(*param_def),
{
    match &param_def.default_value {
        Some(d) => match &d.value {
            Some(JsonValue::Bool(b)) => Some(*b),
            _ => None,
        },
        None => None,
    }
}

/// How a parameter is asked for.
#[derive(Debug, Clone, PartialEq)]
pub enum PromptKind {
    /// Free text, with an optional default.
    Text(Option<String>),
    /// Yes or no, with a default.
    Confirm(bool),
    /// One of these choices.
    Select(Vec<String>),
}

/// A prompt for one parameter.
#[derive(Debug, Clone, PartialEq)]
pub struct ParameterPrompt {
    pub name: String,
    pub message: String,
    pub help: String,
    pub kind: PromptKind,
}

/// Why a parameter cannot be asked for.
#[derive(Debug, Clone, Copy, PartialEq, Eq, Structural)]
pub enum ParameterError {
    /// A choice parameter declares no choice list.
    MissingChoices,
    /// A choice parameter declares an empty choice list.
    NoChoices,
}

impl ParameterError {
    /// The message shown to the user.
    pub fn to_string(&self) -> (r: String)
        ensures
            *self == ParameterError::MissingChoices ==> r@
                == "ChoiceParameterDefinition missing choices"@,
            *self == ParameterError::NoChoices ==> r@
                == "ChoiceParameterDefinition has no choices"@,
    {
        match self {
            ParameterError::MissingChoices => String::from_str(
                "ChoiceParameterDefinition missing choices",
            ),
            ParameterError::NoChoices => String::from_str("ChoiceParameterDefinition has no choices"),
        }
    }
}

/// The help line: the description, when there is a non-empty one, and the
/// declared type.
pub open spec fn help_text(def: ParameterDefinition) -> Seq<char> {
    match def.description {
        Some(d) => if d@.len() > 0 {
            d@ + " (Type: "@ + def.param_type@ + ")"@
        } else {
            "Type: "@ + def.param_type@
        },
        None => "Type: "@ + def.param_type@,
    }
}

/// The characters of each string of a vector.
pub open spec fn choices_view(v: Seq<String>) -> Seq<Seq<char>> {
    v.map_values(|s: String| s@)
}

/// Decides how a parameter is asked for: a yes/no question for a boolean,
/// a selection for a choice, free text otherwise; a choice parameter
/// without choices cannot be asked for.
pub fn prompt_for_parameter(param_def: &ParameterDefinition) -> (r: Result<
    ParameterPrompt,
    ParameterError,
>)
    ensures
        kind_of_type(param_def.param_type@) == ParamKind::Choice ==> match param_def.choices {
            None => r == Err::<ParameterPrompt, ParameterError>(ParameterError::MissingChoices),
            Some(c) => c@.len() == 0 ==> r == Err::<ParameterPrompt, ParameterError>(
                ParameterError::NoChoices),
        },
        r is Ok ==> ({
            let p = r->Ok_0;
            &&& p.name@ == param_def.name@
            &&& p.help@ == help_text(*param_def)
            &&& match kind_of_type(param_def.param_type@) {
                ParamKind::Boolean => {
                    &&& p.message@ == param_def.name@ + "?"@
                    &&& p.kind == PromptKind::Confirm(
                        match default_flag(*param_def) {
                            Some(b) => b,
                            None => false,
                        },
                    )
                },
                ParamKind::Choice => {
                    &&& p.message@ == param_def.name@ + ":"@
                    &&& p.kind is Select
                    &&& param_def.choices is Some
                    &&& choices_view(p.kind->Select_0@) == choices_view(
                        param_def.choices->Some_0@,
                    )
                },
                _ => {
                    &&& p.message@ == param_def.name@ + ":"@
                    &&& p.kind is Text
                    &&& match p.kind->Text_0 {
                        Some(s) => default_text(*param_def) == Some(s@),
                        None => default_text(*param_def) is None,
                    }
                },
            }
        }),
        kind_of_type(param_def.param_type@) != ParamKind::Choice ==> r is Ok,
        kind_of_type(param_def.param_type@) == ParamKind::Choice && param_def.choices is Some
            && param_def.choices->Some_0@.len() > 0 ==> r is Ok,
{
    let help = match &param_def.description {
        Some(d) => if d.as_str().unicode_len() > 0 {
            let mut h = d.clone();
            h.append(" (Type: ");
            h.append(param_def.param_type.as_str());
            h.append(")");
            h
        } else {
            concat2("Type: ", param_def.param_type.as_str())
        },
        None => concat2("Type: ", param_def.param_type.as_str()),
    };
    let name = param_def.name.clone();
    match parameter_kind(param_def) {
        ParamKind::Boolean => {
            let default = match extract_default_bool(param_def) {
                Some(b) => b,
                None => false,
            };
            let message = concat2(param_def.name.as_str(), "?");
            Ok(ParameterPrompt { name, message, help, kind: PromptKind::Confirm(default) })
        },
        ParamKind::Choice => {
            match &param_def.choices {
                None => Err(ParameterError::MissingChoices),
                Some(c) => {
                    if c.len() == 0 {
                        return Err(ParameterError::NoChoices);
                    }
                    let choices = copy_strings(c);
                    let message = concat2(param_def.name.as_str(), ":");
                    Ok(ParameterPrompt { name, message, help, kind: PromptKind::Select(choices) })
                },
            }
        },
        _ => {
            let default = extract_default_string(param_def);
            let message = concat2(param_def.name.as_str(), ":");
            Ok(ParameterPrompt { name, message, help, kind: PromptKind::Text(default) })
        },
    }
}

fn copy_strings(v: &Vec<String>) -> (r: Vec<String>)
    ensures
        choices_view(r@) == choices_view(v@),
{
    let mut r: Vec<String> = Vec::new();
    let mut i: usize = 0;
    while i < v.len()
        invariant
            i <= v@.len(),
            r@.len() == i,
            forall|j: int| 0 <= j < i ==> (#[trigger] r@[j])@ == v@[j]@,
        decreases v@.len() - i,
    {
        r.push(v[i].clone());
        i = i + 1;
    }
    assert(choices_view(r@) =~= choices_view(v@));
    r
}

/// An answer to a parameter prompt.
#[derive(Debug, Clone, PartialEq)]
pub enum ParameterAnswer {
    Text(String),
    Flag(bool),
}

/// The literal text a flag is submitted as.
pub open spec fn flag_text(b: bool) -> Seq<char> {
    if b { "true"@ } else { "false"@ }
}

/// The value submitted for an answer: text as it is, a flag as `true` or
/// `false`.
pub fn parameter_value(name: String, answer: ParameterAnswer) -> (r: ParameterValue)
    ensures
        r.name@ == name@,
        match answer {
            ParameterAnswer::Text(t) => r.value@ == t@,
            ParameterAnswer::Flag(b) => r.value@ == flag_text(b),
        },
{
    let value = match answer {
        ParameterAnswer::Text(t) => t,
        ParameterAnswer::Flag(b) => if b {
            String::from_str("true")
        } else {
            String::from_str("false")
        },
    };
    ParameterValue { name, value }
}

/// The definitions of the first property that lists parameters; none when
/// no property does.
pub open spec fn first_definitions(props: Seq<JobProperty>) -> Seq<ParameterDefinition>
    decreases props.len(),
{
    if props.len() == 0 {
        Seq::empty()
    } else {
        match props[0].parameter_definitions {
            Some(v) => v@,
            None => first_definitions(props.drop_first()),
        }
    }
}

/// The parameters that a job declares.
pub fn job_parameters(job_info: JobInfo) -> (r: Vec<ParameterDefinition>)
    ensures
        r@ == match job_info.property {
            Some(p) => first_definitions(p@),
            None => Seq::empty(),
        },
{
    match job_info.property {
        None => Vec::new(),
        Some(props) => {
            let ghost all = props@;
            let mut rest = props;
            while rest.len() > 0
                invariant
                    first_definitions(rest@) == first_definitions(all),
                    match job_info.property {
                        Some(p) => p@ == all,
                        None => false,
                    },
                decreases rest@.len(),
            {
                let ghost before = rest@;
                let prop = rest.remove(0);
                assert(rest@ == before.drop_first());
                assert(before[0] == prop);
                match prop.parameter_definitions {
                    Some(defs) => {
                        assert(first_definitions(before) == defs@);
                        return defs;
                    },
                    None => {},
                }
            }
            Vec::new()
        },
    }
}

} // verus!
