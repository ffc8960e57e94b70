//! How the node is launched: the parameters that decide which server it runs.

use vstd::prelude::*;
use vstd::string::StringExecFns;

verus! {

/// The value of a parameter, as far as a setting can use it.
#[derive(Clone, Debug, PartialEq)]
pub enum ParameterValue {
    Bool(bool),
    Text(String),
    /// A value of another type, or none.
    Other,
}

/// What a parameter says about a setting.
#[derive(Clone, Debug, PartialEq)]
pub enum Reading<T> {
    /// The parameter gives the setting.
    Given(T),
    /// The parameter is there, with a value of the wrong type.
    WrongType,
    /// The parameter is not there.
    Missing,
}

/// The server that the node runs.
#[derive(Clone, Debug, PartialEq)]
pub enum Launch {
    /// The one that asks the simulator, with a prefix for the frames of the robot.
    Simulation { prefix: String },
    /// The one that asks the driver, with a pattern for the files of the templates.
    UrScript { templates: String },
}

/// What the parameter says about a setting that is on or off.
pub open spec fn bool_reading(parameter: Option<ParameterValue>) -> Reading<bool> {
    match parameter {
        Some(ParameterValue::Bool(value)) => Reading::Given(value),
        Some(_) => Reading::WrongType,
        None => Reading::Missing,
    }
}

/// What the parameter says about a setting that is a text.
pub open spec fn text_reading(parameter: Option<ParameterValue>) -> Reading<Seq<char>> {
    match parameter {
        Some(ParameterValue::Text(value)) => Reading::Given(value@),
        Some(_) => Reading::WrongType,
        None => Reading::Missing,
    }
}

/// The setting, or what holds where none is given.
pub open spec fn setting<T>(reading: Reading<T>, otherwise: T) -> T {
    match reading {
        Reading::Given(value) => value,
        _ => otherwise,
    }
}

/// The pattern of the files of the templates below a directory.
pub open spec fn template_files(directory: Seq<char>) -> Seq<char> {
    directory + "/templates/*.script"@
}

/// The parameters ask for this server.
pub open spec fn launches(
    simple_robot_simulator: Option<ParameterValue>,
    prefix: Option<ParameterValue>,
    templates_path: Option<ParameterValue>,
    launch: Launch,
) -> bool {
    match launch {
        Launch::Simulation { prefix: p } => setting(bool_reading(simple_robot_simulator), true)
            && p@ == setting(text_reading(prefix), Seq::empty()),
        Launch::UrScript { templates } => !setting(bool_reading(simple_robot_simulator), true)
            && templates@ == template_files(setting(text_reading(templates_path), Seq::empty())),
    }
}

/// What the parameter says about a setting that is on or off.
pub fn read_bool(parameter: &Option<ParameterValue>) -> (reading: Reading<bool>)
    ensures
        reading == bool_reading(*parameter),
{
    match parameter {
        Some(ParameterValue::Bool(value)) => Reading::Given(*value),
        Some(_) => Reading::WrongType,
        None => Reading::Missing,
    }
}

/// What the parameter says about a setting that is a text.
pub fn read_text(parameter: &Option<ParameterValue>) -> (reading: Reading<String>)
    ensures
        match reading {
            Reading::Given(value) => text_reading(*parameter) == Reading::Given(value@),
            Reading::WrongType => text_reading(*parameter) is WrongType,
            Reading::Missing => text_reading(*parameter) is Missing,
        },
{
    match parameter {
        Some(ParameterValue::Text(value)) => Reading::Given(value.clone()),
        Some(_) => Reading::WrongType,
        None => Reading::Missing,
    }
}

/// The text of a setting; the empty text where none is given.
pub fn text_or_empty(parameter: &Option<ParameterValue>) -> (text: String)
    ensures
        text@ == setting(text_reading(*parameter), Seq::empty()),
{
    match read_text(parameter) {
        Reading::Given(value) => value,
        _ => String::new(),
    }
}

/// Whether the simulator is to be used; it is unless a parameter says no.
pub fn uses_simulator(parameter: &Option<ParameterValue>) -> (simple: bool)
    ensures
        simple == setting(bool_reading(*parameter), true),
{
    match read_bool(parameter) {
        Reading::Given(value) => value,
        _ => true,
    }
}

/// The pattern of the files of the templates below a directory.
pub fn templates_pattern(directory: &str) -> (pattern: String)
    ensures
        pattern@ == template_files(directory@),
{
    directory.to_string().concat("/templates/*.script")
}

/// The server that the parameters ask for. The prefix serves the simulation alone, and the
/// directory of the templates the scripts alone.
pub fn launch(
    simple_robot_simulator: &Option<ParameterValue>,
    prefix: &Option<ParameterValue>,
    templates_path: &Option<ParameterValue>,
) -> (launch: Launch)
    ensures
        launches(*simple_robot_simulator, *prefix, *templates_path, launch),
{
    match uses_simulator(simple_robot_simulator) {
        true => Launch::Simulation { prefix: text_or_empty(prefix) },
        false => Launch::UrScript {
            templates: templates_pattern(text_or_empty(templates_path).as_str()),
        },
    }
}

/// A parameter gives a setting exactly where it is there with a value of the right type, and then
/// it gives that value.
pub proof fn law_readings(parameter: Option<ParameterValue>, flag: bool, text: String)
    ensures
        bool_reading(parameter) == Reading::Given(flag) <==> parameter == Some(
            ParameterValue::Bool(flag),
        ),
        parameter == Some(ParameterValue::Text(text)) ==> text_reading(parameter)
            == Reading::Given(text@),
        text_reading(parameter) is Given <==> parameter is Some && parameter->Some_0 is Text,
        bool_reading(parameter) is Missing <==> parameter is None,
        text_reading(parameter) is Missing <==> parameter is None,
{
}

/// The simulation gets the prefix that is given, letter for letter, and none where none is. The
/// scripts come from the files below the directory that is given, and below the root where none is.
pub proof fn law_launch_takes_its_own_parameter(
    simple_robot_simulator: Option<ParameterValue>,
    prefix: Option<ParameterValue>,
    templates_path: Option<ParameterValue>,
    launch: Launch,
)
    requires
        launches(simple_robot_simulator, prefix, templates_path, launch),
    ensures
        launch is UrScript <==> simple_robot_simulator == Some(ParameterValue::Bool(false)),
        launch is Simulation ==> (prefix matches Some(ParameterValue::Text(text))
            ==> launch->prefix@ == text@),
        launch is Simulation ==> (!(prefix matches Some(ParameterValue::Text(_)))
            ==> launch->prefix@ == Seq::<char>::empty()),
        launch is UrScript ==> (templates_path matches Some(ParameterValue::Text(text))
            ==> launch->templates@ == text@ + "/templates/*.script"@),
        launch is UrScript ==> (!(templates_path matches Some(ParameterValue::Text(_)))
            ==> launch->templates@ == "/templates/*.script"@),
{
    assert(Seq::<char>::empty() + "/templates/*.script"@ =~= "/templates/*.script"@);
}

/// The robot moves only where that is asked for: the driver is used exactly where the parameter
/// says no to the simulator.
pub proof fn law_simulates_unless_told_otherwise(parameter: Option<ParameterValue>)
    ensures
        !setting(bool_reading(parameter), true) <==> parameter == Some(ParameterValue::Bool(false)),
{
}

} // verus!
