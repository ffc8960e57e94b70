use ur_controller::settings::{
    launch, read_bool, read_text, templates_pattern, text_or_empty, uses_simulator, Launch,
    ParameterValue, Reading,
};

fn text(value: &str) -> Option<ParameterValue> {
    Some(ParameterValue::Text(value.to_string()))
}

#[test]
fn readings_tell_the_types_apart() {
    assert_eq!(read_bool(&Some(ParameterValue::Bool(false))), Reading::Given(false));
    assert_eq!(read_bool(&text("true")), Reading::WrongType);
    assert_eq!(read_bool(&Some(ParameterValue::Other)), Reading::WrongType);
    assert_eq!(read_bool(&None), Reading::Missing);
    assert_eq!(read_text(&text("left_")), Reading::Given("left_".to_string()));
    assert_eq!(read_text(&Some(ParameterValue::Bool(true))), Reading::WrongType);
    assert_eq!(read_text(&None), Reading::Missing);
}

#[test]
fn simulator_is_used_unless_a_parameter_says_no() {
    assert!(!uses_simulator(&Some(ParameterValue::Bool(false))));
    assert!(uses_simulator(&Some(ParameterValue::Bool(true))));
    assert!(uses_simulator(&text("false")));
    assert!(uses_simulator(&Some(ParameterValue::Other)));
    assert!(uses_simulator(&None));
}

#[test]
fn text_is_empty_where_none_is_given() {
    assert_eq!(text_or_empty(&text("left_")), "left_");
    assert_eq!(text_or_empty(&Some(ParameterValue::Other)), "");
    assert_eq!(text_or_empty(&None), "");
}

#[test]
fn templates_stand_below_their_directory() {
    assert_eq!(templates_pattern("/opt/robot"), "/opt/robot/templates/*.script");
    assert_eq!(templates_pattern(""), "/templates/*.script");
}

#[test]
fn launch_of_the_simulation_takes_the_prefix() {
    assert_eq!(
        launch(&None, &text("left_"), &text("/opt/robot")),
        Launch::Simulation { prefix: "left_".to_string() }
    );
    assert_eq!(
        launch(&Some(ParameterValue::Bool(true)), &None, &None),
        Launch::Simulation { prefix: "".to_string() }
    );
}

#[test]
fn launch_of_the_scripts_takes_the_templates() {
    let no = Some(ParameterValue::Bool(false));
    assert_eq!(
        launch(&no, &text("left_"), &text("/opt/robot")),
        Launch::UrScript { templates: "/opt/robot/templates/*.script".to_string() }
    );
    assert_eq!(
        launch(&no, &None, &None),
        Launch::UrScript { templates: "/templates/*.script".to_string() }
    );
}
