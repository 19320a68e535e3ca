use mqtt_topic_lab::variables::{substitute_once, substitute_variables};

fn vars(pairs: &[(&str, &str)]) -> Vec<(String, String)> {
    pairs.iter().map(|(k, v)| (k.to_string(), v.to_string())).collect()
}

#[test]
fn test_substitute_single_variable() {
    let vars = vars(&[("device_id", "abc123")]);
    let result = substitute_variables("devices/{device_id}/CMD", &vars);
    assert_eq!(result, "devices/abc123/CMD");
}

#[test]
fn test_substitute_multiple_variables() {
    let vars = vars(&[("device_id", "abc123"), ("sensor", "temp")]);
    let result = substitute_variables("devices/{device_id}/sensors/{sensor}/value", &vars);
    assert_eq!(result, "devices/abc123/sensors/temp/value");
}

#[test]
fn test_substitute_same_variable_multiple_times() {
    let vars = vars(&[("id", "123")]);
    let result = substitute_variables("{id}/request/{id}/response", &vars);
    assert_eq!(result, "123/request/123/response");
}

#[test]
fn test_substitute_missing_variable_keeps_placeholder() {
    let vars = vars(&[]);
    let result = substitute_variables("devices/{device_id}/CMD", &vars);
    assert_eq!(result, "devices/{device_id}/CMD");
}

#[test]
fn test_substitute_partial_variables() {
    let vars = vars(&[("device_id", "abc123")]);
    let result = substitute_variables("devices/{device_id}/{missing}/CMD", &vars);
    assert_eq!(result, "devices/abc123/{missing}/CMD");
}

#[test]
fn test_substitute_no_variables() {
    let vars = vars(&[]);
    let result = substitute_variables("devices/static/topic", &vars);
    assert_eq!(result, "devices/static/topic");
}

#[test]
fn test_substitute_empty_template() {
    let vars = vars(&[("test", "value")]);
    let result = substitute_variables("", &vars);
    assert_eq!(result, "");
}

#[test]
fn test_substitute_with_underscores() {
    let vars = vars(&[("device_type_id", "sensor_01")]);
    let result = substitute_variables("devices/{device_type_id}/data", &vars);
    assert_eq!(result, "devices/sensor_01/data");
}

#[test]
fn test_nested_variables() {
    let vars = vars(&[("mac", "12341234"), ("command", "cmd/{mac}/action")]);
    let result = substitute_variables("{command}", &vars);
    assert_eq!(result, "cmd/12341234/action");
}

#[test]
fn substitution_examples_of_the_rule() {
    assert_eq!(substitute_variables("devices/{id}/cmd", &vars(&[("id", "abc")])), "devices/abc/cmd");
    assert_eq!(substitute_variables("a/{missing}", &vars(&[])), "a/{missing}");
    assert_eq!(substitute_variables("{a}", &vars(&[("a", "{b}"), ("b", "X")])), "X");
}

#[test]
fn placeholders_follow_the_name_grammar() {
    let v = vars(&[("x", "1"), ("_y2", "2")]);
    assert_eq!(substitute_variables("{1x}/{}/{x-y}/{_y2}/{x", &v), "{1x}/{}/{x-y}/2/{x");
    assert_eq!(substitute_variables("{{x}}", &v), "{1}");
    assert_eq!(substitute_variables("é{x}é", &v), "é1é");
}

#[test]
fn one_pass_does_not_resolve_chains() {
    let v = vars(&[("a", "{b}"), ("b", "X")]);
    assert_eq!(substitute_once("{a}", &v), "{b}");
}

#[test]
fn self_reference_stops_after_bounded_passes() {
    let v = vars(&[("a", "{a}x")]);
    assert_eq!(substitute_variables("{a}", &v), "{a}xxxxxxxxxx");
}
