use xnet_node::cli::{interpret_trimmed, parse_cli_line, CliInput};

#[test]
fn exit_line_stops() {
    assert_eq!(parse_cli_line(&"  exit \n".to_string()), CliInput::Exit);
    assert_eq!(interpret_trimmed("exit"), CliInput::Exit);
}

#[test]
fn publish_line_carries_prompt() {
    assert_eq!(parse_cli_line(&"publish hello world  ".to_string()), CliInput::Publish("hello world".to_string()));
    assert_eq!(interpret_trimmed("publish hi"), CliInput::Publish("hi".to_string()));
    assert_eq!(interpret_trimmed("publish publish hi"), CliInput::Publish("hi".to_string()));
    assert_eq!(interpret_trimmed("publish héllo"), CliInput::Publish("héllo".to_string()));
}

#[test]
fn other_lines_are_ignored() {
    assert_eq!(parse_cli_line(&"publish".to_string()), CliInput::Ignored);
    assert_eq!(interpret_trimmed("exit now"), CliInput::Ignored);
    assert_eq!(interpret_trimmed(""), CliInput::Ignored);
    assert_eq!(interpret_trimmed(" publish x"), CliInput::Ignored);
}
