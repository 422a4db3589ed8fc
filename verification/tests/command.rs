use relay_bot::command::{parse, ParsedCommand};

fn command(name: &str, arguments: &str) -> Option<ParsedCommand> {
    Some(ParsedCommand { name: name.to_string(), arguments: arguments.to_string() })
}

#[test]
fn text_without_slash_is_no_command() {
    assert_eq!(parse("hello"), None);
    assert_eq!(parse("echo hello"), None);
    assert_eq!(parse(" /echo hello"), None);
    assert_eq!(parse("\\echo"), None);
    assert_eq!(parse("say /echo"), None);
}

#[test]
fn empty_text_is_no_command() {
    assert_eq!(parse(""), None);
}

#[test]
fn lone_slash_is_no_command() {
    assert_eq!(parse("/"), None);
    assert_eq!(parse("/ echo"), None);
    assert_eq!(parse("//echo"), None);
}

#[test]
fn bare_command_has_empty_arguments() {
    assert_eq!(parse("/echo"), command("echo", ""));
    assert_eq!(parse("/info"), command("info", ""));
    assert_eq!(parse("/a"), command("a", ""));
}

#[test]
fn underscores_belong_to_the_name() {
    assert_eq!(parse("/my_command"), command("my_command", ""));
    assert_eq!(parse("/_"), command("_", ""));
    assert_eq!(parse("/_x_ y"), command("_x_", "y"));
}

#[test]
fn arguments_follow_the_first_space() {
    assert_eq!(parse("/echo hello world"), command("echo", "hello world"));
    assert_eq!(parse("/start HELLOGIMMETOKENPLS"), command("start", "HELLOGIMMETOKENPLS"));
}

#[test]
fn arguments_are_kept_character_for_character() {
    assert_eq!(parse("/echo  two  spaces "), command("echo", " two  spaces "));
    assert_eq!(parse("/echo /echo again"), command("echo", "/echo again"));
    assert_eq!(parse("/echo Grüße, 世界 ✓"), command("echo", "Grüße, 世界 ✓"));
    assert_eq!(parse("/echo MiXeD Case"), command("echo", "MiXeD Case"));
}

#[test]
fn arguments_may_hold_line_breaks() {
    assert_eq!(parse("/echo one\ntwo"), command("echo", "one\ntwo"));
    assert_eq!(parse("/echo \n"), command("echo", "\n"));
}

#[test]
fn a_trailing_space_gives_empty_arguments() {
    assert_eq!(parse("/echo "), command("echo", ""));
}

#[test]
fn name_is_folded_to_lower_case() {
    assert_eq!(parse("/Echo"), command("echo", ""));
    assert_eq!(parse("/ECHO"), command("echo", ""));
    assert_eq!(parse("/echo"), command("echo", ""));
    assert_eq!(parse("/eChO Hi"), command("echo", "Hi"));
    assert_eq!(parse("/AZ_az"), command("az_az", ""));
}

#[test]
fn upper_and_lower_case_names_parse_alike() {
    let lower = parse("/token please");
    assert_eq!(parse("/TOKEN please"), lower);
    assert_eq!(parse("/Token please"), lower);
    assert_eq!(parse("/tOkEn please"), lower);
}

#[test]
fn name_must_be_followed_by_space_or_end() {
    assert_eq!(parse("/echo@relay_bot"), None);
    assert_eq!(parse("/echo!"), None);
    assert_eq!(parse("/echo\nhello"), None);
    assert_eq!(parse("/echo\thello"), None);
    assert_eq!(parse("/echo1"), None);
    assert_eq!(parse("/echo-hello world"), None);
}

#[test]
fn name_holds_letters_and_underscores_only() {
    assert_eq!(parse("/123"), None);
    assert_eq!(parse("/1abc"), None);
    assert_eq!(parse("/ hello"), None);
    assert_eq!(parse("/-"), None);
}

#[test]
fn letters_outside_ascii_are_no_name_characters() {
    assert_eq!(parse("/é"), None);
    assert_eq!(parse("/écho hello"), None);
    assert_eq!(parse("/ſtart"), None);
    assert_eq!(parse("/\u{212a}ey"), None);
    assert_eq!(parse("/echoé"), None);
    assert_eq!(parse("/@"), None);
    assert_eq!(parse("/["), None);
    assert_eq!(parse("/`"), None);
    assert_eq!(parse("/{"), None);
}

#[test]
fn a_long_name_is_parsed_whole() {
    let name = "abcdefghijklmnopqrstuvwxyz_".repeat(20);
    let text = format!("/{} tail", name.to_uppercase());
    assert_eq!(parse(&text), command(&name, "tail"));
}
