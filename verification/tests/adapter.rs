use roon_tui::roon::{
    back, browse, command_result, get_zones, mute, next, playpause, prev, radio, search, select,
    set_loop, set_zone, shuffle, unmute, volume, Command, ProcessOutput,
};

fn args(c: &Command) -> Vec<&str> {
    c.args.iter().map(|s| s.as_str()).collect()
}

fn failed(code: i32, stdout: &str, stderr: &str) -> ProcessOutput {
    ProcessOutput {
        success: false,
        code,
        stdout: stdout.to_string(),
        stderr: stderr.to_string(),
    }
}

#[test]
fn get_zones_asks_for_json() {
    assert_eq!(args(&get_zones()), vec!["zones", "--json"]);
}

#[test]
fn set_zone_sends_the_display_name() {
    assert_eq!(args(&set_zone("Living Room")), vec!["zone", "set", "Living Room"]);
}

#[test]
fn transport_commands_are_single_words() {
    assert_eq!(args(&playpause()), vec!["playpause"]);
    assert_eq!(args(&next()), vec!["next"]);
    assert_eq!(args(&prev()), vec!["prev"]);
}

#[test]
fn shuffle_maps_the_flag_to_on_and_off() {
    assert_eq!(args(&shuffle(true)), vec!["shuffle", "on"]);
    assert_eq!(args(&shuffle(false)), vec!["shuffle", "off"]);
}

#[test]
fn radio_maps_the_flag_to_on_and_off() {
    assert_eq!(args(&radio(true)), vec!["radio", "on"]);
    assert_eq!(args(&radio(false)), vec!["radio", "off"]);
}

#[test]
fn set_loop_sends_the_mode_as_given() {
    assert_eq!(args(&set_loop("disabled")), vec!["loop", "disabled"]);
    assert_eq!(args(&set_loop("loop")), vec!["loop", "loop"]);
    assert_eq!(args(&set_loop("loop_one")), vec!["loop", "loop_one"]);
}

#[test]
fn volume_names_the_output_last() {
    assert_eq!(args(&volume("Speakers", "+5")), vec!["volume", "+5", "--output", "Speakers"]);
    assert_eq!(args(&volume("Speakers", "-5")), vec!["volume", "-5", "--output", "Speakers"]);
    assert_eq!(args(&volume("Desk", "30")), vec!["volume", "30", "--output", "Desk"]);
}

#[test]
fn mute_and_unmute_name_the_output() {
    assert_eq!(args(&mute("Speakers")), vec!["mute", "--output", "Speakers"]);
    assert_eq!(args(&unmute("Speakers")), vec!["unmute", "--output", "Speakers"]);
}

#[test]
fn listing_commands_ask_for_json() {
    assert_eq!(args(&browse()), vec!["browse", "--json"]);
    assert_eq!(args(&back()), vec!["back", "--json"]);
    assert_eq!(args(&search("abba")), vec!["search", "abba", "--json"]);
    assert_eq!(args(&search("two words")), vec!["search", "two words", "--json"]);
}

#[test]
fn select_sends_one_based_position() {
    assert_eq!(args(&select(0)), vec!["select", "1", "--json"]);
    assert_eq!(args(&select(8)), vec!["select", "9", "--json"]);
    assert_eq!(args(&select(9)), vec!["select", "10", "--json"]);
    assert_eq!(args(&select(41)), vec!["select", "42", "--json"]);
    assert_eq!(args(&select(99)), vec!["select", "100", "--json"]);
    assert_eq!(args(&select(1_000_000)), vec!["select", "1000001", "--json"]);
}

#[test]
fn select_of_the_greatest_index_does_not_overflow() {
    let expected = (usize::MAX as u128 + 1).to_string();
    assert_eq!(args(&select(usize::MAX)), vec!["select", expected.as_str(), "--json"]);
}

#[test]
fn success_returns_standard_output_untouched() {
    let out = ProcessOutput {
        success: true,
        code: 0,
        stdout: "  [1, 2]\n".to_string(),
        stderr: "a warning".to_string(),
    };
    assert_eq!(command_result(out), Ok("  [1, 2]\n".to_string()));
}

#[test]
fn failure_message_prefers_trimmed_stderr() {
    assert_eq!(command_result(failed(2, "ignored", "  boom\n")), Err("boom".to_string()));
}

#[test]
fn failure_message_falls_back_to_trimmed_stdout() {
    assert_eq!(
        command_result(failed(1, "\tnot connected \r\n", "")),
        Err("not connected".to_string())
    );
}

#[test]
fn failure_message_names_the_exit_code_when_nothing_was_printed() {
    assert_eq!(command_result(failed(3, "", "")), Err("exit code 3".to_string()));
    assert_eq!(command_result(failed(127, "", "")), Err("exit code 127".to_string()));
    assert_eq!(command_result(failed(-1, "", "")), Err("exit code -1".to_string()));
    assert_eq!(command_result(failed(0, "", "")), Err("exit code 0".to_string()));
}

#[test]
fn failure_message_of_blank_stderr_is_empty() {
    assert_eq!(command_result(failed(1, "text", " \n")), Err(String::new()));
}

#[test]
fn failure_message_keeps_inner_whitespace() {
    assert_eq!(
        command_result(failed(1, "", "\n zone  not\tfound \n")),
        Err("zone  not\tfound".to_string())
    );
}

#[test]
fn failure_message_is_trimmed_of_every_kind_of_whitespace() {
    assert_eq!(command_result(failed(1, "", "\u{a0}\tx y\u{3000}\r\n")), Err("x y".to_string()));
    assert_eq!(command_result(failed(1, "\n\nonly stdout\n", "")), Err("only stdout".to_string()));
    assert_eq!(command_result(failed(1, "", "solid")), Err("solid".to_string()));
}

#[test]
fn failure_message_loses_every_whitespace_character_at_its_ends() {
    let whitespace = [
        '\u{9}', '\u{a}', '\u{b}', '\u{c}', '\u{d}', '\u{20}', '\u{85}', '\u{a0}', '\u{1680}',
        '\u{2000}', '\u{2001}', '\u{2002}', '\u{2003}', '\u{2004}', '\u{2005}', '\u{2006}',
        '\u{2007}', '\u{2008}', '\u{2009}', '\u{200a}', '\u{2028}', '\u{2029}', '\u{202f}',
        '\u{205f}', '\u{3000}',
    ];
    for c in whitespace {
        let stderr = format!("{}boom{}", c, c);
        assert_eq!(command_result(failed(1, "", &stderr)), Err("boom".to_string()));
    }
}

#[test]
fn failure_message_keeps_what_is_no_whitespace_at_its_ends() {
    let others = [
        '\u{8}', '\u{e}', '\u{1f}', '\u{21}', '\u{84}', '\u{86}', '\u{9f}', '\u{a1}', '\u{167f}',
        '\u{1681}', '\u{180e}', '\u{1fff}', '\u{200b}', '\u{2027}', '\u{202a}', '\u{202e}',
        '\u{2030}', '\u{205e}', '\u{2060}', '\u{2fff}', '\u{3001}', '\u{feff}',
    ];
    for c in others {
        let stderr = format!("{}boom{}", c, c);
        assert_eq!(command_result(failed(1, "", &stderr)), Err(stderr.clone()));
    }
}

#[test]
fn failure_message_of_a_printed_line_is_the_line() {
    assert_eq!(command_result(failed(1, "", "Zone not found\n")), Err("Zone not found".to_string()));
    assert_eq!(command_result(failed(1, "", "Zone not found\r\n")), Err("Zone not found".to_string()));
    assert_eq!(command_result(failed(1, "not connected\n", "")), Err("not connected".to_string()));
}
