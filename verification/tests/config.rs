use sidecar_supervisor::config::{
    build_server_url, parse_base_url_from_args, parse_host_from_args, parse_port_from_args,
    DEFAULT_PORT,
};

fn args(list: &[&str]) -> Vec<String> {
    list.iter().map(|s| s.to_string()).collect()
}

#[test]
fn port_defaults_to_8080() {
    assert_eq!(DEFAULT_PORT, 8080);
    assert_eq!(parse_port_from_args(&args(&[]), None), 8080);
    assert_eq!(parse_port_from_args(&args(&["--run", "--debug"]), None), 8080);
}

#[test]
fn port_is_read_in_each_spelling() {
    assert_eq!(parse_port_from_args(&args(&["--port", "9000"]), None), 9000);
    assert_eq!(parse_port_from_args(&args(&["-p", "9001"]), None), 9001);
    assert_eq!(parse_port_from_args(&args(&["--port=9002"]), None), 9002);
    assert_eq!(parse_port_from_args(&args(&["--run", "--port", "+443", "x"]), None), 443);
    assert_eq!(parse_port_from_args(&args(&["--port=65535"]), None), 65535);
    assert_eq!(parse_port_from_args(&args(&["--port=0"]), None), 0);
}

#[test]
fn first_usable_port_option_wins() {
    assert_eq!(parse_port_from_args(&args(&["--port", "1", "--port", "2"]), None), 1);
    assert_eq!(parse_port_from_args(&args(&["--port=1", "-p", "2"]), None), 1);
    assert_eq!(parse_port_from_args(&args(&["-p", "2", "--port=1"]), None), 2);
}

#[test]
fn port_option_without_a_number_is_passed_over() {
    assert_eq!(parse_port_from_args(&args(&["--port", "abc", "--port=7"]), None), 7);
    assert_eq!(parse_port_from_args(&args(&["--port", "--port=9"]), None), 9);
    assert_eq!(parse_port_from_args(&args(&["--port=70000", "-p", "81"]), None), 81);
    assert_eq!(parse_port_from_args(&args(&["--port= 80"]), None), 8080);
    assert_eq!(parse_port_from_args(&args(&["--port", " 80"]), None), 8080);
    assert_eq!(parse_port_from_args(&args(&["--port=-1"]), None), 8080);
    assert_eq!(parse_port_from_args(&args(&["--port="]), None), 8080);
    assert_eq!(parse_port_from_args(&args(&["--port"]), None), 8080);
    assert_eq!(parse_port_from_args(&args(&["-P", "80"]), None), 8080);
    assert_eq!(parse_port_from_args(&args(&["--ports=80"]), None), 8080);
}

#[test]
fn port_falls_back_to_the_environment() {
    assert_eq!(parse_port_from_args(&args(&[]), Some("9090")), 9090);
    assert_eq!(parse_port_from_args(&args(&[]), Some("  9091\n")), 9091);
    assert_eq!(parse_port_from_args(&args(&["--port"]), Some("9092")), 9092);
    assert_eq!(parse_port_from_args(&args(&["--port", "x"]), Some("9093")), 9093);
    assert_eq!(parse_port_from_args(&args(&[]), Some("nine")), 8080);
    assert_eq!(parse_port_from_args(&args(&[]), Some("")), 8080);
    assert_eq!(parse_port_from_args(&args(&[]), Some("65536")), 8080);
}

#[test]
fn command_line_port_beats_the_environment() {
    assert_eq!(parse_port_from_args(&args(&["--port", "9000"]), Some("9090")), 9000);
    assert_eq!(parse_port_from_args(&args(&["--port=9000"]), Some("9090")), 9000);
}

#[test]
fn host_defaults_to_loopback() {
    assert_eq!(parse_host_from_args(&args(&[]), None), "127.0.0.1");
    assert_eq!(parse_host_from_args(&args(&["--port", "1"]), None), "127.0.0.1");
}

#[test]
fn host_is_read_in_each_spelling_and_trimmed() {
    assert_eq!(parse_host_from_args(&args(&["--host", "0.0.0.0"]), None), "0.0.0.0");
    assert_eq!(parse_host_from_args(&args(&["-H", "example.org"]), None), "example.org");
    assert_eq!(parse_host_from_args(&args(&["--host=localhost"]), None), "localhost");
    assert_eq!(parse_host_from_args(&args(&["--host=  padded \t"]), None), "padded");
    assert_eq!(parse_host_from_args(&args(&["--host", " a b "]), None), "a b");
}

#[test]
fn blank_host_is_passed_over() {
    assert_eq!(parse_host_from_args(&args(&["--host", "  ", "--host=x"]), None), "x");
    assert_eq!(parse_host_from_args(&args(&["--host=", "-H", "y"]), None), "y");
    assert_eq!(parse_host_from_args(&args(&["--host"]), None), "127.0.0.1");
    assert_eq!(parse_host_from_args(&args(&["--host", ""]), Some("envhost")), "envhost");
    assert_eq!(parse_host_from_args(&args(&["-h", "z"]), None), "127.0.0.1");
}

#[test]
fn host_falls_back_to_the_environment() {
    assert_eq!(parse_host_from_args(&args(&[]), Some("10.0.0.1")), "10.0.0.1");
    assert_eq!(parse_host_from_args(&args(&[]), Some(" 10.0.0.2 ")), "10.0.0.2");
    assert_eq!(parse_host_from_args(&args(&[]), Some("   ")), "127.0.0.1");
    assert_eq!(parse_host_from_args(&args(&["--host", "cli"]), Some("env")), "cli");
}

#[test]
fn base_path_is_absent_by_default() {
    assert_eq!(parse_base_url_from_args(&args(&[]), None), None);
    assert_eq!(parse_base_url_from_args(&args(&["--port", "1"]), None), None);
}

#[test]
fn base_path_is_read_in_each_spelling() {
    let app = Some("app".to_string());
    assert_eq!(parse_base_url_from_args(&args(&["--base-url", "app"]), None), app);
    assert_eq!(parse_base_url_from_args(&args(&["--base_url", "app"]), None), app);
    assert_eq!(parse_base_url_from_args(&args(&["-b", "app"]), None), app);
    assert_eq!(parse_base_url_from_args(&args(&["--base-url=app"]), None), app);
    assert_eq!(parse_base_url_from_args(&args(&["--base_url=app"]), None), app);
}

#[test]
fn base_path_loses_blanks_and_leading_slashes() {
    let app = Some("app".to_string());
    assert_eq!(parse_base_url_from_args(&args(&["--base-url", "/app"]), None), app);
    assert_eq!(parse_base_url_from_args(&args(&["--base-url", "  ///app "]), None), app);
    assert_eq!(
        parse_base_url_from_args(&args(&["--base-url=/a/b/"]), None),
        Some("a/b/".to_string())
    );
    assert_eq!(
        parse_base_url_from_args(&args(&["--base-url=/ app"]), None),
        Some(" app".to_string())
    );
}

#[test]
fn empty_base_path_option_settles_that_there_is_none() {
    assert_eq!(parse_base_url_from_args(&args(&["--base-url", ""]), Some("env")), None);
    assert_eq!(parse_base_url_from_args(&args(&["--base-url", " / "]), Some("env")), None);
    assert_eq!(parse_base_url_from_args(&args(&["--base-url=", "-b", "x"]), Some("env")), None);
    assert_eq!(parse_base_url_from_args(&args(&["-b", "///", "--base-url=x"]), None), None);
}

#[test]
fn base_path_option_without_a_value_leaves_it_to_the_environment() {
    assert_eq!(
        parse_base_url_from_args(&args(&["--base-url"]), Some("/env")),
        Some("env".to_string())
    );
    assert_eq!(parse_base_url_from_args(&args(&["-b"]), None), None);
}

#[test]
fn base_path_falls_back_to_the_environment() {
    assert_eq!(parse_base_url_from_args(&args(&[]), Some("qbm")), Some("qbm".to_string()));
    assert_eq!(parse_base_url_from_args(&args(&[]), Some(" /qbm ")), Some("qbm".to_string()));
    assert_eq!(parse_base_url_from_args(&args(&[]), Some(" / ")), None);
    assert_eq!(
        parse_base_url_from_args(&args(&["--base-url", "cli"]), Some("env")),
        Some("cli".to_string())
    );
}

#[test]
fn url_without_base_path() {
    assert_eq!(build_server_url("127.0.0.1", 8080, None), "http://127.0.0.1:8080");
    assert_eq!(build_server_url("localhost", 0, None), "http://localhost:0");
    assert_eq!(build_server_url("h", 65535, None), "http://h:65535");
}

#[test]
fn url_with_base_path_has_exactly_one_slash() {
    assert_eq!(build_server_url("127.0.0.1", 8080, Some("app")), "http://127.0.0.1:8080/app");
    let base = parse_base_url_from_args(&args(&["--base-url", "/app"]), None);
    assert_eq!(
        build_server_url("127.0.0.1", 8080, base.as_deref()),
        "http://127.0.0.1:8080/app"
    );
    let base = parse_base_url_from_args(&args(&["--base-url", "app"]), None);
    assert_eq!(
        build_server_url("127.0.0.1", 8080, base.as_deref()),
        "http://127.0.0.1:8080/app"
    );
}
