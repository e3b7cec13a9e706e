use arc_malachitebft_core_types::Round as EngineRound;

use quake::duration::{
    checked_cli_duration, checked_tool_duration, is_bounded, parse_duration, parse_duration_opt,
    parse_duration_str, Span,
};
use quake::error::ErrorKind;
use quake::nodes::{list_nodes, node_list_answer, NodeInfo};
use quake::restream::Round;
use quake::text::{align_left, align_right, decimal_text, filled, find, is_white_space, join, push_line, trim};

#[test]
fn decimals() {
    for n in [0, 9, 10, 99, 100, 12345, 18446744073709551615] {
        assert_eq!(decimal_text(n), n.to_string());
    }
}

#[test]
fn rounds_read_as_the_engine_writes_them() {
    assert_eq!(Round::Nil.text(), EngineRound::Nil.to_string());
    for n in [0, 1, 42, 4294967295] {
        assert_eq!(Round::new(n).text(), EngineRound::new(n).to_string());
    }
}

#[test]
fn columns() {
    for t in ["", "abc", "\u{e9}t\u{e9}", "longer than that"] {
        assert_eq!(align_left(t, 8), format!("{t:<8}"));
        assert_eq!(align_right(t, 8), format!("{t:>8}"));
    }
    assert_eq!(filled("-", 3), "---");
    assert_eq!(filled("-", 0), "");
}

#[test]
fn joining() {
    let parts = |p: &[&str]| p.iter().map(|t| t.to_string()).collect::<Vec<String>>();
    assert_eq!(join(&parts(&[]), ", "), "");
    assert_eq!(join(&parts(&["a"]), ", "), "a");
    assert_eq!(join(&parts(&["a", "", "c"]), ", "), "a, , c");
    let mut lines = parts(&["a"]);
    push_line(&mut lines, "b".to_string());
    assert_eq!(lines, parts(&["a", "b"]));
}

#[test]
fn finding() {
    assert_eq!(find("a=b=c", '='), 1);
    assert_eq!(find("\u{e9}=", '='), 1);
    assert_eq!(find("abc", '='), 3);
    assert_eq!(find("", '='), 0);
}

#[test]
fn trimming() {
    for t in ["", " ", "\t a b \n", "\u{a0}x\u{2003}", "x", "\u{200b}x"] {
        assert_eq!(trim(t), t.trim());
        assert_eq!(trim(&trim(t)), trim(t));
    }
}

#[test]
fn white_space_is_that_of_unicode() {
    for c in '\0'..=char::MAX {
        assert_eq!(is_white_space(c), c.is_whitespace());
    }
}

#[test]
fn durations_on_the_command_line() {
    assert_eq!(parse_duration("1m 30s").unwrap(), Span { secs: 90, nanos: 0 });
    assert_eq!(parse_duration("1500ms").unwrap(), Span { secs: 1, nanos: 500_000_000 });
    let e = parse_duration("soon").unwrap_err();
    assert_eq!(e.message, "invalid duration: soon");
    assert_eq!(e.cause, Some("expected number at 0".to_string()));
    let e = checked_cli_duration("x", Err("why".to_string())).unwrap_err();
    assert_eq!((e.message.as_str(), e.cause.as_deref()), ("invalid duration: x", Some("why")));
    assert_eq!(checked_cli_duration("x", Ok(Span::from_secs(3))).unwrap(), Span::from_secs(3));
}

#[test]
fn durations_of_tools() {
    assert_eq!(parse_duration_str("2h").unwrap(), Span::from_secs(7200));
    assert_eq!(parse_duration_opt(Some("10s")).unwrap(), Some(Span::from_secs(10)));
    assert_eq!(parse_duration_opt(None).unwrap(), None);
    let e = parse_duration_str("10").unwrap_err();
    assert_eq!(e.kind, ErrorKind::InvalidParams);
    assert_eq!(
        e.message,
        "Invalid duration '10': time unit needed, for example 10sec or 10ms"
    );
    let e = parse_duration_opt(Some("")).unwrap_err();
    assert_eq!(e.kind, ErrorKind::InvalidParams);
    assert_eq!(e.message, "Invalid duration '': value was empty");
    let e = checked_tool_duration("x", Err("why".to_string())).unwrap_err();
    assert_eq!((e.kind, e.message.as_str()), (ErrorKind::InvalidParams, "Invalid duration 'x': why"));
    assert_eq!(checked_tool_duration("x", Ok(Span::from_secs(3))).unwrap(), Span::from_secs(3));
}

/// Holds what the library reads against what humantime reads.
fn check_reading(t: &str) {
    assert!(is_bounded(t), "{t}");
    let expected = humantime::parse_duration(t)
        .map(|d| Span { secs: d.as_secs(), nanos: d.subsec_nanos() })
        .map_err(|e| format!("Invalid duration '{t}': {e}"));
    assert_eq!(parse_duration_str(t).map_err(|e| e.message), expected);
    let optional = parse_duration_opt(Some(t)).map_err(|e| e.message);
    assert_eq!(optional, expected.map(Some));
}

#[test]
fn bounded_durations() {
    for t in [
        "",
        "0",
        "10s",
        "123456789012ms 1h",
        "999999999999y",
        "18446744073709551615ns",
        "18446744073709551615s",
        "18446744073709551615s 1ns",
        "18446744073709551615s 999ms 999us 999ns",
        "18446744073709551615s 1s",
        "18446744073709551615s 2000ms",
        "18446744073709551614s 1000ms",
        "18446744073709551616s 1000ms",
        "99999999999999999999999999y 1ms",
        "30days 23h 59m 59.5s 999ms 999us 999ns",
        "9223372036854775807s 2000millis",
        "584542046090y 7ms",
        "584542046091y 7ms",
        "5 months 3 weeks 1.5 days",
        "0.5ns",
        "1.s",
        "1..5s",
        "1 2 m",
        // The sum would run over, but an error comes first.
        "x 18446744073709551615s 1000ms",
        "18446744073709551615sx 1000ms",
        "18446744073709551615s, 1000ms",
        "18446744073709551615s 1000ms?",
        "18446744073709551615s 1000 m s",
        "18446744073709551615s 1000",
        "18446744073709551615s 1000mS",
        "1.3d 18446744073709551615s 1000ms",
    ] {
        check_reading(t);
    }
}

#[test]
fn durations_that_run_over() {
    for t in [
        "18446744073709551615s 1000ms",
        "18446744073709551615s1000ms",
        "18446744073709551615s 1000ms 1x",
        "18446744073709551615s 1000ms5",
        "18446744073709551615s 1000.5ms",
        "18446744073709551615seconds 999msec 1000\u{b5}s",
        "18446744073709551614s 999ms 1s 1ms",
        "1844674407370955161 5s 1000ms",
        "307445734561825860m 15.5s 500ms",
        "307445734561825859m 75.5s 0.5s",
        "1000ms 18446744073709551614s 1000000000ns",
    ] {
        assert!(!is_bounded(t), "{t}");
    }
}

#[test]
fn durations_around_the_end() {
    // Each pair of parts adds up to at most a few seconds around the end.
    for head in ["18446744073709551613s", "18446744073709551614s", "307445734561825860min 15s"] {
        for nanos in [999_999_999u64, 1_000_000_000, 1_000_000_001, 1_999_999_999, 2_000_000_000] {
            for tail in ["", " 1s", " 1ns", " 1000ms"] {
                let t = format!("{head} {nanos}ns{tail}");
                if is_bounded(&t) {
                    check_reading(&t);
                }
            }
        }
    }
}

fn node(name: &str, public_ip: Option<&str>) -> NodeInfo {
    NodeInfo {
        name: name.to_string(),
        public_ip: public_ip.map(|ip| ip.to_string()),
        execution_http_url: "http://127.0.0.1:8545/".to_string(),
        execution_ws_url: "ws://127.0.0.1:8546/".to_string(),
        execution_http_port: 8545,
        execution_ws_port: 8546,
        consensus_port: 27000,
        consensus_rpc_port: 31000,
        consensus_enabled: true,
        follow: false,
    }
}

#[test]
fn node_lists() {
    assert_eq!(list_nodes(&vec![]).unwrap(), "[]");
    assert_eq!(
        list_nodes(&vec![node("validator\"1\"", None), node("full1", Some("3.4.5.6"))]).unwrap(),
        r#"[
  {
    "consensus_enabled": true,
    "consensus_port": 27000,
    "consensus_rpc_port": 31000,
    "execution_http_port": 8545,
    "execution_http_url": "http://127.0.0.1:8545/",
    "execution_ws_port": 8546,
    "execution_ws_url": "ws://127.0.0.1:8546/",
    "follow": false,
    "name": "validator\"1\"",
    "public_ip": null
  },
  {
    "consensus_enabled": true,
    "consensus_port": 27000,
    "consensus_rpc_port": 31000,
    "execution_http_port": 8545,
    "execution_http_url": "http://127.0.0.1:8545/",
    "execution_ws_port": 8546,
    "execution_ws_url": "ws://127.0.0.1:8546/",
    "follow": false,
    "name": "full1",
    "public_ip": "3.4.5.6"
  }
]"#
    );
}

#[test]
fn node_lists_that_cannot_be_written() {
    let e = node_list_answer(Err("why".to_string())).unwrap_err();
    assert_eq!(e.kind, ErrorKind::InternalError);
    assert_eq!(e.message, "Failed to serialize node list: why");
    assert_eq!(node_list_answer(Ok("[]".to_string())).unwrap(), "[]");
}
