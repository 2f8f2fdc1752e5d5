//! Values: JSON, texts, addresses, pictures, the terminal and the calculator.
use apexos_ui::address::{
    imagine_base_url, imagine_token_clean, login_awaited, redact_ws_url, socket_url, terminal_url,
    web_host, ws_to_http, Reach,
};
use apexos_ui::calc::{tidy, Calc, CalcStep};
use apexos_ui::colour::{council_accent, hex_to_color, sketch_color, sketch_hex, Rgb};
use apexos_ui::json::{read, render, Json};
use apexos_ui::pictures::{
    import_data, preview_from, preview_of, snapshot_png, thumb_of, Picture,
};
use apexos_ui::terminal::{strip_ansi, Terminal};
use apexos_ui::text::{
    ascii_lower, byte_len, dec_i64, find_text, lines, parse_u64, replace_once, take_bytes, trim,
};

#[test]
fn redact_masks_the_token_and_only_the_token() {
    assert_eq!(
        redact_ws_url("ws://localhost:8787/ws?token=a8237939428c"),
        "ws://localhost:8787/ws?token=<redacted>"
    );
    assert_eq!(
        redact_ws_url("ws://host:8787/terminal-ws?token=abc"),
        "ws://host:8787/terminal-ws?token=<redacted>"
    );
    assert_eq!(redact_ws_url("ws://localhost:8787/ws"), "ws://localhost:8787/ws");
}

#[test]
fn rest_base_strips_token_query_and_ws_suffix() {
    assert_eq!(
        ws_to_http("ws://192.168.0.158:8787/ws?token=abc123"),
        "http://192.168.0.158:8787"
    );
    assert_eq!(ws_to_http("ws://localhost:8787/ws"), "http://localhost:8787");
    assert_eq!(ws_to_http("wss://host:8787/ws?token=x"), "https://host:8787");
}

#[test]
fn imagine_token_clean_heals_operator_forms() {
    assert_eq!(imagine_token_clean("abc123"), "abc123");
    assert_eq!(imagine_token_clean("  abc123 \n"), "abc123");
    assert_eq!(imagine_token_clean("\"abc123\""), "abc123");
    assert_eq!(imagine_token_clean("'abc123'"), "abc123");
    assert_eq!(imagine_token_clean(" \"abc123\" "), "abc123");
    assert_eq!(imagine_token_clean("\"abc123'"), "\"abc123'");
    assert_eq!(imagine_token_clean("   "), "");
    assert_eq!(imagine_token_clean("\"\""), "");
}

#[test]
fn addresses_are_put_together() {
    assert_eq!(socket_url("ws://h/ws", ""), "ws://h/ws");
    assert_eq!(socket_url("ws://h/ws", "t"), "ws://h/ws?token=t");
    assert!(terminal_url("ws://h/ws", "t").contains("terminal"));
    assert_eq!(web_host("http://10.0.0.2:8787"), "10.0.0.2");
    assert_eq!(imagine_base_url(" http://x/ "), "http://x");
    assert!(login_awaited("HTTP error: 401 Unauthorized", "ws://h/ws"));
    assert!(!login_awaited("HTTP error: 401 Unauthorized", "ws://h/ws?token=t"));
    assert!(!login_awaited("refused", "ws://h/ws"));
    let mut r = Reach { base: "http://a".to_string(), token: String::new() };
    assert!(!r.learn("http://b", " ", false));
    assert_eq!(r.base, "http://a");
    assert!(r.learn("http://b/", "'t'", false));
    assert_eq!((&*r.base, &*r.token), ("http://b", "t"));
    assert!(r.learn("http://c", "u", true));
    assert_eq!((&*r.base, &*r.token), ("http://b", "u"));
}

#[test]
fn json_is_read_and_written() {
    let text = r#"{"a":[1,-2,2.5,null,true],"b":"x\"y","c":{}}"#;
    let j = read(text).unwrap();
    assert_eq!(render(&j), text);
    assert!(read("{").is_none());
    assert!(read("").is_none());
    let a = j.get("a").unwrap().as_array().unwrap();
    assert_eq!((a[0].as_u64(), a[1].as_u64(), a[1].as_i64()), (Some(1), None, Some(-2)));
    assert_eq!(a[2].as_num().unwrap().shown, "2.5");
    assert_eq!(j.get("missing"), None);
    assert_eq!(j.str_or("b", ""), "x\"y");
    assert_eq!(j.copy(), j);
    assert_eq!(render(&Json::milli(1500)), "1.5");
    assert_eq!(render(&Json::milli(-6000)), "-6.0");
    let tenths = |m: i32| Json::milli(m).as_num().unwrap().tenths.clone();
    assert_eq!(tenths(1250), format!("{:.1}", 1.25));
    assert_eq!(tenths(350), format!("{:.1}", 0.35));
    assert_eq!(tenths(-4), "-0.0");
}

#[test]
fn texts_are_cut_and_joined() {
    assert_eq!(trim("\u{a0} x \n"), "x");
    assert_eq!(lines("a\r\nb\n"), ["a", "b"]);
    assert_eq!(parse_u64("+7"), Some(7));
    assert_eq!(parse_u64("18446744073709551616"), None);
    assert_eq!(parse_u64("-7"), None);
    assert_eq!(dec_i64(i64::MIN), "-9223372036854775808");
    assert_eq!(find_text("abcabc", "ca"), Some(2));
    assert_eq!(replace_once("aa", "a", "b"), "ba");
    assert_eq!(byte_len("é…🎨"), 9);
    assert_eq!(take_bytes("é…🎨", 4), "é");
    assert_eq!(ascii_lower("ÀB"), "Àb");
}

#[test]
fn pictures_are_decoded_and_encoded() {
    let p = Picture { width: 2, height: 1, rgba: vec![255, 0, 0, 255, 0, 255, 0, 255] };
    let png = snapshot_png(&p).unwrap();
    assert_eq!(&png[1..4], b"PNG");
    let back = preview_of(200, &png).unwrap();
    assert_eq!((back.width, back.height), (2, 1));
    assert_eq!(back.rgba, p.rgba);
    assert!(preview_of(404, &png).is_err());
    assert_eq!(
        preview_from(404, Err("x".to_string())).unwrap_err(),
        "content HTTP 404"
    );
    assert_eq!(
        preview_from(200, Err("x".to_string())).unwrap_err(),
        "decode failed: x"
    );
    assert!(preview_of(200, b"no picture").is_err());
    assert!(thumb_of(200, &png).is_some());
    assert!(thumb_of(500, &png).is_none());
    let torn = Picture { width: 2, height: 2, rgba: vec![0; 4] };
    assert_eq!(snapshot_png(&torn), Err("pixel buffer size mismatch".to_string()));
}

#[test]
fn sounds_are_carried_as_base64() {
    assert_eq!(import_data("audio/wav", b"Man"), Ok("data:audio/wav;base64,TWFu".to_string()));
    assert_eq!(import_data("audio/wav", b"Ma"), Ok("data:audio/wav;base64,TWE=".to_string()));
    assert_eq!(import_data("audio/wav", b"M"), Ok("data:audio/wav;base64,TQ==".to_string()));
    assert_eq!(
        import_data("a", b"\xfb\xff\xbf"),
        Ok("data:a;base64,+/+/".to_string())
    );
}

#[test]
fn terminals_drop_control_sequences() {
    assert_eq!(strip_ansi("\u{1b}[31mred\u{1b}[0m"), "red");
    assert_eq!(strip_ansi("\u{1b}]0;title\u{7}x"), "x");
    assert_eq!(strip_ansi("a\tb"), "a\tb");
    assert_eq!(strip_ansi("1\t\u{1b}[1m2\u{1b}[0m\r\n\u{8}3"), "1\t2\n3");
    let mut t = Terminal::new();
    t.print(b"ok \xff\n");
    assert!(t.text.contains("ok \u{fffd}\n"));
    for _ in 0..70 {
        t.print("y".repeat(1000).as_bytes());
    }
    assert!(t.text.len() <= 60_000);
    assert_eq!(t.lost(), 2);
    assert_eq!(t.lost(), 4);
    t.connected();
    assert_eq!(t.lost(), 2);
}

#[test]
fn calculators_take_keys() {
    let mut c = Calc::new();
    for k in ["1", "2", ".", "5", "."] {
        c.key(k);
    }
    assert_eq!(c.entry, "12.5");
    c.key("±");
    assert_eq!(c.entry, "-12.5");
    assert!(matches!(c.key("+"), CalcStep::Apply { op: None, keep: false }));
    c.key("3");
    assert_eq!(c.entry, "3");
    assert!(matches!(c.key("="), CalcStep::Apply { op: Some('+'), keep: true }));
    c.settle(true, "-9.5000000000");
    assert_eq!(c.entry, "-9.5");
    assert!(matches!(c.key("%"), CalcStep::Percent));
    assert!(matches!(c.key("C"), CalcStep::Clear));
    assert_eq!(c.entry, "0");
    assert_ne!(tidy(false, "inf"), "inf");
}

#[test]
fn colours_are_read() {
    assert_eq!(hex_to_color("#39ff14"), Rgb { r: 0x39, g: 0xff, b: 0x14 });
    assert_eq!(hex_to_color("nonsense"), Rgb { r: 0xe6, g: 0xe6, b: 0xeb });
    assert_ne!(council_accent(None, 0), council_accent(None, 1));
    assert_eq!(sketch_color(0), hex_to_color(sketch_hex(0)));
}
