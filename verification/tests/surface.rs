use hermod::app::{App, CurrentScreen, InputMode};
use hermod::commands::{check_id_address, port_in_range, ClientMod, ServerMod};
use hermod::config::Config;
use hermod::network::{choose_server_address, Client, Ipv4, Network, NetworkError, Server};

#[test]
fn ports_in_range_parse() {
    assert_eq!(port_in_range("8080"), Ok(8080));
    assert_eq!(port_in_range("1"), Ok(1));
    assert_eq!(port_in_range("65535"), Ok(65535));
}

#[test]
fn ports_out_of_range_are_refused() {
    assert_eq!(
        port_in_range("0"),
        Err("port not in range 1-65535".to_string())
    );
    assert_eq!(
        port_in_range("65536"),
        Err("port not in range 1-65535".to_string())
    );
}

#[test]
fn port_texts_that_are_no_number_are_refused() {
    assert_eq!(
        port_in_range("abc"),
        Err("`abc` isn't a port number".to_string())
    );
    assert_eq!(port_in_range(""), Err("`` isn't a port number".to_string()));
    assert_eq!(
        port_in_range("80a0"),
        Err("`80a0` isn't a port number".to_string())
    );
    // Too large for the machine's integers: the text is not a port number.
    assert_eq!(
        port_in_range("99999999999999999999999999"),
        Err("`99999999999999999999999999` isn't a port number".to_string())
    );
}

#[test]
fn addresses_parse_to_their_octets() {
    assert_eq!(
        check_id_address("192.168.0.1"),
        Ok(Ipv4 {
            o0: 192,
            o1: 168,
            o2: 0,
            o3: 1
        })
    );
    assert_eq!(
        check_id_address("255.255.255.255"),
        Ok(Ipv4 {
            o0: 255,
            o1: 255,
            o2: 255,
            o3: 255
        })
    );
    assert_eq!(
        check_id_address("0.0.0.0"),
        Ok(Ipv4 {
            o0: 0,
            o1: 0,
            o2: 0,
            o3: 0
        })
    );
}

#[test]
fn malformed_addresses_are_refused() {
    for bad in [
        "256.1.1.1",
        "1.2.3",
        "1.2.3.4.5",
        "01.2.3.4",
        "a.b.c.d",
        "1..2.3",
        "1.2.3.",
        ".1.2.3",
        "",
        "1,2,3,4",
    ] {
        assert_eq!(
            check_id_address(bad),
            Err("Ip address not valid".to_string()),
            "{} should be refused",
            bad
        );
    }
}

#[test]
fn the_full_address_is_dotted_decimal_with_the_port() {
    let network = Network::new(
        Ipv4 {
            o0: 192,
            o1: 168,
            o2: 0,
            o3: 1,
        },
        "8080",
    );
    assert_eq!(network.get_fulladdress(), "192.168.0.1:8080");

    let edges = Network::new(
        Ipv4 {
            o0: 0,
            o1: 10,
            o2: 100,
            o3: 255,
        },
        "1",
    );
    assert_eq!(edges.get_fulladdress(), "0.10.100.255:1");
}

#[test]
fn the_server_address_choice_prefers_localhost() {
    let local = Some(Ipv4 {
        o0: 10,
        o1: 0,
        o2: 0,
        o3: 7,
    });
    assert_eq!(
        choose_server_address(true, local),
        Ok(Ipv4 {
            o0: 127,
            o1: 0,
            o2: 0,
            o3: 1
        })
    );
    assert_eq!(
        choose_server_address(false, local),
        Ok(Ipv4 {
            o0: 10,
            o1: 0,
            o2: 0,
            o3: 7
        })
    );
    assert_eq!(
        choose_server_address(false, None),
        Err(NetworkError::AddrNotAvailable)
    );
}

#[test]
fn server_and_client_keep_their_endpoint() {
    let addr = Ipv4 {
        o0: 127,
        o1: 0,
        o2: 0,
        o3: 1,
    };
    let server = Server::new(addr, "9000", true);
    assert_eq!(server.network.get_fulladdress(), "127.0.0.1:9000");
    assert!(server.password_auth);
    let client = Client::new(addr, "9000", false);
    assert_eq!(client.network.get_fulladdress(), "127.0.0.1:9000");
    assert!(!client.password_auth);
    let _ = ServerMod {
        port: 9000,
        localhost: true,
        password: true,
    };
    let _ = ClientMod {
        address: addr,
        port: 9000,
        password: false,
    };
}

#[test]
fn the_editor_inserts_at_the_cursor() {
    let mut app = App::new();
    assert!(matches!(app.input_mode, InputMode::Normal));
    assert!(matches!(app.current_screen, CurrentScreen::Main));
    app.enter_char('a');
    app.enter_char('c');
    app.move_cursor_left();
    app.enter_char('b');
    assert_eq!(app.input, "abc");
    assert_eq!(app.character_index, 2);
}

#[test]
fn the_editor_deletes_left_of_the_cursor() {
    let mut app = App::new();
    app.enter_char('a');
    app.enter_char('b');
    app.enter_char('c');
    app.move_cursor_left();
    app.delete_char();
    assert_eq!(app.input, "ac");
    assert_eq!(app.character_index, 1);
    app.delete_char();
    assert_eq!(app.input, "c");
    assert_eq!(app.character_index, 0);
    app.delete_char();
    assert_eq!(app.input, "c");
    assert_eq!(app.character_index, 0);
}

#[test]
fn the_editor_counts_characters_not_bytes() {
    let mut app = App::new();
    app.enter_char('é');
    app.enter_char('b');
    assert_eq!(app.input, "éb");
    assert_eq!(app.character_index, 2);
    app.move_cursor_left();
    assert_eq!(app.byte_index(), 2);
    app.move_cursor_left();
    assert_eq!(app.byte_index(), 0);
    app.enter_char('x');
    assert_eq!(app.input, "xéb");
}

#[test]
fn the_cursor_stays_inside_the_line() {
    let mut app = App::new();
    app.move_cursor_left();
    assert_eq!(app.character_index, 0);
    app.enter_char('a');
    app.move_cursor_right();
    assert_eq!(app.character_index, 1);
    assert_eq!(app.clamp_cursor(5), 1);
    app.reset_cursor();
    assert_eq!(app.character_index, 0);
}

#[test]
fn submitting_a_message_records_and_clears_it() {
    let mut app = App::new();
    app.enter_char('h');
    app.enter_char('i');
    app.submit_message();
    assert_eq!(app.messages, vec![(true, "hi".to_string())]);
    assert_eq!(app.input, "");
    assert_eq!(app.character_index, 0);
}

#[test]
fn the_config_root_prefers_the_configured_path() {
    let c = Config::resolve(
        Some("/home/u".to_string()),
        Some("/data/u".to_string()),
        "/work".to_string(),
    );
    assert_eq!(c.user_home_path, "/data/u");
    assert_eq!(c.config_path, "/data/u/.config/hermod");
    assert_eq!(c.current_path, "/work");

    let c = Config::resolve(Some("/home/u".to_string()), None, "/work".to_string());
    assert_eq!(c.config_path, "/home/u/.config/hermod");

    let c = Config::resolve(None, None, "/work".to_string());
    assert_eq!(c.user_home_path, "./");
    assert_eq!(c.config_path, ".//.config/hermod");
}

#[test]
fn the_service_config_defaults_port_and_log_level() {
    let c = hermod::service_config::Config::resolve(None, None);
    assert_eq!(c.port, "8080");
    assert_eq!(c.log_level, "debug");
    let c = hermod::service_config::Config::resolve(
        Some("9999".to_string()),
        Some("trace".to_string()),
    );
    assert_eq!(c.port, "9999");
    assert_eq!(c.log_level, "trace");
}
