use dbc_viewer::detail::{header_fields, HeaderFields};
use dbc_viewer::text::{block_title, decimal_string, str_lt};

#[test]
fn decimal_matches_to_string() {
    for n in [0u32, 7, 10, 256, 1000, 65535, 0x1FFF_FFFF, u32::MAX] {
        assert_eq!(decimal_string(n), n.to_string());
    }
}

#[test]
fn panel_titles() {
    assert_eq!(block_title("Detail", '2'), " [2] Detail ");
    assert_eq!(block_title("", '1'), " [1]  ");
}

#[test]
fn string_order() {
    assert!(str_lt("a", "b"));
    assert!(str_lt("ab", "abc"));
    assert!(!str_lt("abc", "ab"));
    assert!(!str_lt("same", "same"));
    assert!(str_lt("F(12)", "Home"));
    assert!(str_lt("é", "ë"));
    assert_eq!(str_lt("Zeta", "alpha"), "Zeta" < "alpha");
}

#[test]
fn header_fields_of_identifiers() {
    use_header(0x18FEF100, 0xFEF1, 0x00, 0xF1, 6);
    use_header(0x0CF00400, 0xF004, 0x00, 0x04, 3);
    use_header(0x100, 0x0001, 0x00, 0x01, 0);
    use_header(0x1FFFFFFF, 0xFFFF, 0xFF, 0xFF, 7);
}

fn use_header(id: u32, pgn: u32, sa: u32, da: u32, priority: u32) {
    let h = header_fields(id);
    assert_eq!(h, HeaderFields { pgn, sa, da, priority });
}
