use lazy_panic::trace::{render_trace, Frame, Symbol};

#[test]
fn empty_trace_is_header_and_line_break() {
    let out = render_trace(&Vec::new());
    assert_eq!(out, b"Stack backtrace:\n".to_vec());
}

#[test]
fn one_resolved_frame_renders_name_and_position() {
    let frames = vec![Frame {
        ip: 0x2a,
        symbols: vec![Symbol {
            name: Some(b"main".to_vec()),
            file: Some(b"main.rs".to_vec()),
            line: Some(7),
        }],
    }];
    let out = render_trace(&frames);
    let expected = format!(
        "Stack backtrace:\n   0: {:>18} - main\n{:24}at main.rs:7\n",
        "0x2a", ""
    );
    assert_eq!(out, expected.into_bytes());
}

#[test]
fn unresolved_frame_renders_marker() {
    let frames = vec![Frame { ip: 0xff, symbols: Vec::new() }];
    let out = render_trace(&frames);
    let expected = format!("Stack backtrace:\n   0: {:>18} - <unresolved>\n", "0xff");
    assert_eq!(out, expected.into_bytes());
}

#[test]
fn nameless_symbol_renders_unknown_marker() {
    let frames = vec![Frame {
        ip: 0x10,
        symbols: vec![Symbol { name: None, file: None, line: None }],
    }];
    let out = render_trace(&frames);
    let expected = format!("Stack backtrace:\n   0: {:>18} - <unknown>\n", "0x10");
    assert_eq!(out, expected.into_bytes());
}

#[test]
fn frames_are_numbered_and_symbols_continue_on_new_lines() {
    let frames = vec![
        Frame {
            ip: 0x1,
            symbols: vec![
                Symbol { name: Some(b"inner".to_vec()), file: None, line: None },
                Symbol {
                    name: Some(b"outer".to_vec()),
                    file: Some(b"lib.rs".to_vec()),
                    line: Some(305),
                },
            ],
        },
        Frame { ip: 0xabcdef, symbols: Vec::new() },
    ];
    let out = render_trace(&frames);
    let expected = format!(
        "Stack backtrace:\n   0: {:>18} - inner\n{:24} - outer\n{:24}at lib.rs:305\n   1: {:>18} - <unresolved>\n",
        "0x1", "", "", "0xabcdef"
    );
    assert_eq!(out, expected.into_bytes());
}
