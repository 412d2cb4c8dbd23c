use compiler_bot::utils::{extract_code_block, pick_code_block};

#[test]
fn block_with_language_tag() {
    let m = "!compile python\n```py\nprint('hi')\n```";
    assert_eq!(extract_code_block(m), Some("print('hi')".to_string()));
}

#[test]
fn block_without_tag() {
    assert_eq!(extract_code_block("```  x = 1  ```"), Some("x = 1".to_string()));
}

#[test]
fn no_block() {
    assert_eq!(extract_code_block("print(1)"), None);
    assert_eq!(extract_code_block("```\n   \n```"), None);
}

#[test]
fn picking_between_captures() {
    assert_eq!(
        pick_code_block(Some(" a ".to_string()), Some("b".to_string())),
        Some("a".to_string())
    );
    assert_eq!(
        pick_code_block(Some(" \n ".to_string()), Some(" b\n".to_string())),
        Some("b".to_string())
    );
    assert_eq!(pick_code_block(None, Some("  ".to_string())), None);
    assert_eq!(pick_code_block(None, None), None);
}
