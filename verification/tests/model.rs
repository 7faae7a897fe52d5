use pretty::Val::{BlockSig, Epoch, List, Raw, Signature, SlotId, Stakeholder, Tree, XPub};
use pretty::{from_debug, from_display, render, Pretty, Val};

#[test]
fn hash_renders_green_hex() {
    assert_eq!(
        Val::Hash(vec![0xde, 0xad, 0xbe, 0xef]).to_text(),
        "\u{1b}[32mdeadbeef\u{1b}[0m"
    );
}

#[test]
fn hash_hex_keeps_leading_zeros() {
    assert_eq!(Val::Hash(vec![0x00, 0x0f]).to_text(), "\u{1b}[32m000f\u{1b}[0m");
}

#[test]
fn epoch_renders_blue_decimal() {
    assert_eq!(Epoch(42).to_text(), "\u{1b}[34m42\u{1b}[0m");
}

#[test]
fn epoch_renders_largest_value() {
    assert_eq!(Epoch(4294967295).to_text(), "\u{1b}[34m4294967295\u{1b}[0m");
}

#[test]
fn slot_renders_purple_decimal() {
    assert_eq!(SlotId(0).to_text(), "\u{1b}[35m0\u{1b}[0m");
}

#[test]
fn signatures_render_cyan() {
    assert_eq!(BlockSig("sig".to_string()).to_text(), "\u{1b}[36msig\u{1b}[0m");
    assert_eq!(Signature("sg2".to_string()).to_text(), "\u{1b}[36msg2\u{1b}[0m");
}

#[test]
fn actor_ids_render_yellow() {
    assert_eq!(XPub("pk".to_string()).to_text(), "\u{1b}[33mpk\u{1b}[0m");
    assert_eq!(Stakeholder("sh".to_string()).to_text(), "\u{1b}[33msh\u{1b}[0m");
}

#[test]
fn hash_colour_is_context_free() {
    let nested = Tree(vec![(
        "outer".to_string(),
        Tree(vec![("h".to_string(), Val::Hash(vec![0xab]))]),
    )]);
    assert_eq!(
        nested.to_text(),
        "- outer:\n    - h: \u{1b}[32mab\u{1b}[0m\n"
    );
}

#[test]
fn empty_nonterminals_render_nothing() {
    assert_eq!(Tree(vec![]).to_text(), "");
    assert_eq!(List(vec![]).to_text(), "");
}

#[test]
fn empty_child_still_gets_its_key_line() {
    let input = Tree(vec![
        ("a".to_string(), List(vec![])),
        ("b".to_string(), Tree(vec![])),
    ]);
    assert_eq!(input.to_text(), "- a:\n- b:\n");
}

#[test]
fn empty_list_element_still_gets_its_bullet_line() {
    let input = List(vec![List(vec![]), Raw("x".to_string())]);
    assert_eq!(input.to_text(), "*\n* x\n");
}

#[test]
fn rendering_is_idempotent() {
    let input = Tree(vec![
        ("name".to_string(), Raw("zaphod".to_string())),
        ("facts".to_string(), List(vec![Raw("a".to_string())])),
    ]);
    assert_eq!(input.to_text(), input.to_text());
    assert_eq!(render(&input, 4, 0), render(&input, 4, 0));
}

#[test]
fn render_honours_indent_configuration() {
    let input = Tree(vec![("k".to_string(), Raw("v".to_string()))]);
    assert_eq!(render(&input, 2, 1), "  - k: v\n");
    assert_eq!(render(&input, 0, 5), "- k: v\n");
}

#[test]
fn nested_mixed_scenario() {
    let input = Tree(vec![
        (
            "character".to_string(),
            Tree(vec![
                ("name".to_string(), Raw("zaphod".to_string())),
                ("age".to_string(), Raw("42".to_string())),
            ]),
        ),
        ("crook".to_string(), Raw("yes".to_string())),
        (
            "facts".to_string(),
            List(vec![
                Raw("a".to_string()),
                Raw("b".to_string()),
                Tree(vec![
                    ("heads".to_string(), Raw("2".to_string())),
                    ("arms".to_string(), Raw("3".to_string())),
                ]),
                List(vec![Raw("x".to_string()), Raw("y".to_string())]),
            ]),
        ),
    ]);
    assert_eq!(
        input.to_text(),
        "\
- character:
    - name: zaphod
    - age : 42
- crook    : yes
- facts    :
    * a
    * b
    *
        - heads: 2
        - arms : 3
    *
        * x
        * y
"
    );
}

#[test]
fn from_debug_marks_the_dump_as_provisional() {
    match from_debug("Thing { n: 1 }") {
        Val::Raw(t) => assert_eq!(t, "TODO Thing { n: 1 }"),
        _ => panic!("from_debug must produce a Raw"),
    }
}

#[test]
fn from_display_wraps_the_text_verbatim() {
    match from_display("12.5") {
        Val::Raw(t) => assert_eq!(t, "12.5"),
        _ => panic!("from_display must produce a Raw"),
    }
}

#[test]
fn epoch_id_converts_to_epoch_terminal() {
    let e: pretty::EpochId = 7;
    assert_eq!(e.to_pretty().to_text(), "\u{1b}[34m7\u{1b}[0m");
}

#[test]
fn slot_id_converts_to_labelled_tree() {
    let s = pretty::SlotId { epoch: 4, slotid: 14 };
    assert_eq!(
        s.to_pretty().to_text(),
        "- epoch  : \u{1b}[34m4\u{1b}[0m\n- slot id: \u{1b}[35m14\u{1b}[0m\n"
    );
}

#[test]
fn empty_raw_still_ends_its_line() {
    let input = Tree(vec![("k".to_string(), Raw(String::new()))]);
    assert_eq!(input.to_text(), "- k: \n");
}
