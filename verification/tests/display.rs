use pretty::Val::{List, Raw, Tree};
use pretty::longest_key_length;

#[test]
fn test_display_single() {
    assert_eq!(Raw(format!("{}", 123)).to_text(), "123");
}

#[test]
fn longest_key_length_works() {
    let input = vec![
        ("name".to_string(), Raw("zaphod".to_string())),
        ("age".to_string(), Raw(format!("{}", 42))),
    ];
    assert_eq!(longest_key_length(&input), 4);
}

#[test]
fn test_display_flat_pairs() {
    let input = Tree(vec![
        ("name".to_string(), Raw("zaphod".to_string())),
        ("age".to_string(), Raw(format!("{}", 42))),
    ]);
    assert_eq!(
        input.to_text(),
        "\
- name: zaphod
- age : 42
"
    );
}

#[test]
fn test_display_nested_pairs() {
    let input = Tree(vec![
        (
            "character".to_string(),
            Tree(vec![
                ("name".to_string(), Raw("zaphod".to_string())),
                ("age".to_string(), Raw(format!("{}", 42))),
            ]),
        ),
        ("crook".to_string(), Raw("yes".to_string())),
    ]);
    assert_eq!(
        input.to_text(),
        "\
- character:
    - name: zaphod
    - age : 42
- crook    : yes
"
    );
}

#[test]
fn test_display_tested_list() {
    let input = Tree(vec![
        (
            "character".to_string(),
            Tree(vec![
                ("name".to_string(), Raw("zaphod".to_string())),
                ("age".to_string(), Raw(format!("{}", 42))),
            ]),
        ),
        ("crook".to_string(), Raw("yes".to_string())),
        (
            "facts".to_string(),
            List(vec![
                Raw("invented pan-galactic gargle blaster".to_string()),
                Raw("elected president".to_string()),
                Tree(vec![
                    ("heads".to_string(), Raw(format!("{}", 2))),
                    ("arms".to_string(), Raw(format!("{}", 3))),
                ]),
                List(vec![
                    Raw("stole the heart of gold".to_string()),
                    Raw("one hoopy frood".to_string()),
                ]),
            ]),
        ),
    ]);
    assert_eq!(
        input.to_text(),
        "\
- character:
    - name: zaphod
    - age : 42
- crook    : yes
- facts    :
    * invented pan-galactic gargle blaster
    * elected president
    *
        - heads: 2
        - arms : 3
    *
        * stole the heart of gold
        * one hoopy frood
"
    );
}
