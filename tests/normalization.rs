use simple_unicode_normalization_forms::{
    basic_string_clean, custom_character_normalization, custom_normalization, is_char_to_avoid,
    is_emoji, is_whitespace_char, push_decomposed, remove_emojis, trim_whitespace,
};
use std::time::{Duration, Instant};

#[test]
fn correctness() {
    let test_cases: [(&str, Option<&str>); 18] = [
        (
            "Este es un texto de prueba. Contiene todas las letras del alfabeto español: á, é, í, ó, ú, ü, ñ y Ñ. También incluye números (123) y otros símbolos habituales (-*#@€©) .",
            None,
        ),
        (
            "   dirección con\nvarias líneas y muchos    espacios en blanco   ",
            Some("dirección con varias líneas y muchos espacios en blanco"),
        ),
        ("\u{0000}\u{0008}\u{009F}\u{009E}", Some("")),
        ("Lui Ángel🪽🪽🪽🪽🪽🪽🫀🔂", Some("Lui Ángel")),
        (
            "  a\t   name with ❤️✳️0️⃣#️⃣  #©*1   ",
            Some("a name with ❤✳0# #©*1"),
        ),
        ("👍🏽👍🏻👍🏿", Some("")),
        ("🦰..🦳", Some("..")),
        ("𓃵𓀂𓆏𓍊𓋼𓍊🂡🀷🀉𐆔", Some("")),
        ("𝑝𝑖𝑒𝑑𝑎𝑑 𝑖𝑛𝑚𝑎𝑐𝑢𝑙𝑎𝑑𝑎", Some("piedad inmaculada")),
        ("𝑐𝑎𝑙𝑙𝑒 𝑞𝑢𝑒𝑣𝑒𝑑𝑜 𝑛𝑢𝑚𝑒𝑟𝑜 1 𝑐𝑎𝑠𝑎", Some("calle quevedo numero 1 casa")),
        ("Rua nossa senhora de Belém n16", None),
        ("Vordere Zollamtsstraße 11", None),
        ("GLUMSØ", None),
        ("Bård Skolemesters vei 14, 1.", None),
        ("45 شارع النهضة", None),
        ("女子学院中学校", None),
        ("ｱｲｳｴｵ", Some("アイウエオ")),
        ("北京海洋馆", None),
    ];

    for case in test_cases {
        let expected_result = match case.1 {
            Some(s) => s.to_string(),
            None => case.0.to_string(),
        };
        assert_eq!(expected_result, remove_emojis(case.0.to_string()))
    }
}

#[test]
#[allow(unused)]
fn performance() {
    let mut total: Duration = Duration::new(0, 0);

    for _ in 0..10000 {
        let t1 = Instant::now();
        remove_emojis(
            "𝑐𝑎𝑙𝑙𝑒 𝑞𝑢𝑒𝑣𝑒𝑑𝑜 𝑛𝑢𝑚𝑒𝑟𝑜 1 𝑐𝑎𝑠𝑎  a\t   name with ❤️✳️0️⃣#️⃣  #©*1👍🏽👍🏻👍🏿   "
                .to_string(),
        );
        let t2 = Instant::now();
        total += t2 - t1;
    }

    println!("{:?}", total / 10000);
}

fn clean_defaults(s: &str) -> String {
    basic_string_clean(s.to_string(), false, true, false, false)
}

#[test]
fn clean_keeps_line_terminators_by_default() {
    assert_eq!(clean_defaults("calle 1\nbajo\r\npiso"), "calle 1\nbajo\r\npiso");
}

#[test]
fn clean_turns_line_terminators_into_spaces_when_not_allowed() {
    let r = basic_string_clean("a\nb".to_string(), false, false, false, false);
    assert_eq!(r, "a b");
}

#[test]
fn clean_tab_allowed_or_not() {
    assert_eq!(basic_string_clean("a\tb".to_string(), true, true, false, false), "a\tb");
    assert_eq!(basic_string_clean("a\tb".to_string(), false, true, false, false), "a b");
}

#[test]
fn clean_without_collapse_keeps_every_space() {
    assert_eq!(clean_defaults("a  \u{3000}b"), "a   b");
    assert_eq!(basic_string_clean("a  \u{3000}b".to_string(), false, true, true, false), "a b");
}

#[test]
fn clean_without_emoji_removal_keeps_bmp_selectors() {
    assert_eq!(clean_defaults("❤️"), "❤\u{FE0F}");
    // a supplementary-plane emoji is still dropped by the codepoint filter
    assert_eq!(clean_defaults("a👍b"), "ab");
}

#[test]
fn clean_empty_input() {
    assert_eq!(clean_defaults(""), "");
    assert_eq!(remove_emojis(String::new()), "");
}

#[test]
fn allow_listed_wins_over_whitespace() {
    // tab is allow-listed here, so it is neither turned into a space nor trimmed inside
    assert_eq!(basic_string_clean("x \t y".to_string(), true, false, true, false), "x \t y");
}

#[test]
fn ordinal_indicators_bypass_decomposition() {
    // both decompose to `o` and `a` under compatibility decomposition
    assert_eq!(remove_emojis("1º piso, 2ª puerta".to_string()), "1º piso, 2ª puerta");
    assert_eq!(clean_defaults("ºª"), "ºª");
}

#[test]
fn emoji_between_words_is_no_separator() {
    assert_eq!(remove_emojis("ab👍cd".to_string()), "abcd");
    assert_eq!(remove_emojis("a 👍 b".to_string()), "a b");
    assert_eq!(remove_emojis("a 👍👍   👍 b".to_string()), "a b");
}

#[test]
fn filtered_decomposition_keeps_whitespace_state() {
    // U+0080 is a control character; it contributes nothing and does not end a run
    assert_eq!(remove_emojis("a \u{80} b".to_string()), "a b");
}

#[test]
fn decomposition_expands_ligatures_and_full_width() {
    assert_eq!(clean_defaults("ﬁn"), "fin");
    assert_eq!(clean_defaults("ＡＢＣ１"), "ABC1");
    assert_eq!(clean_defaults("½"), "1⁄2");
}

#[test]
fn composition_recombines_marks() {
    assert_eq!(clean_defaults("e\u{301}"), "é");
    assert_eq!(clean_defaults("ｶﾞ"), "ガ");
}

#[test]
fn custom_normalization_does_not_trim() {
    let r = custom_normalization("  a  ".to_string(), vec![], false, false);
    assert_eq!(r, "  a  ");
    let r = custom_normalization("  a  ".to_string(), vec![], true, false);
    assert_eq!(r, " a ");
}

#[test]
fn character_step_on_each_path() {
    let allow = vec!['º'];
    let mut out = String::new();
    assert!(!custom_character_normalization(&mut out, 'º', &allow, true, true, true));
    assert!(custom_character_normalization(&mut out, ' ', &allow, true, false, true));
    assert!(custom_character_normalization(&mut out, '\t', &allow, true, true, true));
    assert!(custom_character_normalization(&mut out, '👍', &allow, true, true, true));
    assert!(!custom_character_normalization(&mut out, '👍', &allow, true, false, true));
    assert!(!custom_character_normalization(&mut out, 'ﬀ', &allow, true, true, true));
    assert!(custom_character_normalization(&mut out, '\u{1D}', &allow, true, true, false));
    assert_eq!(out, "º ff");
}

#[test]
fn push_decomposed_filters_and_keeps_state() {
    let mut out = String::from("x");
    assert!(!push_decomposed(&mut out, &vec!['a', '\u{1D49C}', '\u{7F}', 'b'], true));
    assert_eq!(out, "xab");
    assert!(push_decomposed(&mut out, &vec!['\u{0}', '\u{10000}'], true));
    assert!(!push_decomposed(&mut out, &vec![], false));
    assert_eq!(out, "xab");
}

#[test]
fn trim_removes_unicode_whitespace_at_the_edges() {
    assert_eq!(trim_whitespace("\t a b \n\u{3000}"), "a b");
    assert_eq!(trim_whitespace("   "), "");
    assert_eq!(trim_whitespace(""), "");
    assert_eq!(trim_whitespace("ab"), "ab");
}

#[test]
fn emoji_detector() {
    for c in ['👍', '🏽', '\u{FE0E}', '\u{FE0F}', '\u{20E2}', '\u{20E3}', '\u{20E4}', '☝', '⌚', '🪽'] {
        assert!(is_emoji(c), "{:?}", c);
    }
    for c in ['a', '#', '0', '©', '❤', '✳', '\u{20E1}', '\u{FE0D}', 'ア'] {
        assert!(!is_emoji(c), "{:?}", c);
    }
}

#[test]
fn codepoint_filter() {
    for c in ['\u{0}', '\u{1F}', '\u{7F}', '\u{9F}', '\u{10000}', '\u{1D49C}'] {
        assert!(is_char_to_avoid(c), "{:?}", c);
    }
    for c in ['a', ' ', '\u{A0}', '\u{FFFF}', 'é'] {
        assert!(!is_char_to_avoid(c), "{:?}", c);
    }
}

#[test]
fn whitespace_class() {
    for c in ['\t', '\n', '\u{B}', '\u{C}', '\r', ' ', '\u{85}', '\u{A0}', '\u{1680}', '\u{2000}', '\u{200A}', '\u{2028}', '\u{2029}', '\u{202F}', '\u{205F}', '\u{3000}'] {
        assert!(is_whitespace_char(c), "{:?}", c);
        assert_eq!(is_whitespace_char(c), c.is_whitespace());
    }
    for c in ['a', '\u{200B}', '\u{180E}', '\u{FEFF}'] {
        assert!(!is_whitespace_char(c), "{:?}", c);
    }
}

const SAMPLES: [&str; 8] = [
    "  a\t   name with ❤️✳️0️⃣#️⃣  #©*1   ",
    "Lui Ángel🪽🪽🪽🪽🪽🪽🫀🔂",
    "𝑝𝑖𝑒𝑑𝑎𝑑 𝑖𝑛𝑚𝑎𝑐𝑢𝑙𝑎𝑑𝑎",
    "ｱｲｳｴｵ  ｶﾞ",
    "   dirección con\nvarias líneas y muchos    espacios en blanco   ",
    "1º piso \u{3000} 2ª",
    "ﬁ ½ ＡＢＣ e\u{301}",
    "\u{0}a\u{85}\u{85}b\u{2028}",
];

#[test]
fn normalizing_twice_changes_nothing() {
    for s in SAMPLES {
        let once = remove_emojis(s.to_string());
        assert_eq!(remove_emojis(once.clone()), once);
        let once = clean_defaults(s);
        assert_eq!(clean_defaults(&once), once);
    }
}

#[test]
fn output_has_no_raw_whitespace_and_no_double_space_when_collapsing() {
    for s in SAMPLES {
        let r = remove_emojis(s.to_string());
        assert!(r.chars().all(|c| c == ' ' || !c.is_whitespace()), "{:?}", r);
        assert!(!r.contains("  "), "{:?}", r);
    }
}

#[test]
fn output_has_no_edge_space() {
    for s in SAMPLES {
        for r in [remove_emojis(s.to_string()), clean_defaults(s)] {
            assert!(!r.starts_with(' ') && !r.ends_with(' '), "{:?}", r);
        }
    }
}

#[test]
fn output_stays_in_the_bmp() {
    for s in SAMPLES {
        for r in [remove_emojis(s.to_string()), clean_defaults(s)] {
            assert!(r.chars().all(|c| (c as u32) <= 0xFFFF), "{:?}", r);
        }
    }
}

#[test]
fn output_holds_no_emoji_when_removing() {
    for s in SAMPLES {
        let r = remove_emojis(s.to_string());
        assert!(r.chars().all(|c| !is_emoji(c)), "{:?}", r);
    }
}

#[test]
fn allow_listed_characters_survive() {
    let r = basic_string_clean("\tº x\tª\n".to_string(), true, true, true, true);
    assert_eq!(r, "º x\tª");
    assert_eq!(r.matches('º').count(), 1);
    assert_eq!(r.matches('ª').count(), 1);
}

#[test]
fn decomposition_into_a_space_is_not_collapsed() {
    // U+00A8 decomposes to a space and a combining diaeresis: that space does
    // not count as whitespace, so a second pass collapses it
    let once = remove_emojis("a ¨".to_string());
    assert_eq!(once, "a  \u{308}");
    assert_eq!(remove_emojis(once), "a \u{308}");
}
