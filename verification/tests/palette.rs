use queercat::palette::{build_helpstr, flags, lookup_pattern, parse_index, rainbow_entry};

const NAMES: [&str; 12] = [
    "rainbow",
    "transgender",
    "nonbinary",
    "lesbian",
    "gay",
    "pansexual",
    "bisexual",
    "gender_fluid",
    "asexual",
    "unlabeled",
    "aromantic",
    "aroace",
];

#[test]
fn catalog_has_the_twelve_entries_in_order() {
    let f = flags();
    assert_eq!(f.len(), 12);
    for (i, name) in NAMES.iter().enumerate() {
        assert_eq!(f[i].name, *name);
    }
}

#[test]
fn catalog_names_are_unique() {
    let f = flags();
    for i in 0..f.len() {
        for j in 0..i {
            assert_ne!(f[i].name, f[j].name);
        }
    }
}

#[test]
fn rainbow_entry_has_the_thirty_codes() {
    let e = rainbow_entry();
    assert_eq!(e.name, "rainbow");
    assert_eq!(
        e.ansii_codes,
        vec![
            39, 38, 44, 43, 49, 48, 84, 83, 119, 118, 154, 148, 184, 178, 214, 208, 209, 203,
            204, 198, 199, 163, 164, 128, 129, 93, 99, 63, 69, 33,
        ],
    );
}

#[test]
fn lookup_by_name_and_by_index_agree() {
    let f = flags();
    let by_name = lookup_pattern(&f, "transgender").expect("name lookup");
    let by_index = lookup_pattern(&f, "1").expect("index lookup");
    assert_eq!(by_name.name, by_index.name);
    assert_eq!(by_name.ansii_codes, by_index.ansii_codes);
}

#[test]
fn lookup_misses_yield_nothing() {
    let f = flags();
    assert!(lookup_pattern(&f, "nonexistent").is_none());
    assert!(lookup_pattern(&f, "999").is_none());
    assert!(lookup_pattern(&f, "12").is_none());
    assert!(lookup_pattern(&f, "").is_none());
}

#[test]
fn lookup_resolves_every_index() {
    let f = flags();
    let mut buf = String::new();
    for i in 0..12usize {
        buf.clear();
        buf.push_str(&format!("{}", i));
        let e = lookup_pattern(&f, &buf).expect("index in range");
        assert_eq!(e.name, NAMES[i]);
    }
}

#[test]
fn name_match_wins_over_index_parse() {
    let f = flags();
    let e = lookup_pattern(&f, "rainbow").expect("rainbow");
    assert_eq!(e.name, "rainbow");
    let e0 = lookup_pattern(&f, "0").expect("index zero");
    assert_eq!(e0.name, "rainbow");
}

#[test]
fn parse_index_reads_plain_decimals() {
    assert_eq!(parse_index("0"), Some(0));
    assert_eq!(parse_index("7"), Some(7));
    assert_eq!(parse_index("007"), Some(7));
    assert_eq!(parse_index("120"), Some(120));
}

#[test]
fn parse_index_rejects_everything_else() {
    assert_eq!(parse_index(""), None);
    assert_eq!(parse_index("1a"), None);
    assert_eq!(parse_index("-1"), None);
    assert_eq!(parse_index("+3"), None);
    assert_eq!(parse_index(" 2"), None);
    assert_eq!(parse_index("99999999999999999999999999999999"), None);
}

#[test]
fn helpstr_lists_every_entry_with_its_index() {
    let f = flags();
    let mut expected = String::new();
    expected.push_str("Usage: queercat [OPTION...] [--] [FILE...]\n\nConcatenate FILE(s), or standard input, to standard output.\nWith no FILE, or when FILE is -, read standard input.\n\n                --flag <d>, -f <d>: Choose colors to use (default: 0 (rainbow)):\n");
    for (i, name) in NAMES.iter().enumerate() {
        expected.push_str("                                      ");
        expected.push_str(name);
        expected.push_str(": ");
        expected.push_str(&format!("{}", i));
        expected.push_str("\n");
    }
    expected.push_str("--horizontal-frequency <d>, -h <d>: Horizontal rainbow frequency (default: 0.23)\n  --vertical-frequency <d>, -v <d>: Vertical rainbow frequency (default: 0.1)\n              --offset <d>, -o <d>: Offset of the start of the flag\n                 --force-color, -F: Force color even when stdout is not a tty\n                      --random, -r: Random colors\n                       --24bit, -b: Output in 24-bit \"true\" RGB mode (slower and\n                                    not supported by all terminals)\n                         --version: Print version and exit\n                            --help: Show this message\n\nExamples:\n  queercat f - g      Output f's contents, then stdin, then g's contents.\n  queercat            Copy standard input to standard output.\n  fortune | queercat  Display a rainbow cookie.\n");
    assert_eq!(build_helpstr(&f), expected);
}
