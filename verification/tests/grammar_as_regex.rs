use lazy_regex::Regex;
use run_that::grammar::{check_domain, check_identifier, check_token};
use run_that::package_index::{parse_git_address, GitSpecifier, DEFAULT_DOMAIN};

/// The grammar of addresses, written as a regular expression.
const ADDRESS: &str = "^((?P<domain>(([a-zA-Z]{1})|([a-zA-Z]{1}[a-zA-Z]{1})|([a-zA-Z]{1}[0-9]{1})|([0-9]{1}[a-zA-Z]{1})|([a-zA-Z0-9][a-zA-Z0-9-_]{1,61}[a-zA-Z0-9]))\\.([a-zA-Z]{2,6}|[a-zA-Z0-9-]{2,30}\\.[a-zA-Z]{2,3})):)?(?P<user>[\\w_-]+)/(?P<name>[\\w_-]+)((?P<spectype>[@#$])(?P<spec>\\w+))?$";

const DOMAIN: &str = "^(([a-zA-Z]{1})|([a-zA-Z]{1}[a-zA-Z]{1})|([a-zA-Z]{1}[0-9]{1})|([0-9]{1}[a-zA-Z]{1})|([a-zA-Z0-9][a-zA-Z0-9-_]{1,61}[a-zA-Z0-9]))\\.([a-zA-Z]{2,6}|[a-zA-Z0-9-]{2,30}\\.[a-zA-Z]{2,3})$";

/// What the regular expression makes of `text`, part by part.
fn by_regex(re: &Regex, text: &str) -> Option<(String, String, String, Option<GitSpecifier>)> {
    let caps = re.captures(text)?;
    let part = |name: &str| caps.name(name).map(|m| m.as_str().to_string());
    let spec = part("spectype").map(|kind| {
        let token = part("spec").unwrap();
        match kind.as_str() {
            "$" => GitSpecifier::Branch(token),
            "@" => GitSpecifier::Tag(token),
            _ => GitSpecifier::Commit(token),
        }
    });
    Some((
        part("domain").unwrap_or(DEFAULT_DOMAIN.to_string()),
        part("user").unwrap(),
        part("name").unwrap(),
        spec,
    ))
}

/// What the parser makes of `text`, part by part.
fn by_parser(text: &str) -> Option<(String, String, String, Option<GitSpecifier>)> {
    let g = parse_git_address(text)?;
    Some((
        g.domain().to_string(),
        g.user().to_string(),
        g.name().to_string(),
        g.spec().cloned(),
    ))
}

const DOMAINS: [&str; 40] = [
    "", "a", "a.b", "a.io", "1.io", "ab.io", "a1.io", "1a.io", "11.io", "a-.io", "abc.io",
    "a-c.io", "a_c.io", "-ab.io", "ab-.io", "github.com", "gitlab.com", "codeberg.org",
    "host.co.uk", "host.c.uk", "host.co.u", "host.co.ukx", "host.co.ukxy", "host.c_o.uk",
    "host.abcdef", "host.abcdefg", "host.a1", "host..uk", ".com", "host.", "host.co.uk.uk",
    "a.b.c.d", "HOST.COM", "h0st.C0.Uk", "my_host.io", "my-host.io", "h.-.io", "h.--.io",
    "hôst.com", "host.cöm",
];

const USERS: [&str; 10] = ["", "u", "ur-fault", "_", "-", "a_b-c", "a.b", "a b", "é", "a€"];

const NAMES: [&str; 8] = ["", "n", "run-that", "lil_game", "a/b", "a:b", "名", "a\tb"];

const SPECS: [&str; 16] = [
    "", "$", "@", "#", "$x", "@v1", "#abc123", "@v1.0", "@a-b", "@a_b", "$$x", "@x@", "#é", "%x",
    "@ x", "@x ",
];

#[test]
fn parser_and_regex_agree_on_addresses() {
    let re = Regex::new(ADDRESS).unwrap();
    let mut addresses = 0;
    for d in DOMAINS {
        for u in USERS {
            for n in NAMES {
                for s in SPECS {
                    for text in [format!("{d}:{u}/{n}{s}"), format!("{u}/{n}{s}")] {
                        let expected = by_regex(&re, &text);
                        if expected.is_some() {
                            addresses += 1;
                        }
                        assert_eq!(by_parser(&text), expected, "{text:?}");
                    }
                }
            }
        }
    }
    assert!(addresses > 1000);
}

#[test]
fn parser_and_regex_agree_on_other_shapes() {
    let re = Regex::new(ADDRESS).unwrap();
    for text in [
        "user/name/extra",
        "a.io:b.io:u/n",
        "a.io:u/n:x",
        "u/n@x/y",
        "u//n",
        "a.io/u/n",
        "a.io:u",
        "u/n@x\n",
        "u/n\n",
        "\nu/n",
        "u/n\r",
        "a.io:u/n@",
        "a.io::u/n",
        "a.io:",
        ":",
        "/",
        "@",
        "",
    ] {
        assert_eq!(by_parser(text), by_regex(&re, text), "{text:?}");
    }
}

#[test]
fn parser_and_regex_agree_on_every_short_text() {
    // Every text of up to four characters over an alphabet that holds one of
    // each kind of character that the grammar tells apart.
    let re = Regex::new(ADDRESS).unwrap();
    let alphabet = ['a', '1', '-', '_', '.', ':', '/', '@', '$', '#', ' ', 'é'];
    let mut texts: Vec<String> = vec![String::new()];
    let mut from = 0;
    for _ in 0..4 {
        let to = texts.len();
        for i in from..to {
            for c in alphabet {
                let mut t = texts[i].clone();
                t.push(c);
                texts.push(t);
            }
        }
        from = to;
    }
    let mut addresses = 0;
    for text in &texts {
        let expected = by_regex(&re, text);
        if expected.is_some() {
            addresses += 1;
        }
        assert_eq!(by_parser(text), expected, "{text:?}");
    }
    assert!(addresses > 0);
}

#[test]
fn domain_check_and_regex_agree() {
    let re = Regex::new(DOMAIN).unwrap();
    for d in DOMAINS {
        assert_eq!(check_domain(d), re.is_match(d), "{d:?}");
    }
    // Every length of label and of suffix, around the limits.
    for label in [0usize, 1, 2, 3, 4, 61, 62, 63, 64, 65] {
        for host in [0usize, 1, 2, 3, 29, 30, 31] {
            for tld in [0usize, 1, 2, 3, 4, 5, 6, 7] {
                let plain = format!("{}.{}", "a".repeat(label), "b".repeat(tld));
                assert_eq!(check_domain(&plain), re.is_match(&plain), "{plain:?}");
                let compound =
                    format!("{}.{}.{}", "a".repeat(label), "c".repeat(host), "b".repeat(tld));
                assert_eq!(check_domain(&compound), re.is_match(&compound), "{compound:?}");
            }
        }
    }
}

#[test]
fn character_classes_and_regex_agree() {
    let ident = Regex::new("^[\\w_-]+$").unwrap();
    let word = Regex::new("^\\w+$").unwrap();
    let mut words = 0;
    let mut c = 0u32;
    while c < 0x3_0000 {
        if let Some(ch) = char::from_u32(c) {
            let text = ch.to_string();
            let is_word = word.is_match(&text);
            if is_word {
                words += 1;
            }
            assert_eq!(check_token(&text), is_word, "{ch:?}");
            assert_eq!(check_identifier(&text), ident.is_match(&text), "{ch:?}");
        }
        c += 1;
    }
    // Far more characters are word characters than the 63 of ASCII.
    assert!(words > 10_000);
    assert!(!check_token(""));
    assert!(!check_identifier(""));
}
