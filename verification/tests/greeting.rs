use greeter_host::greet;

#[test]
fn greets_world() {
    assert_eq!(greet("World"), "Hello, World! You've been greeted from Rust!");
}

#[test]
fn greets_the_empty_name() {
    assert_eq!(greet(""), "Hello, ! You've been greeted from Rust!");
}

#[test]
fn empty_name_leaves_no_double_space() {
    let out = greet("");
    assert!(out.starts_with("Hello, !"));
    assert!(out.ends_with("! You've been greeted from Rust!"));
    assert!(!out.contains("  "));
}

#[test]
fn greeting_is_frame_around_name() {
    let names = ["Ada", "a b", "x", "Grace Hopper", "42"];
    for name in names {
        let expected = format!("Hello, {}! You've been greeted from Rust!", name);
        assert_eq!(greet(name), expected);
    }
}

#[test]
fn name_is_neither_trimmed_nor_escaped() {
    assert_eq!(
        greet("  padded\t\n"),
        "Hello,   padded\t\n! You've been greeted from Rust!"
    );
    assert_eq!(greet("{}"), "Hello, {}! You've been greeted from Rust!");
    assert_eq!(
        greet("<b>\"q\" & 'r' \\</b>"),
        "Hello, <b>\"q\" & 'r' \\</b>! You've been greeted from Rust!"
    );
    assert_eq!(
        greet("Zo\u{eb} \u{4e16}\u{754c}"),
        "Hello, Zo\u{eb} \u{4e16}\u{754c}! You've been greeted from Rust!"
    );
}

#[test]
fn greeting_is_39_characters_longer_than_name() {
    assert_eq!(greet("").chars().count(), 39);
    assert_eq!(greet("World").chars().count(), 44);
    assert_eq!(greet("\u{4e16}\u{754c}").chars().count(), 41);
}

#[test]
fn long_name_is_not_cut() {
    let name = "n".repeat(100_000);
    let out = greet(&name);
    assert_eq!(out.len(), 100_039);
    assert_eq!(&out[7..100_007], name.as_str());
}

#[test]
fn name_can_be_read_back_from_greeting() {
    let out = greet("Hello, ! You've been greeted from Rust!");
    let inner: String = out.chars().skip(7).take(39).collect();
    assert_eq!(inner, "Hello, ! You've been greeted from Rust!");
    assert_eq!(out.chars().count(), 78);
}

#[test]
fn distinct_names_give_distinct_greetings() {
    let names = ["a", "b", "a ", " a", "A", "", "!"];
    for (i, x) in names.iter().enumerate() {
        for (j, y) in names.iter().enumerate() {
            assert_eq!(greet(x) == greet(y), i == j);
        }
    }
}

#[test]
fn same_name_gives_same_greeting() {
    let first = greet("Lin");
    let second = greet("Lin");
    assert_eq!(first, second);
    assert_eq!(first, "Hello, Lin! You've been greeted from Rust!");
}

#[test]
fn interleaved_calls_do_not_mix() {
    let a = greet("first");
    let b = greet("second");
    let c = greet("first");
    assert_eq!(a, "Hello, first! You've been greeted from Rust!");
    assert_eq!(b, "Hello, second! You've been greeted from Rust!");
    assert_eq!(c, a);
}

#[test]
fn many_callers_each_get_their_own_greeting() {
    let mut names = Vec::new();
    for round in 0..50usize {
        for id in 0..16usize {
            names.push(format!("caller-{}-{}", id, round));
        }
    }
    let outputs: Vec<String> = names.iter().map(|name| greet(name)).collect();
    assert_eq!(outputs.len(), 800);
    for (name, out) in names.iter().zip(outputs.iter()) {
        assert_eq!(*out, format!("Hello, {}! You've been greeted from Rust!", name));
    }
    for (i, a) in outputs.iter().enumerate() {
        for b in outputs.iter().skip(i + 1) {
            assert_ne!(a, b);
        }
    }
}
