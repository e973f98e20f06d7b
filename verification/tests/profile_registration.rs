use blue_cli::profile::{contains, entry_for, is_registered, register, CARRIAGE_RETURN, LINE_FEED};
use blue_cli::registrar::target_line;

const LINE: &[u8] = b"export PATH=$PATH:/home/alice/.blue/bin";

fn count(content: &[u8], needle: &[u8]) -> usize {
    if needle.is_empty() || content.len() < needle.len() {
        return 0;
    }
    let mut found = 0;
    for at in 0..=content.len() - needle.len() {
        if &content[at..at + needle.len()] == needle {
            found += 1;
        }
    }
    found
}

#[test]
fn line_bytes() {
    assert_eq!(LINE_FEED, b'\n');
    assert_eq!(CARRIAGE_RETURN, b'\r');
    assert_eq!(entry_for(b"abc"), b"abc\n".to_vec());
    assert_eq!(entry_for(b""), b"\n".to_vec());
    assert_eq!(target_line("/home/alice/.blue/bin").as_bytes(), LINE);
}

#[test]
fn substring_search() {
    assert!(contains(b"hello world", b"lo wo"));
    assert!(contains(b"hello world", b"hello world"));
    assert!(contains(b"hello world", b"hello"));
    assert!(contains(b"hello world", b"world"));
    assert!(contains(b"hello world", b"d"));
    assert!(contains(b"hello world", b""));
    assert!(contains(b"", b""));
    assert!(!contains(b"", b"a"));
    assert!(!contains(b"hello world", b"hello world!"));
    assert!(!contains(b"hello world", b"worlds"));
    assert!(!contains(b"hello world", b"low"));
    assert!(contains(b"aaab", b"aab"));
    assert!(!contains(b"abab", b"abb"));
}

#[test]
fn empty_profile_gets_exactly_one_line() {
    let mut profile: Vec<u8> = Vec::new();
    assert!(!is_registered(&profile, LINE));
    assert!(register(&mut profile, LINE));
    assert_eq!(profile, b"export PATH=$PATH:/home/alice/.blue/bin\n".to_vec());
    assert!(is_registered(&profile, LINE));
}

#[test]
fn registering_twice_writes_once() {
    let mut profile = b"# my profile\nalias ll='ls -l'\n".to_vec();
    assert!(register(&mut profile, LINE));
    let once = profile.clone();
    assert!(!register(&mut profile, LINE));
    assert_eq!(profile, once);
    assert!(!register(&mut profile, LINE));
    assert_eq!(profile, once);
    assert_eq!(count(&profile, LINE), 1);
    assert_eq!(
        profile,
        b"# my profile\nalias ll='ls -l'\nexport PATH=$PATH:/home/alice/.blue/bin\n".to_vec()
    );
}

#[test]
fn verbatim_line_is_found() {
    let before = b"export PATH=$PATH:/home/alice/.blue/bin\n".to_vec();
    let mut profile = before.clone();
    assert!(is_registered(&profile, LINE));
    assert!(!register(&mut profile, LINE));
    assert_eq!(profile, before);

    let before = b"export PATH=$PATH:/home/alice/.blue/bin".to_vec();
    let mut profile = before.clone();
    assert!(!register(&mut profile, LINE));
    assert_eq!(profile, before);
}

#[test]
fn longer_line_counts_as_the_line() {
    let before =
        b"# tools\n  export PATH=$PATH:/home/alice/.blue/bin:/opt/other # added by hand\nset -o vi\n"
            .to_vec();
    let mut profile = before.clone();
    assert!(is_registered(&profile, LINE));
    assert!(!register(&mut profile, LINE));
    assert_eq!(profile, before);
}

#[test]
fn line_is_found_wherever_it_stands() {
    assert!(is_registered(b"export PATH=$PATH:/home/alice/.blue/bin\nb\nc\n", LINE));
    assert!(is_registered(b"a\nexport PATH=$PATH:/home/alice/.blue/bin\nc\n", LINE));
    assert!(is_registered(b"a\nb\nexport PATH=$PATH:/home/alice/.blue/bin\n", LINE));
    assert!(is_registered(b"a\nb\nexport PATH=$PATH:/home/alice/.blue/bin", LINE));
    assert!(is_registered(b"a\r\nexport PATH=$PATH:/home/alice/.blue/bin\r\nc\r\n", LINE));
}

#[test]
fn similar_lines_are_not_the_line() {
    assert!(!is_registered(b"export PATH=$PATH:/home/alice/.blue\n", LINE));
    assert!(!is_registered(b"export PATH=$PATH:/home/bob/.blue/bin\n", LINE));
    assert!(!is_registered(b"export  PATH=$PATH:/home/alice/.blue/bin\n", LINE));
    assert!(!is_registered(b"EXPORT PATH=$PATH:/home/alice/.blue/bin\n", LINE));
    assert!(!is_registered(b"\n\n\n", LINE));
}

#[test]
fn line_does_not_reach_over_a_line_end() {
    assert!(!is_registered(b"export PATH=$PATH:/home/alice\n/.blue/bin\n", LINE));
    assert!(!is_registered(b"export PATH=$PATH:\n/home/alice/.blue/bin\n", LINE));
    assert!(is_registered(b"ab\ncd\n", b"ab"));
    assert!(is_registered(b"ab\ncd\n", b"cd"));
    assert!(!is_registered(b"ab\ncd\n", b"bc"));
    assert!(!is_registered(b"ab\ncd\n", b"b\nc"));
}

#[test]
fn carriage_return_belongs_to_the_line_end() {
    assert!(is_registered(b"ab\r\n", b"ab"));
    assert!(!is_registered(b"ab\r\n", b"ab\r"));
    assert!(!is_registered(b"ab\r\n", b"b\r"));
    assert!(is_registered(b"a\rb\r\n", b"a\rb"));
    assert!(is_registered(b"ab\r\r\n", b"ab\r"));
    assert!(is_registered(b"ab\r", b"ab\r"));
    assert!(is_registered(b"x\nab\r", b"b\r"));
}

#[test]
fn empty_line_is_found_in_any_line() {
    assert!(!is_registered(b"", b""));
    assert!(is_registered(b"\n", b""));
    assert!(is_registered(b"a", b""));
    let mut profile: Vec<u8> = Vec::new();
    assert!(register(&mut profile, b""));
    assert_eq!(profile, b"\n".to_vec());
    assert!(!register(&mut profile, b""));
    assert_eq!(profile, b"\n".to_vec());
}

#[test]
fn line_joins_an_open_last_line() {
    let mut profile = b"alias ll='ls -l'".to_vec();
    assert!(register(&mut profile, LINE));
    assert_eq!(
        profile,
        b"alias ll='ls -l'export PATH=$PATH:/home/alice/.blue/bin\n".to_vec()
    );
    let once = profile.clone();
    assert!(!register(&mut profile, LINE));
    assert_eq!(profile, once);
    assert_eq!(count(&profile, LINE), 1);
}

#[test]
fn bytes_that_are_no_text_are_read_as_bytes() {
    let mut before = vec![0xffu8, 0xfe, b' '];
    before.extend_from_slice(LINE);
    before.extend_from_slice(b" \xc3\n");
    let mut profile = before.clone();
    assert!(is_registered(&profile, LINE));
    assert!(!register(&mut profile, LINE));
    assert_eq!(profile, before);

    let mut profile = vec![0xc3u8, 0x28, b'\n'];
    assert!(register(&mut profile, LINE));
    let once = profile.clone();
    assert!(!register(&mut profile, LINE));
    assert_eq!(profile, once);
}

#[test]
fn directory_with_unicode_name() {
    let line = target_line("/home/\u{e9}lo\u{ef}se/.blue/bin");
    let mut profile = b"# profil\n".to_vec();
    assert!(register(&mut profile, line.as_bytes()));
    assert_eq!(
        profile,
        "# profil\nexport PATH=$PATH:/home/\u{e9}lo\u{ef}se/.blue/bin\n".as_bytes().to_vec()
    );
    assert!(!register(&mut profile, line.as_bytes()));
}

#[test]
fn line_with_a_line_feed_is_never_found_again() {
    let line = target_line("/opt/odd\nname");
    let mut profile: Vec<u8> = Vec::new();
    assert!(register(&mut profile, line.as_bytes()));
    assert!(register(&mut profile, line.as_bytes()));
    assert_eq!(count(&profile, line.as_bytes()), 2);
}

#[test]
fn line_that_ends_in_a_carriage_return_is_never_found_again() {
    let line = target_line("/opt/odd\r");
    let mut profile: Vec<u8> = Vec::new();
    assert!(register(&mut profile, line.as_bytes()));
    assert!(register(&mut profile, line.as_bytes()));
    assert_eq!(count(&profile, line.as_bytes()), 2);
}
