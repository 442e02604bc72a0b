use zed_zig::path::{file_name, join};
use zed_zig::platform::{Arch, ArchiveKind, Os, PlatformTarget};
use zed_zig::text::{chars_of, has_suffix, is_whitespace_char, same_text, text_of, trim};
use zed_zig::url::push_percent_encoded;

fn token_of(os: Os, arch: Arch) -> String {
    PlatformTarget { os, arch }.token()
}

#[test]
fn target_tokens_follow_arch_then_os() {
    assert_eq!(token_of(Os::Mac, Arch::Aarch64), "aarch64-macos");
    assert_eq!(token_of(Os::Mac, Arch::X8664), "x86_64-macos");
    assert_eq!(token_of(Os::Linux, Arch::Aarch64), "aarch64-linux");
    assert_eq!(token_of(Os::Linux, Arch::X8664), "x86_64-linux");
    assert_eq!(token_of(Os::Windows, Arch::Aarch64), "aarch64-windows");
    assert_eq!(token_of(Os::Windows, Arch::X8664), "x86_64-windows");
}

#[test]
fn target_tokens_for_32_bit_x86() {
    assert_eq!(token_of(Os::Mac, Arch::X86), "x86-macos");
    assert_eq!(token_of(Os::Linux, Arch::X86), "x86-linux");
    assert_eq!(token_of(Os::Windows, Arch::X86), "x86-windows");
}

#[test]
fn os_and_arch_tokens() {
    assert_eq!(Os::Mac.token(), "macos");
    assert_eq!(Os::Linux.token(), "linux");
    assert_eq!(Os::Windows.token(), "windows");
    assert_eq!(Arch::Aarch64.token(), "aarch64");
    assert_eq!(Arch::X86.token(), "x86");
    assert_eq!(Arch::X8664.token(), "x86_64");
}

#[test]
fn archive_follows_the_platform() {
    assert_eq!(Os::Mac.archive_extension(), "tar.gz");
    assert_eq!(Os::Linux.archive_extension(), "tar.gz");
    assert_eq!(Os::Windows.archive_extension(), "zip");
    assert_eq!(Os::Mac.archive_kind(), ArchiveKind::GzipTar);
    assert_eq!(Os::Linux.archive_kind(), ArchiveKind::GzipTar);
    assert_eq!(Os::Windows.archive_kind(), ArchiveKind::Zip);
}

#[test]
fn chars_and_back() {
    let chars = chars_of("zig é");
    assert_eq!(chars, vec!['z', 'i', 'g', ' ', 'é']);
    assert_eq!(text_of(&chars, 0, 5), "zig é");
    assert_eq!(text_of(&chars, 1, 3), "ig");
    assert_eq!(text_of(&chars, 2, 2), "");
    assert_eq!(chars_of(""), Vec::<char>::new());
}

#[test]
fn same_text_compares_characters() {
    assert!(same_text("build", "build"));
    assert!(same_text("", ""));
    assert!(!same_text("build", "builds"));
    assert!(!same_text("builds", "build"));
    assert!(!same_text("build", "bui1d"));
    assert!(!same_text("", "x"));
}

#[test]
fn whitespace_is_unicode_white_space() {
    for c in [' ', '\t', '\n', '\r', '\u{0B}', '\u{0C}', '\u{85}', '\u{A0}', '\u{1680}',
        '\u{2000}', '\u{200A}', '\u{2028}', '\u{2029}', '\u{202F}', '\u{205F}', '\u{3000}']
    {
        assert!(is_whitespace_char(c));
        assert!(c.is_whitespace());
    }
    for c in ['a', '0', '.', '\u{200B}', '\u{1F}', '\u{FEFF}'] {
        assert!(!is_whitespace_char(c));
        assert!(!c.is_whitespace());
    }
}

#[test]
fn whitespace_agrees_with_std_on_every_char() {
    let mut code: u32 = 0;
    while code <= 0x10FFFF {
        if let Some(c) = char::from_u32(code) {
            assert_eq!(is_whitespace_char(c), c.is_whitespace());
        }
        code += 1;
    }
}

#[test]
fn trim_removes_surrounding_white_space() {
    assert_eq!(trim("0.13.0\n"), "0.13.0");
    assert_eq!(trim("0.13.0"), "0.13.0");
    assert_eq!(trim("  \t0.14.0-dev.2+abc \r\n"), "0.14.0-dev.2+abc");
    assert_eq!(trim("a b"), "a b");
    assert_eq!(trim(" a b "), "a b");
    assert_eq!(trim(""), "");
    assert_eq!(trim(" \n\t "), "");
    assert_eq!(trim("\u{3000}x\u{A0}"), "x");
}

#[test]
fn trim_agrees_with_std() {
    for s in ["", " ", "x", " x", "x ", "\n0.13.0\n", "  a  b  ", "\u{2003}é \u{85}"] {
        assert_eq!(trim(s), s.trim());
    }
}

#[test]
fn suffix_check() {
    assert!(has_suffix(&chars_of("a.tar.xz"), &chars_of(".tar.xz")));
    assert!(has_suffix(&chars_of(".tar.xz"), &chars_of(".tar.xz")));
    assert!(has_suffix(&chars_of("abc"), &chars_of("")));
    assert!(!has_suffix(&chars_of("tar.xz"), &chars_of(".tar.xz")));
    assert!(!has_suffix(&chars_of("a.tar.gz"), &chars_of(".tar.xz")));
    assert!(!has_suffix(&chars_of("a.tar.xz.sig"), &chars_of(".tar.xz")));
}

#[test]
fn percent_encoding_keeps_unreserved_characters() {
    let mut out = String::from("v=");
    push_percent_encoded(&mut out, "0.13.0");
    assert_eq!(out, "v=0.13.0");
    let mut out = String::new();
    push_percent_encoded(&mut out, "AZaz09-._~");
    assert_eq!(out, "AZaz09-._~");
}

#[test]
fn percent_encoding_escapes_everything_else() {
    let mut out = String::new();
    push_percent_encoded(&mut out, "0.14.0-dev.2577+271452d22");
    assert_eq!(out, "0.14.0-dev.2577%2B271452d22");
    let mut out = String::new();
    push_percent_encoded(&mut out, "a b/c?d&e=f%");
    assert_eq!(out, "a%20b%2Fc%3Fd%26e%3Df%25");
    let mut out = String::new();
    push_percent_encoded(&mut out, "é\u{1F600}");
    assert_eq!(out, "%C3%A9%F0%9F%98%80");
    let mut out = String::new();
    push_percent_encoded(&mut out, "\u{0}\n\u{7F}");
    assert_eq!(out, "%00%0A%7F");
}

#[test]
fn join_puts_one_separator_between() {
    assert_eq!(join("/home/u/proj", "zig_test"), "/home/u/proj/zig_test");
    assert_eq!(join("/home/u/proj/", "zig_test"), "/home/u/proj/zig_test");
    assert_eq!(join("/", "zig_test"), "/zig_test");
    assert_eq!(join("", "zig_test"), "zig_test");
    assert_eq!(join("rel", "zig_test"), "rel/zig_test");
}

#[test]
fn file_name_is_the_last_segment() {
    assert_eq!(file_name("/home/u/myproj", Os::Linux), Some(String::from("myproj")));
    assert_eq!(file_name("/home/u/myproj/", Os::Linux), Some(String::from("myproj")));
    assert_eq!(file_name("/home/u/myproj//", Os::Mac), Some(String::from("myproj")));
    assert_eq!(file_name("/home/u/myproj/.", Os::Linux), Some(String::from("myproj")));
    assert_eq!(file_name("/home/u/myproj/./", Os::Linux), Some(String::from("myproj")));
    assert_eq!(file_name("myproj", Os::Linux), Some(String::from("myproj")));
    assert_eq!(file_name("a/b.zig", Os::Linux), Some(String::from("b.zig")));
    assert_eq!(file_name("a/...", Os::Linux), Some(String::from("...")));
    assert_eq!(file_name("a/.b", Os::Linux), Some(String::from(".b")));
}

#[test]
fn file_name_of_nothing() {
    assert_eq!(file_name("", Os::Linux), None);
    assert_eq!(file_name("/", Os::Linux), None);
    assert_eq!(file_name("//", Os::Linux), None);
    assert_eq!(file_name(".", Os::Linux), None);
    assert_eq!(file_name("./", Os::Linux), None);
    assert_eq!(file_name("/.", Os::Linux), None);
    assert_eq!(file_name("..", Os::Linux), None);
    assert_eq!(file_name("a/..", Os::Linux), None);
    assert_eq!(file_name("a/../", Os::Linux), None);
    assert_eq!(file_name("a/.././", Os::Linux), None);
}

#[test]
fn file_name_reads_backslashes_on_windows_only() {
    assert_eq!(file_name("C:\\Users\\u\\myproj", Os::Windows), Some(String::from("myproj")));
    assert_eq!(file_name("C:\\Users\\u\\myproj\\", Os::Windows), Some(String::from("myproj")));
    assert_eq!(file_name("C:/Users\\u/myproj", Os::Windows), Some(String::from("myproj")));
    assert_eq!(file_name("a\\b", Os::Linux), Some(String::from("a\\b")));
    assert_eq!(file_name("/x/a\\b", Os::Mac), Some(String::from("a\\b")));
}

#[test]
fn file_name_agrees_with_std_paths() {
    for p in ["/home/u/myproj", "/home/u/myproj/", "a/./b", "a/b/.", "/", "", ".", "..", "a/..",
        "a//b//", "./a", "/.", "x"]
    {
        let expected = std::path::Path::new(p).file_name().map(|n| n.to_string_lossy().into_owned());
        assert_eq!(file_name(p, Os::Linux), expected);
    }
}
