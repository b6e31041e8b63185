use std::path::{Component, Path};

use venman::name::{environment_name, EnvironmentName};
use venman::paths::Platform;

#[test]
fn plain_words_are_names() {
    for text in ["alpha", "my env", "v1.2", ".hidden", "..a", "a..b", "caf\u{e9}", "x"] {
        assert!(environment_name(text, Platform::Posix));
        assert!(environment_name(text, Platform::Windows));
    }
}

#[test]
fn the_empty_text_is_no_name() {
    assert!(!environment_name("", Platform::Posix));
    assert!(!environment_name("", Platform::Windows));
}

#[test]
fn steps_that_lead_elsewhere_are_no_names() {
    for text in [".", "..", "/", "a/b", "/a", "a/", "../a", "./a"] {
        assert!(!environment_name(text, Platform::Posix));
        assert!(!environment_name(text, Platform::Windows));
    }
}

#[test]
fn each_system_has_its_own_separators() {
    for text in ["a\\b", "c:", "c:x", "\\", "name.", "name ", ".. ", "...."] {
        assert!(!environment_name(text, Platform::Windows));
    }
    for text in ["a\\b", "c:", "c:x", "\\", "name.", "name ", ".. ", "...."] {
        assert!(environment_name(text, Platform::Posix));
    }
}

#[test]
fn a_name_is_a_single_step_of_a_path_on_this_system() {
    let samples = [
        "", ".", "..", "...", "a", "a/b", "/", "/a", "a/", "a//b", "./a", "a/.", "../a", "alpha",
        "my env", ".hidden", "a\\b", "c:", "name.", " ", "a b/c",
    ];
    for text in samples {
        let mut steps = Path::new(text).components();
        let single = matches!(steps.next(), Some(Component::Normal(step)) if step == text)
            && steps.next().is_none();
        if std::path::MAIN_SEPARATOR == '/' {
            assert_eq!(environment_name(text, Platform::Posix), single);
        }
    }
}

#[test]
fn parse_keeps_the_text_of_a_name() {
    let name = EnvironmentName::parse("alpha".to_string(), Platform::Posix).unwrap();
    assert_eq!(name.into_text(), "alpha");
    assert_eq!(EnvironmentName::parse(String::new(), Platform::Posix), None);
    assert_eq!(EnvironmentName::parse("..".to_string(), Platform::Windows), None);
}
