use yuubox_core::container::ContainerManager;
use yuubox_core::error::{ErrorKind, SandboxError};
use yuubox_core::language::Language;

fn strings(items: &[&str]) -> Vec<String> {
    items.iter().map(|s| s.to_string()).collect()
}

#[test]
fn every_identifier_has_its_image() {
    let manager = ContainerManager::new();
    assert_eq!(manager.get_image("python").unwrap(), "python:3.11-slim");
    assert_eq!(manager.get_image("javascript").unwrap(), "node:20-slim");
    assert_eq!(manager.get_image("js").unwrap(), "node:20-slim");
    assert_eq!(manager.get_image("node").unwrap(), "node:20-slim");
    assert_eq!(manager.get_image("rust").unwrap(), "rust:1.75-slim");
    assert_eq!(manager.get_image("go").unwrap(), "golang:1.21-alpine");
    assert_eq!(manager.get_image("java").unwrap(), "openjdk:17-slim");
}

#[test]
fn identifiers_are_case_insensitive() {
    let manager = ContainerManager::new();
    assert_eq!(manager.get_image("PYTHON").unwrap(), "python:3.11-slim");
    assert_eq!(manager.get_image("PyThOn").unwrap(), "python:3.11-slim");
    assert_eq!(manager.get_image("JavaScript").unwrap(), "node:20-slim");
    assert_eq!(manager.get_image("JS").unwrap(), "node:20-slim");
    assert_eq!(manager.get_image("Rust").unwrap(), "rust:1.75-slim");
    assert_eq!(manager.get_image("GO").unwrap(), "golang:1.21-alpine");
    assert_eq!(Language::parse("JAVA").unwrap(), Language::Java);
}

#[test]
fn image_is_deterministic_and_non_empty() {
    let manager = ContainerManager::new();
    for id in ["python", "javascript", "js", "node", "rust", "go", "java"] {
        let first = manager.get_image(id).unwrap();
        let second = manager.get_image(id).unwrap();
        assert!(!first.is_empty());
        assert_eq!(first, second);
    }
}

#[test]
fn unsupported_language_is_rejected() {
    let manager = ContainerManager::new();
    match manager.get_image("cobol") {
        Err(SandboxError::UnsupportedLanguage { language }) => assert_eq!(language, "cobol"),
        other => panic!("unexpected: {:?}", other),
    }
    assert_eq!(
        manager.build_command("x", "cobol").unwrap_err().kind(),
        ErrorKind::UnsupportedLanguage
    );
}

#[test]
fn rejection_keeps_the_identifier_as_given() {
    let manager = ContainerManager::new();
    assert_eq!(
        manager.get_image("COBOL"),
        Err(SandboxError::UnsupportedLanguage { language: "COBOL".to_string() })
    );
    assert_eq!(
        manager.get_image(""),
        Err(SandboxError::UnsupportedLanguage { language: String::new() })
    );
    assert_eq!(
        manager.get_image(" python"),
        Err(SandboxError::UnsupportedLanguage { language: " python".to_string() })
    );
    assert_eq!(
        manager.get_image("pythons"),
        Err(SandboxError::UnsupportedLanguage { language: "pythons".to_string() })
    );
}

#[test]
fn table_is_read_on_lowercase_only() {
    assert_eq!(Language::from_normalized("python"), Some(Language::Python));
    assert_eq!(Language::from_normalized("Python"), None);
    assert_eq!(Language::from_normalized("node"), Some(Language::JavaScript));
    assert_eq!(Language::from_normalized("golang"), None);
    assert_eq!(Language::from_normalized(""), None);
}

#[test]
fn image_and_command_are_defined_together() {
    let manager = ContainerManager::new();
    for id in ["python", "JS", "node", "Rust", "go", "java", "cobol", "", "c++", "ruby", "py"] {
        assert_eq!(manager.get_image(id).is_ok(), manager.build_command("code", id).is_ok());
    }
}

#[test]
fn interpreters_take_the_source_inline() {
    let manager = ContainerManager::new();
    assert_eq!(
        manager.build_command("print(1+1)", "python").unwrap(),
        strings(&["python", "-c", "print(1+1)"])
    );
    assert_eq!(
        manager.build_command("console.log(2)", "javascript").unwrap(),
        strings(&["node", "-e", "console.log(2)"])
    );
    assert_eq!(manager.build_command("1", "js").unwrap(), strings(&["node", "-e", "1"]));
    assert_eq!(manager.build_command("1", "NODE").unwrap(), strings(&["node", "-e", "1"]));
}

#[test]
fn compiled_languages_run_a_fixed_script() {
    let manager = ContainerManager::new();
    assert_eq!(
        manager.build_command("fn main() {}", "rust").unwrap(),
        strings(&[
            "sh",
            "-c",
            "printf '%s\\n' \"$1\" > /tmp/main.rs && rustc /tmp/main.rs -o /tmp/main && /tmp/main",
            "sh",
            "fn main() {}",
        ])
    );
    assert_eq!(
        manager.build_command("package main", "go").unwrap(),
        strings(&[
            "sh",
            "-c",
            "printf '%s\\n' \"$1\" > /tmp/main.go && go run /tmp/main.go",
            "sh",
            "package main",
        ])
    );
    assert_eq!(
        manager.build_command("class Main {}", "java").unwrap(),
        strings(&[
            "sh",
            "-c",
            "printf '%s\\n' \"$1\" > /tmp/Main.java && javac /tmp/Main.java && java -cp /tmp Main",
            "sh",
            "class Main {}",
        ])
    );
}

#[test]
fn source_never_reaches_the_script() {
    let hostile = "'; rm -rf / #\n$(reboot) `id` \" && echo pwned";
    for language in [Language::Rust, Language::Go, Language::Java] {
        let plain = language.command("x");
        let attacked = language.command(hostile);
        assert_eq!(attacked.len(), 5);
        assert_eq!(attacked[..4], plain[..4]);
        assert_eq!(attacked[4], hostile);
        assert!(!attacked[2].contains("rm -rf"));
    }
    for language in [Language::Python, Language::JavaScript] {
        let attacked = language.command(hostile);
        assert_eq!(attacked.len(), 3);
        assert_eq!(attacked[2], hostile);
        assert_ne!(attacked[0], "sh");
    }
}

#[test]
fn empty_source_is_one_empty_argument() {
    assert_eq!(Language::Python.command(""), strings(&["python", "-c", ""]));
    assert_eq!(Language::Go.command("").len(), 5);
    assert_eq!(Language::Go.command("")[4], "");
}

#[test]
fn images_by_language() {
    assert_eq!(Language::Python.image(), "python:3.11-slim");
    assert_eq!(Language::JavaScript.image(), "node:20-slim");
    assert_eq!(Language::Rust.image(), "rust:1.75-slim");
    assert_eq!(Language::Go.image(), "golang:1.21-alpine");
    assert_eq!(Language::Java.image(), "openjdk:17-slim");
}
