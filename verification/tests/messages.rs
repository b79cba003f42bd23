use shecret::{
    clipboard_notice, database_path, display_message, format_message, format_title, title, Notice,
    Package,
};

fn package() -> Package {
    Package {
        name: "shecret".to_string(),
        description: "SSH and SFTP client".to_string(),
        authors: "A. Author".to_string(),
        version: "1.2.3".to_string(),
        license: "MIT".to_string(),
        homepage: "https://example.org".to_string(),
    }
}

#[test]
fn format_message_brackets_the_kind() {
    assert_eq!(format_message("OK", "done"), "[OK] done");
    assert_eq!(format_message("", ""), "[] ");
}

#[test]
fn display_message_without_colours() {
    colored::control::set_override(false);
    assert_eq!(display_message("ok", "done", "green"), "\n[OK] done\n");
    assert_eq!(display_message("error", "bad", "red"), "\n[ERROR] bad\n");
    assert_eq!(display_message("✅", "up", "green"), "\n[✅] up\n");
    assert_eq!(display_message("straße", "", "green"), "\n[STRASSE] \n");
}

#[test]
fn notice_displays_as_its_message() {
    colored::control::set_override(false);
    let notice = Notice::new("ok", "sent".to_string(), "green");
    assert_eq!(notice.kind, "ok");
    assert_eq!(notice.text, "sent");
    assert_eq!(notice.color, "green");
    assert_eq!(notice.display(), "\n[OK] sent\n");
}

#[test]
fn clipboard_notice_names_the_command() {
    colored::control::set_override(false);
    assert_eq!(clipboard_notice("ssh -i k -p 22 u@h"), "[OK] Sent to clipboad: ssh -i k -p 22 u@h");
}

#[test]
fn database_path_is_under_home() {
    assert_eq!(database_path("/home/me", "shecret"), "/home/me/shecret.db3");
    assert_eq!(database_path("", ""), "/.db3");
}

#[test]
fn format_title_lists_the_package() {
    assert_eq!(
        format_title("SHECRET", &package(), "/home/me/shecret.db3"),
        "\nSHECRET - SSH and SFTP client\nAuthors: A. Author\nVersion: 1.2.3\nLicense: MIT\nDatabase path: /home/me/shecret.db3\nDocumentation: https://example.org\nCrafted with ❤️ using Rust language\n"
    );
}

#[test]
fn title_puts_the_name_in_upper_case() {
    colored::control::set_override(false);
    assert_eq!(title(&package(), "/db"), format_title("SHECRET", &package(), "/db"));
}
