use neovim_cmd::commands::{build_command, edit_command, tchdir_command, term_rename_command};

#[test]
fn edit_command_text_is_exact() {
    assert_eq!(edit_command("notes.txt"), "edit notes.txt");
    assert_eq!(edit_command(""), "edit ");
}

#[test]
fn tchdir_command_text_is_exact() {
    assert_eq!(tchdir_command("/tmp"), "tchdir /tmp");
    // An empty directory argument goes out verbatim.
    assert_eq!(tchdir_command(""), "tchdir ");
}

#[test]
fn term_rename_command_text_is_exact() {
    assert_eq!(term_rename_command("mybuf"), "file term://mybuf");
}

#[test]
fn arguments_are_passed_through_unescaped() {
    // Deliberate simplification: no quoting of spaces or special characters.
    assert_eq!(edit_command("a file.txt"), "edit a file.txt");
    assert_eq!(term_rename_command("a|b"), "file term://a|b");
}

#[test]
fn build_command_concatenates_verbatim() {
    assert_eq!(build_command("edit ", "x"), "edit x");
    assert_eq!(build_command("", ""), "");
}
