use vim_zellij_navigator::focus::is_editor_name;
use vim_zellij_navigator::{term_command_from_client_list, ClientInfo};

fn client(running_command: &str, is_current_client: bool) -> ClientInfo {
    ClientInfo {
        running_command: running_command.to_string(),
        is_current_client,
    }
}

#[test]
fn program_is_the_basename_of_the_first_word() {
    assert_eq!(
        term_command_from_client_list(vec![client("/usr/bin/nvim -u NONE", true)]),
        Some("nvim".to_string())
    );
    assert_eq!(
        term_command_from_client_list(vec![client("/usr/local/bin/nvim --clean", true)]),
        Some("nvim".to_string())
    );
    assert_eq!(
        term_command_from_client_list(vec![client("vim", true)]),
        Some("vim".to_string())
    );
    assert_eq!(
        term_command_from_client_list(vec![client("bash", true)]),
        Some("bash".to_string())
    );
    assert_eq!(
        term_command_from_client_list(vec![client("./target/debug/tool --flag=/a/b", true)]),
        Some("tool".to_string())
    );
}

#[test]
fn the_client_marked_current_counts() {
    let clients = vec![
        client("bash", false),
        client("/usr/bin/vim notes.txt", true),
        client("htop", false),
    ];
    assert_eq!(term_command_from_client_list(clients), Some("vim".to_string()));
}

#[test]
fn of_two_current_clients_the_first_counts() {
    let clients = vec![client("zsh", true), client("nvim", true)];
    assert_eq!(term_command_from_client_list(clients), Some("zsh".to_string()));
}

#[test]
fn no_current_client_gives_no_program() {
    assert_eq!(term_command_from_client_list(vec![]), None);
    assert_eq!(
        term_command_from_client_list(vec![client("nvim", false), client("vim", false)]),
        None
    );
}

#[test]
fn command_line_without_a_word_gives_no_program() {
    assert_eq!(term_command_from_client_list(vec![client("", true)]), None);
    assert_eq!(term_command_from_client_list(vec![client("   ", true)]), None);
    assert_eq!(
        term_command_from_client_list(vec![client("", true), client("nvim", true)]),
        None
    );
}

#[test]
fn any_whitespace_ends_the_first_word() {
    assert_eq!(
        term_command_from_client_list(vec![client("nvim\t-u NONE", true)]),
        Some("nvim".to_string())
    );
    assert_eq!(
        term_command_from_client_list(vec![client("  /bin/vim x", true)]),
        Some("vim".to_string())
    );
}

#[test]
fn word_that_ends_in_a_slash_gives_an_empty_name() {
    assert_eq!(
        term_command_from_client_list(vec![client("/usr/bin/ x", true)]),
        Some(String::new())
    );
}

#[test]
fn editors_are_vim_and_nvim_in_these_letters() {
    assert!(is_editor_name("vim"));
    assert!(is_editor_name("nvim"));
    assert!(!is_editor_name("Vim"));
    assert!(!is_editor_name("NVIM"));
    assert!(!is_editor_name("vi"));
    assert!(!is_editor_name("gvim"));
    assert!(!is_editor_name("vim "));
    assert!(!is_editor_name(""));
    assert!(!is_editor_name("bash"));
}
