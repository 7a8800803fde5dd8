use xynpro::scaffold::aproar::generate_aproar_mod_content;
use xynpro::scaffold::omnixkore::{generate_execution_content, EXECUTION_TEXT_1};
use xynpro::scaffold::omnixtracker::{generate_lxsl_content, generate_omnixerror_content};
use xynpro::scaffold::project::{
    env_content, generate_cargo_toml_content, generate_ci_workflow_content, generate_env_content,
    generate_gitignore_content, generate_license_content, generate_prometheus_yml_content,
    generate_readme_content, readme_content,
};
use xynpro::scaffold::test_suite::{generate_omnixmetry_tests_content, generate_utils_lxsl_tests_content};
use xynpro::scaffold::xtls::generate_xtls_layout;
use xynpro::scaffold::ARCMOON_SIGNATURE;

#[test]
fn env_secret_is_thirty_two_letters_and_digits() {
    let text = generate_env_content("demo");
    let line = text.lines().find(|l| l.starts_with("JWT_SECRET=")).unwrap();
    let secret = &line["JWT_SECRET=".len()..];
    assert_eq!(secret.chars().count(), 32);
    assert!(secret.chars().all(|c| c.is_ascii_alphanumeric()));
}

#[test]
fn env_secrets_differ_from_call_to_call() {
    assert_ne!(generate_env_content("demo"), generate_env_content("demo"));
}

#[test]
fn env_text_for_a_given_secret() {
    let text = env_content("demo", "s3cr3t");
    assert!(text.contains("\nJWT_SECRET=s3cr3t\n"));
    assert!(text.contains("\nDOCKER_USERNAME=Placeholder\nDOCKER_PASSWORD=Placeholder\n"));
    assert!(text.contains("\nREPO_PATH=/home/xynhax/Projects/\n"));
    assert!(text.ends_with("GIT_REMOTE_URL=https://github.com/arcmoonstudios/demo.git\n"));
    assert_eq!(generate_env_content("demo").len(), env_content("demo", &"x".repeat(32)).len());
}

#[test]
fn manifest_names_the_project_and_its_author() {
    let text = generate_cargo_toml_content("demo");
    assert!(text.starts_with("[package]\nname = \"demo\"\n"));
    assert!(text.contains("Lord Xyn <LordXyn@proton.me>"));
    assert!(text.contains("https://github.com/arcmoonstudios/demo"));
}

#[test]
fn workflow_and_prometheus_name_the_project() {
    assert_eq!(generate_ci_workflow_content("demo").matches("demo").count(), 3);
    assert_eq!(generate_ci_workflow_content("").matches("demo").count(), 0);
    assert!(generate_prometheus_yml_content("demo").contains("demo"));
}

#[test]
fn readme_heading_is_the_name_in_upper_case() {
    let text = generate_readme_content("demo");
    assert!(text.contains("DEMO"));
    assert!(text.contains("demo"));
    assert_eq!(text, readme_content("demo", "DEMO"));
    assert_eq!(generate_readme_content("straße"), readme_content("straße", "STRASSE"));
}

#[test]
fn licence_names_year_and_holder() {
    let text = generate_license_content();
    assert!(text.starts_with("MIT License\n\nCopyright (c) 2024 Lord Xyn\n"));
    assert!(text.ends_with("SOFTWARE."));
}

#[test]
fn braces_of_formatted_files_are_single() {
    let text = generate_omnixmetry_tests_content("demo");
    assert!(text.contains("use demo::"));
    assert!(!text.contains("{{"));
    assert!(!text.contains("}}"));
    let lxsl = generate_utils_lxsl_tests_content();
    assert!(lxsl.starts_with("// tests/utils_lxsl_tests.rs"));
    assert!(!lxsl.contains("{{"));
}

#[test]
fn fixed_files_are_the_same_on_every_call() {
    assert_eq!(generate_gitignore_content(), generate_gitignore_content());
    assert!(generate_gitignore_content().contains("Thumbs.db\n"));
    assert!(generate_omnixerror_content().contains("pub enum OmniXError {"));
    assert!(generate_xtls_layout().starts_with("-- Xdocs/XynPro_Layout.txt "));
    assert_eq!(generate_lxsl_content(ARCMOON_SIGNATURE), generate_lxsl_content("anything"));
}

#[test]
fn long_files_are_whole() {
    let text = generate_execution_content();
    assert!(text.starts_with(EXECUTION_TEXT_1));
    assert!(text.len() > EXECUTION_TEXT_1.len());
    assert_eq!(text.chars().count(), 24131);
    assert_eq!(generate_aproar_mod_content().chars().count(), 18263);
}

#[test]
fn formatted_files_have_their_full_length() {
    assert_eq!(generate_ci_workflow_content("demo").len(), 882);
    assert!(generate_ci_workflow_content("demo").ends_with("        xenvleid/demo:${{ github.sha }}\n"));
    assert_eq!(generate_cargo_toml_content("demo").len(), 980);
    assert!(generate_cargo_toml_content("demo").ends_with("level = \"z\"\n\n[workspace]\nresolver = \"2\"\n"));
    assert_eq!(generate_omnixmetry_tests_content("demo").len(), 3058);
    assert_eq!(generate_prometheus_yml_content("demo").len(), 286);
    assert_eq!(generate_env_content("demo").len(), 644);
    assert_eq!(generate_license_content().len(), 1064);
    assert_eq!(generate_utils_lxsl_tests_content().len(), 2137);
    assert_eq!(generate_prometheus_yml_content("longer-name").len(), 286 + 7);
}
