use xynpro::cli::{interpret_arguments, Invocation, VERSION_LINE};
use xynpro::omnixerror::InitError;
use xynpro::scaffold::aproar::generate_aproar_mod_content;
use xynpro::scaffold::layout::{
    aproar_steps, base_steps, ci_workflow_steps, omnixelerator_steps, omnixkore_steps, omnixtracker_steps,
    test_steps, top_level_steps, utils_steps, xdocs_steps, xtls_steps, SetupStep,
};
use xynpro::scaffold::project::{env_content, generate_ci_workflow_content, generate_readme_content};
use xynpro::scaffold::publish::{after_command, first_command, CommandOutcome, PublishCommand, Secret, Progress};
use xynpro::scaffold::test_suite::generate_omnixerror_tests_content;

fn directories(steps: &[SetupStep]) -> Vec<String> {
    steps
        .iter()
        .filter_map(|s| match s {
            SetupStep::CreateDirectory { path } => Some(path.clone()),
            _ => None,
        })
        .collect()
}

fn files(steps: &[SetupStep]) -> Vec<(String, String)> {
    steps
        .iter()
        .filter_map(|s| match s {
            SetupStep::WriteFile { directory, file_name, .. } => Some((directory.clone(), file_name.clone())),
            _ => None,
        })
        .collect()
}

fn text_of(steps: &[SetupStep], dir: &str, name: &str) -> String {
    for step in steps {
        if let SetupStep::WriteFile { directory, file_name, text } = step {
            if directory == dir && file_name == name {
                return text.clone();
            }
        }
    }
    panic!("no step writes {}/{}", dir, name);
}

#[test]
fn every_project_starts_with_seven_directories() {
    let steps = base_steps();
    assert_eq!(
        directories(&steps),
        vec!["src/omnixtracker", "src/constants", "src/utils", "tests", "Xdocs", "Xtls", "config"]
    );
    assert!(files(&steps).is_empty());
}

#[test]
fn workflow_steps_make_the_directory_first() {
    let steps = ci_workflow_steps("demo");
    assert_eq!(steps.len(), 2);
    assert!(matches!(&steps[0], SetupStep::CreateDirectory { path } if path == ".github/workflows"));
    assert_eq!(text_of(&steps, ".github/workflows", "ci.yml"), generate_ci_workflow_content("demo"));
}

#[test]
fn storage_tree_has_five_directories_and_twenty_one_files() {
    let steps = aproar_steps();
    assert_eq!(
        directories(&steps),
        vec![
            "src/aproar/compression",
            "src/aproar/ntm",
            "src/aproar/storage",
            "src/aproar/retrieval",
            "src/aproar/utility"
        ]
    );
    let written = files(&steps);
    assert_eq!(written.len(), 21);
    assert_eq!(written[0], ("src/aproar/compression".to_string(), "lz4_compression.rs".to_string()));
    assert_eq!(written[20], ("src/aproar".to_string(), "mod.rs".to_string()));
    assert_eq!(text_of(&steps, "src/aproar", "mod.rs"), generate_aproar_mod_content());
}

#[test]
fn smaller_parts_write_their_files_in_order() {
    let names = |steps: Vec<SetupStep>| files(&steps).into_iter().map(|(_, n)| n).collect::<Vec<_>>();
    assert_eq!(
        names(omnixkore_steps()),
        vec!["execution.rs", "parallexelerator.rs", "persistence.rs", "resource_monitor.rs", "task_manager.rs", "mod.rs"]
    );
    assert_eq!(names(omnixtracker_steps()), vec!["omnixerror.rs", "omnixmetry.rs", "mod.rs"]);
    assert_eq!(names(utils_steps()), vec!["lxsl.rs", "mod.rs"]);
    assert_eq!(
        names(omnixelerator_steps()),
        vec!["cuda_kernels.cu", "opencl_kernels.cl", "kernels.rs", "wgpu_shaders.wgsl"]
    );
    assert_eq!(
        names(xtls_steps()),
        vec!["DMV.txt", "Layout.txt", "XynPro_Instructions.txt", "XynTools-HowTo.txt"]
    );
    assert_eq!(directories(&xdocs_steps()), vec!["Xdocs"]);
    assert_eq!(directories(&omnixelerator_steps()), vec!["omnixelerator"]);
}

#[test]
fn test_files_name_the_project() {
    let steps = test_steps("demo");
    assert_eq!(directories(&steps), vec!["tests"]);
    assert_eq!(text_of(&steps, "tests", "omnixerror_tests.rs"), generate_omnixerror_tests_content("demo"));
    assert_eq!(files(&steps).len(), 4);
}

#[test]
fn top_level_files_come_in_order_with_the_given_secret() {
    let steps = top_level_steps("demo", "s3cr3t");
    let names: Vec<String> = files(&steps).into_iter().map(|(_, n)| n).collect();
    assert_eq!(
        names,
        vec![
            ".env",
            "src/main.rs",
            "LICENSE",
            "src/lib.rs",
            "build.rs",
            ".gitignore",
            "README.md",
            "src/constants/mod.rs",
            "Cargo.toml",
            "config/prometheus.yml"
        ]
    );
    assert_eq!(text_of(&steps, "", ".env"), env_content("demo", "s3cr3t"));
    assert_eq!(text_of(&steps, "", "README.md"), generate_readme_content("demo"));
}

#[test]
fn arguments_are_interpreted() {
    let args = |list: &[&str]| list.iter().map(|s| s.to_string()).collect::<Vec<String>>();
    assert!(matches!(interpret_arguments(&args(&[])), Err(InitError::ArgumentCountError(0))));
    assert!(matches!(interpret_arguments(&args(&["xynpro"])), Err(InitError::ArgumentCountError(1))));
    assert!(matches!(interpret_arguments(&args(&["xynpro", "--version"])), Ok(Invocation::ShowVersion)));
    assert!(matches!(
        interpret_arguments(&args(&["xynpro", "demo", "--version"])),
        Ok(Invocation::CreateProject { ref project_name }) if project_name == "demo"
    ));
    assert!(matches!(
        interpret_arguments(&args(&["xynpro", "--versions"])),
        Ok(Invocation::CreateProject { ref project_name }) if project_name == "--versions"
    ));
    assert_eq!(VERSION_LINE, "xynpro version 0.0.7");
}

#[test]
fn publishing_runs_nine_commands_when_all_goes_well() {
    let mut command = first_command();
    let mut lines: Vec<String> = Vec::new();
    loop {
        lines.push(format!("{} {}", command.program(), command.arguments("demo").join(" ")));
        match after_command(command, CommandOutcome::Succeeded) {
            Progress::Next(next) => command = next,
            Progress::Finished => break,
            other => panic!("unexpected progress: {:?}", other),
        }
    }
    assert_eq!(
        lines,
        vec![
            "gh --version",
            "gh auth status",
            "gh repo create demo --public",
            "gh secret set DOCKER_USERNAME --body Placeholder",
            "gh secret set DOCKER_PASSWORD --body Placeholder",
            "git init",
            "git add .",
            "git commit -m Initial commit",
            "git push -u origin main"
        ]
    );
}

#[test]
fn publishing_stops_where_the_github_tool_is_missing_or_refuses() {
    assert!(matches!(
        after_command(PublishCommand::GhVersion, CommandOutcome::NotStarted),
        Progress::Refused(ref m) if m == "GitHub CLI (gh) is not installed. Please install it and try again."
    ));
    assert!(matches!(
        after_command(PublishCommand::GhVersion, CommandOutcome::Failed),
        Progress::Next(PublishCommand::GhAuthStatus)
    ));
    for outcome in [CommandOutcome::NotStarted, CommandOutcome::Failed] {
        assert!(matches!(
            after_command(PublishCommand::GhAuthStatus, outcome),
            Progress::Refused(ref m) if m == "GitHub authentication required"
        ));
    }
    assert!(matches!(
        after_command(PublishCommand::GhRepoCreate, CommandOutcome::NotStarted),
        Progress::CouldNotRun(ref m) if m == "Failed to create GitHub repository"
    ));
    assert!(matches!(
        after_command(PublishCommand::GhRepoCreate, CommandOutcome::Failed),
        Progress::Refused(ref m) if m == "Failed to create GitHub repository"
    ));
    assert!(matches!(
        after_command(PublishCommand::GhSecretSet(Secret::DockerPassword), CommandOutcome::Failed),
        Progress::Refused(ref m) if m == "Failed to set GitHub secret: DOCKER_PASSWORD"
    ));
    assert!(matches!(
        after_command(PublishCommand::GhSecretSet(Secret::DockerUsername), CommandOutcome::NotStarted),
        Progress::CouldNotRun(ref m) if m == "Failed to set GitHub secret: DOCKER_USERNAME"
    ));
}

#[test]
fn version_control_failures_do_not_stop_publishing() {
    assert!(matches!(
        after_command(PublishCommand::GitInit, CommandOutcome::Failed),
        Progress::Next(PublishCommand::GitAdd)
    ));
    assert!(matches!(
        after_command(PublishCommand::GitAdd, CommandOutcome::Failed),
        Progress::Next(PublishCommand::GitCommit)
    ));
    assert!(matches!(
        after_command(PublishCommand::GitCommit, CommandOutcome::Failed),
        Progress::Next(PublishCommand::GitPush)
    ));
    assert!(matches!(after_command(PublishCommand::GitPush, CommandOutcome::Failed), Progress::Finished));
    assert!(matches!(
        after_command(PublishCommand::GitInit, CommandOutcome::NotStarted),
        Progress::CouldNotRun(ref m) if m == "Failed to initialize git repository"
    ));
    assert!(matches!(
        after_command(PublishCommand::GitAdd, CommandOutcome::NotStarted),
        Progress::CouldNotRun(ref m) if m == "Failed to add files to git"
    ));
    assert!(matches!(
        after_command(PublishCommand::GitCommit, CommandOutcome::NotStarted),
        Progress::CouldNotRun(ref m) if m == "Failed to commit files"
    ));
    assert!(matches!(
        after_command(PublishCommand::GitPush, CommandOutcome::NotStarted),
        Progress::CouldNotRun(ref m) if m == "Failed to push to GitHub"
    ));
}
