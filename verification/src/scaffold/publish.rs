//! Publishing a new project: which command to run next, and what a command's outcome means.
//!
//! The commands themselves are run elsewhere. Start with [`first_command`]; after each
//! command, [`after_command`] says how to go on.
use crate::scaffold::{DOCKER_PASSWORD, DOCKER_USERNAME};
use vstd::prelude::*;
use vstd::string::StringExecFns;

verus! {

/// A secret that the project's repository is given.
#[derive(Clone, Copy, Debug, PartialEq, Eq, Structural)]
pub enum Secret {
    DockerUsername,
    DockerPassword,
}

impl Secret {
    /// The name under which the repository keeps the secret.
    pub open spec fn name_text(self) -> Seq<char> {
        match self {
            Secret::DockerUsername => "DOCKER_USERNAME"@,
            Secret::DockerPassword => "DOCKER_PASSWORD"@,
        }
    }

    /// The secret's value.
    pub open spec fn value_text(self) -> Seq<char> {
        match self {
            Secret::DockerUsername => DOCKER_USERNAME@,
            Secret::DockerPassword => DOCKER_PASSWORD@,
        }
    }

    /// The name under which the repository keeps the secret.
    pub fn name(&self) -> (text: &'static str)
        ensures
            text@ == self.name_text(),
    {
        match self {
            Secret::DockerUsername => "DOCKER_USERNAME",
            Secret::DockerPassword => "DOCKER_PASSWORD",
        }
    }

    /// The secret's value.
    pub fn value(&self) -> (text: &'static str)
        ensures
            text@ == self.value_text(),
    {
        match self {
            Secret::DockerUsername => DOCKER_USERNAME,
            Secret::DockerPassword => DOCKER_PASSWORD,
        }
    }
}

/// A command of the publishing sequence, in the order in which they run.
#[derive(Clone, Copy, Debug, PartialEq, Eq, Structural)]
pub enum PublishCommand {
    /// `gh --version`: is the GitHub tool installed?
    GhVersion,
    /// `gh auth status`: is the user logged in?
    GhAuthStatus,
    /// `gh repo create <project> --public`
    GhRepoCreate,
    /// `gh secret set <name> --body <value>`
    GhSecretSet(Secret),
    /// `git init`
    GitInit,
    /// `git add .`
    GitAdd,
    /// `git commit -m "Initial commit"`
    GitCommit,
    /// `git push -u origin main`
    GitPush,
}

/// How a command ended.
#[derive(Clone, Copy, Debug, PartialEq, Eq, Structural)]
pub enum CommandOutcome {
    /// The program could not be started.
    NotStarted,
    /// The program ran and reported failure.
    Failed,
    /// The program ran and reported success.
    Succeeded,
}

/// How publishing goes on after a command.
#[derive(Debug)]
pub enum Progress {
    /// Run this command next.
    Next(PublishCommand),
    /// The project is published.
    Finished,
    /// Stop: a program could not be started. The text says what was being done.
    CouldNotRun(String),
    /// Stop: publishing cannot go on. The text says why.
    Refused(String),
}

/// A [`Progress`] as a mathematical value.
pub ghost enum ProgressModel {
    Next(PublishCommand),
    Finished,
    CouldNotRun(Seq<char>),
    Refused(Seq<char>),
}

impl View for Progress {
    type V = ProgressModel;

    open spec fn view(&self) -> ProgressModel {
        match self {
            Progress::Next(command) => ProgressModel::Next(*command),
            Progress::Finished => ProgressModel::Finished,
            Progress::CouldNotRun(context) => ProgressModel::CouldNotRun(context@),
            Progress::Refused(message) => ProgressModel::Refused(message@),
        }
    }
}

impl PublishCommand {
    /// The program that the command starts.
    pub open spec fn program_text(self) -> Seq<char> {
        match self {
            PublishCommand::GhVersion
            | PublishCommand::GhAuthStatus
            | PublishCommand::GhRepoCreate
            | PublishCommand::GhSecretSet(_) => "gh"@,
            _ => "git"@,
        }
    }

    /// The arguments that the command gives its program, for a project of this name.
    pub open spec fn argument_texts(self, project_name: Seq<char>) -> Seq<Seq<char>> {
        match self {
            PublishCommand::GhVersion => seq!["--version"@],
            PublishCommand::GhAuthStatus => seq!["auth"@, "status"@],
            PublishCommand::GhRepoCreate => seq!["repo"@, "create"@, project_name, "--public"@],
            PublishCommand::GhSecretSet(secret) => seq![
                "secret"@,
                "set"@,
                secret.name_text(),
                "--body"@,
                secret.value_text(),
            ],
            PublishCommand::GitInit => seq!["init"@],
            PublishCommand::GitAdd => seq!["add"@, "."@],
            PublishCommand::GitCommit => seq!["commit"@, "-m"@, "Initial commit"@],
            PublishCommand::GitPush => seq!["push"@, "-u"@, "origin"@, "main"@],
        }
    }

    /// What was being done when the command's program could not be started.
    pub open spec fn context_text(self) -> Seq<char> {
        match self {
            PublishCommand::GhVersion =>
                "GitHub CLI (gh) is not installed. Please install it and try again."@,
            PublishCommand::GhAuthStatus => "GitHub authentication required"@,
            PublishCommand::GhRepoCreate => "Failed to create GitHub repository"@,
            PublishCommand::GhSecretSet(secret) => "Failed to set GitHub secret: "@ + secret.name_text(),
            PublishCommand::GitInit => "Failed to initialize git repository"@,
            PublishCommand::GitAdd => "Failed to add files to git"@,
            PublishCommand::GitCommit => "Failed to commit files"@,
            PublishCommand::GitPush => "Failed to push to GitHub"@,
        }
    }

    /// The command that follows this one where this one went well; none after the last.
    pub open spec fn successor(self) -> Option<PublishCommand> {
        match self {
            PublishCommand::GhVersion => Some(PublishCommand::GhAuthStatus),
            PublishCommand::GhAuthStatus => Some(PublishCommand::GhRepoCreate),
            PublishCommand::GhRepoCreate => Some(PublishCommand::GhSecretSet(Secret::DockerUsername)),
            PublishCommand::GhSecretSet(Secret::DockerUsername) => Some(
                PublishCommand::GhSecretSet(Secret::DockerPassword),
            ),
            PublishCommand::GhSecretSet(Secret::DockerPassword) => Some(PublishCommand::GitInit),
            PublishCommand::GitInit => Some(PublishCommand::GitAdd),
            PublishCommand::GitAdd => Some(PublishCommand::GitCommit),
            PublishCommand::GitCommit => Some(PublishCommand::GitPush),
            PublishCommand::GitPush => None,
        }
    }

    /// Whether the command belongs to the two checks that come first. A check that
    /// cannot be started fails like one that reports failure.
    pub open spec fn is_check(self) -> bool {
        self == PublishCommand::GhVersion || self == PublishCommand::GhAuthStatus
    }

    /// Whether the program's own report of failure stops publishing. The GitHub tool's
    /// does, all but that of its version query; the version-control tool's does not.
    pub open spec fn failure_stops(self) -> bool {
        match self {
            PublishCommand::GhAuthStatus | PublishCommand::GhRepoCreate | PublishCommand::GhSecretSet(_) => true,
            _ => false,
        }
    }

    /// How publishing goes on after this command has ended as `outcome` says.
    pub open spec fn progress(self, outcome: CommandOutcome) -> ProgressModel {
        if outcome == CommandOutcome::NotStarted && !self.is_check() {
            ProgressModel::CouldNotRun(self.context_text())
        } else if outcome == CommandOutcome::NotStarted || (outcome == CommandOutcome::Failed
            && self.failure_stops()) {
            ProgressModel::Refused(self.context_text())
        } else {
            match self.successor() {
                Some(next) => ProgressModel::Next(next),
                None => ProgressModel::Finished,
            }
        }
    }

    /// The program that the command starts.
    pub fn program(&self) -> (text: &'static str)
        ensures
            text@ == self.program_text(),
    {
        match self {
            PublishCommand::GhVersion
            | PublishCommand::GhAuthStatus
            | PublishCommand::GhRepoCreate
            | PublishCommand::GhSecretSet(_) => "gh",
            _ => "git",
        }
    }

    /// The arguments that the command gives its program, for a project of this name.
    pub fn arguments(&self, project_name: &str) -> (args: Vec<String>)
        ensures
            args@.map_values(|arg: String| arg@) == self.argument_texts(project_name@),
    {
        let mut args: Vec<String> = Vec::new();
        match self {
            PublishCommand::GhVersion => {
                args.push(String::from_str("--version"));
            },
            PublishCommand::GhAuthStatus => {
                args.push(String::from_str("auth"));
                args.push(String::from_str("status"));
            },
            PublishCommand::GhRepoCreate => {
                args.push(String::from_str("repo"));
                args.push(String::from_str("create"));
                args.push(String::from_str(project_name));
                args.push(String::from_str("--public"));
            },
            PublishCommand::GhSecretSet(secret) => {
                args.push(String::from_str("secret"));
                args.push(String::from_str("set"));
                args.push(String::from_str(secret.name()));
                args.push(String::from_str("--body"));
                args.push(String::from_str(secret.value()));
            },
            PublishCommand::GitInit => {
                args.push(String::from_str("init"));
            },
            PublishCommand::GitAdd => {
                args.push(String::from_str("add"));
                args.push(String::from_str("."));
            },
            PublishCommand::GitCommit => {
                args.push(String::from_str("commit"));
                args.push(String::from_str("-m"));
                args.push(String::from_str("Initial commit"));
            },
            PublishCommand::GitPush => {
                args.push(String::from_str("push"));
                args.push(String::from_str("-u"));
                args.push(String::from_str("origin"));
                args.push(String::from_str("main"));
            },
        }
        assert(args@.map_values(|arg: String| arg@) =~= self.argument_texts(project_name@));
        args
    }

    /// What was being done when the command's program could not be started.
    pub fn context(&self) -> (text: String)
        ensures
            text@ == self.context_text(),
    {
        match self {
            PublishCommand::GhVersion => String::from_str(
                "GitHub CLI (gh) is not installed. Please install it and try again.",
            ),
            PublishCommand::GhAuthStatus => String::from_str("GitHub authentication required"),
            PublishCommand::GhRepoCreate => String::from_str("Failed to create GitHub repository"),
            PublishCommand::GhSecretSet(secret) => {
                let mut text = String::from_str("Failed to set GitHub secret: ");
                text.append(secret.name());
                text
            },
            PublishCommand::GitInit => String::from_str("Failed to initialize git repository"),
            PublishCommand::GitAdd => String::from_str("Failed to add files to git"),
            PublishCommand::GitCommit => String::from_str("Failed to commit files"),
            PublishCommand::GitPush => String::from_str("Failed to push to GitHub"),
        }
    }
}

/// The command that publishing starts with.
pub fn first_command() -> (command: PublishCommand)
    ensures
        command == PublishCommand::GhVersion,
{
    PublishCommand::GhVersion
}

/// How publishing goes on after `command` has ended as `outcome` says.
pub fn after_command(command: PublishCommand, outcome: CommandOutcome) -> (progress: Progress)
    ensures
        progress@ == command.progress(outcome),
{
    let started = match outcome {
        CommandOutcome::NotStarted => false,
        _ => true,
    };
    let succeeded = match outcome {
        CommandOutcome::Succeeded => true,
        _ => false,
    };
    match command {
        PublishCommand::GhVersion => {
            if started {
                Progress::Next(PublishCommand::GhAuthStatus)
            } else {
                Progress::Refused(command.context())
            }
        },
        PublishCommand::GhAuthStatus => {
            if succeeded {
                Progress::Next(PublishCommand::GhRepoCreate)
            } else {
                Progress::Refused(command.context())
            }
        },
        PublishCommand::GhRepoCreate => {
            if !started {
                Progress::CouldNotRun(command.context())
            } else if !succeeded {
                Progress::Refused(command.context())
            } else {
                Progress::Next(PublishCommand::GhSecretSet(Secret::DockerUsername))
            }
        },
        PublishCommand::GhSecretSet(secret) => {
            if !started {
                Progress::CouldNotRun(command.context())
            } else if !succeeded {
                Progress::Refused(command.context())
            } else {
                match secret {
                    Secret::DockerUsername => Progress::Next(PublishCommand::GhSecretSet(Secret::DockerPassword)),
                    Secret::DockerPassword => Progress::Next(PublishCommand::GitInit),
                }
            }
        },
        PublishCommand::GitInit => {
            if started {
                Progress::Next(PublishCommand::GitAdd)
            } else {
                Progress::CouldNotRun(command.context())
            }
        },
        PublishCommand::GitAdd => {
            if started {
                Progress::Next(PublishCommand::GitCommit)
            } else {
                Progress::CouldNotRun(command.context())
            }
        },
        PublishCommand::GitCommit => {
            if started {
                Progress::Next(PublishCommand::GitPush)
            } else {
                Progress::CouldNotRun(command.context())
            }
        },
        PublishCommand::GitPush => {
            if started {
                Progress::Finished
            } else {
                Progress::CouldNotRun(command.context())
            }
        },
    }
}

/// The command's place in the sequence.
pub open spec fn position(command: PublishCommand) -> nat {
    match command {
        PublishCommand::GhVersion => 0,
        PublishCommand::GhAuthStatus => 1,
        PublishCommand::GhRepoCreate => 2,
        PublishCommand::GhSecretSet(Secret::DockerUsername) => 3,
        PublishCommand::GhSecretSet(Secret::DockerPassword) => 4,
        PublishCommand::GitInit => 5,
        PublishCommand::GitAdd => 6,
        PublishCommand::GitCommit => 7,
        PublishCommand::GitPush => 8,
    }
}

/// Every step forward that names a next command names the one that comes right after, so no
/// command runs twice; and publishing is finished only after the push has run.
pub proof fn law_publishing_moves_forward(command: PublishCommand, outcome: CommandOutcome)
    ensures
        command.progress(outcome) matches ProgressModel::Next(next) ==> position(next) == position(command)
            + 1,
        command.progress(outcome) is Finished <==> command == PublishCommand::GitPush && outcome
            != CommandOutcome::NotStarted,
{
}

} // verus!
