//! Deployment records: the status of a lab deployment and its log.

use vstd::prelude::*;
use crate::text;

verus! {

/// Abstract value of a [`DeploymentStatus`].
pub enum StatusView {
    NotStarted,
    InProgress,
    Completed,
    Failed(Seq<char>),
    Stopped,
}

/// Current status of a Lability lab deployment.
#[derive(Debug, Clone, PartialEq)]
pub enum DeploymentStatus {
    NotStarted,
    InProgress,
    Completed,
    Failed(String),
    Stopped,
}

impl View for DeploymentStatus {
    type V = StatusView;

    open spec fn view(&self) -> StatusView {
        match self {
            DeploymentStatus::NotStarted => StatusView::NotStarted,
            DeploymentStatus::InProgress => StatusView::InProgress,
            DeploymentStatus::Completed => StatusView::Completed,
            DeploymentStatus::Failed(reason) => StatusView::Failed(reason@),
            DeploymentStatus::Stopped => StatusView::Stopped,
        }
    }
}

/// How a status is shown.
pub open spec fn status_text(s: StatusView) -> Seq<char> {
    match s {
        StatusView::NotStarted => "Not Started"@,
        StatusView::InProgress => "In Progress"@,
        StatusView::Completed => "Completed"@,
        StatusView::Failed(reason) => "Failed: "@ + reason,
        StatusView::Stopped => "Stopped"@,
    }
}

impl DeploymentStatus {
    /// The status as shown to the user.
    pub fn label(&self) -> (r: String)
        ensures
            r@ == status_text(self@),
    {
        match self {
            DeploymentStatus::NotStarted => String::from_str("Not Started"),
            DeploymentStatus::InProgress => String::from_str("In Progress"),
            DeploymentStatus::Completed => String::from_str("Completed"),
            DeploymentStatus::Failed(reason) => {
                let mut s = String::from_str("Failed: ");
                s.append(reason.as_str());
                s
            },
            DeploymentStatus::Stopped => String::from_str("Stopped"),
        }
    }
}

/// Abstract value of a [`Deployment`].
#[verifier::ext_equal]
pub struct DeploymentView {
    pub environment_name: Seq<char>,
    pub status: StatusView,
    pub log_lines: Seq<Seq<char>>,
}

/// A deployment record.
#[derive(Debug, Clone)]
pub struct Deployment {
    pub environment_name: String,
    pub status: DeploymentStatus,
    pub log_lines: Vec<String>,
}

impl View for Deployment {
    type V = DeploymentView;

    open spec fn view(&self) -> DeploymentView {
        DeploymentView {
            environment_name: self.environment_name@,
            status: self.status@,
            log_lines: text::strs_view(self.log_lines@),
        }
    }
}

impl Deployment {
    /// A record for the named lab that has not started and has no log.
    pub fn new(environment_name: &str) -> (r: Self)
        ensures
            r@ == (DeploymentView {
                environment_name: environment_name@,
                status: StatusView::NotStarted,
                log_lines: Seq::empty(),
            }),
    {
        let r = Deployment {
            environment_name: String::from_str(environment_name),
            status: DeploymentStatus::NotStarted,
            log_lines: Vec::new(),
        };
        proof {
            assert(text::strs_view(r.log_lines@) =~= Seq::<Seq<char>>::empty());
        }
        r
    }

    /// Appends a line to the log.
    pub fn add_log(&mut self, line: String)
        ensures
            final(self)@ == (DeploymentView { log_lines: old(self)@.log_lines.push(line@), ..old(self)@ }),
    {
        let ghost before = text::strs_view(self.log_lines@);
        let ghost l = line@;
        self.log_lines.push(line);
        proof {
            assert(text::strs_view(self.log_lines@) =~= before.push(l));
        }
    }
}

/// Actions that can be requested against a deployment.
#[derive(Debug, Clone, Copy, PartialEq, Eq, Structural)]
pub enum DeploymentAction {
    GenerateConfig,
    Start,
    Stop,
    Reset,
    Delete,
}

/// How an action is shown.
pub open spec fn action_text(a: DeploymentAction) -> Seq<char> {
    match a {
        DeploymentAction::GenerateConfig => "Generate Config Files"@,
        DeploymentAction::Start => "Start Lab"@,
        DeploymentAction::Stop => "Stop Lab"@,
        DeploymentAction::Reset => "Reset Lab"@,
        DeploymentAction::Delete => "Delete Lab"@,
    }
}

impl DeploymentAction {
    /// The action as shown to the user.
    pub fn label(&self) -> (r: &'static str)
        ensures
            r@ == action_text(*self),
    {
        match self {
            DeploymentAction::GenerateConfig => "Generate Config Files",
            DeploymentAction::Start => "Start Lab",
            DeploymentAction::Stop => "Stop Lab",
            DeploymentAction::Reset => "Reset Lab",
            DeploymentAction::Delete => "Delete Lab",
        }
    }
}

} // verus!
