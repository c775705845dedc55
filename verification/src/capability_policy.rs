//! The desktop companion's capability gate: the default policies and
//! permissions, and how a policy decision is classified and audited. The
//! policy engine that decides runs outside.

use vstd::prelude::*;

use crate::text::{contains_seq, owned, str_contains};

verus! {

/// How risky a capability is.
#[derive(Debug, Clone, Copy, PartialEq, Eq, Structural)]
pub enum RiskLevel {
    Low,
    Medium,
    High,
}

/// A capability's default policy: its risk, whether a person confirms
/// it, the permission authority it needs (if any), and whether it is
/// denied outright.
#[derive(Debug)]
pub struct PolicyRule {
    pub capability: &'static str,
    pub risk: RiskLevel,
    pub requires_confirmation: bool,
    pub required_permission: Option<&'static str>,
    pub denied: bool,
}

/// The permission authorities granted to the companion by default.
pub fn default_permissions() -> (p: Vec<(&'static str, &'static str)>)
    ensures
        p@.len() == 8,
        p@[0].0@ == "network.outbound"@,
        p@[1].0@ == "filesystem.write"@,
        p@[2].0@ == "email.compose"@,
        p@[3].0@ == "calendar.write"@,
        p@[4].0@ == "github.issues"@,
        p@[5].0@ == "telegram.post"@,
        p@[6].0@ == "identity.assume"@,
        p@[7].0@ == "filesystem.root_write"@,
{
    vec![
        ("network.outbound", "send messages / perform outbound I/O to external services"),
        ("filesystem.write", "write files under the sandboxed root"),
        ("email.compose", "compose and queue outbound email"),
        ("calendar.write", "create calendar events"),
        ("github.issues", "create repository issues"),
        ("telegram.post", "post messages to chats"),
        ("identity.assume", "assume an identity / act on its behalf"),
        ("filesystem.root_write", "write outside the sandboxed root (root escalation)"),
    ]
}

fn rule(
    capability: &'static str,
    risk: RiskLevel,
    requires_confirmation: bool,
    required_permission: Option<&'static str>,
) -> (r: PolicyRule)
    ensures
        r.capability == capability,
        r.risk == risk,
        r.requires_confirmation == requires_confirmation,
        r.required_permission == required_permission,
        !r.denied,
{
    PolicyRule { capability, risk, requires_confirmation, required_permission, denied: false }
}

/// The default policies: reads are low or medium risk; sending email,
/// creating events and creating issues are high risk and confirmed;
/// injected inbound messages are low risk; writing outside the sandbox
/// root is denied.
pub fn default_policies() -> (r: Vec<PolicyRule>)
    ensures
        r@.len() == 10,
        r@[0].capability@ == "filesystem.read"@ && r@[0].risk == RiskLevel::Medium
            && !r@[0].requires_confirmation && r@[0].required_permission == Some("filesystem.write"),
        r@[1].capability@ == "github.read_repository"@ && r@[1].risk == RiskLevel::Low
            && r@[1].required_permission is None,
        r@[2].capability@ == "calendar.read"@ && r@[2].risk == RiskLevel::Low && r@[2].required_permission is None,
        r@[3].capability@ == "telegram.send"@ && r@[3].risk == RiskLevel::Medium
            && !r@[3].requires_confirmation && r@[3].required_permission == Some("telegram.post"),
        r@[4].capability@ == "email.send"@ && r@[4].risk == RiskLevel::High
            && r@[4].requires_confirmation && r@[4].required_permission == Some("email.compose"),
        r@[5].capability@ == "calendar.create_event"@ && r@[5].risk == RiskLevel::High
            && r@[5].requires_confirmation && r@[5].required_permission == Some("calendar.write"),
        r@[6].capability@ == "github.create_issue"@ && r@[6].risk == RiskLevel::High
            && r@[6].requires_confirmation && r@[6].required_permission == Some("github.issues"),
        r@[7].capability@ == "telegram.inject_inbound"@ && r@[7].risk == RiskLevel::Low
            && r@[7].required_permission is None,
        r@[8].capability@ == "email.inject"@ && r@[8].risk == RiskLevel::Low && r@[8].required_permission is None,
        r@[9].capability@ == "filesystem.write_root"@ && r@[9].denied,
        forall|i: int| 0 <= i < 9 ==> !(#[trigger] r@[i]).denied,
{
    vec![
        rule("filesystem.read", RiskLevel::Medium, false, Some("filesystem.write")),
        rule("github.read_repository", RiskLevel::Low, false, None),
        rule("calendar.read", RiskLevel::Low, false, None),
        rule("telegram.send", RiskLevel::Medium, false, Some("telegram.post")),
        rule("email.send", RiskLevel::High, true, Some("email.compose")),
        rule("calendar.create_event", RiskLevel::High, true, Some("calendar.write")),
        rule("github.create_issue", RiskLevel::High, true, Some("github.issues")),
        rule("telegram.inject_inbound", RiskLevel::Low, false, None),
        rule("email.inject", RiskLevel::Low, false, None),
        PolicyRule {
            capability: "filesystem.write_root",
            risk: RiskLevel::High,
            requires_confirmation: false,
            required_permission: None,
            denied: true,
        },
    ]
}

/// How an evaluated capability call is recorded in the audit log.
#[derive(Debug, Clone, Copy, PartialEq, Eq, Structural)]
pub enum DecisionKind {
    Confirmed,
    Executed,
    PermissionDenied,
    Denied,
}

/// The kind of a decision: allowed calls are confirmed or executed;
/// refused ones are permission denials when the reason names missing
/// permissions, plain denials otherwise.
pub open spec fn kind_spec(allowed: bool, confirm: bool, reason: Option<Seq<char>>) -> DecisionKind {
    if allowed && confirm {
        DecisionKind::Confirmed
    } else if allowed {
        DecisionKind::Executed
    } else if reason matches Some(r) && contains_seq(r, "missing permissions"@) {
        DecisionKind::PermissionDenied
    } else {
        DecisionKind::Denied
    }
}

/// Classifies a policy decision.
pub fn decision_kind(allowed: bool, requires_confirmation: bool, denial_reason: Option<&str>) -> (k:
    DecisionKind)
    ensures
        k == kind_spec(
            allowed,
            requires_confirmation,
            match denial_reason {
                Some(r) => Some(r@),
                None => None,
            },
        ),
{
    if allowed && requires_confirmation {
        DecisionKind::Confirmed
    } else if allowed {
        DecisionKind::Executed
    } else {
        match denial_reason {
            Some(r) => {
                if str_contains(r, "missing permissions") {
                    DecisionKind::PermissionDenied
                } else {
                    DecisionKind::Denied
                }
            },
            None => DecisionKind::Denied,
        }
    }
}

/// The audit detail of a decision: the denial reason, or "allowed".
pub fn audit_detail(denial_reason: Option<&str>) -> (s: String)
    ensures
        s@ == match denial_reason {
            Some(r) => r@,
            None => "allowed"@,
        },
{
    match denial_reason {
        Some(r) => owned(r),
        None => owned("allowed"),
    }
}

/// The audit trace of a capability call.
pub fn audit_trace(capability: &str) -> (s: String)
    ensures
        s@ == "capability:"@ + capability@,
{
    let mut s = String::from_str("capability:");
    s.append(capability);
    s
}

} // verus!
