//! The capabilities that commands may be checked against.

use crate::bytes::text_eq;
use crate::error::TrustError;
use vstd::prelude::*;

verus! {

/// A capability of the application. The set is closed: a name that is not
/// listed here names no capability.
#[derive(Clone, Copy, Debug, PartialEq, Eq, Structural)]
pub enum Capability {
    AdminUnlock,
    AdminViewLogs,
    UserCreateProfile,
    UserUnlockProfile,
    ConsentRequest,
    ConsentVerify,
    LogsAppend,
    LogsRead,
    SettingsWrite,
}

/// The name of a capability.
pub open spec fn capability_name(capability: Capability) -> Seq<char> {
    match capability {
        Capability::AdminUnlock => "admin.unlock"@,
        Capability::AdminViewLogs => "admin.view_logs"@,
        Capability::UserCreateProfile => "user.create_profile"@,
        Capability::UserUnlockProfile => "user.unlock_profile"@,
        Capability::ConsentRequest => "consent.request"@,
        Capability::ConsentVerify => "consent.verify"@,
        Capability::LogsAppend => "logs.append"@,
        Capability::LogsRead => "logs.read"@,
        Capability::SettingsWrite => "settings.write"@,
    }
}

/// Whether `name` is the name of a capability.
pub open spec fn is_allowed(name: Seq<char>) -> bool {
    exists|capability: Capability| capability_name(capability) == name
}

impl Capability {
    /// The name of the capability.
    pub fn name(&self) -> (name: &'static str)
        ensures
            name@ == capability_name(*self),
    {
        match self {
            Capability::AdminUnlock => "admin.unlock",
            Capability::AdminViewLogs => "admin.view_logs",
            Capability::UserCreateProfile => "user.create_profile",
            Capability::UserUnlockProfile => "user.unlock_profile",
            Capability::ConsentRequest => "consent.request",
            Capability::ConsentVerify => "consent.verify",
            Capability::LogsAppend => "logs.append",
            Capability::LogsRead => "logs.read",
            Capability::SettingsWrite => "settings.write",
        }
    }

    /// The capability of the given name, if there is one.
    pub fn parse(name: &str) -> (parsed: Option<Capability>)
        ensures
            match parsed {
                Some(capability) => capability_name(capability) == name@,
                None => !is_allowed(name@),
            },
    {
        if text_eq(name, "admin.unlock") {
            Some(Capability::AdminUnlock)
        } else if text_eq(name, "admin.view_logs") {
            Some(Capability::AdminViewLogs)
        } else if text_eq(name, "user.create_profile") {
            Some(Capability::UserCreateProfile)
        } else if text_eq(name, "user.unlock_profile") {
            Some(Capability::UserUnlockProfile)
        } else if text_eq(name, "consent.request") {
            Some(Capability::ConsentRequest)
        } else if text_eq(name, "consent.verify") {
            Some(Capability::ConsentVerify)
        } else if text_eq(name, "logs.append") {
            Some(Capability::LogsAppend)
        } else if text_eq(name, "logs.read") {
            Some(Capability::LogsRead)
        } else if text_eq(name, "settings.write") {
            Some(Capability::SettingsWrite)
        } else {
            assert forall|capability: Capability| capability_name(capability) != name@ by {
                match capability {
                    Capability::AdminUnlock => {},
                    Capability::AdminViewLogs => {},
                    Capability::UserCreateProfile => {},
                    Capability::UserUnlockProfile => {},
                    Capability::ConsentRequest => {},
                    Capability::ConsentVerify => {},
                    Capability::LogsAppend => {},
                    Capability::LogsRead => {},
                    Capability::SettingsWrite => {},
                }
            }
            None
        }
    }
}

/// Whether `capability` names a capability that the policy permits.
pub fn policy_check(capability: String) -> (checked: Result<bool, TrustError>)
    ensures
        checked matches Ok(allowed) && allowed == is_allowed(capability@),
{
    Ok(Capability::parse(capability.as_str()).is_some())
}

/// No two capabilities share a name.
pub proof fn lemma_names_are_distinct(a: Capability, b: Capability)
    requires
        capability_name(a) == capability_name(b),
    ensures
        a == b,
{
    reveal_strlit("admin.unlock");
    reveal_strlit("admin.view_logs");
    reveal_strlit("user.create_profile");
    reveal_strlit("user.unlock_profile");
    reveal_strlit("consent.request");
    reveal_strlit("consent.verify");
    reveal_strlit("logs.append");
    reveal_strlit("logs.read");
    reveal_strlit("settings.write");
    let name_a = capability_name(a);
    let name_b = capability_name(b);
    assert(name_a.len() == name_b.len());
    assert(name_a[0] == name_b[0]);
    assert(name_a[5] == name_b[5]);
}

} // verus!
