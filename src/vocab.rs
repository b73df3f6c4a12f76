//! The closed vocabularies of a report, each with its canonical text.
use vstd::prelude::*;
use crate::text::same_text;

verus! {

/// Alignment mode of a published policy.
#[derive(Clone, Copy, Debug, PartialEq, Eq, Structural)]
pub enum AlignmentType {
    Relaxed,
    Strict,
}

/// The canonical text of each member of `AlignmentType`.
pub open spec fn alignment_text(v: AlignmentType) -> Seq<char> {
    match v {
        AlignmentType::Relaxed => "r"@,
        AlignmentType::Strict => "s"@,
    }
}

/// The member of `AlignmentType` whose canonical text is `s`, if any.
pub open spec fn alignment_of(s: Seq<char>) -> Option<AlignmentType> {
    if s == "r"@ {
        Some(AlignmentType::Relaxed)
    } else if s == "s"@ {
        Some(AlignmentType::Strict)
    } else {
        None
    }
}

impl AlignmentType {
    /// The canonical text of this member.
    pub fn as_str(&self) -> (r: &'static str)
        ensures
            r@ == alignment_text(*self),
    {
        match self {
            AlignmentType::Relaxed => "r",
            AlignmentType::Strict => "s",
        }
    }

    /// The member whose canonical text is `s`; any other text is refused.
    pub fn parse(s: &str) -> (r: Option<AlignmentType>)
        ensures
            r == alignment_of(s@),
    {
        if same_text(s, "r") {
            Some(AlignmentType::Relaxed)
        } else if same_text(s, "s") {
            Some(AlignmentType::Strict)
        } else {
            None
        }
    }
}

/// Action applied to mail that fails the policy.
#[derive(Clone, Copy, Debug, PartialEq, Eq, Structural)]
pub enum DispositionType {
    NoAction,
    Quarantine,
    Reject,
}

/// The canonical text of each member of `DispositionType`.
pub open spec fn disposition_text(v: DispositionType) -> Seq<char> {
    match v {
        DispositionType::NoAction => "none"@,
        DispositionType::Quarantine => "quarantine"@,
        DispositionType::Reject => "reject"@,
    }
}

/// The member of `DispositionType` whose canonical text is `s`, if any.
pub open spec fn disposition_of(s: Seq<char>) -> Option<DispositionType> {
    if s == "none"@ {
        Some(DispositionType::NoAction)
    } else if s == "quarantine"@ {
        Some(DispositionType::Quarantine)
    } else if s == "reject"@ {
        Some(DispositionType::Reject)
    } else {
        None
    }
}

impl DispositionType {
    /// The canonical text of this member.
    pub fn as_str(&self) -> (r: &'static str)
        ensures
            r@ == disposition_text(*self),
    {
        match self {
            DispositionType::NoAction => "none",
            DispositionType::Quarantine => "quarantine",
            DispositionType::Reject => "reject",
        }
    }

    /// The member whose canonical text is `s`; any other text is refused.
    pub fn parse(s: &str) -> (r: Option<DispositionType>)
        ensures
            r == disposition_of(s@),
    {
        if same_text(s, "none") {
            Some(DispositionType::NoAction)
        } else if same_text(s, "quarantine") {
            Some(DispositionType::Quarantine)
        } else if same_text(s, "reject") {
            Some(DispositionType::Reject)
        } else {
            None
        }
    }
}

/// Outcome of a policy evaluation for one mechanism.
#[derive(Clone, Copy, Debug, PartialEq, Eq, Structural)]
pub enum DMARCResultType {
    Pass,
    Fail,
}

/// The canonical text of each member of `DMARCResultType`.
pub open spec fn dmarc_result_text(v: DMARCResultType) -> Seq<char> {
    match v {
        DMARCResultType::Pass => "pass"@,
        DMARCResultType::Fail => "fail"@,
    }
}

/// The member of `DMARCResultType` whose canonical text is `s`, if any.
pub open spec fn dmarc_result_of(s: Seq<char>) -> Option<DMARCResultType> {
    if s == "pass"@ {
        Some(DMARCResultType::Pass)
    } else if s == "fail"@ {
        Some(DMARCResultType::Fail)
    } else {
        None
    }
}

impl DMARCResultType {
    /// The canonical text of this member.
    pub fn as_str(&self) -> (r: &'static str)
        ensures
            r@ == dmarc_result_text(*self),
    {
        match self {
            DMARCResultType::Pass => "pass",
            DMARCResultType::Fail => "fail",
        }
    }

    /// The member whose canonical text is `s`; any other text is refused.
    pub fn parse(s: &str) -> (r: Option<DMARCResultType>)
        ensures
            r == dmarc_result_of(s@),
    {
        if same_text(s, "pass") {
            Some(DMARCResultType::Pass)
        } else if same_text(s, "fail") {
            Some(DMARCResultType::Fail)
        } else {
            None
        }
    }
}

/// Why the published disposition was not applied.
#[derive(Clone, Copy, Debug, PartialEq, Eq, Structural)]
pub enum PolicyOverrideType {
    Forwarded,
    SampledOut,
    TrustedForwarder,
    MailingList,
    LocalPolicy,
    Other,
}

/// The canonical text of each member of `PolicyOverrideType`.
pub open spec fn policy_override_text(v: PolicyOverrideType) -> Seq<char> {
    match v {
        PolicyOverrideType::Forwarded => "forwarded"@,
        PolicyOverrideType::SampledOut => "sampled_out"@,
        PolicyOverrideType::TrustedForwarder => "trusted_forwarder"@,
        PolicyOverrideType::MailingList => "mailing_list"@,
        PolicyOverrideType::LocalPolicy => "local_policy"@,
        PolicyOverrideType::Other => "other"@,
    }
}

/// The member of `PolicyOverrideType` whose canonical text is `s`, if any.
pub open spec fn policy_override_of(s: Seq<char>) -> Option<PolicyOverrideType> {
    if s == "forwarded"@ {
        Some(PolicyOverrideType::Forwarded)
    } else if s == "sampled_out"@ {
        Some(PolicyOverrideType::SampledOut)
    } else if s == "trusted_forwarder"@ {
        Some(PolicyOverrideType::TrustedForwarder)
    } else if s == "mailing_list"@ {
        Some(PolicyOverrideType::MailingList)
    } else if s == "local_policy"@ {
        Some(PolicyOverrideType::LocalPolicy)
    } else if s == "other"@ {
        Some(PolicyOverrideType::Other)
    } else {
        None
    }
}

impl PolicyOverrideType {
    /// The canonical text of this member.
    pub fn as_str(&self) -> (r: &'static str)
        ensures
            r@ == policy_override_text(*self),
    {
        match self {
            PolicyOverrideType::Forwarded => "forwarded",
            PolicyOverrideType::SampledOut => "sampled_out",
            PolicyOverrideType::TrustedForwarder => "trusted_forwarder",
            PolicyOverrideType::MailingList => "mailing_list",
            PolicyOverrideType::LocalPolicy => "local_policy",
            PolicyOverrideType::Other => "other",
        }
    }

    /// The member whose canonical text is `s`; any other text is refused.
    pub fn parse(s: &str) -> (r: Option<PolicyOverrideType>)
        ensures
            r == policy_override_of(s@),
    {
        if same_text(s, "forwarded") {
            Some(PolicyOverrideType::Forwarded)
        } else if same_text(s, "sampled_out") {
            Some(PolicyOverrideType::SampledOut)
        } else if same_text(s, "trusted_forwarder") {
            Some(PolicyOverrideType::TrustedForwarder)
        } else if same_text(s, "mailing_list") {
            Some(PolicyOverrideType::MailingList)
        } else if same_text(s, "local_policy") {
            Some(PolicyOverrideType::LocalPolicy)
        } else if same_text(s, "other") {
            Some(PolicyOverrideType::Other)
        } else {
            None
        }
    }
}

/// Result of a DKIM signature check.
#[derive(Clone, Copy, Debug, PartialEq, Eq, Structural)]
pub enum DKIMResultType {
    NoResult,
    Pass,
    Fail,
    Policy,
    Neutral,
    TempError,
    PermError,
}

/// The canonical text of each member of `DKIMResultType`.
pub open spec fn dkim_result_text(v: DKIMResultType) -> Seq<char> {
    match v {
        DKIMResultType::NoResult => "none"@,
        DKIMResultType::Pass => "pass"@,
        DKIMResultType::Fail => "fail"@,
        DKIMResultType::Policy => "policy"@,
        DKIMResultType::Neutral => "neutral"@,
        DKIMResultType::TempError => "temperror"@,
        DKIMResultType::PermError => "permerror"@,
    }
}

/// The member of `DKIMResultType` whose canonical text is `s`, if any.
pub open spec fn dkim_result_of(s: Seq<char>) -> Option<DKIMResultType> {
    if s == "none"@ {
        Some(DKIMResultType::NoResult)
    } else if s == "pass"@ {
        Some(DKIMResultType::Pass)
    } else if s == "fail"@ {
        Some(DKIMResultType::Fail)
    } else if s == "policy"@ {
        Some(DKIMResultType::Policy)
    } else if s == "neutral"@ {
        Some(DKIMResultType::Neutral)
    } else if s == "temperror"@ {
        Some(DKIMResultType::TempError)
    } else if s == "permerror"@ {
        Some(DKIMResultType::PermError)
    } else {
        None
    }
}

impl DKIMResultType {
    /// The canonical text of this member.
    pub fn as_str(&self) -> (r: &'static str)
        ensures
            r@ == dkim_result_text(*self),
    {
        match self {
            DKIMResultType::NoResult => "none",
            DKIMResultType::Pass => "pass",
            DKIMResultType::Fail => "fail",
            DKIMResultType::Policy => "policy",
            DKIMResultType::Neutral => "neutral",
            DKIMResultType::TempError => "temperror",
            DKIMResultType::PermError => "permerror",
        }
    }

    /// The member whose canonical text is `s`; any other text is refused.
    pub fn parse(s: &str) -> (r: Option<DKIMResultType>)
        ensures
            r == dkim_result_of(s@),
    {
        if same_text(s, "none") {
            Some(DKIMResultType::NoResult)
        } else if same_text(s, "pass") {
            Some(DKIMResultType::Pass)
        } else if same_text(s, "fail") {
            Some(DKIMResultType::Fail)
        } else if same_text(s, "policy") {
            Some(DKIMResultType::Policy)
        } else if same_text(s, "neutral") {
            Some(DKIMResultType::Neutral)
        } else if same_text(s, "temperror") {
            Some(DKIMResultType::TempError)
        } else if same_text(s, "permerror") {
            Some(DKIMResultType::PermError)
        } else {
            None
        }
    }
}

/// Identity an SPF check was made on.
#[derive(Clone, Copy, Debug, PartialEq, Eq, Structural)]
pub enum SPFDomainScope {
    Helo,
    MFrom,
}

/// The canonical text of each member of `SPFDomainScope`.
pub open spec fn spf_scope_text(v: SPFDomainScope) -> Seq<char> {
    match v {
        SPFDomainScope::Helo => "helo"@,
        SPFDomainScope::MFrom => "mfrom"@,
    }
}

/// The member of `SPFDomainScope` whose canonical text is `s`, if any.
pub open spec fn spf_scope_of(s: Seq<char>) -> Option<SPFDomainScope> {
    if s == "helo"@ {
        Some(SPFDomainScope::Helo)
    } else if s == "mfrom"@ {
        Some(SPFDomainScope::MFrom)
    } else {
        None
    }
}

impl SPFDomainScope {
    /// The canonical text of this member.
    pub fn as_str(&self) -> (r: &'static str)
        ensures
            r@ == spf_scope_text(*self),
    {
        match self {
            SPFDomainScope::Helo => "helo",
            SPFDomainScope::MFrom => "mfrom",
        }
    }

    /// The member whose canonical text is `s`; any other text is refused.
    pub fn parse(s: &str) -> (r: Option<SPFDomainScope>)
        ensures
            r == spf_scope_of(s@),
    {
        if same_text(s, "helo") {
            Some(SPFDomainScope::Helo)
        } else if same_text(s, "mfrom") {
            Some(SPFDomainScope::MFrom)
        } else {
            None
        }
    }
}

/// Result of an SPF check.
#[derive(Clone, Copy, Debug, PartialEq, Eq, Structural)]
pub enum SPFResultType {
    NoResult,
    Neutral,
    Pass,
    Fail,
    SoftFail,
    TempError,
    PermError,
    Unknown,
    Error,
}

/// The canonical text of each member of `SPFResultType`.
pub open spec fn spf_result_text(v: SPFResultType) -> Seq<char> {
    match v {
        SPFResultType::NoResult => "none"@,
        SPFResultType::Neutral => "neutral"@,
        SPFResultType::Pass => "pass"@,
        SPFResultType::Fail => "fail"@,
        SPFResultType::SoftFail => "softfail"@,
        SPFResultType::TempError => "temperror"@,
        SPFResultType::PermError => "permerror"@,
        SPFResultType::Unknown => "unknown"@,
        SPFResultType::Error => "error"@,
    }
}

/// The member of `SPFResultType` whose canonical text is `s`, if any.
pub open spec fn spf_result_of(s: Seq<char>) -> Option<SPFResultType> {
    if s == "none"@ {
        Some(SPFResultType::NoResult)
    } else if s == "neutral"@ {
        Some(SPFResultType::Neutral)
    } else if s == "pass"@ {
        Some(SPFResultType::Pass)
    } else if s == "fail"@ {
        Some(SPFResultType::Fail)
    } else if s == "softfail"@ {
        Some(SPFResultType::SoftFail)
    } else if s == "temperror"@ {
        Some(SPFResultType::TempError)
    } else if s == "permerror"@ {
        Some(SPFResultType::PermError)
    } else if s == "unknown"@ {
        Some(SPFResultType::Unknown)
    } else if s == "error"@ {
        Some(SPFResultType::Error)
    } else {
        None
    }
}

impl SPFResultType {
    /// The canonical text of this member.
    pub fn as_str(&self) -> (r: &'static str)
        ensures
            r@ == spf_result_text(*self),
    {
        match self {
            SPFResultType::NoResult => "none",
            SPFResultType::Neutral => "neutral",
            SPFResultType::Pass => "pass",
            SPFResultType::Fail => "fail",
            SPFResultType::SoftFail => "softfail",
            SPFResultType::TempError => "temperror",
            SPFResultType::PermError => "permerror",
            SPFResultType::Unknown => "unknown",
            SPFResultType::Error => "error",
        }
    }

    /// The member whose canonical text is `s`; any other text is refused.
    pub fn parse(s: &str) -> (r: Option<SPFResultType>)
        ensures
            r == spf_result_of(s@),
    {
        if same_text(s, "none") {
            Some(SPFResultType::NoResult)
        } else if same_text(s, "neutral") {
            Some(SPFResultType::Neutral)
        } else if same_text(s, "pass") {
            Some(SPFResultType::Pass)
        } else if same_text(s, "fail") {
            Some(SPFResultType::Fail)
        } else if same_text(s, "softfail") {
            Some(SPFResultType::SoftFail)
        } else if same_text(s, "temperror") {
            Some(SPFResultType::TempError)
        } else if same_text(s, "permerror") {
            Some(SPFResultType::PermError)
        } else if same_text(s, "unknown") {
            Some(SPFResultType::Unknown)
        } else if same_text(s, "error") {
            Some(SPFResultType::Error)
        } else {
            None
        }
    }
}

} // verus!
